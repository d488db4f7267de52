//! Jumps to any workspace across activities: with both an activity and a
//! workspace reference supplied it dispatches directly (the reference
//! forwarded verbatim); otherwise it offers one row per (activity,
//! workspace) membership — only the supplied activity's rows when one is
//! given — and lands in the picked row's activity. An empty (or filtered
//! empty) inventory stops the verb before the picker opens; an unknown
//! activity name lands there too, as it matches no row.

use vstd::prelude::*;
use crate::error::{VerbError, VerbErrorView};
use crate::invocation::owned;
use crate::menu::{first_match, label_list, labels_of, lemma_first_match, resolve_by_label};
use crate::niri::{
    ActivityName, ActivityRow, AllWorkspaceRow, Query, WorkspaceRow, action_call, all_workspace_rows,
    focus_workspace_in_activity, group_indices, membership_label, memberships,
};
use crate::order::{lemma_filter_step, lemma_take_all};
use crate::protocol::{
    EffectView, Event, Inventory, Step, StepView, after_fetch, after_pick, after_run, ask_fetch, ask_pick, ask_run,
    done, fail, finish,
};
use crate::registry::VerbArgs;
use crate::snapshot::Snapshot;
use crate::text::{decimal, push_decimal, str_eq};
use crate::verbs::{normalized, once, queries, run_once, supplied};

verus! {

/// The membership belongs to the activity named `n`.
pub open spec fn of_activity(m: (ActivityRow, WorkspaceRow), n: Seq<char>) -> bool {
    m.0.name@ == n
}

/// The memberships offered: all of them, or the named activity's.
pub open spec fn offered(ms: Seq<(ActivityRow, WorkspaceRow)>, act: Option<Seq<char>>) -> Seq<(ActivityRow, WorkspaceRow)> {
    match act {
        Some(n) => ms.filter(|m: (ActivityRow, WorkspaceRow)| of_activity(m, n)),
        None => ms,
    }
}

/// The picker prompt.
pub open spec fn all_prompt(act: Option<Seq<char>>) -> Seq<char> {
    match act {
        Some(n) => "Switch to workspace ("@ + n + "): "@,
        None => "Switch to workspace (all activities): "@,
    }
}

/// What the verb does, given the answers so far.
pub open spec fn behaviour(snapshot: Snapshot, args: VerbArgs, a: Seq<Event>) -> StepView {
    let act = supplied(args.first);
    let ws = supplied(args.second);
    if act is Some && ws is Some {
        once(a, action_call(seq!["focus-workspace"@, "--activity"@, act->0, ws->0]))
    } else {
        after_fetch(
            a,
            0,
            seq![Query::Workspaces, Query::Activities],
            |inv: Inventory|
                {
                    let rows = offered(
                        memberships(inv.activities@, inv.workspaces@, group_indices(inv.activities@)),
                        act,
                    );
                    let labels = Seq::new(rows.len(), |i: int| membership_label(rows[i].0, rows[i].1));
                    if rows.len() == 0 {
                        fail(
                            match act {
                                Some(n) => VerbErrorView::NoWorkspacesInActivity(n),
                                None => VerbErrorView::NoWorkspaces,
                            },
                        )
                    } else {
                        after_pick(
                            a,
                            1,
                            all_prompt(act),
                            labels,
                            |l: Seq<char>|
                                match first_match(labels, l) {
                                    None => fail(VerbErrorView::UnknownLabel(l)),
                                    Some(i) => after_run(
                                        a,
                                        2,
                                        action_call(
                                            seq![
                                                "focus-workspace"@,
                                                "--activity"@,
                                                rows[i].0.name@,
                                                "id:"@ + decimal(rows[i].1.id as nat),
                                            ],
                                        ),
                                        done(),
                                    ),
                                },
                        )
                    }
                },
        )
    }
}

/// A copy of a picker row.
fn copy_row(r: &AllWorkspaceRow) -> (c: AllWorkspaceRow)
    ensures
        c.activity_name@ == r.activity_name@,
        c.ws_id == r.ws_id,
        c.label@ == r.label@,
{
    AllWorkspaceRow { activity_name: r.activity_name.clone(), ws_id: r.ws_id, label: r.label.clone() }
}

/// The verb's next step.
pub fn run(snapshot: &Snapshot, args: &VerbArgs, answers: &Vec<Event>) -> (s: Step)
    ensures
        s@ == behaviour(*snapshot, *args, answers@),
{
    let act = normalized(&args.first);
    let ws = normalized(&args.second);
    match (&act, &ws) {
        (Some(n), Some(w)) => {
            let name = ActivityName::new(n.clone());
            return run_once(answers, focus_workspace_in_activity(&name, w.as_str()));
        },
        _ => {},
    }
    let ghost gact = supplied(args.first);
    assert(!(supplied(args.first) is Some && supplied(args.second) is Some));
    let q = queries(Query::Workspaces, Some(Query::Activities), None);
    assert(q@ =~= seq![Query::Workspaces, Query::Activities]);
    let inv = match ask_fetch(answers, 0, q) {
        Ok(inv) => inv,
        Err(s) => return s,
    };
    let all = all_workspace_rows(&inv.workspaces, &inv.activities);
    let ghost ms = memberships(inv.activities@, inv.workspaces@, group_indices(inv.activities@));
    let ghost rows = offered(ms, gact);
    let ghost labels = Seq::new(rows.len(), |i: int| membership_label(rows[i].0, rows[i].1));
    let mut kept: Vec<AllWorkspaceRow> = Vec::new();
    let mut j: usize = 0;
    while j < all.len()
        invariant
            all@.len() == ms.len(),
            forall|i: int| 0 <= i < all@.len() ==> #[trigger] all@[i].shows(ms[i].0, ms[i].1),
            j <= all@.len(),
            opt_text_is(act, gact),
            kept@.len() == offered(ms.take(j as int), gact).len(),
            forall|i: int| 0 <= i < kept@.len() ==> #[trigger] kept@[i].shows(
                offered(ms.take(j as int), gact)[i].0,
                offered(ms.take(j as int), gact)[i].1,
            ),
        decreases all@.len() - j,
    {
        assert(all@[j as int].shows(ms[j as int].0, ms[j as int].1));
        match &act {
            Some(n) => {
                proof {
                    lemma_filter_step(ms, |m: (ActivityRow, WorkspaceRow)| of_activity(m, n@), j as int);
                }
                if str_eq(all[j].activity_name.as_str(), n.as_str()) {
                    kept.push(copy_row(&all[j]));
                }
            },
            None => {
                assert(ms.take(j + 1) =~= ms.take(j as int).push(ms[j as int]));
                kept.push(copy_row(&all[j]));
            },
        }
        j = j + 1;
    }
    proof {
        lemma_take_all(ms);
    }
    if kept.len() == 0 {
        return match act {
            Some(n) => finish(Err(VerbError::NoWorkspacesInActivity(n))),
            None => finish(Err(VerbError::NoWorkspaces)),
        };
    }
    let items = label_list(&kept);
    assert forall|i: int| 0 <= i < kept@.len() implies labels_of(kept@)[i] == labels[i] by {
        assert(kept@[i].shows(rows[i].0, rows[i].1));
    }
    assert(labels_of(kept@) =~= labels);
    let prompt = match &act {
        Some(n) => {
            let mut p = owned("Switch to workspace (");
            p.append(n.as_str());
            p.append("): ");
            p
        },
        None => owned("Switch to workspace (all activities): "),
    };
    assert(prompt@ =~= all_prompt(gact));
    let l = match ask_pick(answers, 1, prompt, items) {
        Ok(l) => l,
        Err(s) => return s,
    };
    let row = match resolve_by_label(&kept, l.as_str()) {
        Ok(r) => r,
        Err(e) => return finish(Err(e)),
    };
    proof {
        lemma_first_match(labels, l@);
    }
    let ghost k = first_match(labels, l@)->0;
    assert(row.shows(rows[k].0, rows[k].1));
    let mut reference = owned("id:");
    push_decimal(&mut reference, row.ws_id);
    let name = ActivityName::new(row.activity_name.clone());
    let act_run = focus_workspace_in_activity(&name, reference.as_str());
    assert(behaviour(*snapshot, *args, answers@) == after_run(answers@, 2, act_run@, done()));
    match ask_run(answers, 2, act_run) {
        Some(s) => s,
        None => finish(Ok(())),
    }
}

/// The exec argument carries the text of the spec argument.
pub open spec fn opt_text_is(o: Option<String>, t: Option<Seq<char>>) -> bool {
    crate::protocol::opt_text(o) == t
}

/// With both an activity and a workspace supplied, the verb focuses that
/// workspace in that activity at once, with no picker.
pub proof fn law_supplied_pair_is_forwarded(snapshot: Snapshot, args: VerbArgs)
    ensures
        supplied(args.first) matches Some(act) ==> (supplied(args.second) matches Some(ws) ==> behaviour(
            snapshot,
            args,
            seq![],
        ) == StepView::Perform(
            EffectView::Run(action_call(seq!["focus-workspace"@, "--activity"@, act, ws])),
        )),
{
}

/// A pick focuses the workspace shown under the picked label, addressed by
/// its stable id inside its activity: `focus-workspace --activity <name>
/// id:<id>` for an offered membership bearing that label.
pub proof fn law_pick_focuses_picked_membership(
    snapshot: Snapshot,
    args: VerbArgs,
    inv: Inventory,
    l: String,
    j: int,
)
    requires
        !(supplied(args.first) is Some && supplied(args.second) is Some),
        ({
            let rows = offered(
                memberships(inv.activities@, inv.workspaces@, group_indices(inv.activities@)),
                supplied(args.first),
            );
            0 <= j < rows.len() && membership_label(rows[j].0, rows[j].1) == l@
        }),
    ensures
        ({
            let rows = offered(
                memberships(inv.activities@, inv.workspaces@, group_indices(inv.activities@)),
                supplied(args.first),
            );
            exists|k: int|
                #![trigger rows[k]]
                0 <= k < rows.len() && membership_label(rows[k].0, rows[k].1) == l@
                    && behaviour(snapshot, args, seq![Event::Fetched(inv), Event::Picked(Some(l))])
                    == StepView::Perform(
                    EffectView::Run(
                        action_call(
                            seq![
                                "focus-workspace"@,
                                "--activity"@,
                                rows[k].0.name@,
                                "id:"@ + decimal(rows[k].1.id as nat),
                            ],
                        ),
                    ),
                )
        }),
{
    let rows = offered(
        memberships(inv.activities@, inv.workspaces@, group_indices(inv.activities@)),
        supplied(args.first),
    );
    let labels = Seq::new(rows.len(), |i: int| membership_label(rows[i].0, rows[i].1));
    assert(labels[j] == l@);
    lemma_first_match(labels, l@);
    let k = first_match(labels, l@)->0;
    assert(labels[k] == l@);
    assert(rows[k] == rows[k]);
}

} // verus!
