//! Focuses a workspace: the supplied reference (a name, per-monitor index or
//! `id:N`, forwarded verbatim for the compositor to resolve), or else the one
//! picked among the current activity's workspaces, addressed by name or
//! per-monitor index.

use vstd::prelude::*;
use crate::error::VerbErrorView;
use crate::invocation::owned;
use crate::menu::{first_match, label_list, labels_of, lemma_first_match, resolve_by_label};
use crate::niri::{Query, action_call};
use crate::protocol::{
    EffectView, Event, Inventory, Step, StepView, after_fetch, after_pick, after_run, ask_fetch, ask_pick,
    ask_run, done, fail, finish,
};
use crate::registry::VerbArgs;
use crate::snapshot::Snapshot;
use crate::text::decimal;
use crate::verbs::{normalized, once, queries, run_once, supplied};
use crate::niri::{UserWorkspaceRef, WorkspaceRow, current_rows, focus_reference_text, focus_workspace, focus_workspace_typed, workspace_choices, workspace_label};

verus! {

/// What the verb does, given the answers so far.
pub open spec fn behaviour(snapshot: Snapshot, args: VerbArgs, a: Seq<Event>) -> StepView {
    match supplied(args.first) {
        Some(r) => once(a, action_call(seq!["focus-workspace"@, r])),
        None => after_fetch(
            a,
            0,
            seq![Query::Workspaces],
            |inv: Inventory|
                {
                    let cur = current_rows(inv.workspaces@);
                    let labels = Seq::new(
                        cur.len(),
                        |i: int| workspace_label(cur[i].name, cur[i].output, cur[i].id),
                    );
                    after_pick(
                        a,
                        1,
                        "Switch to workspace: "@,
                        labels,
                        |l: Seq<char>|
                            match first_match(labels, l) {
                                None => fail(VerbErrorView::UnknownLabel(l)),
                                Some(i) => after_run(
                                    a,
                                    2,
                                    action_call(
                                        seq!["focus-workspace"@, focus_reference_text(cur[i].name, cur[i].idx)],
                                    ),
                                    done(),
                                ),
                            },
                    )
                },
        ),
    }
}

/// The verb's next step.
pub fn run(snapshot: &Snapshot, args: &VerbArgs, answers: &Vec<Event>) -> (s: Step)
    ensures
        s@ == behaviour(*snapshot, *args, answers@),
{
    match normalized(&args.first) {
        Some(r) => {
            let typed = UserWorkspaceRef::from_cli(r);
            return run_once(answers, focus_workspace_typed(&typed));
        },
        None => {},
    }
    let inv = match ask_fetch(answers, 0, queries(Query::Workspaces, None, None)) {
        Ok(inv) => inv,
        Err(s) => return s,
    };
    let choices = workspace_choices(&inv.workspaces);
    let ghost cur = current_rows(inv.workspaces@);
    let ghost labels = Seq::new(cur.len(), |i: int| workspace_label(cur[i].name, cur[i].output, cur[i].id));
    let items = label_list(&choices);
    assert forall|i: int| 0 <= i < choices@.len() implies labels_of(choices@)[i] == labels[i] by {
        assert(choices@[i].shows(cur[i]));
    }
    assert(labels_of(choices@) =~= labels);
    let l = match ask_pick(answers, 1, owned("Switch to workspace: "), items) {
        Ok(l) => l,
        Err(s) => return s,
    };
    let c = match resolve_by_label(&choices, l.as_str()) {
        Ok(c) => c,
        Err(e) => return finish(Err(e)),
    };
    proof {
        lemma_first_match(labels, l@);
    }
    let ghost k = first_match(labels, l@)->0;
    assert(c.shows(cur[k]));
    let act = focus_workspace(&c.focus_reference());
    assert(behaviour(*snapshot, *args, answers@) == after_run(answers@, 2, act@, done()));
    match ask_run(answers, 2, act) {
        Some(s) => s,
        None => finish(Ok(())),
    }
}

/// The workspaces the picker offers: those of the current activity (all of
/// them on a compositor without activities), in inventory order.
pub open spec fn offered_rows(inv: Inventory) -> Seq<WorkspaceRow> {
    inv.workspaces@.filter(|w: WorkspaceRow| w.is_in_active_activity != Some(false))
}

/// Without a supplied reference, picking a label focuses the first
/// current-activity workspace shown under it: by its name when it has one
/// (names are global), else by its per-monitor index.
pub proof fn law_pick_focuses_picked_workspace(
    snapshot: Snapshot,
    args: VerbArgs,
    inv: Inventory,
    l: String,
    i: int,
)
    requires
        supplied(args.first) is None,
        0 <= i < offered_rows(inv).len(),
        workspace_label(offered_rows(inv)[i].name, offered_rows(inv)[i].output, offered_rows(inv)[i].id) == l@,
        forall|j: int| 0 <= j < i ==> workspace_label(
            #[trigger] offered_rows(inv)[j].name,
            offered_rows(inv)[j].output,
            offered_rows(inv)[j].id,
        ) != l@,
    ensures
        ({
            let row = offered_rows(inv)[i];
            let r = behaviour(snapshot, args, seq![Event::Fetched(inv), Event::Picked(Some(l))]);
            &&& row.name matches Some(n) ==> r == StepView::Perform(
                EffectView::Run(action_call(seq!["focus-workspace"@, n@])),
            )
            &&& row.name is None ==> r == StepView::Perform(
                EffectView::Run(action_call(seq!["focus-workspace"@, decimal(row.idx as nat)])),
            )
        }),
{
    let cur = current_rows(inv.workspaces@);
    assert(cur == offered_rows(inv)) by {
        assert((|r: WorkspaceRow| crate::niri::in_current_activity(r)) =~= (|w: WorkspaceRow|
            w.is_in_active_activity != Some(false)));
    }
    let labels = Seq::new(cur.len(), |j: int| workspace_label(cur[j].name, cur[j].output, cur[j].id));
    lemma_first_match(labels, l@);
    assert(labels[i] == l@);
    if let Some(k) = first_match(labels, l@) {
        if k < i {
            assert(labels[k] != l@);
        }
        assert(k == i);
    }
}

/// A supplied reference is forwarded verbatim (trimmed) for the compositor
/// to resolve: `focus-workspace <reference>`, with no picker.
pub proof fn law_supplied_reference_is_forwarded(snapshot: Snapshot, args: VerbArgs)
    ensures
        supplied(args.first) matches Some(r) ==> behaviour(snapshot, args, seq![]) == StepView::Perform(
            EffectView::Run(action_call(seq!["focus-workspace"@, r])),
        ),
{
}

} // verus!
