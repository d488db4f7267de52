//! Prints workspace names or completion candidates, one per line. By
//! default the current activity's named workspaces; with an activity, that
//! activity's (an unknown one is an error). With `--complete` it prints
//! `token\tdescription` rows for every workspace instead, the candidates of
//! the fish completion. Direct CLI only.

use vstd::prelude::*;
use crate::error::VerbErrorView;
use crate::invocation::texts;
use crate::niri::{
    ActivityRow, Query, WorkspaceRow, complete_line_text, complete_rows, complete_rows_in_activity, current_rows, first_named,
    focused_output, member_rows, named_names, on_output, parse_workspace_names,
    workspace_names_in_activity,
};
use crate::protocol::{EffectView, Event, Inventory, Step, StepView, after_fetch, after_print, ask_fetch, ask_print, done, fail, finish};
use crate::registry::VerbArgs;
use crate::snapshot::Snapshot;
use crate::verbs::{normalized, queries, supplied};

verus! {

/// The payloads the listing reads: the activities only for a named
/// activity, the windows only for completion rows.
pub open spec fn listing_queries(scoped: bool, complete: bool) -> Seq<Query> {
    seq![Query::Workspaces] + (if scoped {
        seq![Query::Activities]
    } else {
        seq![]
    }) + (if complete {
        seq![Query::Windows]
    } else {
        seq![]
    })
}

/// The lines listed, or why there are none.
pub open spec fn listing(inv: Inventory, act: Option<Seq<char>>, complete: bool) -> Result<Seq<Seq<char>>, VerbErrorView> {
    let ws = inv.workspaces@;
    match act {
        None => if complete {
            Ok(
                Seq::new(
                    current_rows(ws).len(),
                    |i: int|
                        complete_line_text(
                            current_rows(ws)[i],
                            inv.windows@,
                            !on_output(current_rows(ws)[i], focused_output(ws)),
                        ),
                ),
            )
        } else {
            Ok(named_names(current_rows(ws)))
        },
        Some(n) => match first_named(inv.activities@, n) {
            None => Err(VerbErrorView::UnknownActivity(n)),
            Some(k) => {
                let m = member_rows(ws, inv.activities@[k].id);
                if complete {
                    Ok(Seq::new(m.len(), |i: int| complete_line_text(m[i], inv.windows@, true)))
                } else {
                    Ok(named_names(m))
                }
            },
        },
    }
}

/// Each line followed by a newline.
pub open spec fn terminated(ls: Seq<Seq<char>>) -> Seq<char>
    decreases ls.len(),
{
    if ls.len() == 0 {
        seq![]
    } else {
        terminated(ls.drop_last()) + ls.last() + "\n"@
    }
}

/// The lines, each followed by a newline.
pub fn terminated_text(lines: &Vec<String>) -> (s: String)
    ensures
        s@ == terminated(texts(lines@)),
{
    let ghost t = texts(lines@);
    let mut s = String::new();
    let mut i: usize = 0;
    while i < lines.len()
        invariant
            t == texts(lines@),
            i <= lines@.len(),
            s@ == terminated(t.take(i as int)),
        decreases lines@.len() - i,
    {
        assert(t.take(i + 1).drop_last() =~= t.take(i as int));
        assert(t.take(i + 1).last() == lines@[i as int]@);
        s.append(lines[i].as_str());
        s.append("\n");
        i = i + 1;
        assert(s@ =~= terminated(t.take(i as int)));
    }
    assert(t.take(lines@.len() as int) =~= t);
    s
}

/// What the verb does, given the answers so far.
pub open spec fn behaviour(snapshot: Snapshot, args: VerbArgs, a: Seq<Event>) -> StepView {
    let act = supplied(args.first);
    after_fetch(
        a,
        0,
        listing_queries(act is Some, args.complete),
        |inv: Inventory|
            match listing(inv, act, args.complete) {
                Err(e) => fail(e),
                Ok(ls) => after_print(a, 1, terminated(ls), done()),
            },
    )
}

/// The verb's next step.
pub fn run(snapshot: &Snapshot, args: &VerbArgs, answers: &Vec<Event>) -> (s: Step)
    ensures
        s@ == behaviour(*snapshot, *args, answers@),
{
    let act = normalized(&args.first);
    let q = queries(
        Query::Workspaces,
        if act.is_some() { Some(Query::Activities) } else { None },
        if args.complete { Some(Query::Windows) } else { None },
    );
    assert(q@ =~= listing_queries(supplied(args.first) is Some, args.complete));
    let inv = match ask_fetch(answers, 0, q) {
        Ok(inv) => inv,
        Err(s) => return s,
    };
    let ghost expected = listing(*inv, supplied(args.first), args.complete);
    let lines = match &act {
        None => if args.complete {
            let v = complete_rows(&inv.workspaces, &inv.windows);
            assert(texts(v@) =~= expected->Ok_0);
            v
        } else {
            parse_workspace_names(&inv.workspaces)
        },
        Some(n) => if args.complete {
            match complete_rows_in_activity(&inv.workspaces, &inv.activities, &inv.windows, n.as_str()) {
                Ok(v) => {
                    assert(texts(v@) =~= expected->Ok_0);
                    v
                },
                Err(e) => return finish(Err(e)),
            }
        } else {
            match workspace_names_in_activity(&inv.workspaces, &inv.activities, n.as_str()) {
                Ok(v) => v,
                Err(e) => return finish(Err(e)),
            }
        },
    };
    match ask_print(answers, 1, terminated_text(&lines)) {
        Some(s) => s,
        None => finish(Ok(())),
    }
}

/// The activity searched by name is the first one bearing it.
proof fn lemma_first_named_is(acts: Seq<ActivityRow>, n: Seq<char>, k: int)
    requires
        0 <= k < acts.len(),
        acts[k].name@ == n,
        forall|j: int| 0 <= j < k ==> (#[trigger] acts[j]).name@ != n,
    ensures
        first_named(acts, n) == Some(k),
    decreases k,
{
    if k > 0 {
        let t = acts.drop_first();
        assert forall|j: int| 0 <= j < k - 1 implies (#[trigger] t[j]).name@ != n by {
            assert(t[j] == acts[j + 1]);
        }
        lemma_first_named_is(t, n, k - 1);
        assert(acts[0].name@ != n);
    }
}

/// Listing an activity's workspaces (without `--complete`) prints, one per
/// line and in inventory order, the names of the named workspaces that
/// belong to that activity, whichever activity is current.
pub proof fn law_scoped_listing_prints_the_activity_workspaces(
    snapshot: Snapshot,
    args: VerbArgs,
    inv: Inventory,
    k: int,
)
    requires
        !args.complete,
        supplied(args.first) matches Some(n) && {
            &&& 0 <= k < inv.activities@.len()
            &&& inv.activities@[k].name@ == n
            &&& forall|j: int| 0 <= j < k ==> (#[trigger] inv.activities@[j]).name@ != n
        },
    ensures
        behaviour(snapshot, args, seq![Event::Fetched(inv)]) == StepView::Perform(
            EffectView::Print(
                terminated(
                    named_names(
                        inv.workspaces@.filter(
                            |w: WorkspaceRow| w.activities@.contains(inv.activities@[k].id),
                        ),
                    ),
                ),
            ),
        ),
{
    let n = supplied(args.first)->0;
    lemma_first_named_is(inv.activities@, n, k);
}

/// Naming an activity that no activity bears is an error, whatever the
/// workspaces.
pub proof fn law_unknown_activity_fails(snapshot: Snapshot, args: VerbArgs, inv: Inventory)
    requires
        supplied(args.first) matches Some(n)
            && forall|j: int| 0 <= j < inv.activities@.len() ==> (#[trigger] inv.activities@[j]).name@ != n,
    ensures
        behaviour(snapshot, args, seq![Event::Fetched(inv)]) == StepView::Finish(
            Err(VerbErrorView::UnknownActivity(supplied(args.first)->0)),
        ),
{
    let n = supplied(args.first)->0;
    let acts = inv.activities@;
    if let Some(k) = first_named(acts, n) {
        lemma_first_named_is_some(acts, n);
    }
}

proof fn lemma_first_named_is_some(acts: Seq<ActivityRow>, n: Seq<char>)
    ensures
        first_named(acts, n) matches Some(k) ==> 0 <= k < acts.len() && acts[k].name@ == n,
    decreases acts.len(),
{
    if acts.len() > 0 {
        lemma_first_named_is_some(acts.drop_first(), n);
    }
}

/// Without an activity (and without `--complete`) the listing prints the
/// names of the named workspaces of the current activity — every workspace
/// on a compositor without activities — one per line, in inventory order.
pub proof fn law_unscoped_listing_prints_current_workspaces(snapshot: Snapshot, args: VerbArgs, inv: Inventory)
    requires
        !args.complete,
        supplied(args.first) is None,
    ensures
        behaviour(snapshot, args, seq![Event::Fetched(inv)]) == StepView::Perform(
            EffectView::Print(
                terminated(
                    named_names(
                        inv.workspaces@.filter(|w: WorkspaceRow| w.is_in_active_activity != Some(false)),
                    ),
                ),
            ),
        ),
{
    assert(current_rows(inv.workspaces@) == inv.workspaces@.filter(
        |w: WorkspaceRow| w.is_in_active_activity != Some(false),
    )) by {
        assert((|r: WorkspaceRow| crate::niri::in_current_activity(r)) =~= (|w: WorkspaceRow|
            w.is_in_active_activity != Some(false)));
    }
}

} // verus!
