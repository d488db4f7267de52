//! Removes an activity through `jiji-activities remove <name>`. A supplied
//! name skips the picker; otherwise the activities are read when the verb
//! runs and offered most recently used first, the picked name is removed,
//! and an empty inventory stops the verb before the picker opens.

use vstd::prelude::*;
use crate::error::{VerbError, VerbErrorView};
use crate::invocation::{activities_call, owned};
use crate::niri::Query;
use crate::protocol::{
    Event, Inventory, Step, StepView, after_fetch, after_pick, after_run, ask_fetch, ask_pick,
    ask_run, done, fail, finish, opt_text,
};
use crate::registry::VerbArgs;
use crate::snapshot::Snapshot;
use crate::verbs::{activities_with, normalized, once, opt_arg, queries, run_once, supplied};
use crate::niri::{activity_names_mru, mru_names};

verus! {

/// What the verb does, given the answers so far.
pub open spec fn behaviour(snapshot: Snapshot, args: VerbArgs, a: Seq<Event>) -> StepView {
    match supplied(args.first) {
        Some(n) => once(a, activities_call(seq!["remove"@, n])),
        None => after_fetch(
            a,
            0,
            seq![Query::Activities],
            |inv: Inventory|
                {
                    let names = mru_names(inv.activities@);
                    if names.len() == 0 {
                        fail(VerbErrorView::NoActivitiesToRemove)
                    } else {
                        after_pick(
                            a,
                            1,
                            "Remove activity: "@,
                            names,
                            |l: Seq<char>| after_run(a, 2, activities_call(seq!["remove"@, l]), done()),
                        )
                    }
                },
        ),
    }
}

/// The verb's next step.
pub fn run(snapshot: &Snapshot, args: &VerbArgs, answers: &Vec<Event>) -> (s: Step)
    ensures
        s@ == behaviour(*snapshot, *args, answers@),
{
    match normalized(&args.first) {
        Some(n) => {
            assert(seq!["remove"@] + opt_arg(Some(n@)) + opt_arg(opt_text(None::<String>)) =~= seq![
                "remove"@,
                n@,
            ]);
            return run_once(answers, activities_with("remove", Some(n), None));
        },
        None => {},
    }
    let inv = match ask_fetch(answers, 0, queries(Query::Activities, None, None)) {
        Ok(inv) => inv,
        Err(s) => return s,
    };
    let names = activity_names_mru(&inv.activities);
    if names.len() == 0 {
        return finish(Err(VerbError::NoActivitiesToRemove));
    }
    let l = match ask_pick(answers, 1, owned("Remove activity: "), names) {
        Ok(l) => l,
        Err(s) => return s,
    };
    assert(seq!["remove"@] + opt_arg(Some(l@)) + opt_arg(opt_text(None::<String>)) =~= seq![
        "remove"@,
        l@,
    ]);
    match ask_run(answers, 2, activities_with("remove", Some(l.clone()), None)) {
        Some(s) => s,
        None => finish(Ok(())),
    }
}

} // verus!
