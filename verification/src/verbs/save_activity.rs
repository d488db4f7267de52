//! Saves an activity's layout through `jiji-activities save <name>`. A
//! supplied name saves under that name, focused activity or not; without
//! one, the activity focused at launch is saved, and without such an
//! activity the verb stops before anything runs.

use vstd::prelude::*;
use crate::error::{VerbError, VerbErrorView};
use crate::invocation::activities_call;
use crate::protocol::{Event, Step, StepView, fail, finish, opt_text};
use crate::registry::VerbArgs;
use crate::snapshot::Snapshot;
use crate::verbs::{activities_with, normalized, once, opt_arg, run_once, supplied};

verus! {

/// What the verb does, given the answers so far.
pub open spec fn behaviour(snapshot: Snapshot, args: VerbArgs, a: Seq<Event>) -> StepView {
    match supplied(args.first) {
        Some(n) => once(a, activities_call(seq!["save"@, n])),
        None => match snapshot.focused_activity {
            Some(act) => once(a, activities_call(seq!["save"@, act@])),
            None => fail(VerbErrorView::NoFocusedActivity),
        },
    }
}

/// The verb's next step.
pub fn run(snapshot: &Snapshot, args: &VerbArgs, answers: &Vec<Event>) -> (s: Step)
    ensures
        s@ == behaviour(*snapshot, *args, answers@),
{
    let name = match normalized(&args.first) {
        Some(n) => n,
        None => match &snapshot.focused_activity {
            Some(act) => act.clone(),
            None => return finish(Err(VerbError::NoFocusedActivity)),
        },
    };
    assert(seq!["save"@] + opt_arg(Some(name@)) + opt_arg(opt_text(None::<String>)) =~= seq![
        "save"@,
        name@,
    ]);
    run_once(answers, activities_with("save", Some(name), None))
}

} // verus!
