//! Toggles to the previously active activity (`jiji-activities
//! switch-previous`). No picker.

use vstd::prelude::*;
use crate::invocation::activities_call;
use crate::protocol::{Event, Step, StepView};
use crate::registry::VerbArgs;
use crate::snapshot::Snapshot;
use crate::verbs::{once, run_once, activities_with, opt_arg};
use crate::protocol::opt_text;

verus! {

/// What the verb does, given the answers so far.
pub open spec fn behaviour(snapshot: Snapshot, args: VerbArgs, a: Seq<Event>) -> StepView {
    once(a, activities_call(seq!["switch-previous"@]))
}

/// The verb's next step.
pub fn run(snapshot: &Snapshot, args: &VerbArgs, answers: &Vec<Event>) -> (s: Step)
    ensures
        s@ == behaviour(*snapshot, *args, answers@),
{
    assert(seq!["switch-previous"@] + opt_arg(opt_text(None::<String>)) + opt_arg(opt_text(None::<String>)) =~= seq!["switch-previous"@]);
    run_once(answers, activities_with("switch-previous", None, None))
}

} // verus!
