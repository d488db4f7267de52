//! Switches activity through `jiji-activities switch [<name>]`. A supplied
//! name is forwarded, skipping the `jiji-activities` picker; a blank one is
//! treated as absent.

use vstd::prelude::*;
use crate::invocation::activities_call;
use crate::protocol::{Event, Step, StepView, opt_text};
use crate::registry::VerbArgs;
use crate::snapshot::Snapshot;
use crate::verbs::{activities_with, normalized, once, opt_arg, run_once, supplied};

verus! {

/// What the verb does, given the answers so far.
pub open spec fn behaviour(snapshot: Snapshot, args: VerbArgs, a: Seq<Event>) -> StepView {
    once(a, activities_call(seq!["switch"@] + opt_arg(supplied(args.first))))
}

/// The verb's next step.
pub fn run(snapshot: &Snapshot, args: &VerbArgs, answers: &Vec<Event>) -> (s: Step)
    ensures
        s@ == behaviour(*snapshot, *args, answers@),
{
    let name = normalized(&args.first);
    assert(seq!["switch"@] + opt_arg(opt_text(name)) + opt_arg(opt_text(None::<String>)) =~= seq![
        "switch"@,
    ] + opt_arg(supplied(args.first)));
    run_once(answers, activities_with("switch", name, None))
}

} // verus!
