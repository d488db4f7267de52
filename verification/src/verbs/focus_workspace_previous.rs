//! Focuses the previously active workspace (`niri msg action
//! focus-workspace-previous`). Immediate: no picker.

use vstd::prelude::*;
use crate::niri::{action_call, run_action};
use crate::protocol::{Event, Step, StepView};
use crate::registry::VerbArgs;
use crate::snapshot::Snapshot;
use crate::verbs::{once, run_once};

verus! {

/// What the verb does, given the answers so far.
pub open spec fn behaviour(snapshot: Snapshot, args: VerbArgs, a: Seq<Event>) -> StepView {
    once(a, action_call(seq!["focus-workspace-previous"@]))
}

/// The verb's next step.
pub fn run(snapshot: &Snapshot, args: &VerbArgs, answers: &Vec<Event>) -> (s: Step)
    ensures
        s@ == behaviour(*snapshot, *args, answers@),
{
    run_once(answers, run_action("focus-workspace-previous"))
}

} // verus!
