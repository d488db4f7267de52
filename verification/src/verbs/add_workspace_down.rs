//! Inserts a new workspace below the current one and focuses it (`niri msg
//! action add-workspace-down`, fork only). The compositor prunes it on the
//! next focus change if it is left empty and unnamed.

use vstd::prelude::*;
use crate::niri::{action_call, run_action};
use crate::protocol::{Event, Step, StepView};
use crate::registry::VerbArgs;
use crate::snapshot::Snapshot;
use crate::verbs::{once, run_once};

verus! {

/// What the verb does, given the answers so far.
pub open spec fn behaviour(snapshot: Snapshot, args: VerbArgs, a: Seq<Event>) -> StepView {
    once(a, action_call(seq!["add-workspace-down"@]))
}

/// The verb's next step.
pub fn run(snapshot: &Snapshot, args: &VerbArgs, answers: &Vec<Event>) -> (s: Step)
    ensures
        s@ == behaviour(*snapshot, *args, answers@),
{
    run_once(answers, run_action("add-workspace-down"))
}

} // verus!
