//! Picks a monitor and focuses it. With no outputs it stops before the
//! picker opens (a data condition, not a capability miss).

use vstd::prelude::*;
use crate::protocol::{Event, Step, StepView};
use crate::registry::VerbArgs;
use crate::snapshot::Snapshot;
use crate::verbs::{monitor_flow, monitor_step};

verus! {

/// What the verb does, given the answers so far.
pub open spec fn behaviour(snapshot: Snapshot, args: VerbArgs, a: Seq<Event>) -> StepView {
    monitor_flow(a, "Focus monitor: "@, "focus-monitor"@)
}

/// The verb's next step.
pub fn run(snapshot: &Snapshot, args: &VerbArgs, answers: &Vec<Event>) -> (s: Step)
    ensures
        s@ == behaviour(*snapshot, *args, answers@),
{
    monitor_step(answers, crate::invocation::owned("Focus monitor: "), "focus-monitor")
}

} // verus!
