//! Picks a monitor and moves the focused workspace to it (the compositor
//! targets the focused workspace). The prompt names the workspace focused at
//! launch by index and name when known. With no outputs it stops before the
//! picker opens.

use vstd::prelude::*;
use crate::protocol::{Event, Step, StepView};
use crate::registry::VerbArgs;
use crate::snapshot::Snapshot;
use crate::verbs::{monitor_flow, monitor_step};
use crate::verbs::{push_workspace_context, workspace_context};

verus! {

/// What the verb does, given the answers so far.
pub open spec fn behaviour(snapshot: Snapshot, args: VerbArgs, a: Seq<Event>) -> StepView {
    monitor_flow(
        a,
        "Move workspace"@ + workspace_context(snapshot.focused_workspace_idx, snapshot.focused_workspace_name)
            + " to monitor: "@,
        "move-workspace-to-monitor"@,
    )
}

/// The verb's next step.
pub fn run(snapshot: &Snapshot, args: &VerbArgs, answers: &Vec<Event>) -> (s: Step)
    ensures
        s@ == behaviour(*snapshot, *args, answers@),
{
    let mut prompt = crate::invocation::owned("Move workspace");
    push_workspace_context(&mut prompt, snapshot.focused_workspace_idx, &snapshot.focused_workspace_name);
    prompt.append(" to monitor: ");
    monitor_step(answers, prompt, "move-workspace-to-monitor")
}

} // verus!
