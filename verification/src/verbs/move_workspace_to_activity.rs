//! Moves the launch-time focused workspace to an activity through
//! `jiji-activities move-workspace [<name>] --workspace=<id>` (the name, when
//! given, before the flag); without a focused workspace at launch it stops
//! before anything runs.

use vstd::prelude::*;
use crate::error::{VerbError, VerbErrorView};
use crate::invocation::activities_call;
use crate::protocol::{Event, Step, StepView, fail, finish};
use crate::registry::VerbArgs;
use crate::snapshot::Snapshot;
use crate::verbs::{activities_with, flag_with_id, id_flag, normalized, once, opt_arg, run_once, supplied};

verus! {

/// What the verb does, given the answers so far.
pub open spec fn behaviour(snapshot: Snapshot, args: VerbArgs, a: Seq<Event>) -> StepView {
    match snapshot.focused_workspace {
        None => fail(VerbErrorView::NoFocusedWorkspace),
        Some(w) => once(
            a,
            activities_call(
                seq!["move-workspace"@] + opt_arg(supplied(args.first)) + seq![
                    id_flag("--workspace"@, w),
                ],
            ),
        ),
    }
}

/// The verb's next step.
pub fn run(snapshot: &Snapshot, args: &VerbArgs, answers: &Vec<Event>) -> (s: Step)
    ensures
        s@ == behaviour(*snapshot, *args, answers@),
{
    match snapshot.focused_workspace {
        None => finish(Err(VerbError::NoFocusedWorkspace)),
        Some(w) => run_once(
            answers,
            activities_with(
                "move-workspace",
                normalized(&args.first),
                Some(flag_with_id("--workspace", w)),
            ),
        ),
    }
}

} // verus!
