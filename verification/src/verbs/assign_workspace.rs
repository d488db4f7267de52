//! Assigns the launch-time focused workspace to activities through
//! `jiji-activities assign-workspace --workspace=<id>`; without a focused
//! workspace at launch it stops before anything runs.

use vstd::prelude::*;
use crate::error::{VerbError, VerbErrorView};
use crate::invocation::activities_call;
use crate::protocol::{Event, Step, StepView, fail, finish, opt_text};
use crate::registry::VerbArgs;
use crate::snapshot::Snapshot;
use crate::verbs::{activities_with, flag_with_id, id_flag, once, opt_arg, run_once};

verus! {

/// What the verb does, given the answers so far.
pub open spec fn behaviour(snapshot: Snapshot, args: VerbArgs, a: Seq<Event>) -> StepView {
    match snapshot.focused_workspace {
        None => fail(VerbErrorView::NoFocusedWorkspace),
        Some(w) => once(a, activities_call(seq!["assign-workspace"@, id_flag("--workspace"@, w)])),
    }
}

/// The verb's next step.
pub fn run(snapshot: &Snapshot, args: &VerbArgs, answers: &Vec<Event>) -> (s: Step)
    ensures
        s@ == behaviour(*snapshot, *args, answers@),
{
    match snapshot.focused_workspace {
        None => finish(Err(VerbError::NoFocusedWorkspace)),
        Some(w) => {
            let flag = flag_with_id("--workspace", w);
            assert(seq!["assign-workspace"@] + opt_arg(opt_text(None::<String>)) + opt_arg(
                Some(flag@),
            ) =~= seq!["assign-workspace"@, id_flag("--workspace"@, w)]);
            run_once(answers, activities_with("assign-workspace", None, Some(flag)))
        },
    }
}

} // verus!
