//! Moves the launch-time focused window to the current workspace through
//! `jiji-activities move-window-here --window=<id>`; without a focused window
//! at launch it stops before anything runs.

use vstd::prelude::*;
use crate::error::{VerbError, VerbErrorView};
use crate::invocation::activities_call;
use crate::protocol::{Event, Step, StepView, fail, finish, opt_text};
use crate::registry::VerbArgs;
use crate::snapshot::Snapshot;
use crate::verbs::{activities_with, flag_with_id, id_flag, once, opt_arg, run_once};

verus! {

/// What the verb does, given the answers so far.
pub open spec fn behaviour(snapshot: Snapshot, args: VerbArgs, a: Seq<Event>) -> StepView {
    match snapshot.focused_window {
        None => fail(VerbErrorView::NoFocusedWindow),
        Some(w) => once(a, activities_call(seq!["move-window-here"@, id_flag("--window"@, w)])),
    }
}

/// The verb's next step.
pub fn run(snapshot: &Snapshot, args: &VerbArgs, answers: &Vec<Event>) -> (s: Step)
    ensures
        s@ == behaviour(*snapshot, *args, answers@),
{
    match snapshot.focused_window {
        None => finish(Err(VerbError::NoFocusedWindow)),
        Some(w) => {
            let flag = flag_with_id("--window", w);
            assert(seq!["move-window-here"@] + opt_arg(opt_text(None::<String>)) + opt_arg(
                Some(flag@),
            ) =~= seq!["move-window-here"@, id_flag("--window"@, w)]);
            run_once(answers, activities_with("move-window-here", None, Some(flag)))
        },
    }
}

} // verus!
