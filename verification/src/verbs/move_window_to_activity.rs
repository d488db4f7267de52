//! Moves the launch-time focused window to an activity through
//! `jiji-activities move-window [<name>] --window=<id>` (the name, when
//! given, before the flag). Without a focused window at launch it stops
//! before anything runs: `jiji-activities` must not re-read focus after the
//! menu's picker has taken it.

use vstd::prelude::*;
use crate::error::{VerbError, VerbErrorView};
use crate::invocation::activities_call;
use crate::protocol::{Event, Step, StepView, fail, finish};
use crate::registry::VerbArgs;
use crate::snapshot::Snapshot;
use crate::verbs::{activities_with, flag_with_id, id_flag, normalized, once, opt_arg, run_once, supplied};

verus! {

/// What the verb does, given the answers so far.
pub open spec fn behaviour(snapshot: Snapshot, args: VerbArgs, a: Seq<Event>) -> StepView {
    match snapshot.focused_window {
        None => fail(VerbErrorView::NoFocusedWindow),
        Some(w) => once(
            a,
            activities_call(
                seq!["move-window"@] + opt_arg(supplied(args.first)) + seq![id_flag("--window"@, w)],
            ),
        ),
    }
}

/// The verb's next step.
pub fn run(snapshot: &Snapshot, args: &VerbArgs, answers: &Vec<Event>) -> (s: Step)
    ensures
        s@ == behaviour(*snapshot, *args, answers@),
{
    match snapshot.focused_window {
        None => finish(Err(VerbError::NoFocusedWindow)),
        Some(w) => run_once(
            answers,
            activities_with("move-window", normalized(&args.first), Some(flag_with_id("--window", w))),
        ),
    }
}

} // verus!
