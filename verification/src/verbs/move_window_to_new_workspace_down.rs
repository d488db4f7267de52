//! Moves the focused window to a new workspace below the current one
//! (fork only). `--focus <bool>` is passed on only when given; absent, the
//! compositor default applies.

use vstd::prelude::*;
use crate::niri::{action_call, focus_tail};
use crate::protocol::{Event, Step, StepView};
use crate::registry::VerbArgs;
use crate::snapshot::Snapshot;
use crate::verbs::{once, run_once};

verus! {

/// What the verb does, given the answers so far.
pub open spec fn behaviour(snapshot: Snapshot, args: VerbArgs, a: Seq<Event>) -> StepView {
    once(a, action_call(seq!["move-window-to-new-workspace-down"@] + focus_tail(args.focus)))
}

/// The verb's next step.
pub fn run(snapshot: &Snapshot, args: &VerbArgs, answers: &Vec<Event>) -> (s: Step)
    ensures
        s@ == behaviour(*snapshot, *args, answers@),
{
    run_once(answers, crate::niri::move_window_to_new_workspace_down(args.focus))
}

} // verus!
