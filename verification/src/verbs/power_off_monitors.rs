//! Powers off all monitors after a fuzzel confirmation; anything but an
//! exact `Yes` ends the verb with nothing run.

use vstd::prelude::*;
use crate::invocation::owned;
use crate::niri::action_call;
use crate::protocol::{
    Event, Step, StepView, after_confirm, after_run, ask_confirm, ask_run, done, finish,
};
use crate::registry::VerbArgs;
use crate::snapshot::Snapshot;

verus! {

/// What the verb does, given the answers so far.
pub open spec fn behaviour(snapshot: Snapshot, args: VerbArgs, a: Seq<Event>) -> StepView {
    after_confirm(a, 0, "Power off monitors?"@, after_run(a, 1, action_call(seq!["power-off-monitors"@]), done()))
}

/// The verb's next step.
pub fn run(snapshot: &Snapshot, args: &VerbArgs, answers: &Vec<Event>) -> (s: Step)
    ensures
        s@ == behaviour(*snapshot, *args, answers@),
{
    match ask_confirm(answers, 0, owned("Power off monitors?")) {
        Some(s) => return s,
        None => {},
    }
    match ask_run(answers, 1, crate::niri::run_action("power-off-monitors")) {
        Some(s) => s,
        None => finish(Ok(())),
    }
}

} // verus!
