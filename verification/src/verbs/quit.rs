//! Quits the compositor after a fuzzel confirmation, which replaces the
//! compositor's own dialog (`--skip-confirmation` is always passed). Only an
//! exact `Yes` confirms; anything else ends the verb with nothing run.

use vstd::prelude::*;
use crate::invocation::owned;
use crate::niri::action_call;
use crate::protocol::{
    Event, Step, StepView, after_confirm, after_run, ask_confirm, ask_run, done, finish,
};
use crate::registry::VerbArgs;
use crate::snapshot::Snapshot;

verus! {

/// What the verb does, given the answers so far.
pub open spec fn behaviour(snapshot: Snapshot, args: VerbArgs, a: Seq<Event>) -> StepView {
    after_confirm(a, 0, "Quit jiji?"@, after_run(a, 1, action_call(seq!["quit"@, "--skip-confirmation"@]), done()))
}

/// The verb's next step.
pub fn run(snapshot: &Snapshot, args: &VerbArgs, answers: &Vec<Event>) -> (s: Step)
    ensures
        s@ == behaviour(*snapshot, *args, answers@),
{
    match ask_confirm(answers, 0, owned("Quit jiji?")) {
        Some(s) => return s,
        None => {},
    }
    match ask_run(answers, 1, crate::niri::quit_skip_confirmation()) {
        Some(s) => s,
        None => finish(Ok(())),
    }
}

} // verus!
