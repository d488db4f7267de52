//! Runs the compositor's window picker and routes the summary it prints:
//! always to stdout (the retrievable home), then best-effort to the
//! clipboard and a notification. The pick failing fails the verb; the soft
//! dependencies failing never does.

use vstd::prelude::*;
use crate::invocation::niri_call;
use crate::protocol::{
    Event, Step, StepView, after_deliver, after_output, after_print, ask_deliver, ask_output,
    ask_print, done, finish,
};
use crate::registry::VerbArgs;
use crate::snapshot::Snapshot;
use crate::text::trim;
use crate::verbs::{clipboard, clipboard_call, notification, notification_call};

verus! {

/// What the verb does, given the answers so far.
pub open spec fn behaviour(snapshot: Snapshot, args: VerbArgs, a: Seq<Event>) -> StepView {
    after_output(
        a,
        0,
        niri_call(seq!["msg"@, "pick-window"@]),
        |info: Seq<char>|
            after_print(
                a,
                1,
                info,
                after_deliver(
                    a,
                    2,
                    clipboard_call(),
                    Some(trim(info)),
                    |copied: bool|
                        after_deliver(
                            a,
                            3,
                            notification_call("Picked window"@, trim(info)),
                            None,
                            |shown: bool| done(),
                        ),
                ),
            ),
    )
}

/// The verb's next step.
pub fn run(snapshot: &Snapshot, args: &VerbArgs, answers: &Vec<Event>) -> (s: Step)
    ensures
        s@ == behaviour(*snapshot, *args, answers@),
{
    let info = match ask_output(answers, 0, crate::niri::pick_window()) {
        Ok(info) => info,
        Err(s) => return s,
    };
    match ask_print(answers, 1, info.clone()) {
        Some(s) => return s,
        None => {},
    }
    let t = crate::text::trim_str(info.as_str());
    match ask_deliver(answers, 2, clipboard(), Some(t.clone())) {
        Ok(_) => {},
        Err(s) => return s,
    }
    match ask_deliver(answers, 3, notification("Picked window", t.as_str()), None) {
        Ok(_) => finish(Ok(())),
        Err(s) => s,
    }
}

} // verus!
