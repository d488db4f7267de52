//! Runs the compositor's color picker, copies the color to the clipboard and
//! announces it in a notification, both best-effort. The clipboard is the
//! retrievable home: only when copying fails is the color printed to stdout
//! instead. The pick failing fails the verb; the soft dependencies failing
//! never does.

use vstd::prelude::*;
use crate::invocation::niri_call;
use crate::protocol::{
    Event, Step, StepView, after_deliver, after_output, after_print, ask_deliver, ask_output,
    ask_print, done, finish,
};
use crate::registry::VerbArgs;
use crate::snapshot::Snapshot;
use crate::text::trim;
use crate::verbs::{clipboard, clipboard_call, notification, notification_call};

verus! {

/// What the verb does, given the answers so far.
pub open spec fn behaviour(snapshot: Snapshot, args: VerbArgs, a: Seq<Event>) -> StepView {
    after_output(
        a,
        0,
        niri_call(seq!["msg"@, "pick-color"@]),
        |color: Seq<char>|
            after_deliver(
                a,
                1,
                clipboard_call(),
                Some(trim(color)),
                |copied: bool|
                    after_deliver(
                        a,
                        2,
                        notification_call("Picked color"@, trim(color)),
                        None,
                        |shown: bool|
                            if copied {
                                done()
                            } else {
                                after_print(a, 3, color, done())
                            },
                    ),
            ),
    )
}

/// The verb's next step.
pub fn run(snapshot: &Snapshot, args: &VerbArgs, answers: &Vec<Event>) -> (s: Step)
    ensures
        s@ == behaviour(*snapshot, *args, answers@),
{
    let color = match ask_output(answers, 0, crate::niri::pick_color()) {
        Ok(c) => c,
        Err(s) => return s,
    };
    let t = crate::text::trim_str(color.as_str());
    let copied = match ask_deliver(answers, 1, clipboard(), Some(t.clone())) {
        Ok(ok) => ok,
        Err(s) => return s,
    };
    match ask_deliver(answers, 2, notification("Picked color", t.as_str()), None) {
        Ok(_) => {},
        Err(s) => return s,
    }
    if copied {
        return finish(Ok(()));
    }
    match ask_print(answers, 3, color.clone()) {
        Some(s) => s,
        None => finish(Ok(())),
    }
}

} // verus!
