//! Picks a monitor and moves the focused window to it (the compositor
//! targets the focused window; no id is passed). The prompt names the window
//! focused at launch, its title cut to 40 characters. With no outputs it
//! stops before the picker opens.

use vstd::prelude::*;
use crate::protocol::{Event, Step, StepView};
use crate::registry::VerbArgs;
use crate::snapshot::Snapshot;
use crate::verbs::{monitor_flow, monitor_step};
use crate::text::{chars_of, string_of};

verus! {

/// `Move "<title>" to monitor: `, the title cut to its first 40 characters
/// and marked `…` when cut; `Move window to monitor: ` without a title.
pub open spec fn window_prompt(title: Option<String>) -> Seq<char> {
    match title {
        Some(t) => "Move \""@ + (if t@.len() > 40 {
            t@.take(40) + "…"@
        } else {
            t@
        }) + "\" to monitor: "@,
        None => "Move window to monitor: "@,
    }
}

/// The picker prompt.
pub fn prompt_for(title: &Option<String>) -> (p: String)
    ensures
        p@ == window_prompt(*title),
{
    match title {
        Some(t) => {
            let mut p = crate::invocation::owned("Move \"");
            let v = chars_of(t.as_str());
            if v.len() > 40 {
                let short = string_of(&v, 0, 40);
                p.append(short.as_str());
                p.append("…");
            } else {
                p.append(t.as_str());
            }
            p.append("\" to monitor: ");
            assert(p@ =~= window_prompt(*title));
            p
        },
        None => crate::invocation::owned("Move window to monitor: "),
    }
}

/// What the verb does, given the answers so far.
pub open spec fn behaviour(snapshot: Snapshot, args: VerbArgs, a: Seq<Event>) -> StepView {
    monitor_flow(a, window_prompt(snapshot.focused_window_title), "move-window-to-monitor"@)
}

/// The verb's next step.
pub fn run(snapshot: &Snapshot, args: &VerbArgs, answers: &Vec<Event>) -> (s: Step)
    ensures
        s@ == behaviour(*snapshot, *args, answers@),
{
    monitor_step(answers, prompt_for(&snapshot.focused_window_title), "move-window-to-monitor")
}

} // verus!
