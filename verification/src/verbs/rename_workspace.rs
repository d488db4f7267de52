//! Renames the focused workspace through a free-text prompt; a cancel or
//! blank entry ends the verb with nothing run. The prompt names the
//! workspace focused at launch (index, name, id) as display context only:
//! the action always targets the focused workspace.

use vstd::prelude::*;
use crate::invocation::owned;
use crate::niri::action_call;
use crate::protocol::{
    Event, Step, StepView, after_prompt, after_run, ask_prompt, ask_run, done, finish,
};
use crate::registry::VerbArgs;
use crate::snapshot::Snapshot;
use crate::text::{decimal, push_decimal};
use crate::verbs::{push_workspace_context, workspace_context};

verus! {

/// `Rename workspace[ <idx>][ "<name>"][ (id <id>)] to: `, from whatever
/// the snapshot knows of the focused workspace.
pub open spec fn rename_prompt(s: Snapshot) -> Seq<char> {
    "Rename workspace"@ + workspace_context(s.focused_workspace_idx, s.focused_workspace_name) + (
    match s.focused_workspace {
        Some(id) => " (id "@ + decimal(id as nat) + ")"@,
        None => seq![],
    }) + " to: "@
}

/// The rename prompt for the snapshot.
pub fn prompt_for(snapshot: &Snapshot) -> (p: String)
    ensures
        p@ == rename_prompt(*snapshot),
{
    let mut p = owned("Rename workspace");
    push_workspace_context(&mut p, snapshot.focused_workspace_idx, &snapshot.focused_workspace_name);
    let ghost mid = p@;
    match snapshot.focused_workspace {
        Some(id) => {
            p.append(" (id ");
            push_decimal(&mut p, id);
            p.append(")");
        },
        None => {},
    }
    p.append(" to: ");
    assert(p@ =~= rename_prompt(*snapshot));
    p
}

/// What the verb does, given the answers so far.
pub open spec fn behaviour(snapshot: Snapshot, args: VerbArgs, a: Seq<Event>) -> StepView {
    after_prompt(
        a,
        0,
        rename_prompt(snapshot),
        |n: Seq<char>| after_run(a, 1, action_call(seq!["set-workspace-name"@, n]), done()),
    )
}

/// The verb's next step.
pub fn run(snapshot: &Snapshot, args: &VerbArgs, answers: &Vec<Event>) -> (s: Step)
    ensures
        s@ == behaviour(*snapshot, *args, answers@),
{
    let n = match ask_prompt(answers, 0, prompt_for(snapshot)) {
        Ok(n) => n,
        Err(s) => return s,
    };
    match ask_run(answers, 1, crate::niri::set_workspace_name(n.as_str())) {
        Some(s) => s,
        None => finish(Ok(())),
    }
}

} // verus!
