//! Creates an activity through `jiji-activities create <name>`. A supplied
//! name skips the prompt; otherwise a free-text prompt asks for one, and a
//! cancel or blank entry ends the verb with nothing run.

use vstd::prelude::*;
use crate::invocation::{activities_call, owned};
use crate::protocol::{
    Event, Step, StepView, after_prompt, after_run, ask_prompt, ask_run, done, finish, opt_text,
};
use crate::registry::VerbArgs;
use crate::snapshot::Snapshot;
use crate::verbs::{activities_with, normalized, once, opt_arg, run_once, supplied};

verus! {

/// What the verb does, given the answers so far.
pub open spec fn behaviour(snapshot: Snapshot, args: VerbArgs, a: Seq<Event>) -> StepView {
    match supplied(args.first) {
        Some(n) => once(a, activities_call(seq!["create"@, n])),
        None => after_prompt(
            a,
            0,
            "Activity name: "@,
            |t: Seq<char>| after_run(a, 1, activities_call(seq!["create"@, t]), done()),
        ),
    }
}

/// The verb's next step.
pub fn run(snapshot: &Snapshot, args: &VerbArgs, answers: &Vec<Event>) -> (s: Step)
    ensures
        s@ == behaviour(*snapshot, *args, answers@),
{
    match normalized(&args.first) {
        Some(n) => {
            assert(seq!["create"@] + opt_arg(Some(n@)) + opt_arg(opt_text(None::<String>)) =~= seq![
                "create"@,
                n@,
            ]);
            run_once(answers, activities_with("create", Some(n), None))
        },
        None => {
            let t = match ask_prompt(answers, 0, owned("Activity name: ")) {
                Ok(t) => t,
                Err(s) => return s,
            };
            assert(seq!["create"@] + opt_arg(Some(t@)) + opt_arg(opt_text(None::<String>)) =~= seq![
                "create"@,
                t@,
            ]);
            match ask_run(answers, 1, activities_with("create", Some(t.clone()), None)) {
                Some(s) => s,
                None => finish(Ok(())),
            }
        },
    }
}

} // verus!
