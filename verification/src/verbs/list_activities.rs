//! Lists activities: runs `jiji-activities list` and forwards its stdout
//! verbatim (it already ends each row with a newline). Direct CLI only.

use vstd::prelude::*;
use crate::invocation::activities_call;
use crate::protocol::{
    Event, Step, StepView, after_output, after_print, ask_output, ask_print, done, finish,
};
use crate::registry::VerbArgs;
use crate::snapshot::Snapshot;

verus! {

/// What the verb does, given the answers so far.
pub open spec fn behaviour(snapshot: Snapshot, args: VerbArgs, a: Seq<Event>) -> StepView {
    after_output(a, 0, activities_call(seq!["list"@]), |out: Seq<char>| after_print(a, 1, out, done()))
}

/// The verb's next step.
pub fn run(snapshot: &Snapshot, args: &VerbArgs, answers: &Vec<Event>) -> (s: Step)
    ensures
        s@ == behaviour(*snapshot, *args, answers@),
{
    let out = match ask_output(answers, 0, crate::verbs::activities_with("list", None, None)) {
        Ok(out) => out,
        Err(s) => {
            assert(seq!["list"@] + crate::verbs::opt_arg(crate::protocol::opt_text(None::<String>))
                + crate::verbs::opt_arg(crate::protocol::opt_text(None::<String>)) =~= seq!["list"@]);
            return s;
        },
    };
    assert(seq!["list"@] + crate::verbs::opt_arg(crate::protocol::opt_text(None::<String>))
        + crate::verbs::opt_arg(crate::protocol::opt_text(None::<String>)) =~= seq!["list"@]);
    match ask_print(answers, 1, out.clone()) {
        Some(s) => s,
        None => finish(Ok(())),
    }
}

} // verus!
