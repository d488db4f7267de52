//! Renames an activity: the activities are read when the verb runs and
//! offered most recently used first (the current one preselected), then a
//! free-text prompt naming the picked target asks for the new name, and
//! `jiji-activities rename <new> --activity <target>` runs. Cancelling
//! either step, or a blank name, ends the verb with nothing run; an empty
//! inventory stops it before the picker opens.

use vstd::prelude::*;
use crate::error::{VerbError, VerbErrorView};
use crate::invocation::{activities_call, owned};
use crate::niri::Query;
use crate::protocol::{
    Event, Inventory, Step, StepView, after_fetch, after_pick, after_prompt, after_run, ask_fetch,
    ask_pick, ask_prompt, ask_run, done, fail, finish,
};
use crate::registry::VerbArgs;
use crate::snapshot::Snapshot;
use crate::verbs::queries;
use crate::niri::{activity_names_mru, mru_names};

verus! {

/// What the verb does, given the answers so far.
pub open spec fn behaviour(snapshot: Snapshot, args: VerbArgs, a: Seq<Event>) -> StepView {
    after_fetch(
        a,
        0,
        seq![Query::Activities],
        |inv: Inventory|
            {
                let names = mru_names(inv.activities@);
                if names.len() == 0 {
                    fail(VerbErrorView::NoActivitiesToRename)
                } else {
                    after_pick(
                        a,
                        1,
                        "Rename activity: "@,
                        names,
                        |t: Seq<char>|
                            after_prompt(
                                a,
                                2,
                                "Rename activity \""@ + t + "\" to: "@,
                                |n: Seq<char>|
                                    after_run(
                                        a,
                                        3,
                                        activities_call(seq!["rename"@, n, "--activity"@, t]),
                                        done(),
                                    ),
                            ),
                    )
                }
            },
    )
}

/// The verb's next step.
pub fn run(snapshot: &Snapshot, args: &VerbArgs, answers: &Vec<Event>) -> (s: Step)
    ensures
        s@ == behaviour(*snapshot, *args, answers@),
{
    let inv = match ask_fetch(answers, 0, queries(Query::Activities, None, None)) {
        Ok(inv) => inv,
        Err(s) => return s,
    };
    let names = activity_names_mru(&inv.activities);
    if names.len() == 0 {
        return finish(Err(VerbError::NoActivitiesToRename));
    }
    let t = match ask_pick(answers, 1, owned("Rename activity: "), names) {
        Ok(t) => t,
        Err(s) => return s,
    };
    let mut prompt = owned("Rename activity \"");
    prompt.append(t.as_str());
    prompt.append("\" to: ");
    assert(prompt@ =~= "Rename activity \""@ + t@ + "\" to: "@);
    let n = match ask_prompt(answers, 2, prompt) {
        Ok(n) => n,
        Err(s) => return s,
    };
    let mut v: Vec<String> = Vec::new();
    crate::invocation::push_arg(&mut v, owned("rename"));
    crate::invocation::push_arg(&mut v, n.clone());
    crate::invocation::push_arg(&mut v, owned("--activity"));
    crate::invocation::push_arg(&mut v, t.clone());
    assert(crate::invocation::texts(v@) =~= seq!["rename"@, n@, "--activity"@, t@]);
    match ask_run(answers, 3, crate::invocation::jiji_activities(v)) {
        Some(s) => s,
        None => finish(Ok(())),
    }
}

} // verus!
