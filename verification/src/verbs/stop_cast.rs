//! Picks an active screencast session and stops it. With no active casts
//! the verb stops before the picker opens (a data condition, not a
//! capability miss).

use vstd::prelude::*;
use crate::error::{VerbError, VerbErrorView};
use crate::invocation::owned;
use crate::menu::{first_match, label_list, labels_of, lemma_first_match, resolve_by_label};
use crate::niri::{Query, action_call, cast_choices, cast_label, sorted_sessions};
use crate::protocol::{
    Event, Inventory, Step, StepView, after_fetch, after_pick, after_run, ask_fetch, ask_pick, ask_run,
    done, fail, finish,
};
use crate::registry::VerbArgs;
use crate::snapshot::Snapshot;
use crate::text::decimal;
use crate::verbs::queries;

verus! {

/// What the verb does, given the answers so far.
pub open spec fn behaviour(snapshot: Snapshot, args: VerbArgs, a: Seq<Event>) -> StepView {
    after_fetch(
        a,
        0,
        seq![Query::Casts],
        |inv: Inventory|
            {
                let cs = sorted_sessions(inv.casts@);
                let labels = Seq::new(cs.len(), |i: int| cast_label(cs[i]));
                if cs.len() == 0 {
                    fail(VerbErrorView::NoCasts)
                } else {
                    after_pick(
                        a,
                        1,
                        "Stop cast: "@,
                        labels,
                        |l: Seq<char>|
                            match first_match(labels, l) {
                                None => fail(VerbErrorView::UnknownLabel(l)),
                                Some(i) => after_run(
                                    a,
                                    2,
                                    action_call(
                                        seq!["stop-cast"@, "--session-id"@, decimal(cs[i].session_id as nat)],
                                    ),
                                    done(),
                                ),
                            },
                    )
                }
            },
    )
}

/// The verb's next step.
pub fn run(snapshot: &Snapshot, args: &VerbArgs, answers: &Vec<Event>) -> (s: Step)
    ensures
        s@ == behaviour(*snapshot, *args, answers@),
{
    let inv = match ask_fetch(answers, 0, queries(Query::Casts, None, None)) {
        Ok(inv) => inv,
        Err(s) => return s,
    };
    let choices = cast_choices(&inv.casts);
    let ghost cs = sorted_sessions(inv.casts@);
    let ghost labels = Seq::new(cs.len(), |i: int| cast_label(cs[i]));
    if choices.len() == 0 {
        return finish(Err(VerbError::NoCasts));
    }
    let items = label_list(&choices);
    assert forall|i: int| 0 <= i < choices@.len() implies labels_of(choices@)[i] == labels[i] by {
        assert(choices@[i].shows(cs[i]));
    }
    assert(labels_of(choices@) =~= labels);
    let l = match ask_pick(answers, 1, owned("Stop cast: "), items) {
        Ok(l) => l,
        Err(s) => return s,
    };
    let c = match resolve_by_label(&choices, l.as_str()) {
        Ok(c) => c,
        Err(e) => return finish(Err(e)),
    };
    proof {
        lemma_first_match(labels, l@);
    }
    let ghost k = first_match(labels, l@)->0;
    assert(c.shows(cs[k]));
    let act = crate::niri::stop_cast(c.session_id);
    assert(behaviour(*snapshot, *args, answers@) == after_run(answers@, 2, act@, done()));
    match ask_run(answers, 2, act) {
        Some(s) => s,
        None => finish(Ok(())),
    }
}

} // verus!
