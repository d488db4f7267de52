//! Picks a bookmark and removes it after a confirmation naming it; only an
//! exact `Yes` removes. Cancelling either step ends the verb with nothing
//! run; an empty inventory stops it before the picker opens.

use vstd::prelude::*;
use crate::error::{VerbError, VerbErrorView};
use crate::invocation::owned;
use crate::menu::{first_match, label_list, labels_of, lemma_first_match, resolve_by_label};
use crate::niri::{Query, action_call, bookmark_choices, bookmark_label, sorted_bookmarks};
use crate::protocol::{
    Event, Inventory, Step, StepView, after_confirm, after_fetch, after_pick, after_run, ask_confirm,
    ask_fetch, ask_pick, ask_run, done, fail, finish,
};
use crate::registry::VerbArgs;
use crate::snapshot::Snapshot;
use crate::text::decimal;
use crate::verbs::queries;

verus! {

/// What the verb does, given the answers so far.
pub open spec fn behaviour(snapshot: Snapshot, args: VerbArgs, a: Seq<Event>) -> StepView {
    after_fetch(
        a,
        0,
        seq![Query::Bookmarks],
        |inv: Inventory|
            {
                let bm = sorted_bookmarks(inv.bookmarks@);
                let labels = Seq::new(bm.len(), |i: int| bookmark_label(bm[i]));
                if bm.len() == 0 {
                    fail(VerbErrorView::NoBookmarks)
                } else {
                    after_pick(
                        a,
                        1,
                        "Remove bookmark: "@,
                        labels,
                        |l: Seq<char>|
                            match first_match(labels, l) {
                                None => fail(VerbErrorView::UnknownLabel(l)),
                                Some(i) => after_confirm(
                                    a,
                                    2,
                                    "Remove bookmark \""@ + labels[i] + "\"?"@,
                                    after_run(
                                        a,
                                        3,
                                        action_call(seq!["remove-bookmark"@, "--id"@, decimal(bm[i].id as nat)]),
                                        done(),
                                    ),
                                ),
                            },
                    )
                }
            },
    )
}

/// The verb's next step.
pub fn run(snapshot: &Snapshot, args: &VerbArgs, answers: &Vec<Event>) -> (s: Step)
    ensures
        s@ == behaviour(*snapshot, *args, answers@),
{
    let inv = match ask_fetch(answers, 0, queries(Query::Bookmarks, None, None)) {
        Ok(inv) => inv,
        Err(s) => return s,
    };
    let choices = bookmark_choices(&inv.bookmarks);
    let ghost bm = sorted_bookmarks(inv.bookmarks@);
    let ghost labels = Seq::new(bm.len(), |i: int| bookmark_label(bm[i]));
    if choices.len() == 0 {
        return finish(Err(VerbError::NoBookmarks));
    }
    let items = label_list(&choices);
    assert forall|i: int| 0 <= i < choices@.len() implies labels_of(choices@)[i] == labels[i] by {
        assert(choices@[i].shows(bm[i]));
    }
    assert(labels_of(choices@) =~= labels);
    let l = match ask_pick(answers, 1, owned("Remove bookmark: "), items) {
        Ok(l) => l,
        Err(s) => return s,
    };
    let c = match resolve_by_label(&choices, l.as_str()) {
        Ok(c) => c,
        Err(e) => return finish(Err(e)),
    };
    proof {
        lemma_first_match(labels, l@);
    }
    let ghost k = first_match(labels, l@)->0;
    assert(c.shows(bm[k]));
    let mut prompt = owned("Remove bookmark \"");
    prompt.append(c.label.as_str());
    prompt.append("\"?");
    let act = crate::niri::remove_bookmark(c.id);
    assert(prompt@ =~= "Remove bookmark \""@ + labels[k] + "\"?"@);
    assert(behaviour(*snapshot, *args, answers@) == after_confirm(
        answers@,
        2,
        prompt@,
        after_run(answers@, 3, act@, done()),
    ));
    match ask_confirm(answers, 2, prompt) {
        Some(s) => return s,
        None => {},
    }
    match ask_run(answers, 3, act) {
        Some(s) => s,
        None => finish(Ok(())),
    }
}

} // verus!
