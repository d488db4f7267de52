//! Picks one of the bookmarks that have a key and unassigns its key. When no
//! bookmark has a key the verb stops before the picker opens.

use vstd::prelude::*;
use crate::error::{VerbError, VerbErrorView};
use crate::invocation::owned;
use crate::menu::{first_match, label_list, labels_of, lemma_first_match, resolve_by_label};
use crate::niri::{BookmarkChoice, BookmarkRow, Query, action_call, bookmark_choices, bookmark_label, clone_opt, sorted_bookmarks};
use crate::order::{lemma_filter_step, lemma_take_all};
use crate::protocol::{
    Event, Inventory, Step, StepView, after_fetch, after_pick, after_run, ask_fetch, ask_pick,
    ask_run, done, fail, finish,
};
use crate::registry::VerbArgs;
use crate::snapshot::Snapshot;
use crate::text::decimal;
use crate::verbs::queries;

verus! {

/// The bookmarks that have a key, in order.
pub open spec fn keyed(bm: Seq<BookmarkRow>) -> Seq<BookmarkRow> {
    bm.filter(|r: BookmarkRow| r.key is Some)
}

/// What the verb does, given the answers so far.
pub open spec fn behaviour(snapshot: Snapshot, args: VerbArgs, a: Seq<Event>) -> StepView {
    after_fetch(
        a,
        0,
        seq![Query::Bookmarks],
        |inv: Inventory|
            {
                let bm = keyed(sorted_bookmarks(inv.bookmarks@));
                let labels = Seq::new(bm.len(), |i: int| bookmark_label(bm[i]));
                if bm.len() == 0 {
                    fail(VerbErrorView::NoKeyedBookmarks)
                } else {
                    after_pick(
                        a,
                        1,
                        "Unassign bookmark key: "@,
                        labels,
                        |l: Seq<char>|
                            match first_match(labels, l) {
                                None => fail(VerbErrorView::UnknownLabel(l)),
                                Some(i) => after_run(
                                    a,
                                    2,
                                    action_call(seq!["unassign-bookmark-key"@, "--id"@, decimal(bm[i].id as nat)]),
                                    done(),
                                ),
                            },
                    )
                }
            },
    )
}

/// The verb's next step.
pub fn run(snapshot: &Snapshot, args: &VerbArgs, answers: &Vec<Event>) -> (s: Step)
    ensures
        s@ == behaviour(*snapshot, *args, answers@),
{
    let inv = match ask_fetch(answers, 0, queries(Query::Bookmarks, None, None)) {
        Ok(inv) => inv,
        Err(s) => return s,
    };
    let all = bookmark_choices(&inv.bookmarks);
    let ghost sorted = sorted_bookmarks(inv.bookmarks@);
    let ghost bm = keyed(sorted);
    let ghost labels = Seq::new(bm.len(), |i: int| bookmark_label(bm[i]));
    let mut choices: Vec<BookmarkChoice> = Vec::new();
    let mut j: usize = 0;
    while j < all.len()
        invariant
            all@.len() == sorted.len(),
            forall|i: int| 0 <= i < all@.len() ==> #[trigger] all@[i].shows(sorted[i]),
            j <= all@.len(),
            choices@.len() == keyed(sorted.take(j as int)).len(),
            forall|i: int| 0 <= i < choices@.len() ==> #[trigger] choices@[i].shows(keyed(sorted.take(j as int))[i]),
        decreases all@.len() - j,
    {
        proof {
            lemma_filter_step(sorted, |r: BookmarkRow| r.key is Some, j as int);
        }
        assert(all@[j as int].shows(sorted[j as int]));
        if all[j].key.is_some() {
            choices.push(BookmarkChoice { id: all[j].id, label: all[j].label.clone(), key: clone_opt(&all[j].key) });
        }
        j = j + 1;
    }
    proof {
        lemma_take_all(sorted);
    }
    if choices.len() == 0 {
        return finish(Err(VerbError::NoKeyedBookmarks));
    }
    let items = label_list(&choices);
    assert forall|i: int| 0 <= i < choices@.len() implies labels_of(choices@)[i] == labels[i] by {
        assert(choices@[i].shows(bm[i]));
    }
    assert(labels_of(choices@) =~= labels);
    let l = match ask_pick(answers, 1, owned("Unassign bookmark key: "), items) {
        Ok(l) => l,
        Err(s) => return s,
    };
    let c = match resolve_by_label(&choices, l.as_str()) {
        Ok(c) => c,
        Err(e) => return finish(Err(e)),
    };
    proof {
        lemma_first_match(labels, l@);
    }
    let ghost k = first_match(labels, l@)->0;
    assert(c.shows(bm[k]));
    let act = crate::niri::unassign_bookmark_key(c.id);
    assert(behaviour(*snapshot, *args, answers@) == after_run(answers@, 2, act@, done()));
    match ask_run(answers, 2, act) {
        Some(s) => s,
        None => finish(Ok(())),
    }
}

} // verus!
