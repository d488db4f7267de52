//! Moves a bookmark: the first picker chooses the bookmark, the second
//! (over the same rows) the position it moves to, and the move goes to the
//! 0-based index of the picked row (the compositor clamps it; picking the
//! bookmark's own row is a no-op there). Cancelling either picker ends the
//! verb with nothing run; an empty inventory stops it before the picker
//! opens.

use vstd::prelude::*;
use crate::error::{VerbError, VerbErrorView};
use crate::invocation::owned;
use crate::menu::{first_match, label_list, labels_of, lemma_first_match, resolve_by_label};
use crate::niri::{
    BookmarkChoice, BookmarkRow, Query, action_call, bookmark_choices, bookmark_label,
    sorted_bookmarks,
};
use crate::protocol::{
    Event, Inventory, Step, StepView, after_fetch, after_pick, after_run, ask_fetch, ask_pick,
    ask_run, done, fail, finish,
};
use crate::registry::VerbArgs;
use crate::snapshot::Snapshot;
use crate::text::decimal;
use crate::verbs::queries;

verus! {

/// The position of the first bookmark with this id (0 when none has it).
pub open spec fn first_with_id(bm: Seq<BookmarkRow>, id: u64) -> int
    decreases bm.len(),
{
    if bm.len() == 0 {
        0
    } else if bm[0].id == id {
        0
    } else {
        1 + first_with_id(bm.drop_first(), id)
    }
}

proof fn lemma_first_with_id(bm: Seq<BookmarkRow>, j: int)
    requires
        0 <= j < bm.len(),
    ensures
        0 <= first_with_id(bm, bm[j].id) <= j,
        bm[first_with_id(bm, bm[j].id)].id == bm[j].id,
        forall|m: int| 0 <= m < first_with_id(bm, bm[j].id) ==> #[trigger] bm[m].id != bm[j].id,
    decreases j,
{
    if bm[0].id != bm[j].id {
        let t = bm.drop_first();
        assert(t[j - 1] == bm[j]);
        lemma_first_with_id(t, j - 1);
        assert forall|m: int| 0 <= m < first_with_id(bm, bm[j].id) implies #[trigger] bm[m].id != bm[j].id by {
            if m > 0 {
                assert(t[m - 1] == bm[m]);
            }
        }
    }
}

/// The position of the first choice with this id.
fn position_of(choices: &Vec<BookmarkChoice>, id: u64) -> (k: usize)
    requires
        exists|j: int| 0 <= j < choices@.len() && #[trigger] choices@[j].id == id,
    ensures
        k < choices@.len(),
        choices@[k as int].id == id,
        forall|m: int| 0 <= m < k ==> #[trigger] choices@[m].id != id,
{
    let mut k: usize = 0;
    while k < choices.len()
        invariant
            k <= choices@.len(),
            exists|j: int| k <= j < choices@.len() && #[trigger] choices@[j].id == id,
            forall|m: int| 0 <= m < k ==> #[trigger] choices@[m].id != id,
        decreases choices@.len() - k,
    {
        if choices[k].id == id {
            return k;
        }
        k = k + 1;
    }
    k
}

/// What the verb does, given the answers so far.
pub open spec fn behaviour(snapshot: Snapshot, args: VerbArgs, a: Seq<Event>) -> StepView {
    after_fetch(
        a,
        0,
        seq![Query::Bookmarks],
        |inv: Inventory|
            {
                let bm = sorted_bookmarks(inv.bookmarks@);
                let labels = Seq::new(bm.len(), |i: int| bookmark_label(bm[i]));
                if bm.len() == 0 {
                    fail(VerbErrorView::NoBookmarks)
                } else {
                    after_pick(
                        a,
                        1,
                        "Move bookmark: "@,
                        labels,
                        |l: Seq<char>|
                            match first_match(labels, l) {
                                None => fail(VerbErrorView::UnknownLabel(l)),
                                Some(i) => after_pick(
                                    a,
                                    2,
                                    "Move \""@ + l + "\" to position: "@,
                                    labels,
                                    |t: Seq<char>|
                                        match first_match(labels, t) {
                                            None => fail(VerbErrorView::UnknownLabel(t)),
                                            Some(j) => after_run(
                                                a,
                                                3,
                                                action_call(
                                                    seq![
                                                        "move-bookmark"@,
                                                        "--id"@,
                                                        decimal(bm[i].id as nat),
                                                        "--pos"@,
                                                        decimal((first_with_id(bm, bm[j].id) as u32) as nat),
                                                    ],
                                                ),
                                                done(),
                                            ),
                                        },
                                ),
                            },
                    )
                }
            },
    )
}

/// The verb's next step.
pub fn run(snapshot: &Snapshot, args: &VerbArgs, answers: &Vec<Event>) -> (s: Step)
    ensures
        s@ == behaviour(*snapshot, *args, answers@),
{
    let inv = match ask_fetch(answers, 0, queries(Query::Bookmarks, None, None)) {
        Ok(inv) => inv,
        Err(s) => return s,
    };
    let choices = bookmark_choices(&inv.bookmarks);
    let ghost bm = sorted_bookmarks(inv.bookmarks@);
    let ghost labels = Seq::new(bm.len(), |i: int| bookmark_label(bm[i]));
    if choices.len() == 0 {
        return finish(Err(VerbError::NoBookmarks));
    }
    assert forall|i: int| 0 <= i < choices@.len() implies labels_of(choices@)[i] == labels[i] by {
        assert(choices@[i].shows(bm[i]));
    }
    assert(labels_of(choices@) =~= labels);
    let l = match ask_pick(answers, 1, owned("Move bookmark: "), label_list(&choices)) {
        Ok(l) => l,
        Err(s) => return s,
    };
    let source = match resolve_by_label(&choices, l.as_str()) {
        Ok(c) => c,
        Err(e) => return finish(Err(e)),
    };
    proof {
        lemma_first_match(labels, l@);
    }
    let ghost i = first_match(labels, l@)->0;
    assert(source.shows(bm[i]));
    let mut prompt = owned("Move \"");
    prompt.append(l.as_str());
    prompt.append("\" to position: ");
    assert(prompt@ =~= "Move \""@ + l@ + "\" to position: "@);
    let t = match ask_pick(answers, 2, prompt, label_list(&choices)) {
        Ok(t) => t,
        Err(s) => return s,
    };
    let target = match resolve_by_label(&choices, t.as_str()) {
        Ok(c) => c,
        Err(e) => return finish(Err(e)),
    };
    proof {
        lemma_first_match(labels, t@);
    }
    let ghost j = first_match(labels, t@)->0;
    assert(target.shows(bm[j]));
    let pos = position_of(&choices, target.id);
    proof {
        lemma_first_with_id(bm, j);
        let f = first_with_id(bm, bm[j].id);
        assert(choices@[pos as int].shows(bm[pos as int]));
        assert(choices@[f].shows(bm[f]));
        if (pos as int) < f {
            assert(bm[pos as int].id != bm[j].id);
        } else if f < pos {
            assert(choices@[f].id != target.id);
        }
        assert(pos as int == f);
    }
    let act = crate::niri::move_bookmark(source.id, pos as u32);
    assert(behaviour(*snapshot, *args, answers@) == after_run(answers@, 3, act@, done()));
    match ask_run(answers, 3, act) {
        Some(s) => s,
        None => finish(Ok(())),
    }
}

/// A move sends the bookmark picked first, by the id of a bookmark bearing
/// that label, to the list position of the target picked second: the
/// 0-based index `p` of the first offered row carrying the target's id.
#[verifier::rlimit(50)]
pub proof fn law_move_sends_picked_to_picked_position(
    snapshot: Snapshot,
    args: VerbArgs,
    inv: Inventory,
    l: String,
    t: String,
    j: int,
    jt: int,
)
    requires
        0 <= j < inv.bookmarks@.len(),
        0 <= jt < inv.bookmarks@.len(),
        bookmark_label(inv.bookmarks@[j]) == l@,
        bookmark_label(inv.bookmarks@[jt]) == t@,
    ensures
        exists|k: int, kt: int, p: int|
            #![trigger inv.bookmarks@[k], inv.bookmarks@[kt], sorted_bookmarks(inv.bookmarks@)[p]]
            {
                let rows = inv.bookmarks@;
                let bm = sorted_bookmarks(rows);
                &&& 0 <= k < rows.len() && bookmark_label(rows[k]) == l@
                &&& 0 <= kt < rows.len() && bookmark_label(rows[kt]) == t@
                &&& 0 <= p < bm.len() && bm[p].id == rows[kt].id
                &&& forall|m: int| 0 <= m < p ==> (#[trigger] bm[m]).id != rows[kt].id
                &&& behaviour(
                    snapshot,
                    args,
                    seq![Event::Fetched(inv), Event::Picked(Some(l)), Event::Picked(Some(t))],
                ) == StepView::Perform(
                    crate::protocol::EffectView::Run(
                        action_call(
                            seq![
                                "move-bookmark"@,
                                "--id"@,
                                decimal(rows[k].id as nat),
                                "--pos"@,
                                decimal((p as u32) as nat),
                            ],
                        ),
                    ),
                )
            },
{
    let rows = inv.bookmarks@;
    assert(inv.bookmarks.len() == rows.len());
    let keys = crate::niri::position_keys(rows);
    let lab = |r: BookmarkRow| bookmark_label(r);
    let bm = sorted_bookmarks(rows);
    assert(Seq::new(bm.len(), |i: int| lab(bm[i])) =~= Seq::new(bm.len(), |i: int| bookmark_label(bm[i])));
    let labels = Seq::new(bm.len(), |i: int| bookmark_label(bm[i]));
    let k = crate::verbs::lemma_pick_from_sorted(rows, keys, lab, l@, j);
    let kt = crate::verbs::lemma_pick_from_sorted(rows, keys, lab, t@, jt);
    let i = first_match(labels, l@)->0;
    let it = first_match(labels, t@)->0;
    assert(bm[i] == rows[k]);
    assert(bm[it] == rows[kt]);
    lemma_first_with_id(bm, it);
    let p = first_with_id(bm, bm[it].id);
    assert(bm[p].id == rows[kt].id);
    let a = seq![Event::Fetched(inv), Event::Picked(Some(l)), Event::Picked(Some(t))];
    assert(behaviour(snapshot, args, a) == StepView::Perform(
        crate::protocol::EffectView::Run(
            action_call(
                seq![
                    "move-bookmark"@,
                    "--id"@,
                    decimal(bm[i].id as nat),
                    "--pos"@,
                    decimal((p as u32) as nat),
                ],
            ),
        ),
    )) by {
        assert(bm.len() > 0);
        assert(first_match(labels, l@) == Some(i));
        assert(first_match(labels, t@) == Some(it));
    }
    assert(rows[k] == rows[k] && rows[kt] == rows[kt] && bm[p] == bm[p]);
}

} // verus!
