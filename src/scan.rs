//! The periodic due scan: which stored cards are due, and what one tick of
//! the scan loop does with what the store returned.
use vstd::prelude::*;
use crate::card::{CardJson, CardView};
use crate::error::PipelineError;
use crate::schedule::Scheduler;

verus! {

/// A stored card with its next due time (seconds since the Unix epoch).
pub struct StoredCard {
    pub card: CardJson,
    pub next_due: i64,
}

/// The cards among `rows` whose due time is not after `as_of`, in the order
/// of `rows`.
pub open spec fn due_cards(rows: Seq<StoredCard>, as_of: i64) -> Seq<CardView>
    decreases rows.len(),
{
    if rows.len() == 0 {
        Seq::empty()
    } else {
        let p = due_cards(rows.drop_last(), as_of);
        if rows.last().next_due <= as_of {
            p.push(rows.last().card@)
        } else {
            p
        }
    }
}

pub open spec fn views(cards: Seq<CardJson>) -> Seq<CardView> {
    cards.map_values(|c: CardJson| c@)
}

/// The due cards among the stored rows, which the store hands over ordered by
/// identity.
pub fn fetch_due_cards(rows: &Vec<StoredCard>, as_of: i64) -> (r: Vec<CardJson>)
    ensures
        views(r@) == due_cards(rows@, as_of),
{
    let mut out: Vec<CardJson> = Vec::new();
    let mut i: usize = 0;
    while i < rows.len()
        invariant
            i <= rows.len(),
            views(out@) == due_cards(rows@.subrange(0, i as int), as_of),
        decreases rows.len() - i,
    {
        proof {
            assert(rows@.subrange(0, i + 1).drop_last() =~= rows@.subrange(0, i as int));
        }
        let row = &rows[i];
        if row.next_due <= as_of {
            let c = row.card.duplicate();
            let ghost before = out@;
            out.push(c);
            proof {
                assert(views(out@) =~= views(before).push(c@));
            }
        }
        i = i + 1;
    }
    proof {
        assert(rows@.subrange(0, rows.len() as int) =~= rows@);
    }
    out
}

/// What one tick of the due scan does.
pub enum ScanAction {
    /// Announce the due cards, in one signal.
    NotifyDue { cards: Vec<CardJson> },
    /// Nothing is due: wait for the next tick.
    Quiet,
    /// The store could not be read: log it and try again on the next tick.
    Retry { failure: PipelineError },
}

impl Scheduler {
    /// Decides one tick of the due scan from what the store returned.
    pub fn on_scan(&self, fetched: Result<Vec<CardJson>, PipelineError>) -> (r: ScanAction)
        ensures
            fetched matches Err(e) ==> r == (ScanAction::Retry { failure: e }),
            fetched matches Ok(cards) ==> (cards@.len() == 0 <==> r is Quiet),
            fetched matches Ok(cards) ==> (cards@.len() > 0 ==> r == (ScanAction::NotifyDue {
                cards: cards,
            })),
    {
        match fetched {
            Err(e) => ScanAction::Retry { failure: e },
            Ok(cards) => {
                if cards.len() == 0 {
                    ScanAction::Quiet
                } else {
                    ScanAction::NotifyDue { cards }
                }
            },
        }
    }
}

/// Two scans with no review in between return the same due set: at one
/// instant the result is fixed by the rows, and a later scan differs only by
/// cards whose due time fell between the two scans.
pub proof fn lemma_due_scan_stable(rows: Seq<StoredCard>, t1: i64, t2: i64)
    requires
        t1 <= t2,
        forall|k: int| 0 <= k < rows.len() ==> !(t1 < #[trigger] rows[k].next_due <= t2),
    ensures
        due_cards(rows, t1) == due_cards(rows, t2),
    decreases rows.len(),
{
    if rows.len() > 0 {
        let front = rows.drop_last();
        assert forall|k: int| 0 <= k < front.len() implies !(t1 < #[trigger] front[k].next_due
            <= t2) by {
            assert(front[k] == rows[k]);
        }
        lemma_due_scan_stable(front, t1, t2);
        assert(rows[rows.len() - 1] == rows.last());
    }
}

/// A card that is due stays due until it is reviewed: the due set only grows
/// as time passes.
pub proof fn lemma_due_set_grows(rows: Seq<StoredCard>, t1: i64, t2: i64, c: CardView)
    requires
        t1 <= t2,
        due_cards(rows, t1).contains(c),
    ensures
        due_cards(rows, t2).contains(c),
    decreases rows.len(),
{
    if rows.len() > 0 {
        let front = rows.drop_last();
        let p1 = due_cards(front, t1);
        let p2 = due_cards(front, t2);
        if p1.contains(c) {
            lemma_due_set_grows(front, t1, t2, c);
            let j = choose|j: int| 0 <= j < p2.len() && p2[j] == c;
            if rows.last().next_due <= t2 {
                assert(p2.push(rows.last().card@)[j] == c);
            }
        } else {
            if rows.last().next_due > t1 {
                assert(due_cards(rows, t1) == p1);
            }
            assert(due_cards(rows, t1) == p1.push(rows.last().card@));
            assert(due_cards(rows, t1)[p1.len() as int] == rows.last().card@);
            assert(due_cards(rows, t2) == p2.push(rows.last().card@));
            assert(due_cards(rows, t2)[p2.len() as int] == c);
        }
    }
}

} // verus!
