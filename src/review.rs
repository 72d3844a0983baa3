//! The review feedback loop: turns one review outcome and the card's stored
//! scheduling state into the update that the store commits in one transaction.
use vstd::prelude::*;
use crate::error::PipelineError;
use crate::schedule::{advance, CardState, Duration, Scheduler, SECONDS_PER_DAY};

verus! {

/// Latest review time (seconds since the Unix epoch) at which every possible
/// next due time still fits in an `i64`.
pub const MAX_REVIEW_TIME: i64 = 9_222_000_000_000_000_000;

/// Result of a single card review; `reviewed_at` is in seconds since the Unix
/// epoch.
#[derive(Clone, Copy, Debug, PartialEq, Eq, Structural)]
pub struct ReviewOutcome {
    pub card_id: i64,
    pub passed: bool,
    pub reviewed_at: i64,
}

/// One entry of a card's append-only review history.
#[derive(Clone, Copy, Debug, PartialEq, Eq, Structural)]
pub struct Review {
    pub card_id: i64,
    pub reviewed_at: i64,
    pub passed: bool,
}

/// A card's stored scheduling state together with its next due time.
#[derive(Clone, Copy, Debug, PartialEq, Eq, Structural)]
pub struct Schedule {
    pub state: CardState,
    pub next_due: i64,
}

/// What the store commits for one outcome: the new schedule and the review
/// record, as one unit.
#[derive(Clone, Copy, Debug, PartialEq, Eq, Structural)]
pub struct ScheduleUpdate {
    pub card_id: i64,
    pub schedule: Schedule,
    pub review: Review,
}

/// The next due time after a review at `reviewed_at` that leaves `s`.
pub open spec fn due_after(s: CardState, reviewed_at: i64) -> int {
    reviewed_at + s.interval * SECONDS_PER_DAY
}

/// The schedule of a card created at `now`: default state, due at once.
pub fn new_schedule(now: i64) -> (r: Schedule)
    ensures
        r.state == CardState::spec_default(),
        r.next_due == now,
{
    Schedule { state: CardState::default(), next_due: now }
}

/// Applies `outcome` to the card's current state, or reports that no card
/// with that identity is stored.
pub fn apply_outcome(current: Option<CardState>, outcome: ReviewOutcome) -> (r: Result<
    ScheduleUpdate,
    PipelineError,
>)
    requires
        outcome.reviewed_at <= MAX_REVIEW_TIME,
    ensures
        current is None <==> r is Err,
        current is None ==> r == Err::<ScheduleUpdate, PipelineError>(
            PipelineError::SchedulingInconsistency { card_id: outcome.card_id },
        ),
        current matches Some(s) ==> r matches Ok(u) && u.card_id == outcome.card_id
            && u.schedule.state == advance(s, outcome.passed) && u.schedule.next_due
            == due_after(advance(s, outcome.passed), outcome.reviewed_at) && u.review == (Review {
            card_id: outcome.card_id,
            reviewed_at: outcome.reviewed_at,
            passed: outcome.passed,
        }),
{
    match current {
        None => Err(PipelineError::SchedulingInconsistency { card_id: outcome.card_id }),
        Some(s) => {
            let mut state = s;
            let interval: Duration = Scheduler::next(&mut state, outcome.passed);
            let secs: i64 = interval.num_seconds();
            let next_due: i64 = outcome.reviewed_at + secs;
            Ok(
                ScheduleUpdate {
                    card_id: outcome.card_id,
                    schedule: Schedule { state, next_due },
                    review: Review {
                        card_id: outcome.card_id,
                        reviewed_at: outcome.reviewed_at,
                        passed: outcome.passed,
                    },
                },
            )
        },
    }
}

} // verus!
