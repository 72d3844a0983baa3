//! The spaced-repetition scheduler: a pure transition from a card's scheduling
//! state and a pass/fail outcome to the next state and review interval.
//!
//! The ease factor is held in hundredths (`250` stands for `2.5`), so that every
//! step of the formula is exact integer arithmetic.
use vstd::prelude::*;

verus! {

/// Ease factor of a newly created card, in hundredths.
pub const DEFAULT_EFACTOR: u32 = 250;

/// The ease factor never falls below this value, in hundredths.
pub const MIN_EFACTOR: u32 = 130;

/// Growth of the ease factor on each passed review, in hundredths.
pub const EFACTOR_STEP: u32 = 10;

/// Interval of a newly created card, in days.
pub const DEFAULT_INTERVAL: u32 = 1;

/// Interval after the first passed review of a card whose interval is one day.
pub const FIRST_PASS_INTERVAL: u32 = 6;

/// Seconds in one day.
pub const SECONDS_PER_DAY: i64 = 86400;

/// A span of whole days.
#[derive(Clone, Copy, Debug, PartialEq, Eq, Structural)]
pub struct Duration {
    pub days: i64,
}

impl Duration {
    pub fn days(n: i64) -> (r: Duration)
        ensures
            r.days == n,
    {
        Duration { days: n }
    }

    pub fn num_days(&self) -> (r: i64)
        ensures
            r == self.days,
    {
        self.days
    }

    pub fn num_seconds(&self) -> (r: i64)
        requires
            self.days * SECONDS_PER_DAY <= i64::MAX,
            self.days * SECONDS_PER_DAY >= i64::MIN,
        ensures
            r == self.days * SECONDS_PER_DAY,
    {
        self.days * SECONDS_PER_DAY
    }
}

/// Scheduling state of one card.
#[derive(Clone, Copy, Debug, PartialEq, Eq, Structural)]
pub struct CardState {
    /// Ease factor in hundredths.
    pub efactor: u32,
    /// Current review interval in days.
    pub interval: u32,
}

impl CardState {
    /// The invariants every stored card keeps.
    pub open spec fn wf(self) -> bool {
        &&& self.efactor >= MIN_EFACTOR
        &&& self.interval >= 1
    }

    pub open spec fn spec_default() -> CardState {
        CardState { efactor: DEFAULT_EFACTOR, interval: DEFAULT_INTERVAL }
    }
}

impl Default for CardState {
    fn default() -> (r: CardState)
        ensures
            r == CardState::spec_default(),
            r.wf(),
    {
        CardState { efactor: DEFAULT_EFACTOR, interval: DEFAULT_INTERVAL }
    }
}

/// The ease factor after a pass: one step up (saturating at the type's
/// maximum), never below the floor.
pub open spec fn efactor_after_pass(ef: u32) -> u32 {
    let raised: int = if ef + EFACTOR_STEP > u32::MAX {
        u32::MAX as int
    } else {
        ef + EFACTOR_STEP
    };
    if raised < MIN_EFACTOR {
        MIN_EFACTOR
    } else {
        raised as u32
    }
}

/// `interval * efactor`, with the ease factor in hundredths, rounded to the
/// nearest whole day (halves round up), saturating at the type's maximum.
pub open spec fn scaled_interval(interval: u32, efactor: u32) -> u32 {
    let days: int = (interval * efactor + 50) / 100;
    if days > u32::MAX {
        u32::MAX
    } else {
        days as u32
    }
}

/// The state after one review.
pub open spec fn advance(s: CardState, passed: bool) -> CardState {
    if !passed {
        CardState { efactor: s.efactor, interval: DEFAULT_INTERVAL }
    } else {
        let ef = efactor_after_pass(s.efactor);
        CardState {
            efactor: ef,
            interval: if s.interval == 1 {
                FIRST_PASS_INTERVAL
            } else {
                scaled_interval(s.interval, ef)
            },
        }
    }
}

/// The state after `n` passed reviews in a row.
pub open spec fn after_passes(s: CardState, n: nat) -> CardState
    decreases n,
{
    if n == 0 {
        s
    } else {
        advance(after_passes(s, (n - 1) as nat), true)
    }
}

/// Drives review timing: computes the next interval of a card and decides,
/// on each periodic scan, whether due cards are to be announced.
#[derive(Clone, Copy, Debug, PartialEq, Eq, Structural)]
pub struct Scheduler {
    /// Seconds between two due scans.
    pub scan_every_secs: u64,
}

/// Seconds between two due scans of a new scheduler.
pub const SCAN_EVERY_SECS: u64 = 60;

impl Scheduler {
    pub fn new() -> (r: Scheduler)
        ensures
            r.scan_every_secs == SCAN_EVERY_SECS,
    {
        Scheduler { scan_every_secs: SCAN_EVERY_SECS }
    }

    /// Applies one review outcome to `state` and returns the new interval.
    pub fn next(state: &mut CardState, passed: bool) -> (r: Duration)
        ensures
            *final(state) == advance(*old(state), passed),
            r.days == final(state).interval as i64,
            old(state).wf() ==> final(state).wf(),
    {
        if !passed {
            state.interval = DEFAULT_INTERVAL;
            return Duration::days(1);
        }
        let raised: u32 = state.efactor.saturating_add(EFACTOR_STEP);
        state.efactor = if raised < MIN_EFACTOR {
            MIN_EFACTOR
        } else {
            raised
        };
        if state.interval == 1 {
            state.interval = FIRST_PASS_INTERVAL;
        } else {
            let i: u64 = state.interval as u64;
            let e: u64 = state.efactor as u64;
            assert(i * e <= 0xFFFF_FFFFu64 * 0xFFFF_FFFFu64) by (nonlinear_arith)
                requires
                    i <= 0xFFFF_FFFFu64,
                    e <= 0xFFFF_FFFFu64,
            ;
            let product: u64 = i * e;
            let days: u64 = (product + 50) / 100;
            state.interval = if days > u32::MAX as u64 {
                u32::MAX
            } else {
                days as u32
            };
        }
        proof {
            if old(state).wf() {
                lemma_advance_keeps_wf(*old(state), passed);
            }
        }
        Duration::days(state.interval as i64)
    }
}

/// Scaling by an ease factor of at least the floor never shortens an interval.
pub proof fn lemma_scaled_not_shorter(interval: u32, efactor: u32)
    requires
        efactor >= MIN_EFACTOR,
    ensures
        scaled_interval(interval, efactor) >= interval,
{
    assert(interval * efactor >= interval * 100) by (nonlinear_arith)
        requires
            efactor >= 130,
            interval >= 0,
    ;
}

/// Every review keeps a card's invariants: the ease factor stays at or above
/// its floor and the interval at one day or more.
pub proof fn lemma_advance_keeps_wf(s: CardState, passed: bool)
    requires
        s.wf(),
    ensures
        advance(s, passed).wf(),
{
    if passed && s.interval != 1 {
        lemma_scaled_not_shorter(s.interval, efactor_after_pass(s.efactor));
    }
}

/// A passed review never leaves the ease factor below its floor.
pub proof fn lemma_pass_keeps_efactor_floor(s: CardState)
    ensures
        advance(s, true).efactor >= MIN_EFACTOR,
{
}

/// A failed review resets the interval to one day, whatever the prior interval
/// or ease factor, and leaves the ease factor as it was.
pub proof fn lemma_fail_resets_interval(s: CardState)
    ensures
        advance(s, false).interval == 1,
        advance(s, false).efactor == s.efactor,
{
}

/// Successive passes from a new card raise the ease factor by one step each
/// (2.5, 2.6, 2.7, ...); the first moves the interval from one day to six, and
/// each later one multiplies it by the new ease factor, rounded to whole days.
pub proof fn lemma_successive_passes(n: nat)
    requires
        DEFAULT_EFACTOR + EFACTOR_STEP * (n + 1) <= u32::MAX,
    ensures
        after_passes(CardState::spec_default(), n).efactor == DEFAULT_EFACTOR + EFACTOR_STEP * n,
        n == 1 ==> after_passes(CardState::spec_default(), n).interval == FIRST_PASS_INTERVAL,
        n >= 1 ==> after_passes(CardState::spec_default(), n).interval >= FIRST_PASS_INTERVAL,
        n >= 1 ==> after_passes(CardState::spec_default(), n + 1).interval == scaled_interval(
            after_passes(CardState::spec_default(), n).interval,
            (DEFAULT_EFACTOR + EFACTOR_STEP * (n + 1)) as u32,
        ),
    decreases n,
{
    let d = CardState::spec_default();
    if n > 0 {
        lemma_successive_passes((n - 1) as nat);
        if n >= 2 {
            lemma_scaled_not_shorter(
                after_passes(d, (n - 1) as nat).interval,
                after_passes(d, n).efactor,
            );
        }
    }
}

} // verus!
