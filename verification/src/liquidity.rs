//! The liquidity watcher: a bounded poll of a pool's reserves.
//!
//! The watcher decides; its driver reads the reserves and lets the delay pass.
//! Each transition takes what the driver observed and gives the next state,
//! and `pending` says what the watcher is waiting for in a state.

use crate::address::{base_asset_bytes, Address};
use crate::event::PairCreatedEvent;
use vstd::prelude::*;

verus! {

/// Ceiling on the number of reads of the reserves for one pair.
pub const MAX_ATTEMPTS: u8 = 30;

/// Delay between a failed attempt and what follows it, in time units.
pub const RETRY_DELAY: u64 = 5;

/// Reserve of the base asset from which a pool counts as liquid: half a unit,
/// in subunits of 18 decimal places.
pub const LIQUIDITY_THRESHOLD: u128 = 500_000_000_000_000_000;

/// The two balances that a pool reports, in the order of its tokens.
#[derive(Clone, Copy, Debug, PartialEq, Eq)]
pub struct Reserves {
    pub reserve0: u128,
    pub reserve1: u128,
}

/// One successful read of the reserves, with the index of the attempt that made it.
#[derive(Clone, Copy, Debug, PartialEq, Eq)]
pub struct LiquiditySnapshot {
    pub reserve_of_token0: u128,
    pub reserve_of_token1: u128,
    pub attempt_index: u8,
}

/// Where the watcher stands.
#[derive(Clone, Copy, Debug, PartialEq, Eq, Structural)]
pub enum LiquidityStatus {
    Waiting,
    Sufficient,
    TimedOut,
}

/// What the watcher is waiting for.
#[derive(Clone, Copy, Debug, PartialEq, Eq, Structural)]
pub enum WatchAction {
    /// Read the pool's reserves and report the result.
    Poll,
    /// Let this many time units pass and report back.
    Rest(u64),
    /// Liquidity is sufficient: go on with the pair.
    Proceed,
    /// The attempts are spent: drop the pair.
    Abandon,
}

/// The state of the watcher for one pair.
#[derive(Clone, Copy, Debug, PartialEq, Eq)]
pub struct LiquidityWatcher {
    /// Attempts that have failed so far.
    pub failed: u8,
    pub status: LiquidityStatus,
    /// Whether the delay after a failed attempt is running.
    pub resting: bool,
    /// The latest successful read, if any.
    pub last: Option<LiquiditySnapshot>,
}

/// The reserve that counts for liquidity: that of the side that is the base
/// asset, and zero where neither side is.
pub open spec fn spec_relevant_reserve(event: PairCreatedEvent, reserves: Reserves) -> u128 {
    if event.token0@ == base_asset_bytes() {
        reserves.reserve0
    } else if event.token1@ == base_asset_bytes() {
        reserves.reserve1
    } else {
        0
    }
}

/// Whether one attempt reaches the threshold. A read that failed does not.
pub open spec fn spec_sufficient(event: PairCreatedEvent, poll: Option<Reserves>) -> bool {
    poll matches Some(reserves) && spec_relevant_reserve(event, reserves) >= LIQUIDITY_THRESHOLD
}

/// The reserve that counts for liquidity.
pub fn relevant_reserve(event: &PairCreatedEvent, reserves: &Reserves) -> (r: u128)
    ensures
        r == spec_relevant_reserve(*event, *reserves),
{
    let base = Address::base_asset();
    if event.token0.same_as(&base) {
        reserves.reserve0
    } else if event.token1.same_as(&base) {
        reserves.reserve1
    } else {
        0
    }
}

/// Whether one attempt reaches the threshold.
pub fn sufficient(event: &PairCreatedEvent, poll: &Option<Reserves>) -> (r: bool)
    ensures
        r == spec_sufficient(*event, *poll),
{
    match poll {
        Some(reserves) => relevant_reserve(event, reserves) >= LIQUIDITY_THRESHOLD,
        None => false,
    }
}

impl LiquidityWatcher {
    /// The invariant of the watcher: the attempts stay within the ceiling, and
    /// the flags agree with the status.
    pub open spec fn wf(&self) -> bool {
        &&& self.failed <= MAX_ATTEMPTS
        &&& self.status is Waiting && !self.resting ==> self.failed < MAX_ATTEMPTS
        &&& self.status is Waiting && self.resting ==> self.failed >= 1
        &&& self.status is Sufficient ==> !self.resting && self.failed < MAX_ATTEMPTS
        &&& self.status is TimedOut ==> !self.resting && self.failed == MAX_ATTEMPTS
    }

    /// Whether the watcher waits for the result of a read.
    pub open spec fn awaits_poll(&self) -> bool {
        self.wf() && self.status is Waiting && !self.resting
    }

    /// Whether the watcher waits for the delay to pass.
    pub open spec fn awaits_rest(&self) -> bool {
        self.wf() && self.status is Waiting && self.resting
    }

    /// The watcher before the first attempt.
    pub open spec fn spec_new() -> LiquidityWatcher {
        LiquidityWatcher { failed: 0, status: LiquidityStatus::Waiting, resting: false, last: None }
    }

    /// What the watcher is waiting for.
    pub open spec fn spec_pending(&self) -> WatchAction {
        match self.status {
            LiquidityStatus::Waiting => if self.resting {
                WatchAction::Rest(RETRY_DELAY)
            } else {
                WatchAction::Poll
            },
            LiquidityStatus::Sufficient => WatchAction::Proceed,
            LiquidityStatus::TimedOut => WatchAction::Abandon,
        }
    }

    /// The snapshot that a read leaves: the reserves read, under the index of
    /// the attempt; a failed read leaves the earlier snapshot in place.
    pub open spec fn spec_snapshot(&self, poll: Option<Reserves>) -> Option<LiquiditySnapshot> {
        match poll {
            Some(reserves) => Some(
                LiquiditySnapshot {
                    reserve_of_token0: reserves.reserve0,
                    reserve_of_token1: reserves.reserve1,
                    attempt_index: self.failed,
                },
            ),
            None => self.last,
        }
    }

    /// The state after an attempt: sufficient as soon as the relevant reserve
    /// reaches the threshold; else one more failed attempt, and the delay runs.
    pub open spec fn spec_on_poll(&self, event: PairCreatedEvent, poll: Option<Reserves>) -> LiquidityWatcher {
        if spec_sufficient(event, poll) {
            LiquidityWatcher {
                failed: self.failed,
                status: LiquidityStatus::Sufficient,
                resting: false,
                last: self.spec_snapshot(poll),
            }
        } else {
            LiquidityWatcher {
                failed: (self.failed + 1) as u8,
                status: LiquidityStatus::Waiting,
                resting: true,
                last: self.spec_snapshot(poll),
            }
        }
    }

    /// The state after the delay: timed out once the attempts are spent, else
    /// ready for the next attempt.
    pub open spec fn spec_on_rest_elapsed(&self) -> LiquidityWatcher {
        LiquidityWatcher {
            failed: self.failed,
            status: if self.failed >= MAX_ATTEMPTS {
                LiquidityStatus::TimedOut
            } else {
                LiquidityStatus::Waiting
            },
            resting: false,
            last: self.last,
        }
    }

    /// A watcher before its first attempt: it waits for a read.
    pub fn new() -> (r: LiquidityWatcher)
        ensures
            r == Self::spec_new(),
            r.awaits_poll(),
    {
        LiquidityWatcher { failed: 0, status: LiquidityStatus::Waiting, resting: false, last: None }
    }

    /// What the watcher is waiting for.
    pub fn pending(&self) -> (r: WatchAction)
        ensures
            r == self.spec_pending(),
    {
        match self.status {
            LiquidityStatus::Waiting => if self.resting {
                WatchAction::Rest(RETRY_DELAY)
            } else {
                WatchAction::Poll
            },
            LiquidityStatus::Sufficient => WatchAction::Proceed,
            LiquidityStatus::TimedOut => WatchAction::Abandon,
        }
    }

    /// Whether the invariant of the watcher holds of this value.
    pub fn is_wf(&self) -> (r: bool)
        ensures
            r == self.wf(),
    {
        match self.status {
            LiquidityStatus::Waiting => if self.resting {
                1 <= self.failed && self.failed <= MAX_ATTEMPTS
            } else {
                self.failed < MAX_ATTEMPTS
            },
            LiquidityStatus::Sufficient => !self.resting && self.failed < MAX_ATTEMPTS,
            LiquidityStatus::TimedOut => !self.resting && self.failed == MAX_ATTEMPTS,
        }
    }

    /// Whether the watcher waits for the result of a read.
    pub fn is_awaiting_poll(&self) -> (r: bool)
        ensures
            r == self.awaits_poll(),
    {
        self.is_wf() && matches!(self.status, LiquidityStatus::Waiting) && !self.resting
    }

    /// Whether the watcher waits for the delay to pass.
    pub fn is_awaiting_rest(&self) -> (r: bool)
        ensures
            r == self.awaits_rest(),
    {
        self.is_wf() && matches!(self.status, LiquidityStatus::Waiting) && self.resting
    }

    /// Takes the result of one read of the reserves; `None` stands for a read
    /// that failed, which counts as a failed attempt.
    pub fn on_poll(self, event: &PairCreatedEvent, poll: Option<Reserves>) -> (r: LiquidityWatcher)
        requires
            self.awaits_poll(),
        ensures
            r == self.spec_on_poll(*event, poll),
            r.wf(),
            spec_sufficient(*event, poll) ==> r.status is Sufficient && r.failed == self.failed,
            !spec_sufficient(*event, poll) ==> r.awaits_rest() && r.failed == self.failed + 1,
    {
        let last = match poll {
            Some(reserves) => Some(
                LiquiditySnapshot {
                    reserve_of_token0: reserves.reserve0,
                    reserve_of_token1: reserves.reserve1,
                    attempt_index: self.failed,
                },
            ),
            None => self.last,
        };
        if sufficient(event, &poll) {
            LiquidityWatcher {
                failed: self.failed,
                status: LiquidityStatus::Sufficient,
                resting: false,
                last,
            }
        } else {
            LiquidityWatcher {
                failed: self.failed + 1,
                status: LiquidityStatus::Waiting,
                resting: true,
                last,
            }
        }
    }

    /// Takes the end of the delay that followed a failed attempt.
    pub fn on_rest_elapsed(self) -> (r: LiquidityWatcher)
        requires
            self.awaits_rest(),
        ensures
            r == self.spec_on_rest_elapsed(),
            r.wf(),
            self.failed < MAX_ATTEMPTS ==> r.awaits_poll(),
            self.failed == MAX_ATTEMPTS ==> r.status is TimedOut,
    {
        LiquidityWatcher {
            failed: self.failed,
            status: if self.failed >= MAX_ATTEMPTS {
                LiquidityStatus::TimedOut
            } else {
                LiquidityStatus::Waiting
            },
            resting: false,
            last: self.last,
        }
    }
}

/// The answer to the read of attempt `k` in a script of answers: a script that
/// has run out answers with a failed read.
pub open spec fn poll_at(polls: Seq<Option<Reserves>>, k: nat) -> Option<Reserves> {
    if k < polls.len() {
        polls[k as int]
    } else {
        None
    }
}

/// The first attempt, from attempt `from` on and below the ceiling, that
/// reaches the threshold; none where no such attempt does.
pub open spec fn first_sufficient(event: PairCreatedEvent, polls: Seq<Option<Reserves>>, from: nat) -> Option<nat>
    decreases MAX_ATTEMPTS - from,
{
    if from >= MAX_ATTEMPTS {
        None
    } else if spec_sufficient(event, poll_at(polls, from)) {
        Some(from)
    } else {
        first_sufficient(event, polls, from + 1)
    }
}

/// The watcher once it has been driven to its end from the state `watcher`:
/// each read is answered from the script, under the index of its attempt, and
/// each delay that the watcher asks for is allowed to pass.
pub open spec fn watch(watcher: LiquidityWatcher, event: PairCreatedEvent, polls: Seq<Option<Reserves>>) -> LiquidityWatcher
    decreases MAX_ATTEMPTS - watcher.failed,
{
    if !watcher.awaits_poll() {
        watcher
    } else {
        let polled = watcher.spec_on_poll(event, poll_at(polls, watcher.failed as nat));
        if polled.awaits_rest() {
            watch(polled.spec_on_rest_elapsed(), event, polls)
        } else {
            polled
        }
    }
}

/// The number of reads that a watcher has had answered.
pub open spec fn attempts_made(watcher: LiquidityWatcher) -> nat {
    if watcher.status is Sufficient {
        (watcher.failed + 1) as nat
    } else {
        watcher.failed as nat
    }
}

/// What `first_sufficient` finds: the attempt it names reaches the threshold
/// and none before it does; where it names none, no attempt below the ceiling
/// reaches the threshold.
pub proof fn lemma_first_sufficient(event: PairCreatedEvent, polls: Seq<Option<Reserves>>, from: nat)
    ensures
        match first_sufficient(event, polls, from) {
            Some(k) => {
                &&& from <= k < MAX_ATTEMPTS
                &&& spec_sufficient(event, poll_at(polls, k))
                &&& forall|j: nat| from <= j < k ==> !spec_sufficient(event, #[trigger] poll_at(polls, j))
            },
            None => forall|j: nat|
                from <= j < MAX_ATTEMPTS ==> !spec_sufficient(event, #[trigger] poll_at(polls, j)),
        },
    decreases MAX_ATTEMPTS - from,
{
    if from < MAX_ATTEMPTS && !spec_sufficient(event, poll_at(polls, from)) {
        lemma_first_sufficient(event, polls, from + 1);
    }
}

/// A watcher that waits for a read ends, whatever the reads give, either
/// sufficient at the first attempt that reaches the threshold, with exactly
/// the attempts before it failed, or timed out with all its attempts failed.
pub proof fn lemma_watch(watcher: LiquidityWatcher, event: PairCreatedEvent, polls: Seq<Option<Reserves>>)
    requires
        watcher.awaits_poll(),
    ensures
        watch(watcher, event, polls).wf(),
        match first_sufficient(event, polls, watcher.failed as nat) {
            Some(k) => watch(watcher, event, polls).status is Sufficient
                && watch(watcher, event, polls).failed == k,
            None => watch(watcher, event, polls).status is TimedOut
                && watch(watcher, event, polls).failed == MAX_ATTEMPTS,
        },
    decreases MAX_ATTEMPTS - watcher.failed,
{
    let polled = watcher.spec_on_poll(event, poll_at(polls, watcher.failed as nat));
    if polled.awaits_rest() {
        let rested = polled.spec_on_rest_elapsed();
        if rested.awaits_poll() {
            lemma_watch(rested, event, polls);
        }
    }
}

/// The watcher makes at most thirty attempts and stops at the first that
/// reaches the threshold: driven from its start, it has had one read answered
/// for each attempt up to and including that one, and thirty where none does.
pub proof fn law_watcher_stops_at_first_sufficient_attempt(
    event: PairCreatedEvent,
    polls: Seq<Option<Reserves>>,
)
    ensures
        attempts_made(watch(LiquidityWatcher::spec_new(), event, polls)) <= MAX_ATTEMPTS,
        match first_sufficient(event, polls, 0) {
            Some(k) => {
                &&& watch(LiquidityWatcher::spec_new(), event, polls).status is Sufficient
                &&& attempts_made(watch(LiquidityWatcher::spec_new(), event, polls)) == k + 1
                &&& spec_sufficient(event, poll_at(polls, k))
                &&& forall|j: nat| j < k ==> !spec_sufficient(event, #[trigger] poll_at(polls, j))
            },
            None => {
                &&& watch(LiquidityWatcher::spec_new(), event, polls).status is TimedOut
                &&& attempts_made(watch(LiquidityWatcher::spec_new(), event, polls)) == MAX_ATTEMPTS
                &&& forall|j: nat|
                    j < MAX_ATTEMPTS ==> !spec_sufficient(event, #[trigger] poll_at(polls, j))
            },
        },
{
    lemma_watch(LiquidityWatcher::spec_new(), event, polls);
    lemma_first_sufficient(event, polls, 0);
}

/// Two reads are separated by the fixed delay: after an attempt that failed
/// the watcher asks for a rest of `RETRY_DELAY` and takes no read before the
/// rest has passed; only then does it ask for the next read, or time out.
pub proof fn law_attempts_are_separated_by_the_delay(
    watcher: LiquidityWatcher,
    event: PairCreatedEvent,
    poll: Option<Reserves>,
)
    requires
        watcher.awaits_poll(),
        !spec_sufficient(event, poll),
    ensures
        watcher.spec_on_poll(event, poll).spec_pending() == WatchAction::Rest(RETRY_DELAY),
        watcher.spec_on_poll(event, poll).awaits_rest(),
        !watcher.spec_on_poll(event, poll).awaits_poll(),
        watcher.spec_on_poll(event, poll).spec_on_rest_elapsed().spec_pending() == (if watcher.failed
            + 1 < MAX_ATTEMPTS {
            WatchAction::Poll
        } else {
            WatchAction::Abandon
        }),
{
}

} // verus!
