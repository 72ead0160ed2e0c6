//! The decisions of the poll loop of one chain. The loop itself (fetching,
//! storing, sleeping) runs outside; it performs each action and reports
//! what came of it as the next event.

use vstd::prelude::*;

verus! {

/// Delay before the next poll when there is nothing new, and the first
/// delay after a failure.
pub const BACKOFF_BASE_MS: u64 = 1000;

/// The longest delay after consecutive failures.
pub const BACKOFF_MAX_MS: u64 = 60000;

/// The delay after `failures` consecutive failures: doubling from the base,
/// bounded by the maximum.
pub open spec fn backoff_ms(failures: nat) -> nat
    decreases failures,
{
    if failures == 0 {
        BACKOFF_BASE_MS as nat
    } else {
        let d = 2 * backoff_ms((failures - 1) as nat);
        if d > BACKOFF_MAX_MS {
            BACKOFF_MAX_MS as nat
        } else {
            d
        }
    }
}

proof fn lemma_backoff_bounded(failures: nat)
    ensures
        BACKOFF_BASE_MS <= backoff_ms(failures) <= BACKOFF_MAX_MS,
    decreases failures,
{
    if failures > 0 {
        lemma_backoff_bounded((failures - 1) as nat);
    }
}

proof fn lemma_backoff_saturates(k: nat, n: nat)
    requires
        k <= n,
        backoff_ms(k) == BACKOFF_MAX_MS,
    ensures
        backoff_ms(n) == BACKOFF_MAX_MS,
    decreases n - k,
{
    if k < n {
        lemma_backoff_saturates(k, (n - 1) as nat);
    }
}

/// The delay in milliseconds after `failures` consecutive failures.
pub fn backoff_delay(failures: u32) -> (r: u64)
    ensures
        r == backoff_ms(failures as nat),
{
    let mut d: u64 = BACKOFF_BASE_MS;
    let mut k: u32 = 0;
    while k < failures && d < BACKOFF_MAX_MS
        invariant
            k <= failures,
            d == backoff_ms(k as nat),
        decreases failures - k,
    {
        proof {
            lemma_backoff_bounded(k as nat);
        }
        d = if 2 * d > BACKOFF_MAX_MS {
            BACKOFF_MAX_MS
        } else {
            2 * d
        };
        k = k + 1;
    }
    proof {
        if k < failures {
            lemma_backoff_bounded(k as nat);
            lemma_backoff_saturates(k as nat, failures as nat);
        }
    }
    d
}

/// What the loop is waiting for.
#[derive(Clone, Copy, Debug, PartialEq, Eq, Structural)]
pub enum Stage {
    Idle,
    AwaitingLatest,
    AwaitingBlock(i64),
    AwaitingAcceptance(i64),
}

/// What the loop reports back.
#[derive(Clone, Copy, Debug, PartialEq, Eq, Structural)]
pub enum PollEvent {
    /// The delay has passed.
    Tick,
    /// The chain reported its latest height.
    LatestHeight(i64),
    /// The requested block was fetched and mapped.
    BlockFetched,
    /// Storage accepted the transactions of the requested block.
    Accepted,
    /// The pending fetch or store failed.
    Failed,
}

/// What the loop is to do next.
#[derive(Clone, Copy, Debug, PartialEq, Eq, Structural)]
pub enum PollAction {
    FetchLatest,
    FetchBlock(i64),
    Store(i64),
    AdvanceCursor(i64),
    Sleep(u64),
    Ignore,
}

/// The state of the poll loop of one chain.
#[derive(Clone, Copy, Debug, PartialEq, Eq, Structural)]
pub struct Poller {
    /// The last height whose transactions storage accepted.
    pub cursor: i64,
    /// The latest height the chain reported.
    pub latest: i64,
    pub stage: Stage,
    /// Consecutive failures.
    pub failures: u32,
}

pub open spec fn saturating_inc(n: u32) -> u32 {
    if n < u32::MAX {
        (n + 1) as u32
    } else {
        n
    }
}

/// Transition on the event `e` from the state `s`: the next state and the
/// action.
pub open spec fn next(s: Poller, e: PollEvent) -> (Poller, PollAction) {
    match e {
        PollEvent::Tick => match s.stage {
            Stage::Idle => if s.cursor < s.latest {
                (
                    Poller { stage: Stage::AwaitingBlock((s.cursor + 1) as i64), ..s },
                    PollAction::FetchBlock((s.cursor + 1) as i64),
                )
            } else {
                (Poller { stage: Stage::AwaitingLatest, ..s }, PollAction::FetchLatest)
            },
            _ => (s, PollAction::Ignore),
        },
        PollEvent::LatestHeight(l) => match s.stage {
            Stage::AwaitingLatest => if l <= s.cursor {
                (
                    Poller { latest: l, stage: Stage::Idle, failures: 0, ..s },
                    PollAction::Sleep(BACKOFF_BASE_MS),
                )
            } else {
                (
                    Poller {
                        latest: l,
                        stage: Stage::AwaitingBlock((s.cursor + 1) as i64),
                        failures: 0,
                        ..s
                    },
                    PollAction::FetchBlock((s.cursor + 1) as i64),
                )
            },
            _ => (s, PollAction::Ignore),
        },
        PollEvent::BlockFetched => match s.stage {
            Stage::AwaitingBlock(h) => (
                Poller { stage: Stage::AwaitingAcceptance(h), ..s },
                PollAction::Store(h),
            ),
            _ => (s, PollAction::Ignore),
        },
        PollEvent::Accepted => match s.stage {
            Stage::AwaitingAcceptance(h) => if s.cursor < h {
                (Poller { cursor: h, stage: Stage::Idle, failures: 0, ..s }, PollAction::AdvanceCursor(h))
            } else {
                (s, PollAction::Ignore)
            },
            _ => (s, PollAction::Ignore),
        },
        PollEvent::Failed => match s.stage {
            Stage::Idle => (s, PollAction::Ignore),
            _ => (
                Poller { stage: Stage::Idle, failures: saturating_inc(s.failures), ..s },
                PollAction::Sleep(backoff_ms(saturating_inc(s.failures) as nat) as u64),
            ),
        },
    }
}

impl Poller {
    /// A block being fetched or stored is always the one after the cursor.
    pub open spec fn wf(self) -> bool {
        match self.stage {
            Stage::AwaitingBlock(h) => self.cursor < self.latest && h == self.cursor + 1,
            Stage::AwaitingAcceptance(h) => self.cursor < self.latest && h == self.cursor + 1,
            _ => true,
        }
    }

    /// An idle loop whose cursor stands at `cursor`.
    pub fn new(cursor: i64) -> (r: Poller)
        ensures
            r.wf(),
            r == (Poller { cursor, latest: cursor, stage: Stage::Idle, failures: 0 }),
    {
        Poller { cursor, latest: cursor, stage: Stage::Idle, failures: 0 }
    }

    /// Takes the event `event` and returns the next action.
    pub fn step(&mut self, event: PollEvent) -> (action: PollAction)
        ensures
            (*final(self), action) == next(*old(self), event),
    {
        let s = *self;
        match event {
            PollEvent::Tick => match s.stage {
                Stage::Idle => if s.cursor < s.latest {
                    self.stage = Stage::AwaitingBlock(s.cursor + 1);
                    PollAction::FetchBlock(s.cursor + 1)
                } else {
                    self.stage = Stage::AwaitingLatest;
                    PollAction::FetchLatest
                },
                _ => PollAction::Ignore,
            },
            PollEvent::LatestHeight(l) => match s.stage {
                Stage::AwaitingLatest => {
                    self.latest = l;
                    self.failures = 0;
                    if l <= s.cursor {
                        self.stage = Stage::Idle;
                        PollAction::Sleep(BACKOFF_BASE_MS)
                    } else {
                        self.stage = Stage::AwaitingBlock(s.cursor + 1);
                        PollAction::FetchBlock(s.cursor + 1)
                    }
                },
                _ => PollAction::Ignore,
            },
            PollEvent::BlockFetched => match s.stage {
                Stage::AwaitingBlock(h) => {
                    self.stage = Stage::AwaitingAcceptance(h);
                    PollAction::Store(h)
                },
                _ => PollAction::Ignore,
            },
            PollEvent::Accepted => match s.stage {
                Stage::AwaitingAcceptance(h) => if s.cursor < h {
                    self.cursor = h;
                    self.stage = Stage::Idle;
                    self.failures = 0;
                    PollAction::AdvanceCursor(h)
                } else {
                    PollAction::Ignore
                },
                _ => PollAction::Ignore,
            },
            PollEvent::Failed => match s.stage {
                Stage::Idle => PollAction::Ignore,
                _ => {
                    let failures = if s.failures < u32::MAX {
                        s.failures + 1
                    } else {
                        s.failures
                    };
                    self.stage = Stage::Idle;
                    self.failures = failures;
                    PollAction::Sleep(backoff_delay(failures))
                },
            },
        }
    }
}

/// Each height is taken in order and the cursor only moves forward, by one
/// height, when storage accepted that height, and the loop is told to
/// advance the stored cursor to it; on any other event the cursor stays.
pub proof fn lemma_step_advances_in_order(s: Poller, e: PollEvent)
    requires
        s.wf(),
    ensures
        next(s, e).0.wf(),
        next(s, e).0.cursor >= s.cursor,
        next(s, e).0.cursor != s.cursor ==> {
            &&& e == PollEvent::Accepted
            &&& s.stage == Stage::AwaitingAcceptance(next(s, e).0.cursor)
            &&& next(s, e).0.cursor == s.cursor + 1
            &&& next(s, e).1 == PollAction::AdvanceCursor(next(s, e).0.cursor)
        },
        e != PollEvent::Accepted ==> next(s, e).0.cursor == s.cursor,
{
}

/// When the chain reports no height above the cursor, nothing is fetched and
/// the loop waits.
pub proof fn lemma_no_fetch_at_tip(s: Poller, latest: i64)
    requires
        s.stage == Stage::AwaitingLatest,
        latest <= s.cursor,
    ensures
        next(s, PollEvent::LatestHeight(latest)).1 == PollAction::Sleep(BACKOFF_BASE_MS),
        next(s, PollEvent::LatestHeight(latest)).0.stage == Stage::Idle,
        next(s, PollEvent::LatestHeight(latest)).0.cursor == s.cursor,
{
}

/// After a failure the cursor stays, and the loop comes back to the same
/// height: the next tick fetches the block after the cursor again.
pub proof fn lemma_failure_retries_same_height(s: Poller)
    requires
        s.wf(),
        s.stage != Stage::Idle,
        s.cursor < s.latest,
    ensures
        next(s, PollEvent::Failed).0.cursor == s.cursor,
        next(next(s, PollEvent::Failed).0, PollEvent::Tick).1 == PollAction::FetchBlock((s.cursor + 1) as i64),
{
}

} // verus!
