//! The per-chain sync cursor: the last block height whose transactions were
//! accepted downstream.

use crate::chain::Chain;
use crate::transaction::Timestamp;
use vstd::prelude::*;

verus! {

/// The height a chain's cursor stands at before anything was recorded.
pub const START_HEIGHT: i64 = 0;

/// The sync state of one chain.
#[derive(Clone, Copy, Debug, PartialEq, Eq, Structural)]
pub struct ParserState {
    pub chain: Chain,
    pub last_processed_block: i64,
    pub updated_at: Timestamp,
}

/// The cursor of `chain` in a store whose states are `m`.
pub open spec fn cursor_in(m: Map<Chain, ParserState>, chain: Chain) -> i64 {
    if m.contains_key(chain) {
        m[chain].last_processed_block
    } else {
        START_HEIGHT
    }
}

/// The states after `chain` was advanced to `height` at `now`: a height
/// below the one stored changes nothing.
pub open spec fn advanced(m: Map<Chain, ParserState>, chain: Chain, height: i64, now: Timestamp) -> Map<
    Chain,
    ParserState,
> {
    if m.contains_key(chain) && height <= m[chain].last_processed_block {
        m
    } else {
        let h = if height < cursor_in(m, chain) {
            cursor_in(m, chain)
        } else {
            height
        };
        m.insert(chain, ParserState { chain, last_processed_block: h, updated_at: now })
    }
}

/// The cursors of all chains, at most one state per chain.
pub struct CursorStore {
    states: Vec<ParserState>,
}

impl View for CursorStore {
    type V = Map<Chain, ParserState>;

    closed spec fn view(&self) -> Map<Chain, ParserState> {
        Map::new(
            |c: Chain| exists|i: int| 0 <= i < self.states@.len() && self.states@[i].chain == c,
            |c: Chain| self.states@[choose|i: int| 0 <= i < self.states@.len() && self.states@[i].chain == c],
        )
    }
}

impl CursorStore {
    /// Every state is keyed by its own chain, and no chain has two.
    pub closed spec fn wf(&self) -> bool {
        forall|i: int, j: int|
            0 <= i < self.states@.len() && 0 <= j < self.states@.len() && #[trigger] self.states@[i].chain
                == #[trigger] self.states@[j].chain ==> i == j
    }

    proof fn lemma_entry(&self, i: int)
        requires
            self.wf(),
            0 <= i < self.states@.len(),
        ensures
            self@.contains_key(self.states@[i].chain),
            self@[self.states@[i].chain] == self.states@[i],
    {
        let c = self.states@[i].chain;
        assert(exists|k: int| 0 <= k < self.states@.len() && self.states@[k].chain == c);
        let k = choose|k: int| 0 <= k < self.states@.len() && self.states@[k].chain == c;
        assert(self.states@[k].chain == self.states@[i].chain);
    }

    pub fn new() -> (r: Self)
        ensures
            r.wf(),
            r@ == Map::<Chain, ParserState>::empty(),
    {
        let r = CursorStore { states: Vec::new() };
        assert(r@ =~= Map::<Chain, ParserState>::empty());
        r
    }

    /// Where the state of `chain` stands in the store, if it has one.
    fn position(&self, chain: Chain) -> (r: Option<usize>)
        requires
            self.wf(),
        ensures
            match r {
                Some(i) => i < self.states@.len() && self.states@[i as int].chain == chain,
                None => !self@.contains_key(chain),
            },
    {
        let mut i: usize = 0;
        while i < self.states.len()
            invariant
                i <= self.states@.len(),
                forall|k: int| 0 <= k < i ==> self.states@[k].chain != chain,
            decreases self.states@.len() - i,
        {
            if self.states[i].chain == chain {
                return Some(i);
            }
            i = i + 1;
        }
        None
    }

    /// The stored state of `chain`.
    pub fn get(&self, chain: Chain) -> (r: Option<ParserState>)
        requires
            self.wf(),
        ensures
            r == (if self@.contains_key(chain) {
                Some(self@[chain])
            } else {
                None
            }),
    {
        match self.position(chain) {
            Some(i) => {
                proof {
                    self.lemma_entry(i as int);
                }
                Some(self.states[i])
            },
            None => None,
        }
    }

    /// The last height accepted for `chain`, or the start height where none
    /// was recorded.
    pub fn get_cursor(&self, chain: Chain) -> (r: i64)
        requires
            self.wf(),
        ensures
            r == cursor_in(self@, chain),
    {
        match self.get(chain) {
            Some(s) => s.last_processed_block,
            None => START_HEIGHT,
        }
    }

    /// Records that the transactions of `height` were accepted for `chain`.
    /// The cursor never moves back: a lower height leaves the store as it is.
    pub fn advance_cursor(&mut self, chain: Chain, height: i64, now: Timestamp)
        requires
            old(self).wf(),
        ensures
            final(self).wf(),
            final(self)@ == advanced(old(self)@, chain, height, now),
    {
        let ghost before = self@;
        match self.position(chain) {
            Some(i) => {
                proof {
                    self.lemma_entry(i as int);
                }
                if height <= self.states[i].last_processed_block {
                    return;
                }
                let state = ParserState { chain, last_processed_block: height, updated_at: now };
                self.states.set(i, state);
                assert forall|c: Chain| #[trigger] self@.contains_key(c) == before.contains_key(c) by {
                    if before.contains_key(c) {
                        let k = choose|k: int| 0 <= k < old(self).states@.len() && old(self).states@[k].chain == c;
                        assert(self.states@[k].chain == c);
                    }
                    if self@.contains_key(c) {
                        let k = choose|k: int| 0 <= k < self.states@.len() && self.states@[k].chain == c;
                        assert(old(self).states@[k].chain == c);
                    }
                }
                assert forall|c: Chain| #[trigger] self@.contains_key(c) implies self@[c] == advanced(
                    before,
                    chain,
                    height,
                    now,
                )[c] by {
                    let k = choose|k: int| 0 <= k < self.states@.len() && self.states@[k].chain == c;
                    assert(old(self).states@[k].chain == c);
                    old(self).lemma_entry(k);
                    self.lemma_entry(k);
                }
                assert(self@ =~= advanced(before, chain, height, now));
            },
            None => {
                let h = if height < START_HEIGHT {
                    START_HEIGHT
                } else {
                    height
                };
                let state = ParserState { chain, last_processed_block: h, updated_at: now };
                self.states.push(state);
                let ghost n: int = self.states@.len() - 1;
                assert forall|c: Chain| #[trigger] self@.contains_key(c) == advanced(before, chain, height, now).contains_key(c) by {
                    if before.contains_key(c) {
                        let k = choose|k: int| 0 <= k < old(self).states@.len() && old(self).states@[k].chain == c;
                        assert(self.states@[k].chain == c);
                    }
                    if c == chain {
                        assert(self.states@[n].chain == c);
                    }
                }
                assert forall|c: Chain| #[trigger] self@.contains_key(c) implies self@[c] == advanced(
                    before,
                    chain,
                    height,
                    now,
                )[c] by {
                    let k = choose|k: int| 0 <= k < self.states@.len() && self.states@[k].chain == c;
                    self.lemma_entry(k);
                    if k < n {
                        assert(old(self).states@[k].chain == c);
                        old(self).lemma_entry(k);
                    }
                }
                assert(self@ =~= advanced(before, chain, height, now));
            },
        }
    }
}

/// Advancing a cursor never lowers it, and leaves every other chain's cursor
/// as it was.
pub proof fn lemma_advance_is_monotonic(m: Map<Chain, ParserState>, chain: Chain, height: i64, now: Timestamp)
    ensures
        cursor_in(advanced(m, chain, height, now), chain) >= cursor_in(m, chain),
        cursor_in(advanced(m, chain, height, now), chain) >= height,
        forall|other: Chain|
            other != chain ==> cursor_in(advanced(m, chain, height, now), other) == cursor_in(m, other),
{
}

} // verus!
