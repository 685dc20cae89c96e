//! The packet counter of the mixer: each block handed to the streamer is
//! numbered one more than the last, wrapping past `u64::MAX`; the first
//! block is number one.

use vstd::prelude::*;

verus! {

/// The number the next streamed block follows.
#[derive(Debug, Clone, Copy, PartialEq, Eq, Structural)]
pub struct SequenceCounter {
    pub last: u64,
}

/// The number after `n`, wrapping past `u64::MAX`.
pub open spec fn next_number(n: u64) -> u64 {
    if n == u64::MAX {
        0
    } else {
        (n + 1) as u64
    }
}

/// The counter's value after `k` blocks were numbered by a fresh counter.
pub open spec fn after_blocks(k: nat) -> u64
    decreases k,
{
    if k == 0 {
        0
    } else {
        next_number(after_blocks((k - 1) as nat))
    }
}

impl SequenceCounter {
    /// A counter that has numbered no block.
    pub fn new() -> (c: Self)
        ensures
            c.last == 0,
    {
        SequenceCounter { last: 0 }
    }

    /// Numbers the next block: one more than the last, wrapping.
    pub fn advance(&mut self) -> (n: u64)
        ensures
            n == next_number(old(self).last),
            final(self).last == n,
    {
        self.last = self.last.wrapping_add(1);
        self.last
    }
}

/// Blocks are numbered consecutively from one: the `k`-th block a fresh
/// counter numbers gets `k`, modulo 2^64.
pub proof fn lemma_blocks_numbered_consecutively(k: nat)
    ensures
        after_blocks(k) == k % 0x1_0000_0000_0000_0000,
    decreases k,
{
    if k > 0 {
        lemma_blocks_numbered_consecutively((k - 1) as nat);
    }
}

/// The mixer numbers each block it streams with [`SequenceCounter::advance`]:
/// on a counter that has numbered `k` blocks since it was made, the number
/// the next streamed block gets is `k + 1`, modulo 2^64, so successive
/// packets go 1, 2, 3, ... with no gap and no repeat.
pub proof fn lemma_next_block_number(c: SequenceCounter, k: nat)
    requires
        c.last == after_blocks(k),
    ensures
        next_number(c.last) == after_blocks(k + 1),
        next_number(c.last) == (k + 1) % 0x1_0000_0000_0000_0000,
{
    lemma_blocks_numbered_consecutively(k + 1);
}

} // verus!
