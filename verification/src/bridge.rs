//! The parameter bridge: a single-slot register carrying the current gain
//! coefficient from a non-real-time producer (UI or host automation) to the
//! real-time audio callback.
//!
//! The register holds one 32-bit word, the bit pattern of the coefficient,
//! so a store transfers the whole value at once: a reader can never see a
//! torn value, and no lock, queue or allocation is involved. Only the latest
//! store matters; there is no history.

use vstd::prelude::*;

verus! {

/// A single-slot register for one 32-bit control value.
///
/// `set` overwrites the slot, `get` reads it: last write wins. The register
/// keeps no history and never rejects a value; both operations are total.
pub struct ParamCell {
    bits: u32,
}

impl View for ParamCell {
    type V = u32;

    closed spec fn view(&self) -> u32 {
        self.bits
    }
}

impl ParamCell {
    /// The register as it stands after a store of `bits`.
    pub closed spec fn stored(self, bits: u32) -> ParamCell {
        ParamCell { bits }
    }

    pub fn new(bits: u32) -> (cell: ParamCell)
        ensures
            cell@ == bits,
    {
        ParamCell { bits }
    }

    /// Store a value: overwrites whatever the slot held before.
    pub fn set(&mut self, bits: u32)
        ensures
            *final(self) == old(self).stored(bits),
            final(self)@ == bits,
    {
        self.bits = bits;
    }

    /// Read the most recent completed store.
    pub fn get(&self) -> (bits: u32)
        ensures
            bits == self@,
    {
        self.bits
    }
}

/// The register as it stands after the stores in `writes`, oldest first.
pub open spec fn after_writes(cell: ParamCell, writes: Seq<u32>) -> ParamCell
    decreases writes.len(),
{
    if writes.len() == 0 {
        cell
    } else {
        after_writes(cell.stored(writes[0]), writes.drop_first())
    }
}

/// Last write wins: after any non-empty sequence of stores, a read returns
/// the most recent one, whatever the register held before.
pub proof fn lemma_last_write_wins(cell: ParamCell, writes: Seq<u32>)
    requires
        writes.len() > 0,
    ensures
        after_writes(cell, writes)@ == writes.last(),
    decreases writes.len(),
{
    if writes.len() == 1 {
        assert(writes.drop_first().len() == 0);
        assert(after_writes(cell.stored(writes[0]), writes.drop_first()) == cell.stored(
            writes[0],
        ));
    } else {
        lemma_last_write_wins(cell.stored(writes[0]), writes.drop_first());
        assert(writes.drop_first().last() == writes.last());
    }
}

} // verus!
