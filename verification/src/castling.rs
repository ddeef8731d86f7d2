//! Castling rights as a four-bit set that only ever narrows during play.

use vstd::prelude::*;

verus! {

/// The four castling permissions packed into the low bits of a byte:
/// white kingside (bit 0), white queenside (bit 1), black kingside
/// (bit 2), black queenside (bit 3).
#[derive(Debug, PartialEq, Eq, Clone, Copy, Structural)]
pub struct CastlingRights {
    pub bits: u8,
}

impl CastlingRights {
    /// Only the four defined permission bits are in use.
    pub open spec fn wf(self) -> bool {
        self.bits <= 15
    }

    /// No castling permission.
    pub fn none() -> (r: CastlingRights)
        ensures
            r.bits == 0,
            r.wf(),
    {
        CastlingRights { bits: 0 }
    }

    /// White may castle kingside.
    pub fn wkingside() -> (r: CastlingRights)
        ensures
            r.bits == 1,
            r.wf(),
    {
        CastlingRights { bits: 1 }
    }

    /// White may castle queenside.
    pub fn wqueenside() -> (r: CastlingRights)
        ensures
            r.bits == 2,
            r.wf(),
    {
        CastlingRights { bits: 2 }
    }

    /// Black may castle kingside.
    pub fn bkingside() -> (r: CastlingRights)
        ensures
            r.bits == 4,
            r.wf(),
    {
        CastlingRights { bits: 4 }
    }

    /// Black may castle queenside.
    pub fn bqueenside() -> (r: CastlingRights)
        ensures
            r.bits == 8,
            r.wf(),
    {
        CastlingRights { bits: 8 }
    }

    /// Every castling permission, as in the initial configuration.
    pub fn all() -> (r: CastlingRights)
        ensures
            r.bits == 15,
            r.wf(),
    {
        CastlingRights { bits: 15 }
    }

    /// The raw permission bits.
    pub fn as_u8(&self) -> (r: u8)
        ensures
            r == self.bits,
    {
        self.bits
    }

    /// The raw permission bits, widened for indexing.
    pub fn as_usize(&self) -> (r: usize)
        ensures
            r == self.bits,
    {
        self.bits as usize
    }

    /// Grants every permission present in `castle`.
    pub fn add(&mut self, castle: CastlingRights)
        ensures
            final(self).bits == old(self).bits | castle.bits,
            old(self).wf() && castle.wf() ==> final(self).wf(),
    {
        proof {
            let a = self.bits;
            let b = castle.bits;
            assert(a <= 15 && b <= 15 ==> (a | b) <= 15) by (bit_vector);
        }
        self.bits = self.bits | castle.bits;
    }

    /// Withdraws every permission present in `castle`; no permission is
    /// ever gained, so rights only narrow.
    pub fn clear(&mut self, castle: CastlingRights)
        ensures
            final(self).bits == old(self).bits & !castle.bits,
            final(self).bits & !old(self).bits == 0,
            old(self).wf() ==> final(self).wf(),
    {
        proof {
            let a = self.bits;
            let b = castle.bits;
            assert((a & !b) & !a == 0) by (bit_vector);
            assert(a <= 15 ==> (a & !b) <= 15) by (bit_vector);
        }
        self.bits = self.bits & !castle.bits;
    }
}

} // verus!
