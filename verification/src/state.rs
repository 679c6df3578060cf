//! The mathematical picture of a cursor, over which every contract is stated.

use vstd::prelude::*;

verus! {

/// Number of pad bytes that follow a run of `since_align` bytes so that the
/// run ends on a word boundary, a multiple of four bytes.
pub open spec fn pad_len(since_align: nat) -> nat {
    ((4 - since_align % 4) % 4) as nat
}

/// The value of two bytes in network order: the first byte is the high one.
pub open spec fn be_u16(bytes: Seq<u8>) -> u16
    recommends
        bytes.len() == 2,
{
    (bytes[0] * 256 + bytes[1]) as u16
}

/// Sum of a list of read lengths.
pub open spec fn total(lens: Seq<nat>) -> nat
    decreases lens.len(),
{
    if lens.len() == 0 {
        0
    } else {
        total(lens.drop_last()) + lens.last()
    }
}

/// What a cursor is, seen from outside: the bytes it has not handed out yet and
/// the number of bytes handed out since its alignment origin.
pub struct ReaderState {
    /// The bytes not yet consumed, next byte first.
    pub remaining: Seq<u8>,
    /// Bytes consumed since the counter was last set to zero.
    pub since_align: nat,
}

impl ReaderState {
    /// A cursor placed at the start of `bytes`, which is also its alignment
    /// origin.
    pub open spec fn fresh(bytes: Seq<u8>) -> ReaderState {
        ReaderState { remaining: bytes, since_align: 0 }
    }

    /// Whether at least `n` bytes remain.
    pub open spec fn has(self, n: nat) -> bool {
        n <= self.remaining.len()
    }

    /// The next `n` bytes.
    pub open spec fn front(self, n: nat) -> Seq<u8>
        recommends
            self.has(n),
    {
        self.remaining.take(n as int)
    }

    /// The cursor after `n` bytes were consumed.
    pub open spec fn advance(self, n: nat) -> ReaderState
        recommends
            self.has(n),
    {
        ReaderState {
            remaining: self.remaining.skip(n as int),
            since_align: self.since_align + n,
        }
    }

    /// The cursor with its counter set back to zero and no byte consumed.
    pub open spec fn reset(self) -> ReaderState {
        ReaderState { remaining: self.remaining, since_align: 0 }
    }

    /// Number of pad bytes between the cursor and the next word boundary,
    /// measured from its alignment origin.
    pub open spec fn padding(self) -> nat {
        pad_len(self.since_align)
    }

    /// The cursor after the padding was skipped: it stands on a word boundary,
    /// which becomes its new alignment origin.
    pub open spec fn align(self) -> ReaderState
        recommends
            self.has(self.padding()),
    {
        ReaderState { remaining: self.remaining.skip(self.padding() as int), since_align: 0 }
    }

    /// The cursor after one successful read for each length in `lens`, in
    /// order.
    pub open spec fn after_reads(self, lens: Seq<nat>) -> ReaderState
        recommends
            self.has(total(lens)),
        decreases lens.len(),
    {
        if lens.len() == 0 {
            self
        } else {
            self.after_reads(lens.drop_last()).advance(lens.last())
        }
    }

    /// Whether `self` is a position at or behind `before` in the same buffer:
    /// what remains at `self` is a tail of what remained at `before`. The
    /// counters are not compared.
    pub open spec fn follows(self, before: ReaderState) -> bool {
        &&& self.remaining.len() <= before.remaining.len()
        &&& self.remaining == before.remaining.skip(
            before.remaining.len() - self.remaining.len(),
        )
    }
}

} // verus!
