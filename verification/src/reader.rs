//! The cursor, its errors and the trait of types that decode themselves.

use crate::laws::{lemma_follows_reflexive, lemma_steps_follow};
use crate::state::{be_u16, ReaderState};
use vstd::prelude::*;
use vstd::std_specs::convert::IntoSpec;
use vstd::string::to_string_from_display_ensures;

verus! {

/// Why a decode failed.
#[derive(Debug)]
pub enum ReadError {
    /// More bytes were asked for than the buffer still holds.
    EndOfStream,
    /// A value was read in full but is not one its field admits. Carries the
    /// name of the field or type and the offending value as text.
    InvalidData(&'static str, String),
}

/// A cursor over a borrowed byte buffer.
///
/// It hands out the buffer front to back without copying and counts the bytes
/// handed out since its alignment origin: the start of the buffer, or the place
/// of the last [`Reader::pad`] or [`Reader::clear_len`].
pub struct Reader<'a> {
    b: &'a [u8],
    len: usize,
}

impl<'a> View for Reader<'a> {
    type V = ReaderState;

    closed spec fn view(&self) -> ReaderState {
        ReaderState { remaining: self.b@, since_align: self.len as nat }
    }
}

/// How a read of `n` bytes at `before` ends: with the next `n` bytes and the
/// cursor behind them, or, where fewer than `n` remain, with
/// [`ReadError::EndOfStream`] and the cursor where it was.
pub open spec fn consumes(
    before: ReaderState,
    n: nat,
    r: Result<&[u8], ReadError>,
    after: ReaderState,
) -> bool {
    if before.has(n) {
        &&& r matches Ok(bytes) && bytes@ == before.front(n)
        &&& after == before.advance(n)
    } else {
        &&& r matches Err(e) && e is EndOfStream
        &&& after == before
    }
}

/// Whether `n` can be what `len` converts to. Where the conversion of `L` is
/// known, as it is for the unsigned integer types narrower than `usize`, only
/// the value of `len` can.
pub open spec fn converts_to<L: Into<usize>>(len: L, n: usize) -> bool {
    L::obeys_into_spec() ==> n == len.into_spec()
}

/// How the decoding of a value encoded in `n` bytes ends at `before`: with
/// `value` and the cursor behind the `n` bytes, or, where fewer than `n`
/// remain, with [`ReadError::EndOfStream`] and the cursor where it was.
pub open spec fn decodes<T>(
    before: ReaderState,
    n: nat,
    value: T,
    r: Result<T, ReadError>,
    after: ReaderState,
) -> bool {
    if before.has(n) {
        &&& r == Ok::<T, ReadError>(value)
        &&& after == before.advance(n)
    } else {
        &&& r matches Err(e) && e is EndOfStream
        &&& after == before
    }
}

impl<'a> Reader<'a> {
    /// The counter never exceeds the number of bytes consumed from one buffer,
    /// so counter and remaining length together fit in a `usize`.
    #[verifier::type_invariant]
    spec fn counter_fits(self) -> bool {
        self.len + self.b.len() <= usize::MAX
    }

    /// A cursor at the start of `b`.
    pub fn new(b: &'a [u8]) -> (r: Self)
        ensures
            r@ == ReaderState::fresh(b@),
    {
        Self { b, len: 0 }
    }

    /// The error for a buffer that ended too early.
    pub fn eos(&self) -> (e: ReadError)
        ensures
            e is EndOfStream,
    {
        ReadError::EndOfStream
    }

    /// The error for a value that its field does not admit: it carries the
    /// label `ty` and `item` rendered as text.
    pub fn invalid_data<T: core::fmt::Display>(&self, ty: &'static str, item: T) -> (e: ReadError)
        ensures
            e matches ReadError::InvalidData(label, text) && label@ == ty@
                && to_string_from_display_ensures::<T>(&item, text),
    {
        ReadError::InvalidData(ty, item.to_string())
    }

    /// Makes the current position the alignment origin. Consumes nothing.
    pub fn clear_len(&mut self)
        ensures
            final(self)@ == old(self)@.reset(),
    {
        self.len = 0;
    }

    /// Number of bytes not yet consumed.
    pub fn bytes_len(&self) -> (n: usize)
        ensures
            n == self@.remaining.len(),
    {
        self.b.len()
    }

    /// Number of bytes that [`Reader::pad`] would skip here.
    pub fn pad_len(&self) -> (p: usize)
        ensures
            p == self@.padding(),
    {
        (4 - self.len % 4) % 4
    }

    /// Consumes the next `n` bytes and returns them, borrowed from the buffer.
    /// Where fewer than `n` bytes remain, fails and leaves the cursor as it
    /// was.
    pub fn take(&mut self, n: usize) -> (r: Result<&'a [u8], ReadError>)
        ensures
            consumes(old(self)@, n as nat, r, final(self)@),
    {
        proof {
            use_type_invariant(&*self);
        }
        if self.b.len() >= n {
            let out = &self.b[0..n];
            let rest = &self.b[n..self.b.len()];
            self.b = rest;
            self.len += n;
            Ok(out)
        } else {
            Err(self.eos())
        }
    }

    /// [`Reader::take`] for a length of any type that converts to `usize`, such
    /// as a length field just read from the message.
    ///
    /// The read is one of `n` bytes, where `n` is what `len` converts to; see
    /// [`converts_to`]. A caller that holds a `usize` and wants its proof to
    /// go through calls [`Reader::take`].
    pub fn consume<L: Into<usize>>(&mut self, len: L) -> (r: Result<&'a [u8], ReadError>)
        ensures
            exists|n: usize|
                converts_to(len, n) && consumes(old(self)@, n as nat, r, final(self)@),
    {
        let n: usize = len.into();
        let r = self.take(n);
        assert(converts_to(len, n) && consumes(old(self)@, n as nat, r, self@));
        r
    }

    /// Consumes one byte and returns it. At the end of the buffer, fails and
    /// leaves the cursor as it was.
    pub fn u8(&mut self) -> (r: Result<u8, ReadError>)
        ensures
            decodes(old(self)@, 1, old(self)@.remaining[0], r, final(self)@),
    {
        proof {
            use_type_invariant(&*self);
        }
        if self.b.len() >= 1 {
            let byte: u8 = self.b[0];
            let rest = &self.b[1..self.b.len()];
            self.b = rest;
            self.len += 1;
            Ok(byte)
        } else {
            Err(self.eos())
        }
    }

    /// Consumes two bytes and returns them as one number, high byte first.
    /// Where fewer than two bytes remain, fails and leaves the cursor as it
    /// was.
    pub fn u16(&mut self) -> (r: Result<u16, ReadError>)
        ensures
            decodes(old(self)@, 2, be_u16(old(self)@.front(2)), r, final(self)@),
    {
        Readable::read(self)
    }

    /// Skips the padding up to the next word boundary, counted from the
    /// alignment origin, and makes that boundary the new origin.
    ///
    /// A well-formed message holds its padding; the caller has to know that
    /// this one does. [`Reader::pad_len`] and [`Reader::bytes_len`] tell.
    pub fn pad(&mut self)
        requires
            old(self)@.has(old(self)@.padding()),
        ensures
            final(self)@ == old(self)@.align(),
    {
        let p: usize = self.pad_len();
        let rest = &self.b[p..self.b.len()];
        self.len = 0;
        self.b = rest;
    }
}

/// A type that decodes itself from a cursor.
///
/// `read` takes the cursor at the first byte of the value's encoding and
/// consumes the encoding, field by field, or fails with the first field's
/// error. It only ever moves the cursor forward in its buffer.
pub trait Readable<'a>: Sized {
    /// Decodes one value from the front of what `reader` still holds.
    fn read(reader: &mut Reader<'a>) -> (r: Result<Self, ReadError>)
        ensures
            final(reader)@.follows(old(reader)@),
    ;
}

impl<'a> Readable<'a> for u16 {
    /// Two bytes in network order.
    fn read(reader: &mut Reader<'a>) -> (r: Result<u16, ReadError>)
        ensures
            decodes(old(reader)@, 2, be_u16(old(reader)@.front(2)), r, final(reader)@),
    {
        proof {
            lemma_steps_follow(reader@, 2);
            lemma_follows_reflexive(reader@);
        }
        let bytes = reader.take(2)?;
        Ok(bytes[0] as u16 * 256 + bytes[1] as u16)
    }
}

} // verus!
