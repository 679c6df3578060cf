//! What holds of every cursor, proved from the definitions in [`crate::state`].

use crate::state::{pad_len, total, ReaderState};
use vstd::prelude::*;

verus! {

/// A read splits what remains in two: the bytes handed out, exactly `n` of
/// them, followed by what remains afterwards.
pub proof fn lemma_front_and_rest(s: ReaderState, n: nat)
    requires
        s.has(n),
    ensures
        s.front(n).len() == n,
        s.advance(n).remaining.len() == s.remaining.len() - n,
        s.front(n) + s.advance(n).remaining == s.remaining,
        forall|i: int| 0 <= i < n ==> s.front(n)[i] == s.remaining[i],
{
    assert(s.front(n) + s.advance(n).remaining =~= s.remaining);
}

/// Two reads in a row leave the cursor where one read of both lengths would,
/// and the second one hands out the bytes that follow those of the first.
pub proof fn lemma_advance_twice(s: ReaderState, a: nat, b: nat)
    requires
        s.has(a + b),
    ensures
        s.advance(a).has(b),
        s.advance(a).advance(b) == s.advance(a + b),
        s.advance(a).front(b) == s.remaining.subrange(a as int, (a + b) as int),
        s.front(a) + s.advance(a).front(b) == s.front(a + b),
{
    assert(s.advance(a).advance(b).remaining =~= s.advance(a + b).remaining);
    assert(s.advance(a).front(b) =~= s.remaining.subrange(a as int, (a + b) as int));
    assert(s.front(a) + s.advance(a).front(b) =~= s.front(a + b));
}

/// The lengths of a run of reads only count through their sum: the run leaves
/// the cursor where a single read of the total would.
pub proof fn lemma_after_reads(s: ReaderState, lens: Seq<nat>)
    requires
        s.has(total(lens)),
    ensures
        s.after_reads(lens) == s.advance(total(lens)),
    decreases lens.len(),
{
    if lens.len() == 0 {
        assert(s.advance(0).remaining =~= s.remaining);
    } else {
        lemma_after_reads(s, lens.drop_last());
        lemma_advance_twice(s, total(lens.drop_last()), lens.last());
    }
}

/// Successive reads hand out consecutive slices of the buffer: a read of `n`
/// bytes that comes after reads of the lengths `lens` returns the `n` bytes at
/// offset `total(lens)` of what remained when the run began.
pub proof fn lemma_read_after_reads(s: ReaderState, lens: Seq<nat>, n: nat)
    requires
        s.has(total(lens) + n),
    ensures
        s.after_reads(lens).has(n),
        s.after_reads(lens).front(n) == s.remaining.subrange(
            total(lens) as int,
            (total(lens) + n) as int,
        ),
        s.after_reads(lens).advance(n).since_align == s.since_align + total(lens) + n,
{
    lemma_after_reads(s, lens);
    lemma_advance_twice(s, total(lens), n);
}

/// The padding completes a word: it is smaller than a word and brings the
/// count to a multiple of the word size, four bytes. It is zero exactly on a boundary.
pub proof fn lemma_pad_len_completes_word(since_align: nat)
    ensures
        pad_len(since_align) < 4,
        (since_align + pad_len(since_align)) % 4 == 0,
        pad_len(since_align) == 0 <==> since_align % 4 == 0,
{
}

/// No smaller number of bytes than the padding completes a word.
pub proof fn lemma_pad_len_least(since_align: nat, p: nat)
    requires
        (since_align + p) % 4 == 0,
    ensures
        pad_len(since_align) <= p,
{
}

/// Aligning twice in a row is aligning once: the second call finds the cursor
/// on a word boundary and skips nothing.
pub proof fn lemma_align_idempotent(s: ReaderState)
    ensures
        s.align().padding() == 0,
        s.align().align() == s.align(),
{
    assert(s.align().align().remaining =~= s.align().remaining);
}

/// Where the cursor stands on a word boundary, aligning consumes nothing.
pub proof fn lemma_align_on_boundary(s: ReaderState)
    requires
        s.since_align % 4 == 0,
    ensures
        s.padding() == 0,
        s.align() == s.reset(),
{
    assert(s.align().remaining =~= s.remaining);
}

/// A run of reads that starts on a word boundary and whose lengths add up to a
/// multiple of the word size ends on a word boundary: aligning after it skips
/// no byte.
pub proof fn lemma_whole_words_need_no_padding(s: ReaderState, lens: Seq<nat>)
    requires
        s.since_align % 4 == 0,
        total(lens) % 4 == 0,
        s.has(total(lens)),
    ensures
        s.after_reads(lens).padding() == 0,
        s.after_reads(lens).align() == s.after_reads(lens).reset(),
        s.after_reads(lens).align().remaining == s.remaining.skip(total(lens) as int),
{
    lemma_after_reads(s, lens);
    lemma_align_on_boundary(s.after_reads(lens));
}

/// Every position follows itself.
pub proof fn lemma_follows_reflexive(s: ReaderState)
    ensures
        s.follows(s),
{
    assert(s.remaining =~= s.remaining.skip(0));
}

/// A position behind a position behind `a` is behind `a`.
pub proof fn lemma_follows_transitive(a: ReaderState, b: ReaderState, c: ReaderState)
    requires
        b.follows(a),
        c.follows(b),
    ensures
        c.follows(a),
{
    assert(c.remaining =~= a.remaining.skip(a.remaining.len() - c.remaining.len()));
}

/// Each step a cursor can take leads to a position that follows the one it
/// started from.
pub proof fn lemma_steps_follow(s: ReaderState, n: nat)
    ensures
        s.reset().follows(s),
        s.has(n) ==> s.advance(n).follows(s),
        s.has(s.padding()) ==> s.align().follows(s),
{
    assert(s.remaining =~= s.remaining.skip(0));
}

} // verus!
