//! The laws of the combinator, stated over the mathematical models its
//! contracts use and proved once and for all: taking a combinator apart
//! returns its halves unchanged, draining a source in chunks of any sizes
//! reproduces the stream, writing a stream piece by piece records it whole,
//! a source at end of input yields a zero count and no error, and a failing
//! source's error surfaces with its exact kind.

use crate::io::{ByteSource, IoError};
use crate::mem::{FailingReader, MemReader};
use crate::rw::ReadWrite;
use vstd::prelude::*;

verus! {

/// The concatenation of a sequence of byte chunks, in order.
pub open spec fn concat_all(chunks: Seq<Seq<u8>>) -> Seq<u8>
    decreases chunks.len(),
{
    if chunks.len() == 0 {
        Seq::empty()
    } else {
        chunks[0] + concat_all(chunks.skip(1))
    }
}

/// How many bytes one read with buffer capacity `cut` takes from a stream
/// of `len` remaining bytes: the capacity, clamped to what is available
/// (and a negative capacity, which no buffer can have, takes nothing).
pub open spec fn cut_len(cut: int, len: int) -> int {
    if cut < 0 {
        0
    } else if cut <= len {
        cut
    } else {
        len
    }
}

/// The chunks that successive reads with buffer capacities `cuts` take
/// from a stream holding `b`: each read takes the next `cut_len` bytes.
pub open spec fn chunks_of(b: Seq<u8>, cuts: Seq<int>) -> Seq<Seq<u8>>
    decreases cuts.len(),
{
    if cuts.len() == 0 {
        Seq::empty()
    } else {
        let n = cut_len(cuts[0], b.len() as int);
        seq![b.take(n)] + chunks_of(b.skip(n), cuts.skip(1))
    }
}

/// What is left of a stream holding `b` after successive reads with buffer
/// capacities `cuts`.
pub open spec fn remaining_after(b: Seq<u8>, cuts: Seq<int>) -> Seq<u8>
    decreases cuts.len(),
{
    if cuts.len() == 0 {
        b
    } else {
        let n = cut_len(cuts[0], b.len() as int);
        remaining_after(b.skip(n), cuts.skip(1))
    }
}

/// What a sink that has already recorded `rec` records after the pieces
/// `pieces` are written to it one after another, each appended whole.
pub open spec fn recorded_after(rec: Seq<u8>, pieces: Seq<Seq<u8>>) -> Seq<u8>
    decreases pieces.len(),
{
    if pieces.len() == 0 {
        rec
    } else {
        recorded_after(rec + pieces[0], pieces.skip(1))
    }
}

/// Taking a combinator apart returns the two halves it was built from,
/// unchanged: the combinator built from `r` and `w` holds exactly `r` as
/// its input half and exactly `w` as its output half, which is what
/// [`ReadWrite::into_inner`] hands back.
pub proof fn lemma_pair_round_trip<R, W>(r: R, w: W)
    ensures
        (ReadWrite(r, w)).0 == r,
        (ReadWrite(r, w)).1 == w,
{
}

/// Chunking invariance: however a stream holding `b` is drained — whatever
/// the buffer capacities of the successive reads — the chunks the reads
/// yield, concatenated in order, followed by whatever is still left, are
/// exactly `b`. In particular, once nothing is left the reads have yielded
/// exactly `b`, in order.
pub proof fn lemma_chunked_reads_drain(b: Seq<u8>, cuts: Seq<int>)
    ensures
        concat_all(chunks_of(b, cuts)) + remaining_after(b, cuts) == b,
    decreases cuts.len(),
{
    if cuts.len() == 0 {
        assert(concat_all(chunks_of(b, cuts)) + remaining_after(b, cuts) =~= b);
    } else {
        let n = cut_len(cuts[0], b.len() as int);
        lemma_chunked_reads_drain(b.skip(n), cuts.skip(1));
        assert(chunks_of(b, cuts).skip(1) =~= chunks_of(b.skip(n), cuts.skip(1)));
        assert(concat_all(chunks_of(b, cuts)) + remaining_after(b, cuts) =~= b.take(n) + (
        concat_all(chunks_of(b.skip(n), cuts.skip(1))) + remaining_after(b.skip(n), cuts.skip(1))
        ));
        assert(b.take(n) + b.skip(n) =~= b);
    }
}

/// Writing a byte sequence piece by piece records it whole: a sink that
/// appends every piece offered to it ends up holding its old record
/// followed by the concatenation of the pieces, in order.
pub proof fn lemma_writes_record(rec: Seq<u8>, pieces: Seq<Seq<u8>>)
    ensures
        recorded_after(rec, pieces) == rec + concat_all(pieces),
    decreases pieces.len(),
{
    if pieces.len() == 0 {
        assert(recorded_after(rec, pieces) =~= rec + concat_all(pieces));
    } else {
        lemma_writes_record(rec + pieces[0], pieces.skip(1));
        assert((rec + pieces[0]) + concat_all(pieces.skip(1)) =~= rec + concat_all(pieces));
    }
}

/// One read through a combinator wrapping an in-memory source yields a
/// prefix of the stream and leaves exactly the rest: the count is the
/// smaller of the buffer's capacity and the bytes remaining, the bytes
/// yielded followed by the bytes still remaining are the bytes that were
/// remaining before, and the output half is untouched.
pub proof fn lemma_read_yields_prefix<W>(
    pre: ReadWrite<MemReader, W>,
    post: ReadWrite<MemReader, W>,
    buf_pre: Seq<u8>,
    buf_post: Seq<u8>,
    r: Result<usize, IoError>,
)
    requires
        <ReadWrite<MemReader, W> as ByteSource>::read_post(pre, post, buf_pre, buf_post, r),
    ensures
        r == Result::<usize, IoError>::Ok(
            cut_len(buf_pre.len() as int, pre.0.remaining().len() as int) as usize,
        ),
        ({
            let n = cut_len(buf_pre.len() as int, pre.0.remaining().len() as int);
            buf_post.take(n) + post.0.remaining() == pre.0.remaining()
        }),
        post.1 == pre.1,
{
    let n = cut_len(buf_pre.len() as int, pre.0.remaining().len() as int);
    assert(buf_post.take(n) + post.0.remaining() =~= pre.0.remaining());
}

/// A source at end of input makes the combinator's read report a zero
/// count, with no error: nothing in the buffer, the source or the output
/// half changes.
pub proof fn lemma_eof_read<W>(
    pre: ReadWrite<MemReader, W>,
    post: ReadWrite<MemReader, W>,
    buf_pre: Seq<u8>,
    buf_post: Seq<u8>,
    r: Result<usize, IoError>,
)
    requires
        <ReadWrite<MemReader, W> as ByteSource>::read_post(pre, post, buf_pre, buf_post, r),
        pre.0.remaining().len() == 0,
    ensures
        r == Result::<usize, IoError>::Ok(0usize),
        buf_post == buf_pre,
        post.0.remaining().len() == 0,
        post.1 == pre.1,
{
    assert(buf_post =~= buf_post.skip(0));
    assert(buf_pre =~= buf_pre.skip(0));
}

/// A source that fails with a specific error kind makes the combinator's
/// read fail with that exact kind: the error surfaces untranslated, and
/// nothing in the buffer or either half changes.
pub proof fn lemma_error_read<W>(
    pre: ReadWrite<FailingReader, W>,
    post: ReadWrite<FailingReader, W>,
    buf_pre: Seq<u8>,
    buf_post: Seq<u8>,
    r: Result<usize, IoError>,
)
    requires
        <ReadWrite<FailingReader, W> as ByteSource>::read_post(pre, post, buf_pre, buf_post, r),
    ensures
        r == Result::<usize, IoError>::Err(IoError { kind: pre.0.error_kind() }),
        buf_post == buf_pre,
        post == pre,
{
}

} // verus!
