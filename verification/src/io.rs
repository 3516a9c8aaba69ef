//! The error type shared by every operation, and the two capability traits
//! that a half must implement: [`ByteSource`] for sequential byte input and
//! [`ByteSink`] for sequential byte output.
//!
//! Each trait carries its whole behavioural contract in a spec predicate that
//! the implementing type defines for itself (`read_post`, `write_post`,
//! `flush_post`): the executable method promises exactly that predicate over
//! its pre-state, post-state, buffer contents and result. A combinator can
//! then forward an operation and restate the half's own predicate unchanged,
//! which is the formal counterpart of forwarding the call verbatim.

use vstd::prelude::*;

verus! {

/// The kind attached to an I/O failure, mirroring the classification that
/// byte sources and sinks commonly report.
#[derive(Clone, Copy, Debug, PartialEq, Eq, Structural)]
pub enum IoErrorKind {
    /// The end of the stream was reached before the operation could finish.
    UnexpectedEof,
    /// The peer closed the connection or the sink can accept nothing more.
    BrokenPipe,
    /// The operation was interrupted before any progress was made.
    Interrupted,
    /// The operation would need to block to make progress.
    WouldBlock,
    /// An argument to the operation was not acceptable.
    InvalidInput,
    /// The operation ran out of time.
    TimedOut,
    /// Any failure not covered by the kinds above.
    Other,
}

/// An I/O failure, produced and owned by whichever half the failing
/// operation was forwarded to. The combinator never translates, wraps or
/// suppresses one: it surfaces exactly the value the half produced.
#[derive(Clone, Copy, Debug, PartialEq, Eq, Structural)]
pub struct IoError {
    /// The classification of the failure.
    pub kind: IoErrorKind,
}

/// A value capable of sequential byte input: "read up to `buf.len()` bytes
/// into the front of `buf`, return the count read (0 meaning end of input
/// when `buf` is not empty) or fail with an [`IoError`]".
///
/// The whole contract of [`ByteSource::read`] is the implementor's own
/// predicate [`ByteSource::read_post`], so each source states precisely what
/// its reads do, and code generic over a source learns exactly that.
pub trait ByteSource: Sized {
    /// What a completed read promises, relating the source before (`pre`)
    /// and after (`post`) the call, the buffer contents before and after,
    /// and the result.
    spec fn read_post(
        pre: Self,
        post: Self,
        buf_pre: Seq<u8>,
        buf_post: Seq<u8>,
        r: Result<usize, IoError>,
    ) -> bool;

    /// Read up to `buf.len()` bytes into the front of `buf`, leaving the
    /// rest of `buf` as it was.
    fn read(&mut self, buf: &mut Vec<u8>) -> (r: Result<usize, IoError>)
        ensures
            Self::read_post(*old(self), *final(self), old(buf)@, final(buf)@, r),
    ;
}

/// A value capable of sequential byte output: "write up to `buf.len()` bytes
/// taken from the front of `buf`, return the count written or fail with an
/// [`IoError`]; flush whatever is buffered, or fail".
///
/// As with [`ByteSource`], the whole contract of each method is the
/// implementor's own predicate, so forwarding a call preserves its meaning
/// exactly.
pub trait ByteSink: Sized {
    /// What a completed write promises, relating the sink before and after
    /// the call, the bytes offered, and the result.
    spec fn write_post(pre: Self, post: Self, buf: Seq<u8>, r: Result<usize, IoError>) -> bool;

    /// What a completed flush promises, relating the sink before and after
    /// the call and the result.
    spec fn flush_post(pre: Self, post: Self, r: Result<(), IoError>) -> bool;

    /// Write up to `buf.len()` bytes taken from the front of `buf`.
    fn write(&mut self, buf: &[u8]) -> (r: Result<usize, IoError>)
        ensures
            Self::write_post(*old(self), *final(self), buf@, r),
    ;

    /// Flush any bytes the sink is still holding back.
    fn flush(&mut self) -> (r: Result<(), IoError>)
        ensures
            Self::flush_post(*old(self), *final(self), r),
    ;
}

} // verus!
