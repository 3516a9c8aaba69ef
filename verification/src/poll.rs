//! The cooperative, poll-based flavour of the two capabilities. A poll
//! either completes with the operation's ordinary outcome or reports
//! [`PollOutcome::Pending`], meaning no progress could be made yet and the
//! caller should poll again once the half is ready.
//!
//! As with the blocking traits, the whole contract of each method is a spec
//! predicate the implementing type defines for itself, so a combinator can
//! forward a poll and restate the half's own predicate unchanged.

use crate::io::IoError;
use vstd::prelude::*;

verus! {

/// The outcome of one poll: either the operation completed with `T`, or the
/// half could make no progress yet.
#[derive(Debug, PartialEq, Eq, Structural)]
pub enum PollOutcome<T> {
    /// The operation completed, successfully or not.
    Ready(T),
    /// The half could make no progress; poll again later.
    Pending,
}

/// A value capable of poll-based sequential byte input.
pub trait PollByteSource: Sized {
    /// What one read poll promises, relating the source before and after the
    /// poll, the buffer contents before and after, and the outcome.
    spec fn poll_read_post(
        pre: Self,
        post: Self,
        buf_pre: Seq<u8>,
        buf_post: Seq<u8>,
        r: PollOutcome<Result<usize, IoError>>,
    ) -> bool;

    /// Poll one read of up to `buf.len()` bytes into the front of `buf`.
    fn poll_read(&mut self, buf: &mut Vec<u8>) -> (r: PollOutcome<Result<usize, IoError>>)
        ensures
            Self::poll_read_post(*old(self), *final(self), old(buf)@, final(buf)@, r),
    ;
}

/// A value capable of poll-based sequential byte output, including flushing
/// and shutting the output side down.
pub trait PollByteSink: Sized {
    /// What one write poll promises.
    spec fn poll_write_post(
        pre: Self,
        post: Self,
        buf: Seq<u8>,
        r: PollOutcome<Result<usize, IoError>>,
    ) -> bool;

    /// What one flush poll promises.
    spec fn poll_flush_post(pre: Self, post: Self, r: PollOutcome<Result<(), IoError>>) -> bool;

    /// What one shutdown poll promises.
    spec fn poll_shutdown_post(pre: Self, post: Self, r: PollOutcome<Result<(), IoError>>) -> bool;

    /// Poll one write of up to `buf.len()` bytes taken from the front of
    /// `buf`.
    fn poll_write(&mut self, buf: &[u8]) -> (r: PollOutcome<Result<usize, IoError>>)
        ensures
            Self::poll_write_post(*old(self), *final(self), buf@, r),
    ;

    /// Poll one flush of whatever the sink still holds back.
    fn poll_flush(&mut self) -> (r: PollOutcome<Result<(), IoError>>)
        ensures
            Self::poll_flush_post(*old(self), *final(self), r),
    ;

    /// Poll one shutdown of the output side.
    fn poll_shutdown(&mut self) -> (r: PollOutcome<Result<(), IoError>>)
        ensures
            Self::poll_shutdown_post(*old(self), *final(self), r),
    ;
}

} // verus!
