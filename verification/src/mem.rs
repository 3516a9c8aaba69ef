//! In-memory halves: a fixed byte source, a growable recording sink, and a
//! source that always fails. They give callers something concrete to wrap,
//! and their contracts are exact, so every property of a combinator built
//! over them can be settled against the predicates stated here.

use crate::io::{ByteSink, ByteSource, IoError, IoErrorKind};
use crate::poll::{PollByteSink, PollByteSource, PollOutcome};
use vstd::prelude::*;

verus! {

/// A byte source backed by a fixed in-memory buffer, handing its bytes out
/// in order, then reporting end of input forever after.
pub struct MemReader {
    data: Vec<u8>,
    pos: usize,
}

impl MemReader {
    /// The bytes not yet handed out, in the order they will be handed out.
    pub closed spec fn remaining(&self) -> Seq<u8> {
        if self.pos <= self.data.len() {
            self.data@.skip(self.pos as int)
        } else {
            Seq::empty()
        }
    }

    /// Wrap `data` as a source that will yield exactly `data`, in order.
    pub fn new(data: Vec<u8>) -> (r: Self)
        ensures
            r.remaining() == data@,
    {
        let r = MemReader { data, pos: 0 };
        proof {
            assert(r.remaining() =~= r.data@);
        }
        r
    }

    /// The number of bytes not yet handed out.
    pub fn remaining_len(&self) -> (n: usize)
        ensures
            n == self.remaining().len(),
    {
        if self.pos <= self.data.len() {
            self.data.len() - self.pos
        } else {
            0
        }
    }
}

impl ByteSource for MemReader {
    /// Reads never fail: the count is the smaller of the buffer's length and
    /// the bytes still available; exactly those bytes land at the front of
    /// the buffer, in order; the rest of the buffer and the rest of the
    /// stream are untouched.
    open spec fn read_post(
        pre: Self,
        post: Self,
        buf_pre: Seq<u8>,
        buf_post: Seq<u8>,
        r: Result<usize, IoError>,
    ) -> bool {
        let n = if buf_pre.len() <= pre.remaining().len() {
            buf_pre.len() as int
        } else {
            pre.remaining().len() as int
        };
        &&& r == Result::<usize, IoError>::Ok(n as usize)
        &&& buf_post.len() == buf_pre.len()
        &&& buf_post.take(n) == pre.remaining().take(n)
        &&& buf_post.skip(n) == buf_pre.skip(n)
        &&& post.remaining() == pre.remaining().skip(n)
    }

    fn read(&mut self, buf: &mut Vec<u8>) -> (r: Result<usize, IoError>) {
        let avail = if self.pos <= self.data.len() {
            self.data.len() - self.pos
        } else {
            0
        };
        let n = if buf.len() <= avail {
            buf.len()
        } else {
            avail
        };
        let ghost buf_pre = buf@;
        let mut i: usize = 0;
        while i < n
            invariant
                i <= n,
                n <= buf_pre.len(),
                *self == *old(self),
                n > 0 ==> self.pos <= self.data.len() && n <= self.data.len() - self.pos,
                buf@.len() == buf_pre.len(),
                forall|j: int| 0 <= j < i ==> buf@[j] == self.data@[self.pos + j],
                forall|j: int| i <= j < buf_pre.len() ==> buf@[j] == buf_pre[j],
            decreases n - i,
        {
            let b = self.data[self.pos + i];
            buf.set(i, b);
            i = i + 1;
        }
        let ghost pre = *self;
        self.pos = self.pos + n;
        proof {
            assert(buf@.take(n as int) =~= pre.remaining().take(n as int));
            assert(buf@.skip(n as int) =~= buf_pre.skip(n as int));
            assert(self.remaining() =~= pre.remaining().skip(n as int));
        }
        Ok(n)
    }
}

/// A byte sink backed by a growable in-memory buffer: it records every byte
/// offered to it, in order, and remembers whether it has been flushed since
/// the last write and whether its output side was ever shut down.
pub struct MemWriter {
    data: Vec<u8>,
    flushed: bool,
    shut: bool,
}

impl MemWriter {
    /// Every byte accepted so far, in the order it was accepted.
    pub closed spec fn recorded(&self) -> Seq<u8> {
        self.data@
    }

    /// Whether a flush has been forwarded to this sink since the last write.
    pub closed spec fn flush_seen(&self) -> bool {
        self.flushed
    }

    /// Whether a shutdown has ever been forwarded to this sink.
    pub closed spec fn shutdown_seen(&self) -> bool {
        self.shut
    }

    /// A sink that has recorded nothing, seen no flush and seen no shutdown.
    pub fn new() -> (r: Self)
        ensures
            r.recorded() == Seq::<u8>::empty(),
            !r.flush_seen(),
            !r.shutdown_seen(),
    {
        let r = MemWriter { data: Vec::new(), flushed: false, shut: false };
        proof {
            assert(r.recorded() =~= Seq::<u8>::empty());
        }
        r
    }

    /// Whether a flush has reached this sink since the last write.
    pub fn was_flushed(&self) -> (r: bool)
        ensures
            r == self.flush_seen(),
    {
        self.flushed
    }

    /// Whether a shutdown has ever reached this sink.
    pub fn was_shut_down(&self) -> (r: bool)
        ensures
            r == self.shutdown_seen(),
    {
        self.shut
    }

    /// Borrow the bytes recorded so far.
    pub fn bytes(&self) -> (r: &Vec<u8>)
        ensures
            r@ == self.recorded(),
    {
        &self.data
    }

    /// Give up the sink and keep only the bytes it recorded.
    pub fn into_bytes(self) -> (r: Vec<u8>)
        ensures
            r@ == self.recorded(),
    {
        self.data
    }
}

impl ByteSink for MemWriter {
    /// Writes never fail and never truncate: the whole buffer is appended to
    /// the record, and the flush mark is cleared because new bytes are now
    /// waiting.
    open spec fn write_post(pre: Self, post: Self, buf: Seq<u8>, r: Result<usize, IoError>) -> bool {
        &&& r == Result::<usize, IoError>::Ok(buf.len() as usize)
        &&& post.recorded() == pre.recorded() + buf
        &&& !post.flush_seen()
        &&& post.shutdown_seen() == pre.shutdown_seen()
    }

    /// Flushes never fail, change no recorded byte, and set the flush mark.
    open spec fn flush_post(pre: Self, post: Self, r: Result<(), IoError>) -> bool {
        &&& r == Result::<(), IoError>::Ok(())
        &&& post.recorded() == pre.recorded()
        &&& post.flush_seen()
        &&& post.shutdown_seen() == pre.shutdown_seen()
    }

    fn write(&mut self, buf: &[u8]) -> (r: Result<usize, IoError>) {
        let ghost pre = *self;
        let mut i: usize = 0;
        while i < buf.len()
            invariant
                i <= buf@.len(),
                self.data@ == pre.data@ + buf@.take(i as int),
                self.shut == pre.shut,
            decreases buf@.len() - i,
        {
            let b = buf[i];
            self.data.push(b);
            i = i + 1;
            proof {
                assert(pre.data@ + buf@.take(i - 1) + seq![b] =~= pre.data@ + buf@.take(i as int));
            }
        }
        self.flushed = false;
        proof {
            assert(self.recorded() =~= pre.recorded() + buf@);
        }
        Ok(buf.len())
    }

    fn flush(&mut self) -> (r: Result<(), IoError>) {
        self.flushed = true;
        Ok(())
    }
}

impl<W> crate::rw::ReadWrite<MemReader, W> {
    /// Drain the input half by repeated reads of `chunk` bytes at a time,
    /// and hand back everything it held. However small the chunks, the
    /// bytes come back exactly in stream order, and the output half is
    /// untouched: chunking invariance, realised in code.
    pub fn read_to_end(&mut self, chunk: usize) -> (out: Vec<u8>)
        requires
            chunk > 0,
        ensures
            out@ == old(self).0.remaining(),
            final(self).0.remaining().len() == 0,
            final(self).1 == old(self).1,
    {
        let mut out: Vec<u8> = Vec::new();
        let mut done = false;
        while !done
            invariant
                chunk > 0,
                out@ + self.0.remaining() == old(self).0.remaining(),
                self.1 == old(self).1,
                done ==> self.0.remaining().len() == 0,
            decreases self.0.remaining().len() + (if done { 0int } else { 1int }),
        {
            let mut buf: Vec<u8> = Vec::new();
            while buf.len() < chunk
                invariant
                    buf@.len() <= chunk,
                decreases chunk - buf@.len(),
            {
                buf.push(0u8);
            }
            let ghost out_pre = out@;
            let ghost rem_pre = self.0.remaining();
            let r = self.read(&mut buf);
            match r {
                Ok(n) => {
                    if n == 0 {
                        done = true;
                    } else {
                        let mut j: usize = 0;
                        while j < n
                            invariant
                                j <= n,
                                n <= buf@.len(),
                                out@ == out_pre + buf@.take(j as int),
                            decreases n - j,
                        {
                            let b = buf[j];
                            out.push(b);
                            j = j + 1;
                            proof {
                                assert(out_pre + buf@.take(j - 1) + seq![b] =~= out_pre
                                    + buf@.take(j as int));
                            }
                        }
                        proof {
                            assert(out@ + self.0.remaining() =~= out_pre + rem_pre);
                        }
                    }
                },
                Err(e) => {
                    proof {
                        assert(false);
                    }
                },
            }
        }
        proof {
            assert(out@ =~= old(self).0.remaining());
        }
        out
    }
}

/// A byte source that fails every read with a fixed error kind and is left
/// unchanged by the attempt. It stands in for a broken input half, and it
/// shows that a combinator surfaces a half's error untranslated.
pub struct FailingReader {
    kind: IoErrorKind,
}

impl FailingReader {
    /// A source whose every read fails with `kind`.
    pub fn new(kind: IoErrorKind) -> (r: Self)
        ensures
            r.error_kind() == kind,
    {
        FailingReader { kind }
    }

    /// The kind every read of this source fails with.
    pub closed spec fn error_kind(&self) -> IoErrorKind {
        self.kind
    }
}

impl ByteSource for FailingReader {
    /// Every read fails with exactly the configured kind; neither the source
    /// nor the buffer changes.
    open spec fn read_post(
        pre: Self,
        post: Self,
        buf_pre: Seq<u8>,
        buf_post: Seq<u8>,
        r: Result<usize, IoError>,
    ) -> bool {
        &&& r == Result::<usize, IoError>::Err(IoError { kind: pre.error_kind() })
        &&& post == pre
        &&& buf_post == buf_pre
    }

    fn read(&mut self, buf: &mut Vec<u8>) -> (r: Result<usize, IoError>) {
        Err(IoError { kind: self.kind })
    }
}

impl PollByteSource for MemReader {
    /// An in-memory source is always ready: one poll completes one read with
    /// exactly the blocking read's contract.
    open spec fn poll_read_post(
        pre: Self,
        post: Self,
        buf_pre: Seq<u8>,
        buf_post: Seq<u8>,
        r: PollOutcome<Result<usize, IoError>>,
    ) -> bool {
        r matches PollOutcome::Ready(inner) && <MemReader as ByteSource>::read_post(
            pre,
            post,
            buf_pre,
            buf_post,
            inner,
        )
    }

    fn poll_read(&mut self, buf: &mut Vec<u8>) -> (r: PollOutcome<Result<usize, IoError>>) {
        PollOutcome::Ready(self.read(buf))
    }
}

impl PollByteSink for MemWriter {
    /// An in-memory sink is always ready: one poll completes one write with
    /// exactly the blocking write's contract.
    open spec fn poll_write_post(
        pre: Self,
        post: Self,
        buf: Seq<u8>,
        r: PollOutcome<Result<usize, IoError>>,
    ) -> bool {
        r matches PollOutcome::Ready(inner) && <MemWriter as ByteSink>::write_post(
            pre,
            post,
            buf,
            inner,
        )
    }

    /// One poll completes one flush with exactly the blocking flush's
    /// contract.
    open spec fn poll_flush_post(pre: Self, post: Self, r: PollOutcome<Result<(), IoError>>) -> bool {
        r matches PollOutcome::Ready(inner) && <MemWriter as ByteSink>::flush_post(pre, post, inner)
    }

    /// Shutdowns never fail, change no recorded byte or flush mark, and set
    /// the shutdown mark.
    open spec fn poll_shutdown_post(
        pre: Self,
        post: Self,
        r: PollOutcome<Result<(), IoError>>,
    ) -> bool {
        &&& r == PollOutcome::<Result<(), IoError>>::Ready(Result::<(), IoError>::Ok(()))
        &&& post.recorded() == pre.recorded()
        &&& post.flush_seen() == pre.flush_seen()
        &&& post.shutdown_seen()
    }

    fn poll_write(&mut self, buf: &[u8]) -> (r: PollOutcome<Result<usize, IoError>>) {
        PollOutcome::Ready(self.write(buf))
    }

    fn poll_flush(&mut self) -> (r: PollOutcome<Result<(), IoError>>) {
        PollOutcome::Ready(self.flush())
    }

    fn poll_shutdown(&mut self) -> (r: PollOutcome<Result<(), IoError>>) {
        self.shut = true;
        PollOutcome::Ready(Ok(()))
    }
}

/// A poll-based source that is never ready: every poll reports Pending and
/// changes nothing. It stands in for a half that is waiting on the outside
/// world, and it shows that a combinator forwards Pending unchanged.
pub struct PendingReader {}

impl PendingReader {
    /// A source whose every poll reports Pending.
    pub fn new() -> (r: Self) {
        PendingReader {}
    }
}

impl PollByteSource for PendingReader {
    /// Every poll reports Pending; neither the source nor the buffer
    /// changes.
    open spec fn poll_read_post(
        pre: Self,
        post: Self,
        buf_pre: Seq<u8>,
        buf_post: Seq<u8>,
        r: PollOutcome<Result<usize, IoError>>,
    ) -> bool {
        &&& r == PollOutcome::<Result<usize, IoError>>::Pending
        &&& post == pre
        &&& buf_post == buf_pre
    }

    fn poll_read(&mut self, buf: &mut Vec<u8>) -> (r: PollOutcome<Result<usize, IoError>>) {
        PollOutcome::Pending
    }
}

/// A poll-based sink that is never ready: every poll reports Pending and
/// changes nothing.
pub struct PendingWriter {}

impl PendingWriter {
    /// A sink whose every poll reports Pending.
    pub fn new() -> (r: Self) {
        PendingWriter {}
    }
}

impl PollByteSink for PendingWriter {
    /// Every write poll reports Pending and changes nothing.
    open spec fn poll_write_post(
        pre: Self,
        post: Self,
        buf: Seq<u8>,
        r: PollOutcome<Result<usize, IoError>>,
    ) -> bool {
        r == PollOutcome::<Result<usize, IoError>>::Pending && post == pre
    }

    /// Every flush poll reports Pending and changes nothing.
    open spec fn poll_flush_post(pre: Self, post: Self, r: PollOutcome<Result<(), IoError>>) -> bool {
        r == PollOutcome::<Result<(), IoError>>::Pending && post == pre
    }

    /// Every shutdown poll reports Pending and changes nothing.
    open spec fn poll_shutdown_post(
        pre: Self,
        post: Self,
        r: PollOutcome<Result<(), IoError>>,
    ) -> bool {
        r == PollOutcome::<Result<(), IoError>>::Pending && post == pre
    }

    fn poll_write(&mut self, buf: &[u8]) -> (r: PollOutcome<Result<usize, IoError>>) {
        PollOutcome::Pending
    }

    fn poll_flush(&mut self) -> (r: PollOutcome<Result<(), IoError>>) {
        PollOutcome::Pending
    }

    fn poll_shutdown(&mut self) -> (r: PollOutcome<Result<(), IoError>>) {
        PollOutcome::Pending
    }
}

} // verus!
