//! The poll-based combinators. Two successive generations of the
//! cooperative I/O ecosystem use the same composition idea with slightly
//! different host traits; [`ReadWriteTokio`] and [`ReadWriteAsyncstd`] are
//! the adapters for the two generations. Inside this crate both are modelled
//! against the same poll capability contracts ([`PollByteSource`],
//! [`PollByteSink`]), under which their behaviour is identical: one poll
//! exercises exactly one half, forwarded verbatim, and the other half is
//! untouched.

use crate::io::IoError;
use crate::poll::{PollByteSink, PollByteSource, PollOutcome};
use crate::rw::{buf_views, first_nonempty, lemma_first_nonempty_at};
use vstd::prelude::*;

verus! {

/// A combined poll-based reader and writer, for the newer generation of the
/// cooperative I/O ecosystem.
pub struct ReadWriteTokio<R, W> {
    /// The input half.
    pub r: R,
    /// The output half.
    pub w: W,
}

impl<R, W> ReadWriteTokio<R, W> {
    /// Bundle a separate poll-based reader and writer into a combined
    /// pseudo-socket.
    pub fn new(r: R, w: W) -> (c: Self)
        ensures
            c.r == r,
            c.w == w,
    {
        ReadWriteTokio { r, w }
    }

    /// Bundle a reader-writer pair into a combined pseudo-socket.
    pub fn from_pair(pair: (R, W)) -> (c: Self)
        ensures
            c.r == pair.0,
            c.w == pair.1,
    {
        ReadWriteTokio { r: pair.0, w: pair.1 }
    }

    /// Borrow both inner objects.
    pub fn borrow(&self) -> (b: (&R, &W))
        ensures
            *b.0 == self.r,
            *b.1 == self.w,
    {
        (&self.r, &self.w)
    }

    /// Borrow the reader.
    pub fn borrow_read(&self) -> (b: &R)
        ensures
            *b == self.r,
    {
        &self.r
    }

    /// Borrow the writer.
    pub fn borrow_write(&self) -> (b: &W)
        ensures
            *b == self.w,
    {
        &self.w
    }

    /// Mutably borrow both inner objects.
    pub fn borrow_mut(&mut self) -> ((r, w): (&mut R, &mut W))
        ensures
            *r == old(self).r,
            *w == old(self).w,
            final(self).r == *final(r),
            final(self).w == *final(w),
    {
        (&mut self.r, &mut self.w)
    }

    /// Mutably borrow the reader.
    pub fn borrow_mut_read(&mut self) -> (b: &mut R)
        ensures
            *b == old(self).r,
            final(self).r == *final(b),
            final(self).w == old(self).w,
    {
        &mut self.r
    }

    /// Mutably borrow the writer.
    pub fn borrow_mut_write(&mut self) -> (b: &mut W)
        ensures
            *b == old(self).w,
            final(self).r == old(self).r,
            final(self).w == *final(b),
    {
        &mut self.w
    }

    /// Take the combinator apart into its reader and writer, exactly as they
    /// stand, with their original ownership.
    pub fn into_inner(self) -> (p: (R, W))
        ensures
            p.0 == self.r,
            p.1 == self.w,
    {
        (self.r, self.w)
    }

    /// Take the combinator apart, keeping the reader and releasing the
    /// writer according to the writer's own teardown.
    pub fn into_reader(self) -> (r: R)
        ensures
            r == self.r,
    {
        self.r
    }

    /// Take the combinator apart, keeping the writer and releasing the
    /// reader according to the reader's own teardown.
    pub fn into_writer(self) -> (w: W)
        ensures
            w == self.w,
    {
        self.w
    }
}

impl<R, W> From<(R, W)> for ReadWriteTokio<R, W> {
    /// Bundle a reader-writer pair into a combined pseudo-socket.
    fn from(pair: (R, W)) -> (c: Self) {
        ReadWriteTokio { r: pair.0, w: pair.1 }
    }
}

impl<R, W> vstd::std_specs::convert::FromSpecImpl<(R, W)> for ReadWriteTokio<R, W> {
    open spec fn obeys_from_spec() -> bool {
        true
    }

    open spec fn from_spec(pair: (R, W)) -> Self {
        ReadWriteTokio { r: pair.0, w: pair.1 }
    }
}

impl<R: PollByteSource, W> PollByteSource for ReadWriteTokio<R, W> {
    /// One read poll of the combinator is exactly one read poll of the input
    /// half — the same outcome, Pending included — and the output half is
    /// untouched.
    open spec fn poll_read_post(
        pre: Self,
        post: Self,
        buf_pre: Seq<u8>,
        buf_post: Seq<u8>,
        r: PollOutcome<Result<usize, IoError>>,
    ) -> bool {
        &&& R::poll_read_post(pre.r, post.r, buf_pre, buf_post, r)
        &&& post.w == pre.w
    }

    fn poll_read(&mut self, buf: &mut Vec<u8>) -> (r: PollOutcome<Result<usize, IoError>>) {
        self.r.poll_read(buf)
    }
}

impl<R, W: PollByteSink> PollByteSink for ReadWriteTokio<R, W> {
    /// One write poll of the combinator is exactly one write poll of the
    /// output half, and the input half is untouched.
    open spec fn poll_write_post(
        pre: Self,
        post: Self,
        buf: Seq<u8>,
        r: PollOutcome<Result<usize, IoError>>,
    ) -> bool {
        &&& W::poll_write_post(pre.w, post.w, buf, r)
        &&& post.r == pre.r
    }

    /// One flush poll of the combinator is exactly one flush poll of the
    /// output half, and the input half is untouched.
    open spec fn poll_flush_post(pre: Self, post: Self, r: PollOutcome<Result<(), IoError>>) -> bool {
        &&& W::poll_flush_post(pre.w, post.w, r)
        &&& post.r == pre.r
    }

    /// One shutdown poll of the combinator is exactly one shutdown poll of
    /// the output half, and the input half is untouched.
    open spec fn poll_shutdown_post(
        pre: Self,
        post: Self,
        r: PollOutcome<Result<(), IoError>>,
    ) -> bool {
        &&& W::poll_shutdown_post(pre.w, post.w, r)
        &&& post.r == pre.r
    }

    fn poll_write(&mut self, buf: &[u8]) -> (r: PollOutcome<Result<usize, IoError>>) {
        self.w.poll_write(buf)
    }

    fn poll_flush(&mut self) -> (r: PollOutcome<Result<(), IoError>>) {
        self.w.poll_flush()
    }

    fn poll_shutdown(&mut self) -> (r: PollOutcome<Result<(), IoError>>) {
        self.w.poll_shutdown()
    }
}

impl<R, W: PollByteSink> ReadWriteTokio<R, W> {
    /// Batched write poll: forwarded as one single-buffer write poll of the
    /// first buffer that holds bytes, exactly as the host I/O model's
    /// default batched write behaves; with no such buffer nothing is
    /// written and nothing is touched.
    pub fn poll_write_vectored(&mut self, bufs: &[Vec<u8>]) -> (r: PollOutcome<
        Result<usize, IoError>,
    >)
        ensures
            (match first_nonempty(buf_views(bufs@)) {
                Option::None => {
                    &&& r == PollOutcome::<Result<usize, IoError>>::Ready(
                        Result::<usize, IoError>::Ok(0usize),
                    )
                    &&& *final(self) == *old(self)
                },
                Option::Some(i) => {
                    &&& W::poll_write_post(old(self).w, final(self).w, bufs@[i]@, r)
                    &&& final(self).r == old(self).r
                },
            }),
    {
        let n = bufs.len();
        let mut i: usize = 0;
        while i < n && bufs[i].len() == 0
            invariant
                n == bufs@.len(),
                i <= n,
                *self == *old(self),
                forall|j: int| 0 <= j < i ==> bufs@[j]@.len() == 0,
            decreases n - i,
        {
            i = i + 1;
        }
        proof {
            lemma_first_nonempty_at(buf_views(bufs@), i as int);
        }
        if i == n {
            PollOutcome::Ready(Ok(0))
        } else {
            self.w.poll_write(bufs[i].as_slice())
        }
    }
}

/// A combined poll-based reader and writer, for the older generation of the
/// cooperative I/O ecosystem. Its host calls the shutdown poll "close"; the
/// contract is the same.
pub struct ReadWriteAsyncstd<R, W> {
    /// The input half.
    pub r: R,
    /// The output half.
    pub w: W,
}

impl<R, W> ReadWriteAsyncstd<R, W> {
    /// Bundle a separate poll-based reader and writer into a combined
    /// pseudo-socket.
    pub fn new(r: R, w: W) -> (c: Self)
        ensures
            c.r == r,
            c.w == w,
    {
        ReadWriteAsyncstd { r, w }
    }

    /// Bundle a reader-writer pair into a combined pseudo-socket.
    pub fn from_pair(pair: (R, W)) -> (c: Self)
        ensures
            c.r == pair.0,
            c.w == pair.1,
    {
        ReadWriteAsyncstd { r: pair.0, w: pair.1 }
    }

    /// Borrow both inner objects.
    pub fn borrow(&self) -> (b: (&R, &W))
        ensures
            *b.0 == self.r,
            *b.1 == self.w,
    {
        (&self.r, &self.w)
    }

    /// Borrow the reader.
    pub fn borrow_read(&self) -> (b: &R)
        ensures
            *b == self.r,
    {
        &self.r
    }

    /// Borrow the writer.
    pub fn borrow_write(&self) -> (b: &W)
        ensures
            *b == self.w,
    {
        &self.w
    }

    /// Mutably borrow both inner objects.
    pub fn borrow_mut(&mut self) -> ((r, w): (&mut R, &mut W))
        ensures
            *r == old(self).r,
            *w == old(self).w,
            final(self).r == *final(r),
            final(self).w == *final(w),
    {
        (&mut self.r, &mut self.w)
    }

    /// Mutably borrow the reader.
    pub fn borrow_mut_read(&mut self) -> (b: &mut R)
        ensures
            *b == old(self).r,
            final(self).r == *final(b),
            final(self).w == old(self).w,
    {
        &mut self.r
    }

    /// Mutably borrow the writer.
    pub fn borrow_mut_write(&mut self) -> (b: &mut W)
        ensures
            *b == old(self).w,
            final(self).r == old(self).r,
            final(self).w == *final(b),
    {
        &mut self.w
    }

    /// Take the combinator apart into its reader and writer, exactly as they
    /// stand, with their original ownership.
    pub fn into_inner(self) -> (p: (R, W))
        ensures
            p.0 == self.r,
            p.1 == self.w,
    {
        (self.r, self.w)
    }

    /// Take the combinator apart, keeping the reader and releasing the
    /// writer according to the writer's own teardown.
    pub fn into_reader(self) -> (r: R)
        ensures
            r == self.r,
    {
        self.r
    }

    /// Take the combinator apart, keeping the writer and releasing the
    /// reader according to the reader's own teardown.
    pub fn into_writer(self) -> (w: W)
        ensures
            w == self.w,
    {
        self.w
    }
}

impl<R, W> From<(R, W)> for ReadWriteAsyncstd<R, W> {
    /// Bundle a reader-writer pair into a combined pseudo-socket.
    fn from(pair: (R, W)) -> (c: Self) {
        ReadWriteAsyncstd { r: pair.0, w: pair.1 }
    }
}

impl<R, W> vstd::std_specs::convert::FromSpecImpl<(R, W)> for ReadWriteAsyncstd<R, W> {
    open spec fn obeys_from_spec() -> bool {
        true
    }

    open spec fn from_spec(pair: (R, W)) -> Self {
        ReadWriteAsyncstd { r: pair.0, w: pair.1 }
    }
}

impl<R: PollByteSource, W> PollByteSource for ReadWriteAsyncstd<R, W> {
    /// One read poll of the combinator is exactly one read poll of the input
    /// half — the same outcome, Pending included — and the output half is
    /// untouched.
    open spec fn poll_read_post(
        pre: Self,
        post: Self,
        buf_pre: Seq<u8>,
        buf_post: Seq<u8>,
        r: PollOutcome<Result<usize, IoError>>,
    ) -> bool {
        &&& R::poll_read_post(pre.r, post.r, buf_pre, buf_post, r)
        &&& post.w == pre.w
    }

    fn poll_read(&mut self, buf: &mut Vec<u8>) -> (r: PollOutcome<Result<usize, IoError>>) {
        self.r.poll_read(buf)
    }
}

impl<R, W: PollByteSink> PollByteSink for ReadWriteAsyncstd<R, W> {
    /// One write poll of the combinator is exactly one write poll of the
    /// output half, and the input half is untouched.
    open spec fn poll_write_post(
        pre: Self,
        post: Self,
        buf: Seq<u8>,
        r: PollOutcome<Result<usize, IoError>>,
    ) -> bool {
        &&& W::poll_write_post(pre.w, post.w, buf, r)
        &&& post.r == pre.r
    }

    /// One flush poll of the combinator is exactly one flush poll of the
    /// output half, and the input half is untouched.
    open spec fn poll_flush_post(pre: Self, post: Self, r: PollOutcome<Result<(), IoError>>) -> bool {
        &&& W::poll_flush_post(pre.w, post.w, r)
        &&& post.r == pre.r
    }

    /// One close poll of the combinator is exactly one shutdown poll of the
    /// output half, and the input half is untouched.
    open spec fn poll_shutdown_post(
        pre: Self,
        post: Self,
        r: PollOutcome<Result<(), IoError>>,
    ) -> bool {
        &&& W::poll_shutdown_post(pre.w, post.w, r)
        &&& post.r == pre.r
    }

    fn poll_write(&mut self, buf: &[u8]) -> (r: PollOutcome<Result<usize, IoError>>) {
        self.w.poll_write(buf)
    }

    fn poll_flush(&mut self) -> (r: PollOutcome<Result<(), IoError>>) {
        self.w.poll_flush()
    }

    fn poll_shutdown(&mut self) -> (r: PollOutcome<Result<(), IoError>>) {
        self.w.poll_shutdown()
    }
}

impl<R: PollByteSource, W> ReadWriteAsyncstd<R, W> {
    /// Batched read poll: forwarded as one single-buffer read poll of the
    /// first buffer that has room, exactly as the host I/O model's default
    /// batched read behaves; with no such buffer nothing is read and
    /// nothing is touched.
    pub fn poll_read_vectored(&mut self, bufs: &mut Vec<Vec<u8>>) -> (r: PollOutcome<
        Result<usize, IoError>,
    >)
        ensures
            final(bufs)@.len() == old(bufs)@.len(),
            (match first_nonempty(buf_views(old(bufs)@)) {
                Option::None => {
                    &&& r == PollOutcome::<Result<usize, IoError>>::Ready(
                        Result::<usize, IoError>::Ok(0usize),
                    )
                    &&& *final(self) == *old(self)
                    &&& final(bufs)@ == old(bufs)@
                },
                Option::Some(i) => {
                    &&& R::poll_read_post(
                        old(self).r,
                        final(self).r,
                        old(bufs)@[i]@,
                        final(bufs)@[i]@,
                        r,
                    )
                    &&& final(self).w == old(self).w
                    &&& forall|j: int|
                        0 <= j < old(bufs)@.len() && j != i ==> final(bufs)@[j] == old(bufs)@[j]
                },
            }),
    {
        let n = bufs.len();
        let mut i: usize = 0;
        while i < n && bufs[i].len() == 0
            invariant
                n == bufs@.len(),
                i <= n,
                *self == *old(self),
                bufs@ == old(bufs)@,
                forall|j: int| 0 <= j < i ==> bufs@[j]@.len() == 0,
            decreases n - i,
        {
            i = i + 1;
        }
        proof {
            lemma_first_nonempty_at(buf_views(bufs@), i as int);
        }
        if i == n {
            PollOutcome::Ready(Ok(0))
        } else {
            self.r.poll_read(&mut bufs[i])
        }
    }
}

impl<R, W: PollByteSink> ReadWriteAsyncstd<R, W> {
    /// Batched write poll: forwarded as one single-buffer write poll of the
    /// first buffer that holds bytes, exactly as the host I/O model's
    /// default batched write behaves; with no such buffer nothing is
    /// written and nothing is touched.
    pub fn poll_write_vectored(&mut self, bufs: &[Vec<u8>]) -> (r: PollOutcome<
        Result<usize, IoError>,
    >)
        ensures
            (match first_nonempty(buf_views(bufs@)) {
                Option::None => {
                    &&& r == PollOutcome::<Result<usize, IoError>>::Ready(
                        Result::<usize, IoError>::Ok(0usize),
                    )
                    &&& *final(self) == *old(self)
                },
                Option::Some(i) => {
                    &&& W::poll_write_post(old(self).w, final(self).w, bufs@[i]@, r)
                    &&& final(self).r == old(self).r
                },
            }),
    {
        let n = bufs.len();
        let mut i: usize = 0;
        while i < n && bufs[i].len() == 0
            invariant
                n == bufs@.len(),
                i <= n,
                *self == *old(self),
                forall|j: int| 0 <= j < i ==> bufs@[j]@.len() == 0,
            decreases n - i,
        {
            i = i + 1;
        }
        proof {
            lemma_first_nonempty_at(buf_views(bufs@), i as int);
        }
        if i == n {
            PollOutcome::Ready(Ok(0))
        } else {
            self.w.poll_write(bufs[i].as_slice())
        }
    }
}

} // verus!
