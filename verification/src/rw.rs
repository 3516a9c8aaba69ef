//! The synchronous combinator: one input half and one output half under a
//! single handle. Reading goes to the input half, writing and flushing go to
//! the output half, and each operation's contract is the half's own contract
//! restated unchanged, together with the promise that the other half is left
//! exactly as it was.

use crate::io::{ByteSink, ByteSource, IoError};
use vstd::prelude::*;

verus! {

/// The contents of a sequence of byte buffers.
pub open spec fn buf_views(bufs: Seq<Vec<u8>>) -> Seq<Seq<u8>> {
    bufs.map_values(|b: Vec<u8>| b@)
}

/// The index of the first buffer that holds any bytes, if there is one.
/// The batched operations fall back to the single-buffer form on exactly
/// this buffer, as the host I/O model's default behaviour does.
pub open spec fn first_nonempty(bufs: Seq<Seq<u8>>) -> Option<int>
    decreases bufs.len(),
{
    if bufs.len() == 0 {
        Option::None
    } else if bufs[0].len() > 0 {
        Option::Some(0int)
    } else {
        match first_nonempty(bufs.skip(1)) {
            Option::None => Option::None,
            Option::Some(i) => Option::Some(i + 1),
        }
    }
}

/// If every buffer before `i` is empty, and `i` is either a nonempty
/// buffer's index or the end, then `i` is exactly what [`first_nonempty`]
/// finds.
pub proof fn lemma_first_nonempty_at(bufs: Seq<Seq<u8>>, i: int)
    requires
        0 <= i <= bufs.len(),
        forall|j: int| 0 <= j < i ==> bufs[j].len() == 0,
        i < bufs.len() ==> bufs[i].len() > 0,
    ensures
        first_nonempty(bufs) == if i < bufs.len() {
            Option::Some(i)
        } else {
            Option::<int>::None
        },
    decreases i,
{
    if i > 0 {
        lemma_first_nonempty_at(bufs.skip(1), i - 1);
    }
}

/// A combined reader and writer: the input half is field `0`, the output
/// half is field `1`. The combinator holds no state of its own, so every
/// accessor and every forwarded operation is pinned down exactly.
pub struct ReadWrite<R, W>(pub R, pub W);

impl<R, W> ReadWrite<R, W> {
    /// Bundle a separate reader and writer into a combined pseudo-socket.
    pub fn new(r: R, w: W) -> (c: Self)
        ensures
            c.0 == r,
            c.1 == w,
    {
        ReadWrite(r, w)
    }

    /// Bundle a reader-writer pair into a combined pseudo-socket.
    pub fn from_pair(pair: (R, W)) -> (c: Self)
        ensures
            c.0 == pair.0,
            c.1 == pair.1,
    {
        ReadWrite(pair.0, pair.1)
    }

    /// Borrow both inner objects.
    pub fn borrow(&self) -> (r: (&R, &W))
        ensures
            *r.0 == self.0,
            *r.1 == self.1,
    {
        (&self.0, &self.1)
    }

    /// Borrow the reader.
    pub fn borrow_read(&self) -> (r: &R)
        ensures
            *r == self.0,
    {
        &self.0
    }

    /// Borrow the writer.
    pub fn borrow_write(&self) -> (r: &W)
        ensures
            *r == self.1,
    {
        &self.1
    }

    /// Mutably borrow both inner objects.
    pub fn borrow_mut(&mut self) -> ((r, w): (&mut R, &mut W))
        ensures
            *r == old(self).0,
            *w == old(self).1,
            final(self).0 == *final(r),
            final(self).1 == *final(w),
    {
        (&mut self.0, &mut self.1)
    }

    /// Mutably borrow the reader.
    pub fn borrow_mut_read(&mut self) -> (r: &mut R)
        ensures
            *r == old(self).0,
            final(self).0 == *final(r),
            final(self).1 == old(self).1,
    {
        &mut self.0
    }

    /// Mutably borrow the writer.
    pub fn borrow_mut_write(&mut self) -> (w: &mut W)
        ensures
            *w == old(self).1,
            final(self).0 == old(self).0,
            final(self).1 == *final(w),
    {
        &mut self.1
    }

    /// Take the combinator apart into its reader and writer, exactly as they
    /// stand, with their original ownership.
    pub fn into_inner(self) -> (r: (R, W))
        ensures
            r.0 == self.0,
            r.1 == self.1,
    {
        (self.0, self.1)
    }

    /// Take the combinator apart, keeping the reader and releasing the
    /// writer according to the writer's own teardown.
    pub fn into_reader(self) -> (r: R)
        ensures
            r == self.0,
    {
        self.0
    }

    /// Take the combinator apart, keeping the writer and releasing the
    /// reader according to the reader's own teardown.
    pub fn into_writer(self) -> (w: W)
        ensures
            w == self.1,
    {
        self.1
    }
}

impl<R: ByteSource, W> ReadWrite<R, W> {
    /// Batched read: forwarded as one single-buffer read of the first
    /// buffer that has room, exactly as the host I/O model's default
    /// batched read behaves; with no such buffer nothing is read and
    /// nothing is touched.
    pub fn read_vectored(&mut self, bufs: &mut Vec<Vec<u8>>) -> (r: Result<usize, IoError>)
        ensures
            final(bufs)@.len() == old(bufs)@.len(),
            (match first_nonempty(buf_views(old(bufs)@)) {
                Option::None => {
                    &&& r == Result::<usize, IoError>::Ok(0usize)
                    &&& *final(self) == *old(self)
                    &&& final(bufs)@ == old(bufs)@
                },
                Option::Some(i) => {
                    &&& R::read_post(
                        old(self).0,
                        final(self).0,
                        old(bufs)@[i]@,
                        final(bufs)@[i]@,
                        r,
                    )
                    &&& final(self).1 == old(self).1
                    &&& forall|j: int|
                        0 <= j < old(bufs)@.len() && j != i ==> final(bufs)@[j] == old(bufs)@[j]
                },
            }),
    {
        let n = bufs.len();
        let mut i: usize = 0;
        while i < n && bufs[i].len() == 0
            invariant
                n == bufs@.len(),
                i <= n,
                *self == *old(self),
                bufs@ == old(bufs)@,
                forall|j: int| 0 <= j < i ==> bufs@[j]@.len() == 0,
            decreases n - i,
        {
            i = i + 1;
        }
        proof {
            lemma_first_nonempty_at(buf_views(bufs@), i as int);
        }
        if i == n {
            Ok(0)
        } else {
            self.0.read(&mut bufs[i])
        }
    }
}

impl<R, W: ByteSink> ReadWrite<R, W> {
    /// Batched write: forwarded as one single-buffer write of the first
    /// buffer that holds bytes, exactly as the host I/O model's default
    /// batched write behaves; with no such buffer nothing is written and
    /// nothing is touched.
    pub fn write_vectored(&mut self, bufs: &[Vec<u8>]) -> (r: Result<usize, IoError>)
        ensures
            (match first_nonempty(buf_views(bufs@)) {
                Option::None => {
                    &&& r == Result::<usize, IoError>::Ok(0usize)
                    &&& *final(self) == *old(self)
                },
                Option::Some(i) => {
                    &&& W::write_post(old(self).1, final(self).1, bufs@[i]@, r)
                    &&& final(self).0 == old(self).0
                },
            }),
    {
        let n = bufs.len();
        let mut i: usize = 0;
        while i < n && bufs[i].len() == 0
            invariant
                n == bufs@.len(),
                i <= n,
                *self == *old(self),
                forall|j: int| 0 <= j < i ==> bufs@[j]@.len() == 0,
            decreases n - i,
        {
            i = i + 1;
        }
        proof {
            lemma_first_nonempty_at(buf_views(bufs@), i as int);
        }
        if i == n {
            Ok(0)
        } else {
            self.1.write(bufs[i].as_slice())
        }
    }
}

impl<R, W> From<(R, W)> for ReadWrite<R, W> {
    /// Bundle a reader-writer pair into a combined pseudo-socket.
    fn from(pair: (R, W)) -> (c: Self) {
        ReadWrite(pair.0, pair.1)
    }
}

impl<R, W> vstd::std_specs::convert::FromSpecImpl<(R, W)> for ReadWrite<R, W> {
    open spec fn obeys_from_spec() -> bool {
        true
    }

    open spec fn from_spec(pair: (R, W)) -> Self {
        ReadWrite(pair.0, pair.1)
    }
}

impl<R: ByteSource, W> ByteSource for ReadWrite<R, W> {
    /// A read of the combinator is exactly a read of the input half: the
    /// input half's own contract holds of it, and the output half is
    /// untouched.
    open spec fn read_post(
        pre: Self,
        post: Self,
        buf_pre: Seq<u8>,
        buf_post: Seq<u8>,
        r: Result<usize, IoError>,
    ) -> bool {
        &&& R::read_post(pre.0, post.0, buf_pre, buf_post, r)
        &&& post.1 == pre.1
    }

    fn read(&mut self, buf: &mut Vec<u8>) -> (r: Result<usize, IoError>) {
        self.0.read(buf)
    }
}

impl<R, W: ByteSink> ByteSink for ReadWrite<R, W> {
    /// A write to the combinator is exactly a write to the output half: the
    /// output half's own contract holds of it, and the input half is
    /// untouched.
    open spec fn write_post(pre: Self, post: Self, buf: Seq<u8>, r: Result<usize, IoError>) -> bool {
        &&& W::write_post(pre.1, post.1, buf, r)
        &&& post.0 == pre.0
    }

    /// A flush of the combinator is exactly a flush of the output half, and
    /// the input half is untouched.
    open spec fn flush_post(pre: Self, post: Self, r: Result<(), IoError>) -> bool {
        &&& W::flush_post(pre.1, post.1, r)
        &&& post.0 == pre.0
    }

    fn write(&mut self, buf: &[u8]) -> (r: Result<usize, IoError>) {
        self.1.write(buf)
    }

    fn flush(&mut self) -> (r: Result<(), IoError>) {
        self.1.flush()
    }
}

} // verus!
