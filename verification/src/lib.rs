//! Combine one input-capable value and one output-capable value into a single
//! socket-like handle that is itself both input-capable and output-capable.
//!
//! The combinator never interprets, buffers or reorders bytes: every input
//! operation is forwarded verbatim to the input half, every output operation
//! verbatim to the output half, and the contracts on [`ReadWrite`] state
//! exactly that.

mod io;
mod laws;
mod mem;
mod poll;
mod poll_rw;
mod rw;

pub use io::{ByteSink, ByteSource, IoError, IoErrorKind};
pub use laws::{
    chunks_of, concat_all, cut_len, lemma_chunked_reads_drain, lemma_eof_read, lemma_error_read,
    lemma_pair_round_trip, lemma_read_yields_prefix, lemma_writes_record, recorded_after,
    remaining_after,
};
pub use mem::{FailingReader, MemReader, MemWriter, PendingReader, PendingWriter};
pub use poll::{PollByteSink, PollByteSource, PollOutcome};
pub use poll_rw::{ReadWriteAsyncstd, ReadWriteTokio};
pub use rw::{buf_views, first_nonempty, lemma_first_nonempty_at, ReadWrite};
