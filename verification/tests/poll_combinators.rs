use readwrite::{MemReader, MemWriter, PendingReader, PendingWriter, PollByteSink, PollByteSource,
    PollOutcome, ReadWriteAsyncstd, ReadWriteTokio};

#[test]
fn tokio_flavour_forwards_ready_operations() {
    let mut c = ReadWriteTokio::new(MemReader::new(vec![1u8, 2, 3]), MemWriter::new());

    let mut buf = vec![0u8; 2];
    assert_eq!(c.poll_read(&mut buf), PollOutcome::Ready(Ok(2)));
    assert_eq!(buf, vec![1u8, 2]);

    assert_eq!(c.poll_write(&[9u8]), PollOutcome::Ready(Ok(1)));
    assert_eq!(c.borrow_write().bytes(), &vec![9u8]);

    assert_eq!(c.poll_flush(), PollOutcome::Ready(Ok(())));
    assert!(c.borrow_write().was_flushed());

    assert_eq!(c.poll_shutdown(), PollOutcome::Ready(Ok(())));
    assert!(c.borrow_write().was_shut_down());
}

#[test]
fn tokio_flavour_forwards_pending() {
    let mut c = ReadWriteTokio::new(PendingReader::new(), PendingWriter::new());
    let mut buf = vec![0u8; 2];
    assert_eq!(c.poll_read(&mut buf), PollOutcome::Pending);
    assert_eq!(buf, vec![0u8, 0]);
    assert_eq!(c.poll_write(&[1u8]), PollOutcome::Pending);
    assert_eq!(c.poll_flush(), PollOutcome::Pending);
    assert_eq!(c.poll_shutdown(), PollOutcome::Pending);
}

#[test]
fn tokio_flavour_accessors_and_unwrap() {
    let mut c = ReadWriteTokio::new(MemReader::new(vec![5u8, 6]), MemWriter::new());

    let (r, w) = c.borrow();
    assert_eq!(r.remaining_len(), 2);
    assert!(!w.was_flushed());
    assert_eq!(c.borrow_read().remaining_len(), 2);
    assert_eq!(c.borrow_write().bytes().len(), 0);

    {
        let (r, w) = c.borrow_mut();
        let mut buf = vec![0u8; 1];
        assert_eq!(r.poll_read(&mut buf), PollOutcome::Ready(Ok(1)));
        assert_eq!(buf, vec![5u8]);
        assert_eq!(w.poll_write(&[7u8]), PollOutcome::Ready(Ok(1)));
    }
    assert_eq!(c.borrow_mut_read().remaining_len(), 1);
    assert_eq!(c.borrow_mut_write().poll_flush(), PollOutcome::Ready(Ok(())));

    let (mut r, w) = c.into_inner();
    let mut buf = vec![0u8; 1];
    assert_eq!(r.poll_read(&mut buf), PollOutcome::Ready(Ok(1)));
    assert_eq!(buf, vec![6u8]);
    assert_eq!(w.into_bytes(), vec![7u8]);
}

#[test]
fn tokio_flavour_from_pair_and_single_unwraps() {
    let c = ReadWriteTokio::from((MemReader::new(vec![1u8]), MemWriter::new()));
    let mut r = c.into_reader();
    assert_eq!(r.remaining_len(), 1);
    let mut buf = vec![0u8; 1];
    assert_eq!(r.poll_read(&mut buf), PollOutcome::Ready(Ok(1)));

    let c2 = ReadWriteTokio::from_pair((MemReader::new(Vec::new()), MemWriter::new()));
    let mut w = c2.into_writer();
    assert_eq!(w.poll_write(&[3u8]), PollOutcome::Ready(Ok(1)));
    assert_eq!(w.into_bytes(), vec![3u8]);
}

#[test]
fn tokio_flavour_vectored_write() {
    let mut c = ReadWriteTokio::new(MemReader::new(Vec::new()), MemWriter::new());
    let bufs = vec![Vec::new(), vec![4u8, 5]];
    assert_eq!(c.poll_write_vectored(&bufs), PollOutcome::Ready(Ok(2)));
    assert_eq!(c.borrow_write().bytes(), &vec![4u8, 5]);

    let empties: Vec<Vec<u8>> = Vec::new();
    assert_eq!(c.poll_write_vectored(&empties), PollOutcome::Ready(Ok(0)));
    assert_eq!(c.borrow_write().bytes(), &vec![4u8, 5]);
}

#[test]
fn asyncstd_flavour_forwards_ready_operations() {
    let mut c = ReadWriteAsyncstd::new(MemReader::new(vec![1u8, 2, 3]), MemWriter::new());

    let mut buf = vec![0u8; 2];
    assert_eq!(c.poll_read(&mut buf), PollOutcome::Ready(Ok(2)));
    assert_eq!(buf, vec![1u8, 2]);

    assert_eq!(c.poll_write(&[9u8]), PollOutcome::Ready(Ok(1)));
    assert_eq!(c.poll_flush(), PollOutcome::Ready(Ok(())));
    assert!(c.borrow_write().was_flushed());
    assert_eq!(c.poll_shutdown(), PollOutcome::Ready(Ok(())));
    assert!(c.borrow_write().was_shut_down());
}

#[test]
fn asyncstd_flavour_forwards_pending() {
    let mut c = ReadWriteAsyncstd::new(PendingReader::new(), PendingWriter::new());
    let mut buf = vec![0u8; 2];
    assert_eq!(c.poll_read(&mut buf), PollOutcome::Pending);
    assert_eq!(c.poll_write(&[1u8]), PollOutcome::Pending);
    assert_eq!(c.poll_flush(), PollOutcome::Pending);
    assert_eq!(c.poll_shutdown(), PollOutcome::Pending);
}

#[test]
fn asyncstd_flavour_accessors_and_unwrap() {
    let mut c = ReadWriteAsyncstd::new(MemReader::new(vec![5u8, 6]), MemWriter::new());

    let (r, w) = c.borrow();
    assert_eq!(r.remaining_len(), 2);
    assert!(!w.was_shut_down());
    assert_eq!(c.borrow_read().remaining_len(), 2);
    assert_eq!(c.borrow_write().bytes().len(), 0);

    {
        let (r, w) = c.borrow_mut();
        let mut buf = vec![0u8; 1];
        assert_eq!(r.poll_read(&mut buf), PollOutcome::Ready(Ok(1)));
        assert_eq!(w.poll_write(&[7u8]), PollOutcome::Ready(Ok(1)));
    }
    assert_eq!(c.borrow_mut_read().remaining_len(), 1);
    assert_eq!(c.borrow_mut_write().poll_flush(), PollOutcome::Ready(Ok(())));

    let (r, w) = c.into_inner();
    assert_eq!(r.remaining_len(), 1);
    assert_eq!(w.into_bytes(), vec![7u8]);
}

#[test]
fn asyncstd_flavour_from_pair_and_single_unwraps() {
    let c = ReadWriteAsyncstd::from((MemReader::new(vec![1u8]), MemWriter::new()));
    let r = c.into_reader();
    assert_eq!(r.remaining_len(), 1);

    let c2 = ReadWriteAsyncstd::from_pair((MemReader::new(Vec::new()), MemWriter::new()));
    let mut w = c2.into_writer();
    assert_eq!(w.poll_write(&[3u8]), PollOutcome::Ready(Ok(1)));
    assert_eq!(w.into_bytes(), vec![3u8]);
}

#[test]
fn asyncstd_flavour_vectored_polls() {
    let mut c = ReadWriteAsyncstd::new(MemReader::new(vec![1u8, 2, 3]), MemWriter::new());

    let mut bufs = vec![Vec::new(), vec![0u8; 2]];
    assert_eq!(c.poll_read_vectored(&mut bufs), PollOutcome::Ready(Ok(2)));
    assert_eq!(bufs[1], vec![1u8, 2]);

    let out = vec![vec![8u8]];
    assert_eq!(c.poll_write_vectored(&out), PollOutcome::Ready(Ok(1)));
    assert_eq!(c.borrow_write().bytes(), &vec![8u8]);

    let mut no_room: Vec<Vec<u8>> = Vec::new();
    assert_eq!(c.poll_read_vectored(&mut no_room), PollOutcome::Ready(Ok(0)));
}
