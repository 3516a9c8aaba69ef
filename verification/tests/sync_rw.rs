use readwrite::{ByteSink, ByteSource, FailingReader, IoError, IoErrorKind, MemReader, MemWriter,
    ReadWrite};

#[test]
fn scenario_fixed_source_growable_sink() {
    let src = MemReader::new(vec![1u8, 2, 3, 4, 5]);
    let snk = MemWriter::new();
    let mut c = ReadWrite::new(src, snk);

    let mut buf = vec![0u8; 2];
    assert_eq!(c.read(&mut buf), Ok(2));
    assert_eq!(buf, vec![1u8, 2]);

    assert_eq!(c.write(&[9u8, 9]), Ok(2));
    assert_eq!(c.borrow_write().bytes(), &vec![9u8, 9]);

    let mut rest = vec![0u8; 3];
    assert_eq!(c.read(&mut rest), Ok(3));
    assert_eq!(rest, vec![3u8, 4, 5]);

    let mut again = vec![0u8; 3];
    assert_eq!(c.read(&mut again), Ok(0));
    assert_eq!(again, vec![0u8, 0, 0]);
}

#[test]
fn construct_then_unwrap_returns_the_halves() {
    let src = MemReader::new(vec![7u8, 8]);
    let snk = MemWriter::new();
    let c = ReadWrite::new(src, snk);
    let (mut r, mut w) = c.into_inner();

    let mut buf = vec![0u8; 2];
    assert_eq!(r.read(&mut buf), Ok(2));
    assert_eq!(buf, vec![7u8, 8]);
    assert_eq!(w.write(&[5u8]), Ok(1));
    assert_eq!(w.into_bytes(), vec![5u8]);
}

#[test]
fn construct_from_pair() {
    let mut c = ReadWrite::from((MemReader::new(vec![4u8]), MemWriter::new()));
    let mut buf = vec![0u8; 1];
    assert_eq!(c.read(&mut buf), Ok(1));
    assert_eq!(buf, vec![4u8]);

    let mut c2 = ReadWrite::from_pair((MemReader::new(vec![6u8]), MemWriter::new()));
    let mut buf2 = vec![0u8; 1];
    assert_eq!(c2.read(&mut buf2), Ok(1));
    assert_eq!(buf2, vec![6u8]);
}

#[test]
fn chunked_reads_drain_in_order() {
    let data: Vec<u8> = (0u8..10).collect();
    let mut c = ReadWrite::new(MemReader::new(data.clone()), MemWriter::new());

    let mut collected: Vec<u8> = Vec::new();
    for size in [3usize, 1, 4, 2, 5] {
        let mut buf = vec![0u8; size];
        let n = c.read(&mut buf).unwrap();
        collected.extend_from_slice(&buf[..n]);
    }
    assert_eq!(collected, data);
    let mut empty_probe = vec![0u8; 1];
    assert_eq!(c.read(&mut empty_probe), Ok(0));
}

#[test]
fn chunked_writes_record_in_order() {
    let mut c = ReadWrite::new(MemReader::new(Vec::new()), MemWriter::new());
    let pieces: [&[u8]; 4] = [&[1u8], &[2u8, 3], &[], &[4u8, 5, 6]];
    for p in pieces {
        assert_eq!(c.write(p), Ok(p.len()));
    }
    assert_eq!(c.into_writer().into_bytes(), vec![1u8, 2, 3, 4, 5, 6]);
}

#[test]
fn flush_touches_only_the_writer() {
    let src = FailingReader::new(IoErrorKind::BrokenPipe);
    let mut c = ReadWrite::new(src, MemWriter::new());

    assert_eq!(c.flush(), Ok(()));
    assert!(c.borrow_write().was_flushed());

    // The input half was untouched: it still fails exactly as configured.
    let mut buf = vec![0u8; 1];
    assert_eq!(c.read(&mut buf), Err(IoError { kind: IoErrorKind::BrokenPipe }));

    // A write clears the flush mark again; a second flush sets it.
    assert_eq!(c.write(&[1u8]), Ok(1));
    assert!(!c.borrow_write().was_flushed());
    assert_eq!(c.flush(), Ok(()));
    assert!(c.borrow_write().was_flushed());
}

#[test]
fn eof_reports_zero_without_error() {
    let mut c = ReadWrite::new(MemReader::new(Vec::new()), MemWriter::new());
    let mut buf = vec![0u8; 4];
    assert_eq!(c.read(&mut buf), Ok(0));
    assert_eq!(buf, vec![0u8; 4]);
}

#[test]
fn read_error_kind_is_forwarded_exactly() {
    let kinds = [
        IoErrorKind::UnexpectedEof,
        IoErrorKind::BrokenPipe,
        IoErrorKind::Interrupted,
        IoErrorKind::WouldBlock,
        IoErrorKind::InvalidInput,
        IoErrorKind::TimedOut,
        IoErrorKind::Other,
    ];
    for kind in kinds {
        let mut c = ReadWrite::new(FailingReader::new(kind), MemWriter::new());
        let mut buf = vec![0u8; 1];
        let e = c.read(&mut buf).unwrap_err();
        assert_eq!(e.kind, kind);
        assert_eq!(buf, vec![0u8]);
    }
}

#[test]
fn unwrap_input_only_keeps_remaining_bytes() {
    let mut c = ReadWrite::new(MemReader::new(vec![1u8, 2, 3, 4, 5]), MemWriter::new());
    let mut buf = vec![0u8; 2];
    assert_eq!(c.read(&mut buf), Ok(2));

    let mut r = c.into_reader();
    assert_eq!(r.remaining_len(), 3);
    let mut rest = vec![0u8; 5];
    assert_eq!(r.read(&mut rest), Ok(3));
    assert_eq!(&rest[..3], &[3u8, 4, 5]);
}

#[test]
fn borrowing_reaches_both_halves() {
    let mut c = ReadWrite::new(MemReader::new(vec![1u8, 2]), MemWriter::new());

    let (r, w) = c.borrow();
    assert_eq!(r.remaining_len(), 2);
    assert!(!w.was_flushed());
    assert_eq!(c.borrow_read().remaining_len(), 2);
    assert_eq!(c.borrow_write().bytes().len(), 0);

    {
        let (r, w) = c.borrow_mut();
        let mut buf = vec![0u8; 1];
        assert_eq!(r.read(&mut buf), Ok(1));
        assert_eq!(buf, vec![1u8]);
        assert_eq!(w.write(&[8u8]), Ok(1));
    }
    {
        let r = c.borrow_mut_read();
        let mut buf = vec![0u8; 1];
        assert_eq!(r.read(&mut buf), Ok(1));
        assert_eq!(buf, vec![2u8]);
    }
    {
        let w = c.borrow_mut_write();
        assert_eq!(w.flush(), Ok(()));
    }
    assert!(c.borrow_write().was_flushed());
    assert_eq!(c.into_writer().into_bytes(), vec![8u8]);
}

#[test]
fn read_to_end_is_chunking_invariant() {
    let data: Vec<u8> = (0u8..30).collect();
    for chunk in [1usize, 2, 7, 30, 100] {
        let mut c = ReadWrite::new(MemReader::new(data.clone()), MemWriter::new());
        assert_eq!(c.read_to_end(chunk), data);
        assert_eq!(c.borrow_read().remaining_len(), 0);
    }
    let mut empty = ReadWrite::new(MemReader::new(Vec::new()), MemWriter::new());
    assert_eq!(empty.read_to_end(4), Vec::<u8>::new());
}

#[test]
fn vectored_read_uses_first_buffer_with_room() {
    let mut c = ReadWrite::new(MemReader::new(vec![1u8, 2, 3]), MemWriter::new());
    let mut bufs = vec![Vec::new(), vec![0u8; 2], vec![0u8; 1]];
    assert_eq!(c.read_vectored(&mut bufs), Ok(2));
    assert_eq!(bufs[0], Vec::<u8>::new());
    assert_eq!(bufs[1], vec![1u8, 2]);
    assert_eq!(bufs[2], vec![0u8]);

    let mut no_room: Vec<Vec<u8>> = vec![Vec::new(), Vec::new()];
    assert_eq!(c.read_vectored(&mut no_room), Ok(0));
    assert_eq!(c.borrow_read().remaining_len(), 1);
}

#[test]
fn vectored_write_uses_first_nonempty_buffer() {
    let mut c = ReadWrite::new(MemReader::new(Vec::new()), MemWriter::new());
    let bufs = vec![Vec::new(), vec![7u8, 8], vec![9u8]];
    assert_eq!(c.write_vectored(&bufs), Ok(2));
    assert_eq!(c.borrow_write().bytes(), &vec![7u8, 8]);

    let empties: Vec<Vec<u8>> = vec![Vec::new()];
    assert_eq!(c.write_vectored(&empties), Ok(0));
    assert_eq!(c.borrow_write().bytes(), &vec![7u8, 8]);
}
