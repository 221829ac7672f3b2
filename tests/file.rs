use qemucomm::file::{
    FileReader, FileSession, FileWriter, ReadStep, SeekWhence, SessionAction, TransferError,
    WriteStep, CHUNK_SIZE,
};

/// Uploads `data` to a remote end that accepts at most `accept` bytes per
/// write; returns what it stored, the reported total and the write sizes.
fn upload(data: &[u8], accept: usize) -> (Vec<u8>, u64, Vec<usize>) {
    let mut w = FileWriter::new();
    let mut pos = 0;
    let mut remote = Vec::new();
    let mut writes = Vec::new();
    loop {
        let n = w.read_limit().min(data.len() - pos);
        let chunk = data[pos..pos + n].to_vec();
        pos += n;
        match w.on_read(chunk) {
            WriteStep::Done(total) => return (remote, total, writes),
            WriteStep::Send => {
                let sent = w.pending();
                writes.push(sent.len());
                let took = sent.len().min(accept);
                remote.extend_from_slice(&sent[..took]);
                w.on_written(took as i64).unwrap();
            }
        }
    }
}

/// Downloads `remote` in reads of at most `per_read` bytes.
fn download(remote: &[u8], per_read: usize) -> (Vec<u8>, u64) {
    let mut r = FileReader::new();
    let mut pos = 0;
    let mut sink = Vec::new();
    loop {
        let n = per_read.min(remote.len() - pos);
        let chunk = remote[pos..pos + n].to_vec();
        pos += n;
        let eof = pos == remote.len();
        sink.extend_from_slice(&chunk);
        match r.on_chunk(&chunk, n as i64, eof).unwrap() {
            ReadStep::Done(total) => return (sink, total),
            ReadStep::More => (),
        }
    }
}

fn bytes(n: usize) -> Vec<u8> {
    (0..n).map(|i| (i * 7 % 251) as u8).collect()
}

#[test]
fn round_trip_empty() {
    let (remote, total, writes) = upload(&[], 4096);
    assert!(remote.is_empty());
    assert_eq!(total, 0);
    assert!(writes.is_empty());
    let (back, n) = download(&remote, 1000);
    assert!(back.is_empty());
    assert_eq!(n, 0);
}

#[test]
fn round_trip_various_sizes() {
    for &size in &[1usize, 100, 4096, 4097, 10000] {
        let data = bytes(size);
        let (remote, total, _) = upload(&data, 1000);
        assert_eq!(remote, data);
        assert_eq!(total, size as u64);
        let (back, n) = download(&remote, 3000);
        assert_eq!(back, data);
        assert_eq!(n, size as u64);
    }
}

#[test]
fn writes_never_exceed_chunk_size() {
    let data = bytes(20000);
    let (_, _, writes) = upload(&data, usize::MAX);
    assert!(writes.iter().all(|&w| w <= CHUNK_SIZE));
    assert_eq!(writes[0], 4096);
}

#[test]
fn partial_write_keeps_the_rest() {
    let mut w = FileWriter::new();
    assert_eq!(w.on_read(vec![1, 2, 3, 4, 5]), WriteStep::Send);
    w.on_written(2).unwrap();
    assert_eq!(w.pending(), &[3, 4, 5]);
    assert_eq!(w.read_limit(), 4093);
}

#[test]
fn zero_or_negative_write_is_an_error() {
    let mut w = FileWriter::new();
    w.on_read(vec![1, 2, 3]);
    assert_eq!(w.on_written(0), Err(TransferError::NonPositiveWrite(0)));
    assert_eq!(w.on_written(-4), Err(TransferError::NonPositiveWrite(-4)));
    assert_eq!(w.pending(), &[1, 2, 3]);
}

#[test]
fn overlong_write_is_an_error() {
    let mut w = FileWriter::new();
    w.on_read(vec![1, 2, 3]);
    assert_eq!(w.on_written(4), Err(TransferError::WriteOverrun(4)));
}

#[test]
fn read_stops_on_zero_count() {
    let mut r = FileReader::new();
    assert_eq!(r.on_chunk(&vec![9; 10], 10, false), Ok(ReadStep::More));
    assert_eq!(r.on_chunk(&vec![], 0, false), Ok(ReadStep::Done(10)));
}

#[test]
fn negative_read_is_an_error() {
    let mut r = FileReader::new();
    assert_eq!(r.on_chunk(&vec![], -1, false), Err(TransferError::NegativeRead(-1)));
}

fn is_close(a: &SessionAction<String>, h: i64) -> bool {
    matches!(a, SessionAction::Close { handle } if *handle == h)
}

#[test]
fn session_closes_once_after_failing_body() {
    let mut s: FileSession<String> = FileSession::new(None, SeekWhence::Beginning);
    let mut closes = 0;
    let a = s.on_opened(Ok(7));
    assert!(matches!(a, SessionAction::Run { handle: 7 }));
    let a = s.on_body(Err("transfer failed".to_string()));
    if is_close(&a, 7) {
        closes += 1;
    }
    let a = s.on_timeout("late".to_string());
    assert!(!is_close(&a, 7));
    assert_eq!(closes, 1);
}

#[test]
fn session_returns_body_error_after_close() {
    let mut s: FileSession<String> = FileSession::new(None, SeekWhence::Beginning);
    s.on_opened(Ok(7));
    let a = s.on_body(Err("boom".to_string()));
    assert!(is_close(&a, 7));
    match s.on_closed() {
        SessionAction::Finish(Err(e)) => assert_eq!(e, "boom"),
        _ => panic!("expected the body's error"),
    }
}

#[test]
fn session_seek_failure_closes() {
    let mut s: FileSession<String> = FileSession::new(Some(10), SeekWhence::End);
    let a = s.on_opened(Ok(3));
    assert!(matches!(a, SessionAction::Seek { handle: 3, whence: SeekWhence::End, offset: 10 }));
    let a = s.on_seeked(Err("bad seek".to_string()));
    assert!(is_close(&a, 3));
    match s.on_closed() {
        SessionAction::Finish(Err(e)) => assert_eq!(e, "bad seek"),
        _ => panic!("expected the seek error"),
    }
}

#[test]
fn session_open_failure_needs_no_close() {
    let mut s: FileSession<String> = FileSession::new(None, SeekWhence::Beginning);
    match s.on_opened(Err("no such file".to_string())) {
        SessionAction::Finish(Err(e)) => assert_eq!(e, "no such file"),
        _ => panic!("expected the open error"),
    }
}

#[test]
fn session_timeout_closes_open_file() {
    let mut s: FileSession<String> = FileSession::new(None, SeekWhence::Beginning);
    s.on_opened(Ok(5));
    let a = s.on_timeout("deadline".to_string());
    assert!(is_close(&a, 5));
    match s.on_closed() {
        SessionAction::Finish(Err(e)) => assert_eq!(e, "deadline"),
        _ => panic!("expected the timeout"),
    }
}

#[test]
fn session_success_returns_body_code() {
    let mut s: FileSession<String> = FileSession::new(None, SeekWhence::Beginning);
    s.on_opened(Ok(1));
    assert!(is_close(&s.on_body(Ok(0)), 1));
    assert!(matches!(s.on_closed(), SessionAction::Finish(Ok(0))));
}

#[test]
fn session_timeout_during_close_fails_without_second_close() {
    let mut s: FileSession<String> = FileSession::new(None, SeekWhence::Beginning);
    s.on_opened(Ok(2));
    assert!(is_close(&s.on_body(Ok(0)), 2));
    match s.on_timeout("deadline".to_string()) {
        SessionAction::Finish(Err(e)) => assert_eq!(e, "deadline"),
        _ => panic!("expected the timeout"),
    }
}
