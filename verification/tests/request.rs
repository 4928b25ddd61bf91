use everything_ipc::connect::ConnectEvent;
use everything_ipc::request::{PipeAction, PipeEvent, Request};
use everything_ipc::transfer::ERROR_IO_PENDING;
use everything_ipc::wire::COMMAND_GET_FOLDER_SIZE;
use everything_ipc::{EverythingClient, IpcError, Message};

/// Runs `req` against a server that accepts every write whole and answers with `reply`,
/// delivered at most `piece` bytes per read. Returns the outcome, the response data, and the
/// bytes written.
fn run(req: Request, reply: &[u8], piece: usize) -> (Result<bool, IpcError>, Vec<u8>, Vec<u8>) {
    let (r, data, written, _) = run_counting(req, reply, piece);
    (r, data, written)
}

/// As `run`, also returning how many reply bytes were read.
fn run_counting(mut req: Request, reply: &[u8], piece: usize) -> (Result<bool, IpcError>, Vec<u8>, Vec<u8>, usize) {
    let mut written = Vec::new();
    let mut at = 0;
    loop {
        match req.action() {
            PipeAction::Write(b) => {
                written.extend_from_slice(&b);
                req.step(PipeEvent::Written(b.len() as u32));
            }
            PipeAction::Read(n) => {
                let k = n.min(piece).min(reply.len() - at);
                let b = reply[at..at + k].to_vec();
                at += k;
                req.step(PipeEvent::Received(b));
            }
            PipeAction::Finished => break,
            other => panic!("unexpected action {:?}", other),
        }
    }
    let (r, data) = req.into_outcome();
    (r, data, written, at)
}

fn reply(code: u32, data: &[u8]) -> Vec<u8> {
    let mut b = Message { code, size: data.len() as u32 }.to_bytes();
    b.extend_from_slice(data);
    b
}

#[test]
fn request_writes_header_then_payload() {
    let req = Request::ioctrl(7, b"abc".to_vec(), 16);
    let (r, data, written) = run(req, &reply(200, b"xyz"), usize::MAX);
    assert!(matches!(r, Ok(true)));
    assert_eq!(data, b"xyz".to_vec());
    assert_eq!(written, vec![7, 0, 0, 0, 3, 0, 0, 0, b'a', b'b', b'c']);
}

#[test]
fn request_with_empty_payload_and_reply() {
    let req = Request::ioctrl(5, Vec::new(), 0);
    let (r, data, written) = run(req, &reply(100, b""), usize::MAX);
    assert!(matches!(r, Ok(true)));
    assert!(data.is_empty());
    assert_eq!(written, vec![5, 0, 0, 0, 0, 0, 0, 0]);
}

#[test]
fn reply_arrives_in_small_pieces() {
    let req = Request::ioctrl(1, vec![9; 3], 8);
    let (r, data, _) = run(req, &reply(200, &[1, 2, 3, 4, 5]), 3);
    assert!(matches!(r, Ok(true)));
    assert_eq!(data, vec![1, 2, 3, 4, 5]);
}

#[test]
fn error_reply_is_mapped_after_skipping_its_data() {
    for (code, check) in [
        (400u32, (|e: &IpcError| matches!(e, IpcError::BadRequest)) as fn(&IpcError) -> bool),
        (401, |e| matches!(e, IpcError::Cancelled)),
        (404, |e| matches!(e, IpcError::PipeNotFound)),
        (500, |e| matches!(e, IpcError::Server)),
        (501, |e| matches!(e, IpcError::InvalidCommand)),
        (302, |e| matches!(e, IpcError::BadResponse)),
    ] {
        let req = Request::ioctrl(1, Vec::new(), 8);
        let (r, data, _) = run(req, &reply(code, &[0u8; 300]), 100);
        match r {
            Err(e) => assert!(check(&e)),
            Ok(_) => panic!("expected an error for code {}", code),
        }
        assert!(data.is_empty());
    }
}

#[test]
fn error_reply_cut_short_is_false() {
    let req = Request::ioctrl(1, Vec::new(), 8);
    let mut r = reply(404, &[0u8; 10]);
    r.truncate(12);
    let (r, _, _) = run(req, &r, usize::MAX);
    assert!(matches!(r, Ok(false)));
}

#[test]
fn oversized_reply_is_skipped() {
    let req = Request::ioctrl(1, Vec::new(), 8);
    let (r, data, _) = run(req, &reply(200, &[5u8; 300]), usize::MAX);
    assert!(matches!(r, Ok(false)));
    assert!(data.is_empty());
}

#[test]
fn oversized_reply_cut_short_is_insufficient_buffer() {
    let req = Request::ioctrl(1, Vec::new(), 8);
    let mut r = reply(200, &[5u8; 300]);
    r.truncate(100);
    let (r, _, _) = run(req, &r, usize::MAX);
    assert!(matches!(r, Err(IpcError::InsufficientBuffer)));
}

#[test]
fn oversized_reply_reads_in_pieces_of_256() {
    let mut req = Request::ioctrl(1, Vec::new(), 8);
    while let PipeAction::Write(b) = req.action() {
        req.step(PipeEvent::Written(b.len() as u32));
    }
    assert!(matches!(req.action(), PipeAction::Read(8)));
    req.step(PipeEvent::Received(Message { code: 200, size: 300 }.to_bytes()));
    assert!(matches!(req.action(), PipeAction::Read(256)));
    req.step(PipeEvent::Received(vec![0; 256]));
    assert!(matches!(req.action(), PipeAction::Read(44)));
}

#[test]
fn truncated_header_is_false() {
    let req = Request::ioctrl(1, Vec::new(), 8);
    let (r, _, _) = run(req, &[200, 0, 0], usize::MAX);
    assert!(matches!(r, Ok(false)));
}

#[test]
fn truncated_data_is_false() {
    let req = Request::ioctrl(1, Vec::new(), 8);
    let mut r = reply(200, &[1, 2, 3, 4]);
    r.truncate(10);
    let (r, _, _) = run(req, &r, usize::MAX);
    assert!(matches!(r, Ok(false)));
}

#[test]
fn failed_write_is_disconnected() {
    let mut req = Request::ioctrl(1, b"x".to_vec(), 8);
    req.step(PipeEvent::Written(0));
    assert!(req.is_done());
    assert!(matches!(req.into_outcome().0, Err(IpcError::Disconnected)));

    let mut req = Request::ioctrl(1, b"x".to_vec(), 8);
    req.step(PipeEvent::Written(8));
    req.step(PipeEvent::Failed(232));
    assert!(matches!(req.into_outcome().0, Err(IpcError::Disconnected)));
}

#[test]
fn shutdown_during_pending_write() {
    let mut req = Request::ioctrl(1, b"x".to_vec(), 8);
    req.step(PipeEvent::Failed(ERROR_IO_PENDING));
    assert!(matches!(req.action(), PipeAction::WaitWrite));
    req.step(PipeEvent::Woken(0));
    assert!(matches!(req.into_outcome().0, Err(IpcError::Shutdown)));
}

#[test]
fn pending_write_completes() {
    let mut req = Request::ioctrl(1, Vec::new(), 8);
    req.step(PipeEvent::Failed(ERROR_IO_PENDING));
    req.step(PipeEvent::Woken(1));
    assert!(matches!(req.action(), PipeAction::CollectWrite));
    req.step(PipeEvent::Written(3));
    match req.action() {
        PipeAction::Write(b) => assert_eq!(b, vec![0, 0, 0, 0, 0]),
        other => panic!("unexpected action {:?}", other),
    }
}

#[test]
fn shutdown_during_pending_read_is_false() {
    let mut req = Request::ioctrl(1, Vec::new(), 8);
    req.step(PipeEvent::Written(8));
    req.step(PipeEvent::Failed(ERROR_IO_PENDING));
    assert!(matches!(req.action(), PipeAction::WaitRead));
    req.step(PipeEvent::Woken(0));
    assert!(matches!(req.into_outcome().0, Ok(false)));
}

#[test]
fn pending_read_collects_bytes() {
    let mut req = Request::ioctrl(1, Vec::new(), 8);
    req.step(PipeEvent::Written(8));
    req.step(PipeEvent::Failed(ERROR_IO_PENDING));
    req.step(PipeEvent::Woken(1));
    assert!(matches!(req.action(), PipeAction::CollectRead));
    req.step(PipeEvent::Received(Message { code: 200, size: 2 }.to_bytes()));
    req.step(PipeEvent::Received(vec![4, 2]));
    let (r, data) = req.into_outcome();
    assert!(matches!(r, Ok(true)));
    assert_eq!(data, vec![4, 2]);
}

fn connected_client() -> EverythingClient {
    let mut c = EverythingClient::try_new(None);
    c.step(ConnectEvent::PipeOpened(1));
    c.step(ConnectEvent::EventCreated(2));
    c.step(ConnectEvent::EventCreated(3));
    c.step(ConnectEvent::EventCreated(4));
    c.into_outcome().unwrap()
}

#[test]
fn folder_size_request_and_reply() {
    let client = connected_client();
    let req = client.get_folder_size_from_filename(r"C:\Windows");
    let size: u64 = 30 * 1024 * 1024 * 1024 + 5;
    let (r, data, written) = run(req, &reply(200, &size.to_le_bytes()), usize::MAX);
    let mut expected = vec![COMMAND_GET_FOLDER_SIZE as u8, 0, 0, 0, 10, 0, 0, 0];
    expected.extend_from_slice(br"C:\Windows");
    assert_eq!(written, expected);
    let v = EverythingClient::folder_size_from_reply(r, &data).unwrap();
    assert_eq!(v, size);
    assert!(v > 1024 * 1024);
}

#[test]
fn folder_size_rejects_bad_replies() {
    let max = u64::MAX.to_le_bytes();
    assert!(matches!(
        EverythingClient::folder_size_from_reply(Ok(true), &max),
        Err(IpcError::BadResponse)
    ));
    assert!(matches!(
        EverythingClient::folder_size_from_reply(Ok(true), &[1, 2, 3, 4]),
        Err(IpcError::BadResponse)
    ));
    assert!(matches!(
        EverythingClient::folder_size_from_reply(Ok(false), &[1, 0, 0, 0, 0, 0, 0, 0]),
        Err(IpcError::BadResponse)
    ));
    assert!(matches!(
        EverythingClient::folder_size_from_reply(Err(IpcError::Shutdown), &[]),
        Err(IpcError::Shutdown)
    ));
    assert_eq!(
        EverythingClient::folder_size_from_reply(Ok(true), &[1, 0, 0, 0, 0, 0, 0, 1]).unwrap(),
        0x0100_0000_0000_0001
    );
}

#[test]
fn folder_size_of_short_reply_is_bad_response() {
    let client = connected_client();
    let req = client.get_folder_size_from_filename("x");
    let (r, data, _) = run(req, &reply(200, &[1, 2, 3, 4]), usize::MAX);
    assert!(matches!(r, Ok(true)));
    assert!(matches!(
        EverythingClient::folder_size_from_reply(r, &data),
        Err(IpcError::BadResponse)
    ));
}

#[test]
fn finished_exchanges_end_at_message_boundary() {
    // success
    let rep = reply(200, &[1, 2, 3]);
    let (r, _, written, read) = run_counting(Request::ioctrl(9, b"ab".to_vec(), 8), &[rep.clone(), reply(200, b"next")].concat(), 5);
    assert!(matches!(r, Ok(true)));
    assert_eq!(written.len(), 8 + 2);
    assert_eq!(read, rep.len());
    // oversized reply skipped
    let rep = reply(200, &[7u8; 600]);
    let (r, _, _, read) = run_counting(Request::ioctrl(9, Vec::new(), 8), &[rep.clone(), reply(200, b"x")].concat(), usize::MAX);
    assert!(matches!(r, Ok(false)));
    assert_eq!(read, rep.len());
    // error reply skipped
    let rep = reply(501, &[7u8; 20]);
    let (r, _, _, read) = run_counting(Request::ioctrl(9, Vec::new(), 8), &[rep.clone(), reply(200, b"x")].concat(), 3);
    assert!(matches!(r, Err(IpcError::InvalidCommand)));
    assert_eq!(read, rep.len());
}
