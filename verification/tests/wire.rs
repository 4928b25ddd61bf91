use everything_ipc::wire::{error_for_response, response_is_ok, HEADER_SIZE};
use everything_ipc::{IpcError, Message};

#[test]
fn header_is_code_then_size_little_endian() {
    let m = Message { code: 18, size: 0x0102_0304 };
    assert_eq!(m.to_bytes(), vec![18, 0, 0, 0, 4, 3, 2, 1]);
    assert_eq!(m.to_bytes().len(), HEADER_SIZE);
}

#[test]
fn header_round_trip() {
    for m in [
        Message { code: 0, size: 0 },
        Message { code: 200, size: 8 },
        Message { code: u32::MAX, size: 0x8000_0001 },
    ] {
        assert_eq!(Message::from_bytes(&m.to_bytes()), m);
    }
    let b = [0xff, 0, 1, 2, 0x10, 0x20, 0x30, 0x40];
    let m = Message::from_bytes(&b);
    assert_eq!(m, Message { code: 0x0201_00ff, size: 0x4030_2010 });
    assert_eq!(m.to_bytes(), b.to_vec());
}

#[test]
fn success_codes() {
    assert!(response_is_ok(200));
    assert!(response_is_ok(100));
    assert!(!response_is_ok(201));
    assert!(!response_is_ok(400));
}

#[test]
fn error_codes_map_to_errors() {
    assert!(matches!(error_for_response(400), IpcError::BadRequest));
    assert!(matches!(error_for_response(401), IpcError::Cancelled));
    assert!(matches!(error_for_response(404), IpcError::PipeNotFound));
    assert!(matches!(error_for_response(500), IpcError::Server));
    assert!(matches!(error_for_response(501), IpcError::InvalidCommand));
    assert!(matches!(error_for_response(402), IpcError::BadResponse));
    assert!(matches!(error_for_response(0), IpcError::BadResponse));
}
