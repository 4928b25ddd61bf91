use vstd::prelude::*;
use crate::error::IpcError;

verus! {

/// Command code of the folder-size query.
pub const COMMAND_GET_FOLDER_SIZE: u32 = 18;

/// Response code: success.
pub const RESPONSE_OK: u32 = 200;
/// Response code: success, more data follows.
pub const RESPONSE_OK_MORE_DATA: u32 = 100;
/// Response code: the request was malformed.
pub const RESPONSE_ERROR_BAD_REQUEST: u32 = 400;
/// Response code: the request was cancelled.
pub const RESPONSE_ERROR_CANCELLED: u32 = 401;
/// Response code: the requested item was not found.
pub const RESPONSE_ERROR_NOT_FOUND: u32 = 404;
/// Response code: the server ran out of memory.
pub const RESPONSE_ERROR_OUT_OF_MEMORY: u32 = 500;
/// Response code: the command is unknown to the server.
pub const RESPONSE_ERROR_INVALID_COMMAND: u32 = 501;

/// Whether a response code reports success.
pub open spec fn is_ok_response(code: u32) -> bool {
    code == RESPONSE_OK || code == RESPONSE_OK_MORE_DATA
}

/// The error that a response code other than a success reports.
pub open spec fn response_error(code: u32) -> IpcError {
    if code == RESPONSE_ERROR_BAD_REQUEST {
        IpcError::BadRequest
    } else if code == RESPONSE_ERROR_CANCELLED {
        IpcError::Cancelled
    } else if code == RESPONSE_ERROR_NOT_FOUND {
        IpcError::PipeNotFound
    } else if code == RESPONSE_ERROR_OUT_OF_MEMORY {
        IpcError::Server
    } else if code == RESPONSE_ERROR_INVALID_COMMAND {
        IpcError::InvalidCommand
    } else {
        IpcError::BadResponse
    }
}

/// The response codes of the protocol and what they report: 200 and 100 are the successes;
/// 400, 401, 404, 500 and 501 are the bad request, cancelled, not found, server and invalid
/// command errors; any other code is a bad response.
pub proof fn lemma_response_codes(code: u32)
    ensures
        is_ok_response(code) <==> (code == 200 || code == 100),
        code == 400 ==> response_error(code) is BadRequest,
        code == 401 ==> response_error(code) is Cancelled,
        code == 404 ==> response_error(code) is PipeNotFound,
        code == 500 ==> response_error(code) is Server,
        code == 501 ==> response_error(code) is InvalidCommand,
        code != 400 && code != 401 && code != 404 && code != 500 && code != 501
            ==> response_error(code) is BadResponse,
{
}

/// Whether `code` reports success.
pub fn response_is_ok(code: u32) -> (ok: bool)
    ensures
        ok == is_ok_response(code),
{
    code == RESPONSE_OK || code == RESPONSE_OK_MORE_DATA
}

/// The error reported by the response code `code`.
pub fn error_for_response(code: u32) -> (e: IpcError)
    ensures
        e == response_error(code),
{
    match code {
        RESPONSE_ERROR_BAD_REQUEST => IpcError::BadRequest,
        RESPONSE_ERROR_CANCELLED => IpcError::Cancelled,
        RESPONSE_ERROR_NOT_FOUND => IpcError::PipeNotFound,
        RESPONSE_ERROR_OUT_OF_MEMORY => IpcError::Server,
        RESPONSE_ERROR_INVALID_COMMAND => IpcError::InvalidCommand,
        _ => IpcError::BadResponse,
    }
}

/// Number of bytes of a message header on the wire.
pub const HEADER_SIZE: usize = 8;

/// The little-endian bytes of a 32-bit value.
pub open spec fn le_bytes_u32(v: u32) -> Seq<u8> {
    seq![
        (v % 0x100) as u8,
        (v / 0x100 % 0x100) as u8,
        (v / 0x10000 % 0x100) as u8,
        (v / 0x1000000) as u8,
    ]
}

/// The 32-bit value whose little-endian bytes are the first four of `b`.
pub open spec fn le_u32(b: Seq<u8>) -> u32
    recommends
        b.len() >= 4,
{
    (b[0] + 0x100 * b[1] + 0x10000 * b[2] + 0x1000000 * b[3]) as u32
}

/// The 64-bit value whose little-endian bytes are the first eight of `b`.
pub open spec fn le_u64(b: Seq<u8>) -> u64
    recommends
        b.len() >= 8,
{
    (le_u32(b) + 0x1_0000_0000 * le_u32(b.subrange(4, 8))) as u64
}

/// Message header for IPC communication: a command or response code and the size in bytes of
/// the data that follows.
#[derive(Debug, Clone, Copy, PartialEq, Eq, Structural)]
pub struct Message {
    pub code: u32,
    pub size: u32,
}

/// The eight header bytes that carry `m` on the wire: its code, then its size, each in
/// little-endian order.
pub open spec fn header_bytes(m: Message) -> Seq<u8> {
    le_bytes_u32(m.code) + le_bytes_u32(m.size)
}

/// The header that eight bytes read from the wire carry.
pub open spec fn header_of(b: Seq<u8>) -> Message
    recommends
        b.len() == HEADER_SIZE,
{
    Message { code: le_u32(b), size: le_u32(b.subrange(4, 8)) }
}

fn push_le_u32(buf: &mut Vec<u8>, v: u32)
    ensures
        final(buf)@ == old(buf)@ + le_bytes_u32(v),
{
    buf.push((v % 0x100) as u8);
    buf.push((v / 0x100 % 0x100) as u8);
    buf.push((v / 0x10000 % 0x100) as u8);
    buf.push((v / 0x1000000) as u8);
    assert(buf@ =~= old(buf)@ + le_bytes_u32(v));
}

pub(crate) fn read_le_u32(b: &[u8], at: usize) -> (v: u32)
    requires
        at + 4 <= b@.len(),
    ensures
        v == le_u32(b@.subrange(at as int, at + 4)),
{
    b[at] as u32 + 0x100 * (b[at + 1] as u32) + 0x10000 * (b[at + 2] as u32) + 0x1000000 * (
    b[at + 3] as u32)
}

impl Message {
    /// The header's bytes on the wire.
    pub fn to_bytes(&self) -> (b: Vec<u8>)
        ensures
            b@ == header_bytes(*self),
    {
        let mut b: Vec<u8> = Vec::new();
        push_le_u32(&mut b, self.code);
        push_le_u32(&mut b, self.size);
        assert(b@ =~= header_bytes(*self));
        b
    }

    /// The header carried by `b`, which holds exactly the header's bytes.
    pub fn from_bytes(b: &[u8]) -> (m: Message)
        requires
            b@.len() == HEADER_SIZE,
        ensures
            m == header_of(b@),
    {
        let code = read_le_u32(b, 0);
        let size = read_le_u32(b, 4);
        assert(b@.subrange(0, 4)[0] == b@[0]);
        Message { code, size }
    }
}

proof fn lemma_le_u32_round_trip(v: u32)
    ensures
        le_u32(le_bytes_u32(v)) == v,
        le_bytes_u32(v).len() == 4,
{
    let b = le_bytes_u32(v);
    assert(b[0] + 0x100 * b[1] + 0x10000 * b[2] + 0x1000000 * b[3] == v) by (nonlinear_arith)
        requires
            b[0] == v % 0x100,
            b[1] == v / 0x100 % 0x100,
            b[2] == v / 0x10000 % 0x100,
            b[3] == v / 0x1000000,
            v < 0x1_0000_0000,
    ;
}

proof fn lemma_le_bytes_round_trip(b: Seq<u8>)
    requires
        b.len() == 4,
    ensures
        le_bytes_u32(le_u32(b)) =~= b,
{
    let v = le_u32(b);
    let (b0, b1, b2, b3) = (b[0] as int, b[1] as int, b[2] as int, b[3] as int);
    assert(v == b0 + 0x100 * b1 + 0x10000 * b2 + 0x1000000 * b3);
    assert(v % 0x100 == b0 && v / 0x100 % 0x100 == b1 && v / 0x10000 % 0x100 == b2 && v
        / 0x1000000 == b3) by (nonlinear_arith)
        requires
            v == b0 + 0x100 * b1 + 0x10000 * b2 + 0x1000000 * b3,
            0 <= b0 < 0x100,
            0 <= b1 < 0x100,
            0 <= b2 < 0x100,
            0 <= b3 < 0x100,
    ;
}

/// Reading back the bytes of a header gives the header.
pub proof fn lemma_header_read_after_write(m: Message)
    ensures
        header_bytes(m).len() == HEADER_SIZE,
        header_of(header_bytes(m)) == m,
{
    lemma_le_u32_round_trip(m.code);
    lemma_le_u32_round_trip(m.size);
    let b = header_bytes(m);
    assert(b.subrange(4, 8) =~= le_bytes_u32(m.size));
    assert(b.subrange(0, 4) =~= le_bytes_u32(m.code));
}

/// Eight bytes are the bytes of the header they carry: each header has one encoding.
pub proof fn lemma_header_write_after_read(b: Seq<u8>)
    requires
        b.len() == HEADER_SIZE,
    ensures
        header_bytes(header_of(b)) == b,
{
    lemma_le_bytes_round_trip(b.subrange(0, 4));
    lemma_le_bytes_round_trip(b.subrange(4, 8));
    assert(le_u32(b) == le_u32(b.subrange(0, 4)));
    assert(b =~= b.subrange(0, 4) + b.subrange(4, 8));
}

} // verus!
