use vstd::prelude::*;
use crate::error::IpcError;
use crate::handle::Handle;
use crate::request::{initial_state, request_wf, Request, RequestState};
use crate::wire::{le_u32, le_u64, COMMAND_GET_FOLDER_SIZE};

verus! {

/// Client structure for IPC communication: the pipe and the three events that its overlapped
/// I/O waits on.
///
/// There can only be one client, you should drop this as early as possible.
#[derive(Debug)]
pub struct EverythingClient {
    pipe_handle: Option<Handle>,
    send_event: Handle,
    recv_event: Handle,
    shutdown_event: Handle,
}

/// The handles of a client, by their raw values.
pub struct ClientState {
    pub pipe: Option<usize>,
    pub send: usize,
    pub recv: usize,
    pub shutdown: usize,
}

impl View for EverythingClient {
    type V = ClientState;

    closed spec fn view(&self) -> ClientState {
        ClientState {
            pipe: match self.pipe_handle {
                Some(h) => Some(h@),
                None => None,
            },
            send: self.send_event@,
            recv: self.recv_event@,
            shutdown: self.shutdown_event@,
        }
    }
}

/// Size in bytes of the folder size in a folder-size response.
pub const FOLDER_SIZE_LEN: usize = 8;

/// The folder size that a folder-size request with outcome `outcome` and response data `data`
/// reports: the request's error, or the size when exactly eight bytes arrived and they do not
/// hold the all-ones value, else `BadResponse`.
pub open spec fn folder_size_result(outcome: Result<bool, IpcError>, data: Seq<u8>) -> Result<
    u64,
    IpcError,
> {
    match outcome {
        Err(e) => Err(e),
        Ok(ok) => if ok && data.len() == FOLDER_SIZE_LEN && le_u64(data) != u64::MAX {
            Ok(le_u64(data))
        } else {
            Err(IpcError::BadResponse)
        },
    }
}

/// A folder size is reported only for a request that succeeded with exactly eight bytes of
/// data; it is their little-endian value, which is never the all-ones value.
pub proof fn lemma_folder_size_comes_from_reply(outcome: Result<bool, IpcError>, data: Seq<u8>, v: u64)
    requires
        folder_size_result(outcome, data) == Ok::<u64, IpcError>(v),
    ensures
        outcome == Ok::<bool, IpcError>(true),
        data.len() == FOLDER_SIZE_LEN,
        le_u64(data) == v,
        v != u64::MAX,
{
}

/// A successful folder-size reply of exactly eight bytes reports the little-endian value of
/// those bytes, whatever it is, unless it is the all-ones value.
pub proof fn lemma_valid_reply_gives_its_size(data: Seq<u8>)
    requires
        data.len() == FOLDER_SIZE_LEN,
        data[0] + 0x100 * data[1] + 0x10000 * data[2] + 0x1000000 * data[3] + 0x100000000
            * data[4] + 0x10000000000 * data[5] + 0x1000000000000 * data[6] + 0x100000000000000
            * data[7] != u64::MAX,
    ensures
        folder_size_result(Ok(true), data) == Ok::<u64, IpcError>(
            (data[0] + 0x100 * data[1] + 0x10000 * data[2] + 0x1000000 * data[3] + 0x100000000
                * data[4] + 0x10000000000 * data[5] + 0x1000000000000 * data[6]
                + 0x100000000000000 * data[7]) as u64,
        ),
{
    let hi = data.subrange(4, 8);
    assert(hi[0] == data[4] && hi[1] == data[5] && hi[2] == data[6] && hi[3] == data[7]);
    let lo_v = data[0] + 0x100 * data[1] + 0x10000 * data[2] + 0x1000000 * data[3];
    let hi_v = data[4] + 0x100 * data[5] + 0x10000 * data[6] + 0x1000000 * data[7];
    assert(0x100000000 * hi_v == 0x100000000 * data[4] + 0x10000000000 * data[5]
        + 0x1000000000000 * data[6] + 0x100000000000000 * data[7]);
    assert(lo_v < 0x100000000 && hi_v < 0x100000000);
}

fn bytes_of(s: &str) -> (out: Vec<u8>)
    ensures
        out@ == vstd::utf8::encode_utf8(s@),
{
    let b = s.as_bytes();
    let mut out: Vec<u8> = Vec::new();
    let mut i: usize = 0;
    while i < b.len()
        invariant
            i <= b@.len(),
            out@ == b@.subrange(0, i as int),
        decreases b@.len() - i,
    {
        out.push(b[i]);
        i = i + 1;
        assert(out@ =~= b@.subrange(0, i as int));
    }
    assert(out@ =~= b@);
    out
}

impl EverythingClient {
    /// A client over the pipe `pipe` with the given events.
    pub(crate) fn from_handles(pipe: Handle, send_event: Handle, recv_event: Handle, shutdown_event: Handle) -> (c: EverythingClient)
        ensures
            c@.pipe == Some(pipe@),
            c@.send == send_event@,
            c@.recv == recv_event@,
            c@.shutdown == shutdown_event@,
    {
        EverythingClient { pipe_handle: Some(pipe), send_event, recv_event, shutdown_event }
    }

    /// The pipe.
    pub fn pipe_handle(&self) -> (h: Option<Handle>)
        ensures
            h matches Some(p) ==> self@.pipe == Some(p@),
            h is None ==> self@.pipe is None,
    {
        self.pipe_handle
    }

    /// The event signaled when a write completes.
    pub fn send_event(&self) -> (h: Handle)
        ensures
            h@ == self@.send,
    {
        self.send_event
    }

    /// The event signaled when a read completes.
    pub fn recv_event(&self) -> (h: Handle)
        ensures
            h@ == self@.recv,
    {
        self.recv_event
    }

    /// The event that aborts pending I/O when signaled.
    pub fn shutdown_event(&self) -> (h: Handle)
        ensures
            h@ == self@.shutdown,
    {
        self.shutdown_event
    }

    /// Shutdown this client: the event to signal to abort pending I/O, unless it is null.
    pub fn shutdown(&self) -> (signal: Option<Handle>)
        ensures
            self@.shutdown == 0 ==> signal is None,
            self@.shutdown != 0 ==> (signal matches Some(h) && h@ == self@.shutdown),
    {
        if !self.shutdown_event.is_null() {
            Some(self.shutdown_event)
        } else {
            None
        }
    }

    /// IPC control operation: the request that sends command `code` with data `in_data` and
    /// reads a response of at most `out_size` data bytes.
    pub fn ioctrl(&self, code: u32, in_data: Vec<u8>, out_size: usize) -> (r: Request)
        ensures
            r@ == initial_state(code, in_data@, out_size as nat),
            request_wf(r@),
    {
        Request::ioctrl(code, in_data, out_size)
    }

    /// Retrieves the indexed folder size: the request that asks for the size of the folder
    /// `filename`, to be read with [`EverythingClient::folder_size_from_reply`].
    ///
    /// ## Remarks
    /// Everything 1.5 will index folder sizes by default.
    /// This can be disabled under Tools -> Options -> Indexes -> Index folder sizes.
    ///
    /// A case sensensitive search is performed first.
    /// If no folder is found a case insensitive search is performed.
    pub fn get_folder_size_from_filename(&self, filename: &str) -> (r: Request)
        ensures
            r@ == initial_state(
                COMMAND_GET_FOLDER_SIZE,
                vstd::utf8::encode_utf8(filename@),
                FOLDER_SIZE_LEN as nat,
            ),
            request_wf(r@),
    {
        self.ioctrl(COMMAND_GET_FOLDER_SIZE, bytes_of(filename), FOLDER_SIZE_LEN)
    }

    /// The folder size that a folder-size request reported, from its outcome and response data.
    pub fn folder_size_from_reply(outcome: Result<bool, IpcError>, data: &[u8]) -> (r: Result<
        u64,
        IpcError,
    >)
        ensures
            r == folder_size_result(outcome, data@),
    {
        match outcome {
            Err(e) => Err(e),
            Ok(ok) => {
                if ok && data.len() == FOLDER_SIZE_LEN {
                    let lo = crate::wire::read_le_u32(data, 0);
                    let hi = crate::wire::read_le_u32(data, 4);
                    assert(data@.subrange(0, 4)[0] == data@[0]);
                    let value: u64 = lo as u64 + 0x1_0000_0000u64 * (hi as u64);
                    if value != u64::MAX {
                        Ok(value)
                    } else {
                        Err(IpcError::BadResponse)
                    }
                } else {
                    Err(IpcError::BadResponse)
                }
            },
        }
    }
}

} // verus!
