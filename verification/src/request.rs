use vstd::prelude::*;
use crate::error::IpcError;
use crate::transfer::{
    after_collect, after_issue, after_wait, fits, start_state, transfer_wf, Transfer,
    TransferEnd, TransferState, TransferStep,
};
use crate::wire::{
    error_for_response, header_bytes, header_of, is_ok_response, response_error, response_is_ok,
    Message, HEADER_SIZE,
};

verus! {

/// Largest number of bytes read in one piece when skipping unwanted response data.
pub const SKIP_CHUNK_SIZE: usize = 256;

/// Where a request stands.
#[derive(Debug, Clone, Copy, PartialEq, Eq, Structural)]
pub enum Phase {
    /// Writing the request header.
    SendHeader,
    /// Writing the request data.
    SendPayload,
    /// Reading the response header.
    RecvHeader,
    /// Reading and discarding the data of a response that reported the error code `code`.
    SkipError { code: u32 },
    /// Reading and discarding response data too large for the output buffer.
    SkipOversize,
    /// Reading the response data.
    RecvData,
    /// The request is over.
    Done,
}

/// An I/O operation that a request asks its caller to perform on the pipe.
#[derive(Debug)]
pub enum PipeAction {
    /// Issue an overlapped write of these bytes (on the send event).
    Write(Vec<u8>),
    /// Issue an overlapped read of at most this many bytes (on the receive event).
    Read(usize),
    /// Wait for the shutdown event or the send event, whichever is signaled first.
    WaitWrite,
    /// Wait for the shutdown event or the receive event, whichever is signaled first.
    WaitRead,
    /// Fetch the result of the pending write.
    CollectWrite,
    /// Fetch the result of the pending read.
    CollectRead,
    /// Nothing: the request is over.
    Finished,
}

/// The outcome of an I/O operation, handed back to the request that asked for it.
#[derive(Debug)]
pub enum PipeEvent {
    /// A write (issued or fetched) reported this many bytes written.
    Written(u32),
    /// A read (issued or fetched) delivered these bytes.
    Received(Vec<u8>),
    /// Issuing a read or write failed with this last-error code.
    Failed(u32),
    /// The wait returned this value.
    Woken(u32),
    /// Fetching the result of the pending operation failed.
    CollectFailed,
}

/// The abstract state of a request.
pub struct RequestState {
    /// The request header's bytes.
    pub header: Seq<u8>,
    /// The request data.
    pub payload: Seq<u8>,
    /// Capacity of the caller's output buffer.
    pub out_size: nat,
    pub phase: Phase,
    /// The transfer under way.
    pub transfer: TransferState,
    /// Response header bytes received so far.
    pub reply_header: Seq<u8>,
    /// Response data bytes still to skip, the current piece included.
    pub skip_left: nat,
    /// Response data received so far.
    pub data: Seq<u8>,
    /// The request's outcome, once it is over.
    pub outcome: Option<Result<bool, IpcError>>,
    /// Bytes reported written to the pipe so far.
    pub sent: nat,
    /// Bytes read from the pipe so far.
    pub taken: nat,
}

/// Whether the phase writes to the pipe (else it reads).
pub open spec fn is_sending(p: Phase) -> bool {
    p is SendHeader || p is SendPayload
}

/// Whether the phase skips response data.
pub open spec fn is_skipping(p: Phase) -> bool {
    p is SkipError || p is SkipOversize
}

/// How many phase changes, at most, separate `p` from the end.
pub open spec fn rank(p: Phase) -> nat {
    match p {
        Phase::SendHeader => 4,
        Phase::SendPayload => 3,
        Phase::RecvHeader => 2,
        Phase::Done => 0,
        _ => 1,
    }
}

/// The size of the next piece read when `left` bytes remain to skip.
pub open spec fn skip_piece(left: nat) -> nat {
    if left < SKIP_CHUNK_SIZE {
        left
    } else {
        SKIP_CHUNK_SIZE as nat
    }
}

/// The response header, once all of its bytes have arrived.
pub open spec fn reply(s: RequestState) -> Message {
    header_of(s.reply_header)
}

/// `s`, over with `outcome`.
pub open spec fn finished(s: RequestState, outcome: Result<bool, IpcError>) -> RequestState {
    RequestState { phase: Phase::Done, outcome: Some(outcome), ..s }
}

/// `s`, in `phase` with a fresh transfer of `total` bytes.
pub open spec fn entered(s: RequestState, phase: Phase, total: nat) -> RequestState {
    RequestState { phase, transfer: start_state(total), ..s }
}

/// `s`, in the skipping `phase` with `left` bytes to skip.
pub open spec fn skipping(s: RequestState, phase: Phase, left: nat) -> RequestState {
    RequestState { phase, transfer: start_state(skip_piece(left)), skip_left: left, ..s }
}

/// The decision taken once the response header has arrived: success codes go on to the data
/// (or skip it when it does not fit the output buffer); other codes skip the data.
pub open spec fn after_reply_header(s: RequestState) -> RequestState {
    let m = reply(s);
    if is_ok_response(m.code) {
        if m.size > s.out_size {
            skipping(s, Phase::SkipOversize, m.size as nat)
        } else {
            entered(s, Phase::RecvData, m.size as nat)
        }
    } else {
        skipping(s, Phase::SkipError { code: m.code }, m.size as nat)
    }
}

/// The outcome of a skip: whether it read every byte, per skipping phase.
pub open spec fn skip_outcome(p: Phase, skipped_all: bool) -> Result<bool, IpcError> {
    match p {
        Phase::SkipError { code } => if skipped_all {
            Err(response_error(code))
        } else {
            Ok(false)
        },
        _ => if skipped_all {
            Ok(false)
        } else {
            Err(IpcError::InsufficientBuffer)
        },
    }
}

/// The state after the transfer of the current phase ended with `end`.
pub open spec fn finish_phase(s: RequestState, end: TransferEnd) -> RequestState {
    match s.phase {
        Phase::SendHeader | Phase::SendPayload => match end {
            TransferEnd::Complete => if s.phase is SendHeader {
                entered(s, Phase::SendPayload, s.payload.len())
            } else {
                entered(s, Phase::RecvHeader, HEADER_SIZE as nat)
            },
            TransferEnd::Stopped => finished(s, Err(IpcError::Disconnected)),
            TransferEnd::Shutdown => finished(s, Err(IpcError::Shutdown)),
        },
        Phase::RecvHeader => if end is Complete {
            after_reply_header(s)
        } else {
            finished(s, Ok(false))
        },
        Phase::SkipError { .. } | Phase::SkipOversize => if end is Complete {
            let left = (s.skip_left - s.transfer.total) as nat;
            if left == 0 {
                finished(s, skip_outcome(s.phase, true))
            } else {
                skipping(s, s.phase, left)
            }
        } else {
            finished(s, skip_outcome(s.phase, false))
        },
        Phase::RecvData => finished(s, Ok(end is Complete)),
        Phase::Done => s,
    }
}

/// The state once every phase whose transfer ended has been left.
pub open spec fn settle(s: RequestState) -> RequestState
    decreases rank(s.phase),
{
    if s.phase is Done {
        s
    } else if let TransferStep::Ended(end) = s.transfer.step {
        let t = finish_phase(s, end);
        if is_skipping(s.phase) || rank(t.phase) >= rank(s.phase) {
            t
        } else {
            settle(t)
        }
    } else {
        s
    }
}

/// `s` with its transfer replaced.
pub open spec fn with_transfer(s: RequestState, t: TransferState) -> RequestState {
    RequestState { transfer: t, ..s }
}

/// `s` after `b` arrived: header bytes and data are kept, skipped bytes are dropped.
pub open spec fn received(s: RequestState, b: Seq<u8>) -> RequestState {
    let t = RequestState { taken: s.taken + b.len(), ..s };
    match s.phase {
        Phase::RecvHeader => RequestState { reply_header: s.reply_header + b, ..t },
        Phase::RecvData => RequestState { data: s.data + b, ..t },
        _ => t,
    }
}

/// `s` after `n` more bytes were reported written.
pub open spec fn wrote(s: RequestState, n: nat) -> RequestState {
    RequestState { sent: s.sent + n, ..s }
}

/// Whether `ev` is an outcome of the action that `s` asks for: a write's count or a read's
/// bytes no more than remain of the transfer, a failure of the issued call, the wait's result,
/// or a failure to fetch the pending result.
pub open spec fn accepts(s: RequestState, ev: PipeEvent) -> bool {
    &&& !(s.phase is Done)
    &&& match s.transfer.step {
        TransferStep::Issue { .. } | TransferStep::Collect => match ev {
            PipeEvent::Written(n) => is_sending(s.phase) && fits(s.transfer, n as nat),
            PipeEvent::Received(b) => !is_sending(s.phase) && fits(s.transfer, b@.len()),
            PipeEvent::Failed(_) => s.transfer.step is Issue,
            PipeEvent::CollectFailed => s.transfer.step is Collect,
            PipeEvent::Woken(_) => false,
        },
        TransferStep::Wait => ev is Woken,
        TransferStep::Ended(_) => false,
    }
}

/// `s` with the outcome `ev` of its current action recorded in its transfer and buffers.
pub open spec fn record(s: RequestState, ev: PipeEvent) -> RequestState {
    match s.transfer.step {
        TransferStep::Issue { .. } => match ev {
            PipeEvent::Written(n) => with_transfer(wrote(s, n as nat), after_issue(s.transfer, Ok(n as usize))),
            PipeEvent::Received(b) => with_transfer(
                received(s, b@),
                after_issue(s.transfer, Ok(b@.len() as usize)),
            ),
            PipeEvent::Failed(code) => with_transfer(s, after_issue(s.transfer, Err(code))),
            _ => s,
        },
        TransferStep::Wait => match ev {
            PipeEvent::Woken(w) => with_transfer(s, after_wait(s.transfer, w)),
            _ => s,
        },
        TransferStep::Collect => match ev {
            PipeEvent::Written(n) => with_transfer(
                wrote(s, n as nat),
                after_collect(s.transfer, Some(n as usize)),
            ),
            PipeEvent::Received(b) => with_transfer(
                received(s, b@),
                after_collect(s.transfer, Some(b@.len() as usize)),
            ),
            PipeEvent::CollectFailed => with_transfer(s, after_collect(s.transfer, None)),
            _ => s,
        },
        TransferStep::Ended(_) => s,
    }
}

/// The state of a request after the outcome `ev` of its current action.
pub open spec fn next_state(s: RequestState, ev: PipeEvent) -> RequestState {
    settle(record(s, ev))
}

/// Whether `s` is skipping in pieces of at most [`SKIP_CHUNK_SIZE`] bytes.
pub open spec fn skip_consistent(s: RequestState) -> bool {
    &&& s.reply_header.len() == HEADER_SIZE
    &&& s.transfer.total == skip_piece(s.skip_left)
    &&& s.skip_left <= usize::MAX
}

/// Whether a finished request's success means that the server answered with a success code
/// and all the data it announced, which fit the output buffer, arrived.
pub open spec fn success_is_complete(s: RequestState) -> bool {
    s.outcome == Some(Ok::<bool, IpcError>(true)) ==> {
        &&& s.reply_header.len() == HEADER_SIZE
        &&& is_ok_response(reply(s).code)
        &&& s.data.len() == reply(s).size
        &&& reply(s).size <= s.out_size
    }
}

/// Whether a skipping request has read the response header and the response data before the
/// piece under way, and the bytes of that piece moved so far.
pub open spec fn skip_counted(s: RequestState) -> bool {
    &&& s.skip_left <= reply(s).size
    &&& s.taken == HEADER_SIZE + (reply(s).size - s.skip_left) + s.transfer.done
}

/// Whether a finished request ended at the end of the server's reply: it succeeded, or it
/// skipped all of a reply too large for the output buffer (`Ok(false)`), or it skipped all the
/// data of an error reply (`Err`).
pub open spec fn at_boundary(s: RequestState) -> bool {
    &&& s.reply_header.len() == HEADER_SIZE
    &&& match s.outcome {
        Some(Ok(true)) => true,
        Some(Ok(false)) => is_ok_response(reply(s).code) && reply(s).size > s.out_size,
        Some(Err(_)) => !is_ok_response(reply(s).code),
        None => false,
    }
}

/// Whether a finished request wrote all of its header and data, read exactly the response
/// header and the data it announced, and, for an error reply, reports the error that its code
/// stands for.
pub open spec fn exchange_complete(s: RequestState) -> bool {
    &&& s.sent == s.header.len() + s.payload.len()
    &&& s.taken == HEADER_SIZE + reply(s).size
    &&& s.outcome matches Some(Err(e)) ==> e == response_error(reply(s).code)
}

/// The invariant of a request, except that the transfer of its phase may have ended.
pub open spec fn request_inv(s: RequestState) -> bool {
    &&& transfer_wf(s.transfer)
    &&& s.out_size <= usize::MAX
    &&& !(s.phase is Done) ==> {
        &&& s.header.len() == HEADER_SIZE
        &&& s.payload.len() <= u32::MAX
        &&& s.outcome is None
    }
    &&& rank(s.phase) >= 2 ==> s.data.len() == 0
    &&& is_sending(s.phase) ==> s.reply_header.len() == 0
    &&& !is_sending(s.phase) && !(s.phase is Done) ==> s.sent == HEADER_SIZE + s.payload.len()
    &&& match s.phase {
        Phase::SendHeader => {
            &&& s.transfer.total == HEADER_SIZE
            &&& s.sent == s.transfer.done
            &&& s.taken == 0
        },
        Phase::SendPayload => {
            &&& s.transfer.total == s.payload.len()
            &&& s.sent == HEADER_SIZE + s.transfer.done
            &&& s.taken == 0
        },
        Phase::RecvHeader => {
            &&& s.transfer.total == HEADER_SIZE
            &&& s.reply_header.len() == s.transfer.done
            &&& s.taken == s.transfer.done
        },
        Phase::SkipError { code } => {
            &&& skip_consistent(s)
            &&& code == reply(s).code
            &&& !is_ok_response(code)
            &&& skip_counted(s)
        },
        Phase::SkipOversize => {
            &&& skip_consistent(s)
            &&& is_ok_response(reply(s).code)
            &&& reply(s).size > s.out_size
            &&& skip_counted(s)
        },
        Phase::RecvData => {
            &&& s.reply_header.len() == HEADER_SIZE
            &&& is_ok_response(reply(s).code)
            &&& s.transfer.total == reply(s).size
            &&& reply(s).size <= s.out_size
            &&& s.data.len() == s.transfer.done
            &&& s.taken == HEADER_SIZE + s.transfer.done
        },
        Phase::Done => {
            &&& s.outcome is Some
            &&& success_is_complete(s)
            &&& s.outcome == Some(Err::<bool, IpcError>(IpcError::OutOfMemory)) ==> s.sent == 0
                && s.taken == 0
            &&& s.outcome != Some(Err::<bool, IpcError>(IpcError::OutOfMemory)) ==> s.header.len()
                == HEADER_SIZE
            &&& at_boundary(s) ==> exchange_complete(s)
        },
    }
}

/// The invariant of a request: [`request_inv`], and a request under way has a transfer under
/// way.
pub open spec fn request_wf(s: RequestState) -> bool {
    &&& request_inv(s)
    &&& !(s.phase is Done) ==> !(s.transfer.step is Ended)
}

/// The bytes that the current phase writes, when it writes.
pub open spec fn sending_buf(s: RequestState) -> Seq<u8> {
    if s.phase is SendHeader {
        s.header
    } else {
        s.payload
    }
}

/// Whether `a` is the action that `s` asks for.
pub open spec fn action_of(s: RequestState, a: PipeAction) -> bool {
    if s.phase is Done {
        a is Finished
    } else {
        match s.transfer.step {
            TransferStep::Issue { offset, len } => if is_sending(s.phase) {
                a matches PipeAction::Write(b) && b@ == sending_buf(s).subrange(
                    offset as int,
                    offset + len,
                )
            } else {
                a matches PipeAction::Read(n) && n == len
            },
            TransferStep::Wait => if is_sending(s.phase) {
                a is WaitWrite
            } else {
                a is WaitRead
            },
            TransferStep::Collect => if is_sending(s.phase) {
                a is CollectWrite
            } else {
                a is CollectRead
            },
            TransferStep::Ended(_) => false,
        }
    }
}

/// The state of a request for command `code` with data `payload` and an output buffer of
/// `out_size` bytes: data longer than a 32-bit size can state fails at once with
/// `OutOfMemory`; otherwise the request starts by writing its header.
pub open spec fn initial_state(code: u32, payload: Seq<u8>, out_size: nat) -> RequestState {
    let s = RequestState {
        header: seq![],
        payload,
        out_size,
        phase: Phase::Done,
        transfer: start_state(0),
        reply_header: seq![],
        skip_left: 0,
        data: seq![],
        outcome: None,
        sent: 0,
        taken: 0,
    };
    if payload.len() > u32::MAX {
        finished(s, Err(IpcError::OutOfMemory))
    } else {
        entered(
            RequestState {
                header: header_bytes(Message { code, size: payload.len() as u32 }),
                ..s
            },
            Phase::SendHeader,
            HEADER_SIZE as nat,
        )
    }
}

/// The bytes a request writes to the pipe, in order: its header, then its data.
pub open spec fn request_stream(s: RequestState) -> Seq<u8> {
    s.header + s.payload
}

/// The number of bytes of [`request_stream`] that a sending request has written so far.
pub open spec fn bytes_written(s: RequestState) -> nat {
    if s.phase is SendHeader {
        s.transfer.done
    } else {
        HEADER_SIZE as nat + s.transfer.done
    }
}

/// A request's header carries its command code and the length of its data; a request whose
/// data is too long for that fails with `OutOfMemory` before any I/O.
pub proof fn lemma_request_header_announces_payload(code: u32, payload: Seq<u8>, out_size: nat)
    ensures
        payload.len() <= u32::MAX ==> {
            let s = initial_state(code, payload, out_size);
            &&& s.phase is SendHeader
            &&& header_of(s.header) == (Message { code, size: payload.len() as u32 })
        },
        payload.len() > u32::MAX ==> {
            let s = initial_state(code, payload, out_size);
            &&& s.phase is Done
            &&& s.outcome == Some(Err::<bool, IpcError>(IpcError::OutOfMemory))
        },
{
    crate::wire::lemma_header_read_after_write(Message { code, size: payload.len() as u32 });
}

/// Each write that a request asks for carries the next bytes of its stream, the header
/// followed by the data, starting where the bytes written so far end.
pub proof fn lemma_writes_follow_stream(s: RequestState)
    requires
        request_wf(s),
        is_sending(s.phase),
        s.transfer.step is Issue,
    ensures
        ({
            let (offset, len) = (s.transfer.step->offset as int, s.transfer.step->len as int);
            sending_buf(s).subrange(offset, offset + len) == request_stream(s).subrange(
                bytes_written(s) as int,
                bytes_written(s) + len,
            )
        }),
{
    let (offset, len) = (s.transfer.step->offset as int, s.transfer.step->len as int);
    crate::transfer::lemma_issue_covers_next_bytes(s.transfer);
    if s.phase is SendHeader {
        assert(sending_buf(s).subrange(offset, offset + len) =~= request_stream(s).subrange(
            bytes_written(s) as int,
            bytes_written(s) + len,
        ));
    } else {
        assert(sending_buf(s).subrange(offset, offset + len) =~= request_stream(s).subrange(
            bytes_written(s) as int,
            bytes_written(s) + len,
        ));
    }
}

/// A request that succeeds has received a success code and all the data that the response
/// header announced, which fits the output buffer.
pub proof fn lemma_success_means_full_reply(s: RequestState)
    requires
        request_wf(s),
        s.outcome == Some(Ok::<bool, IpcError>(true)),
    ensures
        s.reply_header.len() == HEADER_SIZE,
        is_ok_response(reply(s).code),
        s.data.len() == reply(s).size,
        reply(s).size <= s.out_size,
{
}

proof fn lemma_settle_keeps_request(s: RequestState)
    requires
        request_inv(s),
    ensures
        request_wf(settle(s)),
        settle(s).header == s.header,
        settle(s).payload == s.payload,
        settle(s).out_size == s.out_size,
        settle(s).sent == s.sent,
        settle(s).taken == s.taken,
        settle(s).data == s.data,
        settle(s).reply_header == s.reply_header,
    decreases rank(s.phase),
{
    if !(s.phase is Done) {
        if let TransferStep::Ended(end) = s.transfer.step {
            let t = finish_phase(s, end);
            if !(is_skipping(s.phase) || rank(t.phase) >= rank(s.phase)) {
                lemma_settle_keeps_request(t);
            }
        }
    }
}

/// The number of bytes that the event `ev` reports written.
pub open spec fn event_writes(ev: PipeEvent) -> nat {
    match ev {
        PipeEvent::Written(n) => n as nat,
        _ => 0,
    }
}

/// The number of bytes that the event `ev` reports read.
pub open spec fn event_reads(ev: PipeEvent) -> nat {
    match ev {
        PipeEvent::Received(b) => b@.len(),
        _ => 0,
    }
}

/// No step changes what a request sends or the capacity of its output buffer, every step keeps
/// the request's invariant, and each step counts exactly the bytes its event reports moved.
pub proof fn lemma_step_keeps_request(s: RequestState, ev: PipeEvent)
    requires
        request_wf(s),
        accepts(s, ev),
    ensures
        next_state(s, ev).header == s.header,
        next_state(s, ev).payload == s.payload,
        next_state(s, ev).out_size == s.out_size,
        request_wf(next_state(s, ev)),
        next_state(s, ev).sent == s.sent + event_writes(ev),
        next_state(s, ev).taken == s.taken + event_reads(ev),
{
    lemma_settle_keeps_request(record(s, ev));
}

/// The response data that the event `ev` delivers to a request in state `s`: the bytes of a
/// read (issued or collected) during the data phase, else nothing.
pub open spec fn delivered_data(s: RequestState, ev: PipeEvent) -> Seq<u8> {
    match ev {
        PipeEvent::Received(b) => if s.phase is RecvData {
            b@
        } else {
            Seq::empty()
        },
        _ => Seq::empty(),
    }
}

/// The response header bytes that the event `ev` delivers to a request in state `s`.
pub open spec fn delivered_header(s: RequestState, ev: PipeEvent) -> Seq<u8> {
    match ev {
        PipeEvent::Received(b) => if s.phase is RecvHeader {
            b@
        } else {
            Seq::empty()
        },
        _ => Seq::empty(),
    }
}

/// Every step keeps the bytes delivered: the response data grows by exactly the bytes that a
/// read delivers in the data phase, whether the read completed when issued or was collected
/// after pending, and the response header by exactly those delivered in the header phase;
/// nothing else changes them.
pub proof fn lemma_step_keeps_delivered_bytes(s: RequestState, ev: PipeEvent)
    requires
        request_wf(s),
        accepts(s, ev),
    ensures
        next_state(s, ev).data == s.data + delivered_data(s, ev),
        next_state(s, ev).reply_header == s.reply_header + delivered_header(s, ev),
{
    lemma_settle_keeps_request(record(s, ev));
    assert(s.data + Seq::<u8>::empty() =~= s.data);
    assert(s.reply_header + Seq::<u8>::empty() =~= s.reply_header);
}

/// Whether each event of `evs` is, in turn, an outcome of the action the request asks for.
pub open spec fn accepted_run(s: RequestState, evs: Seq<PipeEvent>) -> bool
    decreases evs.len(),
{
    evs.len() == 0 || (accepts(s, evs[0]) && accepted_run(next_state(s, evs[0]), evs.drop_first()))
}

/// The state of a request after the events `evs`, in turn.
pub open spec fn run(s: RequestState, evs: Seq<PipeEvent>) -> RequestState
    decreases evs.len(),
{
    if evs.len() == 0 {
        s
    } else {
        run(next_state(s, evs[0]), evs.drop_first())
    }
}

/// The number of bytes that the events `evs` report written.
pub open spec fn written_by(evs: Seq<PipeEvent>) -> nat
    decreases evs.len(),
{
    if evs.len() == 0 {
        0
    } else {
        event_writes(evs[0]) + written_by(evs.drop_first())
    }
}

/// The number of bytes that the events `evs` report read.
pub open spec fn read_by(evs: Seq<PipeEvent>) -> nat
    decreases evs.len(),
{
    if evs.len() == 0 {
        0
    } else {
        event_reads(evs[0]) + read_by(evs.drop_first())
    }
}

/// Over any run of outcomes, the request keeps its invariant and what it sends, and counts
/// exactly the bytes that the run reports written and read.
pub proof fn lemma_run_counts_bytes(s: RequestState, evs: Seq<PipeEvent>)
    requires
        request_wf(s),
        accepted_run(s, evs),
    ensures
        request_wf(run(s, evs)),
        run(s, evs).header == s.header,
        run(s, evs).payload == s.payload,
        run(s, evs).out_size == s.out_size,
        run(s, evs).sent == s.sent + written_by(evs),
        run(s, evs).taken == s.taken + read_by(evs),
    decreases evs.len(),
{
    if evs.len() > 0 {
        lemma_step_keeps_request(s, evs[0]);
        lemma_run_counts_bytes(next_state(s, evs[0]), evs.drop_first());
    }
}

/// The response data that the events `evs` deliver, in turn, to a request starting in `s`.
pub open spec fn data_delivered_by(s: RequestState, evs: Seq<PipeEvent>) -> Seq<u8>
    decreases evs.len(),
{
    if evs.len() == 0 {
        Seq::empty()
    } else {
        delivered_data(s, evs[0]) + data_delivered_by(next_state(s, evs[0]), evs.drop_first())
    }
}

/// Over any run of outcomes, the response data a request ends with is the data it had followed
/// by the bytes that the run's reads delivered in the data phase, in order.
pub proof fn lemma_run_data_is_delivered_bytes(s: RequestState, evs: Seq<PipeEvent>)
    requires
        request_wf(s),
        accepted_run(s, evs),
    ensures
        run(s, evs).data == s.data + data_delivered_by(s, evs),
    decreases evs.len(),
{
    if evs.len() == 0 {
        assert(s.data + Seq::<u8>::empty() =~= s.data);
    } else {
        let t = next_state(s, evs[0]);
        lemma_step_keeps_delivered_bytes(s, evs[0]);
        lemma_step_keeps_request(s, evs[0]);
        lemma_run_data_is_delivered_bytes(t, evs.drop_first());
        assert(s.data + data_delivered_by(s, evs) =~= s.data + delivered_data(s, evs[0])
            + data_delivered_by(t, evs.drop_first()));
    }
}

/// A whole exchange leaves the pipe at a message boundary: when a request that was started on
/// a boundary is over having succeeded, having skipped a reply too large for the output buffer,
/// or having skipped an error reply (whose code gives the error), the outcomes it was handed
/// wrote exactly its header and data, and read exactly the response header and the data that
/// header announced. A request whose data is too long fails before writing or reading anything.
pub proof fn lemma_exchange_ends_at_message_boundary(
    code: u32,
    payload: Seq<u8>,
    out_size: nat,
    evs: Seq<PipeEvent>,
)
    requires
        out_size <= usize::MAX,
        accepted_run(initial_state(code, payload, out_size), evs),
        run(initial_state(code, payload, out_size), evs).phase is Done,
    ensures
        ({
            let f = run(initial_state(code, payload, out_size), evs);
            &&& at_boundary(f) ==> {
                &&& written_by(evs) == HEADER_SIZE + payload.len()
                &&& read_by(evs) == HEADER_SIZE + reply(f).size
                &&& f.outcome matches Some(Err(e)) ==> e == response_error(reply(f).code)
            }
            &&& payload.len() > u32::MAX ==> {
                &&& f.outcome == Some(Err::<bool, IpcError>(IpcError::OutOfMemory))
                &&& written_by(evs) == 0
                &&& read_by(evs) == 0
            }
        }),
{
    let s0 = initial_state(code, payload, out_size);
    assert(request_wf(s0));
    lemma_run_counts_bytes(s0, evs);
    if payload.len() > u32::MAX {
        assert(evs.len() == 0);
    }
}

/// One request to the server and its response, driven through overlapped pipe I/O: the header
/// and data are written, the response header is read, and the response data is read into the
/// output buffer or skipped.
pub struct Request {
    header: Vec<u8>,
    payload: Vec<u8>,
    out_size: usize,
    phase: Phase,
    transfer: Transfer,
    reply_header: Vec<u8>,
    skip_left: usize,
    data: Vec<u8>,
    outcome: Option<Result<bool, IpcError>>,
    sent: Ghost<nat>,
    taken: Ghost<nat>,
}

impl View for Request {
    type V = RequestState;

    closed spec fn view(&self) -> RequestState {
        RequestState {
            header: self.header@,
            payload: self.payload@,
            out_size: self.out_size as nat,
            phase: self.phase,
            transfer: self.transfer@,
            reply_header: self.reply_header@,
            skip_left: self.skip_left as nat,
            data: self.data@,
            outcome: self.outcome,
            sent: self.sent@,
            taken: self.taken@,
        }
    }
}

fn copy_range(buf: &Vec<u8>, from: usize, len: usize) -> (out: Vec<u8>)
    requires
        from + len <= buf@.len(),
    ensures
        out@ == buf@.subrange(from as int, from + len),
{
    let mut out: Vec<u8> = Vec::new();
    let mut i: usize = 0;
    while i < len
        invariant
            from + len <= buf.len(),
            i <= len,
            out@ == buf@.subrange(from as int, from + i),
        decreases len - i,
    {
        out.push(buf[from + i]);
        i = i + 1;
        assert(out@ =~= buf@.subrange(from as int, from + i));
    }
    out
}

impl Request {
    /// Starts the request: checks that the data's length fits the header's size field, and
    /// builds the header to write.
    fn _send(code: u32, payload: Vec<u8>, out_size: usize) -> (r: Request)
        ensures
            r@ == initial_state(code, payload@, out_size as nat),
            request_wf(r@),
    {
        if payload.len() as u64 > u32::MAX as u64 {
            let r = Request {
                header: Vec::new(),
                payload,
                out_size,
                phase: Phase::Done,
                transfer: Transfer::new(0),
                reply_header: Vec::new(),
                skip_left: 0,
                data: Vec::new(),
                outcome: Some(Err(IpcError::OutOfMemory)),
                sent: Ghost(0),
                taken: Ghost(0),
            };
            assert(r@ == initial_state(code, payload@, out_size as nat));
            r
        } else {
            let m = Message { code, size: payload.len() as u32 };
            let header = m.to_bytes();
            let r = Request {
                header,
                payload,
                out_size,
                phase: Phase::SendHeader,
                transfer: Transfer::new(HEADER_SIZE),
                reply_header: Vec::new(),
                skip_left: 0,
                data: Vec::new(),
                outcome: None,
                sent: Ghost(0),
                taken: Ghost(0),
            };
            assert(r@ == initial_state(code, payload@, out_size as nat));
            r
        }
    }

    /// A request for command `code` with data `payload`, whose response data may take up to
    /// `out_size` bytes.
    pub fn ioctrl(code: u32, payload: Vec<u8>, out_size: usize) -> (r: Request)
        ensures
            r@ == initial_state(code, payload@, out_size as nat),
            request_wf(r@),
    {
        Self::_send(code, payload, out_size)
    }

    fn finish(&mut self, outcome: Result<bool, IpcError>)
        ensures
            final(self)@ == finished(old(self)@, outcome),
    {
        self.phase = Phase::Done;
        self.outcome = Some(outcome);
    }

    fn enter(&mut self, phase: Phase, total: usize)
        ensures
            final(self)@ == entered(old(self)@, phase, total as nat),
            transfer_wf(final(self)@.transfer),
    {
        self.phase = phase;
        self.transfer = Transfer::new(total);
    }

    /// Starts skipping `size` bytes of response data in the skipping `phase`.
    fn _recv_skip(&mut self, phase: Phase, size: usize)
        ensures
            final(self)@ == skipping(old(self)@, phase, size as nat),
            transfer_wf(final(self)@.transfer),
    {
        let piece = if size < SKIP_CHUNK_SIZE {
            size
        } else {
            SKIP_CHUNK_SIZE
        };
        self.phase = phase;
        self.skip_left = size;
        self.transfer = Transfer::new(piece);
    }

    /// Decides what follows the response header, once all of its bytes have arrived.
    fn _recv_header(&mut self)
        requires
            old(self)@.reply_header.len() == HEADER_SIZE,
        ensures
            final(self)@ == after_reply_header(old(self)@),
            transfer_wf(final(self)@.transfer),
    {
        let m = Message::from_bytes(self.reply_header.as_slice());
        if response_is_ok(m.code) {
            if m.size as u64 > self.out_size as u64 {
                self._recv_skip(Phase::SkipOversize, m.size as usize);
            } else {
                self.enter(Phase::RecvData, m.size as usize);
            }
        } else {
            self._recv_skip(Phase::SkipError { code: m.code }, m.size as usize);
        }
    }

    fn skip_result(phase: Phase, skipped_all: bool) -> (r: Result<bool, IpcError>)
        ensures
            r == skip_outcome(phase, skipped_all),
    {
        match phase {
            Phase::SkipError { code } => if skipped_all {
                Err(error_for_response(code))
            } else {
                Ok(false)
            },
            _ => if skipped_all {
                Ok(false)
            } else {
                Err(IpcError::InsufficientBuffer)
            },
        }
    }

    fn finish_phase(&mut self, end: TransferEnd)
        requires
            request_inv(old(self)@),
            !(old(self)@.phase is Done),
            old(self)@.transfer.step == TransferStep::Ended(end),
        ensures
            final(self)@ == finish_phase(old(self)@, end),
            request_inv(final(self)@),
    {
        match self.phase {
            Phase::SendHeader | Phase::SendPayload => match end {
                TransferEnd::Complete => {
                    if let Phase::SendHeader = self.phase {
                        let n = self.payload.len();
                        self.enter(Phase::SendPayload, n);
                    } else {
                        self.enter(Phase::RecvHeader, HEADER_SIZE);
                    }
                },
                TransferEnd::Stopped => self.finish(Err(IpcError::Disconnected)),
                TransferEnd::Shutdown => self.finish(Err(IpcError::Shutdown)),
            },
            Phase::RecvHeader => {
                if let TransferEnd::Complete = end {
                    self._recv_header();
                } else {
                    self.finish(Ok(false));
                }
            },
            Phase::SkipError { .. } | Phase::SkipOversize => {
                let phase = self.phase;
                if let TransferEnd::Complete = end {
                    let left = self.skip_left - self.transfer.total();
                    if left == 0 {
                        let r = Self::skip_result(phase, true);
                        self.finish(r);
                    } else {
                        self._recv_skip(phase, left);
                    }
                } else {
                    let r = Self::skip_result(phase, false);
                    self.finish(r);
                }
            },
            Phase::RecvData => {
                let complete = match end {
                    TransferEnd::Complete => true,
                    _ => false,
                };
                self.finish(Ok(complete));
            },
            Phase::Done => {},
        }
    }

    /// Leaves every phase whose transfer has ended.
    fn settle(&mut self)
        requires
            request_inv(old(self)@),
        ensures
            final(self)@ == settle(old(self)@),
            request_wf(final(self)@),
        decreases rank(old(self)@.phase),
    {
        if let Phase::Done = self.phase {
            return;
        }
        if let TransferStep::Ended(end) = self.transfer.step() {
            let skip = match self.phase {
                Phase::SkipError { .. } | Phase::SkipOversize => true,
                _ => false,
            };
            self.finish_phase(end);
            if !skip {
                self.settle();
            }
        }
    }

    fn keep(&mut self, b: Vec<u8>)
        ensures
            final(self)@ == received(old(self)@, b@),
    {
        let mut b = b;
        self.taken = Ghost(self.taken@ + b@.len());
        match self.phase {
            Phase::RecvHeader => self.reply_header.append(&mut b),
            Phase::RecvData => self.data.append(&mut b),
            _ => {},
        }
    }

    /// Records the outcome `ev` of the action last asked for, and moves the request on.
    pub fn step(&mut self, ev: PipeEvent)
        requires
            request_wf(old(self)@),
            accepts(old(self)@, ev),
        ensures
            final(self)@ == next_state(old(self)@, ev),
            request_wf(final(self)@),
    {
        match self.transfer.step() {
            TransferStep::Issue { .. } => match ev {
                PipeEvent::Written(n) => {
                    self.sent = Ghost(self.sent@ + n as nat);
                    self.transfer.on_issued(Ok(n as usize));
                },
                PipeEvent::Received(b) => {
                    let n = b.len();
                    self.keep(b);
                    self.transfer.on_issued(Ok(n));
                },
                PipeEvent::Failed(code) => self.transfer.on_issued(Err(code)),
                _ => {},
            },
            TransferStep::Wait => {
                if let PipeEvent::Woken(w) = ev {
                    self.transfer.on_woken(w);
                }
            },
            TransferStep::Collect => match ev {
                PipeEvent::Written(n) => {
                    self.sent = Ghost(self.sent@ + n as nat);
                    self.transfer.on_collected(Some(n as usize));
                },
                PipeEvent::Received(b) => {
                    let n = b.len();
                    self.keep(b);
                    self.transfer.on_collected(Some(n));
                },
                PipeEvent::CollectFailed => self.transfer.on_collected(None),
                _ => {},
            },
            TransferStep::Ended(_) => {},
        }
        self.settle();
    }

    /// The action that the request asks for next.
    pub fn action(&self) -> (a: PipeAction)
        requires
            request_wf(self@),
        ensures
            action_of(self@, a),
    {
        let sending = match self.phase {
            Phase::SendHeader | Phase::SendPayload => true,
            _ => false,
        };
        if let Phase::Done = self.phase {
            return PipeAction::Finished;
        }
        match self.transfer.step() {
            TransferStep::Issue { offset, len } => if sending {
                let chunk = if let Phase::SendHeader = self.phase {
                    copy_range(&self.header, offset, len)
                } else {
                    copy_range(&self.payload, offset, len)
                };
                PipeAction::Write(chunk)
            } else {
                PipeAction::Read(len)
            },
            TransferStep::Wait => if sending {
                PipeAction::WaitWrite
            } else {
                PipeAction::WaitRead
            },
            TransferStep::Collect => if sending {
                PipeAction::CollectWrite
            } else {
                PipeAction::CollectRead
            },
            TransferStep::Ended(_) => PipeAction::Finished,
        }
    }

    /// Whether the request is over.
    pub fn is_done(&self) -> (b: bool)
        ensures
            b == (self@.phase is Done),
    {
        if let Phase::Done = self.phase {
            true
        } else {
            false
        }
    }

    /// The outcome of a request that is over, and the response data it received.
    pub fn into_outcome(self) -> (r: (Result<bool, IpcError>, Vec<u8>))
        requires
            request_wf(self@),
            self@.phase is Done,
        ensures
            Some(r.0) == self@.outcome,
            r.1@ == self@.data,
    {
        (self.outcome.unwrap(), self.data)
    }
}
} // verus!
