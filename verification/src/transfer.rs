use vstd::prelude::*;

verus! {

/// Largest number of bytes handed to one read or write call.
pub const CHUNK_SIZE: usize = 65536;

/// The last-error code that reports an overlapped operation still in progress.
pub const ERROR_IO_PENDING: u32 = 997;

/// The wait result that reports the first of the waited objects (the shutdown event) signaled.
pub const WAIT_OBJECT_0: u32 = 0;

/// How an overlapped transfer ended.
#[derive(Debug, Clone, Copy, PartialEq, Eq, Structural)]
pub enum TransferEnd {
    /// Every byte was transferred.
    Complete,
    /// The pipe reported no progress or an error.
    Stopped,
    /// The shutdown event was signaled while an operation was pending.
    Shutdown,
}

/// What an overlapped transfer asks for next.
#[derive(Debug, Clone, Copy, PartialEq, Eq, Structural)]
pub enum TransferStep {
    /// Issue a read or write of `len` bytes, starting `offset` bytes into the transfer.
    Issue { offset: usize, len: usize },
    /// Wait on the shutdown event and the operation's event.
    Wait,
    /// Fetch the result of the pending operation.
    Collect,
    /// The transfer is over.
    Ended(TransferEnd),
}

/// The abstract state of a transfer: its length, the bytes moved so far, and its next step.
pub struct TransferState {
    pub total: nat,
    pub done: nat,
    pub step: TransferStep,
}

/// The step at the head of the transfer loop after `done` of `total` bytes moved.
pub open spec fn next_step(total: nat, done: nat) -> TransferStep {
    if done < total {
        TransferStep::Issue {
            offset: done as usize,
            len: (if total - done < CHUNK_SIZE { total - done } else { CHUNK_SIZE as int }) as usize,
        }
    } else {
        TransferStep::Ended(TransferEnd::Complete)
    }
}

/// The state of a fresh transfer of `total` bytes.
pub open spec fn start_state(total: nat) -> TransferState {
    TransferState { total, done: 0, step: next_step(total, 0) }
}

/// `s` with its next step replaced.
pub open spec fn with_step(s: TransferState, step: TransferStep) -> TransferState {
    TransferState { total: s.total, done: s.done, step }
}

/// The state after the pipe reported `n` more bytes moved: no progress stops the transfer.
pub open spec fn after_moved(s: TransferState, n: nat) -> TransferState {
    if n == 0 {
        with_step(s, TransferStep::Ended(TransferEnd::Stopped))
    } else {
        TransferState { total: s.total, done: s.done + n, step: next_step(s.total, s.done + n) }
    }
}

/// The state after an issued operation returned: `Ok(n)` for `n` bytes moved at once,
/// `Err(code)` for a failure with last-error `code`.
pub open spec fn after_issue(s: TransferState, r: Result<usize, u32>) -> TransferState {
    match r {
        Ok(n) => after_moved(s, n as nat),
        Err(code) => if code == ERROR_IO_PENDING {
            with_step(s, TransferStep::Wait)
        } else {
            with_step(s, TransferStep::Ended(TransferEnd::Stopped))
        },
    }
}

/// The state after the wait returned `w`.
pub open spec fn after_wait(s: TransferState, w: u32) -> TransferState {
    if w == WAIT_OBJECT_0 {
        with_step(s, TransferStep::Ended(TransferEnd::Shutdown))
    } else {
        with_step(s, TransferStep::Collect)
    }
}

/// The state after fetching the pending operation's result: `Some(n)` for `n` bytes moved,
/// `None` for a failure.
pub open spec fn after_collect(s: TransferState, r: Option<usize>) -> TransferState {
    match r {
        Some(n) => after_moved(s, n as nat),
        None => with_step(s, TransferStep::Ended(TransferEnd::Stopped)),
    }
}

/// The invariant of a transfer.
pub open spec fn transfer_wf(s: TransferState) -> bool {
    &&& s.total <= usize::MAX
    &&& s.done <= s.total
    &&& match s.step {
        TransferStep::Issue { .. } => s.done < s.total && s.step == next_step(s.total, s.done),
        TransferStep::Ended(TransferEnd::Complete) => s.done == s.total,
        _ => s.done < s.total,
    }
}

/// Whether `n` more bytes can be reported moved: no more than remain.
pub open spec fn fits(s: TransferState, n: nat) -> bool {
    s.done + n <= s.total
}

/// Each read or write that a transfer issues covers the next bytes of the transfer: it starts
/// where the bytes moved so far end, asks for at least one and at most [`CHUNK_SIZE`] bytes,
/// and stays within the transfer.
pub proof fn lemma_issue_covers_next_bytes(s: TransferState)
    requires
        transfer_wf(s),
        s.step is Issue,
    ensures
        s.step->offset == s.done,
        0 < s.step->len <= CHUNK_SIZE,
        s.step->offset + s.step->len <= s.total,
{
}

/// A transfer completes exactly when every one of its bytes has moved.
pub proof fn lemma_complete_iff_all_moved(s: TransferState)
    requires
        transfer_wf(s),
    ensures
        (s.step == TransferStep::Ended(TransferEnd::Complete)) <==> (s.done == s.total),
{
}

/// A transfer of no bytes is complete before any read or write.
pub proof fn lemma_empty_transfer_is_complete()
    ensures
        start_state(0).step == TransferStep::Ended(TransferEnd::Complete),
{
}

/// Every step of a transfer keeps its invariant and never undoes progress: the bytes moved
/// only grow, by exactly the count reported.
pub proof fn lemma_steps_only_move_forward(s: TransferState, r: Result<usize, u32>, w: u32, c: Option<usize>)
    requires
        transfer_wf(s),
        r matches Ok(n) ==> fits(s, n as nat),
        c matches Some(n) ==> fits(s, n as nat),
    ensures
        s.step is Issue ==> {
            &&& transfer_wf(after_issue(s, r))
            &&& after_issue(s, r).done == s.done + (if let Ok(n) = r { n as nat } else { 0 })
        },
        s.step is Wait ==> transfer_wf(after_wait(s, w)) && after_wait(s, w).done == s.done,
        s.step is Collect ==> {
            &&& transfer_wf(after_collect(s, c))
            &&& after_collect(s, c).done == s.done + (if let Some(n) = c { n as nat } else { 0 })
        },
{
}

/// One overlapped read or write of a known number of bytes, issued in chunks of at most
/// [`CHUNK_SIZE`] bytes until every byte has moved.
pub struct Transfer {
    total: usize,
    done: usize,
    step: TransferStep,
}

impl View for Transfer {
    type V = TransferState;

    closed spec fn view(&self) -> TransferState {
        TransferState { total: self.total as nat, done: self.done as nat, step: self.step }
    }
}

impl Transfer {
    fn advance(total: usize, done: usize) -> (step: TransferStep)
        requires
            done <= total,
        ensures
            step == next_step(total as nat, done as nat),
    {
        if done < total {
            let left = total - done;
            TransferStep::Issue { offset: done, len: if left < CHUNK_SIZE { left } else { CHUNK_SIZE } }
        } else {
            TransferStep::Ended(TransferEnd::Complete)
        }
    }

    /// A transfer of `total` bytes; one of no bytes is complete at once.
    pub fn new(total: usize) -> (t: Transfer)
        ensures
            t@ == start_state(total as nat),
            transfer_wf(t@),
    {
        Transfer { total, done: 0, step: Self::advance(total, 0) }
    }

    /// The transfer's next step.
    pub fn step(&self) -> (step: TransferStep)
        ensures
            step == self@.step,
    {
        self.step
    }

    /// The number of bytes the transfer moves in all.
    pub fn total(&self) -> (total: usize)
        ensures
            total == self@.total,
    {
        self.total
    }

    /// The number of bytes moved so far.
    pub fn done(&self) -> (done: usize)
        ensures
            done == self@.done,
    {
        self.done
    }

    fn moved(&mut self, n: usize)
        requires
            transfer_wf(old(self)@),
            !(old(self)@.step is Issue),
            !(old(self)@.step is Ended),
            fits(old(self)@, n as nat),
        ensures
            final(self)@ == after_moved(old(self)@, n as nat),
    {
        if n == 0 {
            self.step = TransferStep::Ended(TransferEnd::Stopped);
        } else {
            self.done = self.done + n;
            self.step = Self::advance(self.total, self.done);
        }
    }

    /// Records the return of the operation issued at step `Issue`.
    pub fn on_issued(&mut self, r: Result<usize, u32>)
        requires
            transfer_wf(old(self)@),
            old(self)@.step is Issue,
            r matches Ok(n) ==> fits(old(self)@, n as nat),
        ensures
            final(self)@ == after_issue(old(self)@, r),
            transfer_wf(final(self)@),
    {
        self.step = TransferStep::Wait;
        match r {
            Ok(n) => self.moved(n),
            Err(code) => {
                if code != ERROR_IO_PENDING {
                    self.step = TransferStep::Ended(TransferEnd::Stopped);
                }
            },
        }
    }

    /// Records the return `w` of the wait at step `Wait`.
    pub fn on_woken(&mut self, w: u32)
        requires
            transfer_wf(old(self)@),
            old(self)@.step is Wait,
        ensures
            final(self)@ == after_wait(old(self)@, w),
            transfer_wf(final(self)@),
    {
        if w == WAIT_OBJECT_0 {
            self.step = TransferStep::Ended(TransferEnd::Shutdown);
        } else {
            self.step = TransferStep::Collect;
        }
    }

    /// Records the result of the pending operation fetched at step `Collect`.
    pub fn on_collected(&mut self, r: Option<usize>)
        requires
            transfer_wf(old(self)@),
            old(self)@.step is Collect,
            r matches Some(n) ==> fits(old(self)@, n as nat),
        ensures
            final(self)@ == after_collect(old(self)@, r),
            transfer_wf(final(self)@),
    {
        match r {
            Some(n) => self.moved(n),
            None => {
                self.step = TransferStep::Ended(TransferEnd::Stopped);
            },
        }
    }
}

} // verus!
