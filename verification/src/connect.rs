use vstd::prelude::*;
use crate::client::{ClientState, EverythingClient};
use crate::error::IpcError;
use crate::handle::Handle;
use crate::pipe_name::{get_pipe_name, pipe_name_units};

verus! {

/// The last-error code that reports every instance of the pipe busy.
pub const ERROR_PIPE_BUSY: u32 = 231;

/// Where a connection attempt stands.
#[derive(Debug, Clone, Copy, PartialEq, Eq, Structural)]
pub enum ConnectStage {
    /// Opening the pipe.
    OpenPipe,
    /// Creating the shutdown event.
    ShutdownEvent,
    /// Creating the send event.
    SendEvent,
    /// Creating the receive event.
    RecvEvent,
    /// The attempt is over.
    Done,
}

/// An operation that connecting asks its caller to perform.
#[derive(Debug)]
pub enum ConnectAction {
    /// Open the pipe with this NUL-terminated UTF-16 name, for overlapped reading and writing.
    OpenPipe(Vec<u16>),
    /// Create a manual-reset event, initially not signaled.
    CreateEvent,
    /// Note the current time as the start of a round of attempts.
    StartClock,
    /// Measure the time elapsed since the start of the round.
    MeasureElapsed,
    /// Sleep this many milliseconds.
    Sleep(u64),
    /// Nothing: connecting is over.
    Finished,
}

/// The outcome of a [`ConnectAction`].
#[derive(Debug)]
pub enum ConnectEvent {
    /// The pipe was opened; its raw handle.
    PipeOpened(usize),
    /// Opening the pipe failed with this last-error code.
    PipeFailed(u32),
    /// An event was created; its raw handle.
    EventCreated(usize),
    /// Creating an event failed.
    EventFailed,
    /// The clock was started.
    ClockStarted,
    /// This many nanoseconds elapsed since the start of the round.
    Elapsed(u128),
    /// The sleep is over.
    Slept,
}

/// The abstract state of a connection attempt.
pub struct ConnectState {
    /// The name of the pipe.
    pub name: Seq<u16>,
    pub stage: ConnectStage,
    /// The raw handles obtained so far.
    pub pipe: usize,
    pub shutdown: usize,
    pub send: usize,
    /// The attempt's outcome, once it is over.
    pub outcome: Option<Result<EverythingClient, IpcError>>,
}

/// The error that opening the pipe failed with, by its last-error code.
pub open spec fn open_error(code: u32) -> IpcError {
    if code == ERROR_PIPE_BUSY {
        IpcError::PipeBusy
    } else {
        IpcError::PipeNotFound
    }
}

/// `s`, over with `outcome`.
pub open spec fn connect_finished(s: ConnectState, outcome: Result<EverythingClient, IpcError>) -> ConnectState {
    ConnectState { stage: ConnectStage::Done, outcome: Some(outcome), ..s }
}

/// Whether `c` holds exactly the pipe `pipe` and the events `send`, `recv`, `shutdown`.
pub open spec fn client_holds(c: ClientState, pipe: usize, send: usize, recv: usize, shutdown: usize) -> bool {
    c.pipe == Some(pipe) && c.send == send && c.recv == recv && c.shutdown == shutdown
}

/// Whether `ev` is an outcome of the action that `s` asks for.
pub open spec fn connect_accepts(s: ConnectState, ev: ConnectEvent) -> bool {
    match s.stage {
        ConnectStage::OpenPipe => ev is PipeOpened || ev is PipeFailed,
        ConnectStage::Done => false,
        _ => ev is EventCreated || ev is EventFailed,
    }
}

/// Whether `t` is the state of the attempt `s` after the outcome `ev` of its action: a failure
/// to open the pipe ends the attempt with `PipeBusy` or `PipeNotFound`, a failed or null
/// event ends it with `OutOfMemory`, and the receive event completes the client.
pub open spec fn connect_next(s: ConnectState, ev: ConnectEvent, t: ConnectState) -> bool {
    match ev {
        ConnectEvent::PipeOpened(h) => t == ConnectState {
            stage: ConnectStage::ShutdownEvent,
            pipe: h,
            ..s
        },
        ConnectEvent::PipeFailed(code) => t == connect_finished(s, Err(open_error(code))),
        ConnectEvent::EventFailed => t == connect_finished(s, Err(IpcError::OutOfMemory)),
        ConnectEvent::EventCreated(h) => if h == 0 {
            t == connect_finished(s, Err(IpcError::OutOfMemory))
        } else {
            match s.stage {
                ConnectStage::ShutdownEvent => t == ConnectState {
                    stage: ConnectStage::SendEvent,
                    shutdown: h,
                    ..s
                },
                ConnectStage::SendEvent => t == ConnectState {
                    stage: ConnectStage::RecvEvent,
                    send: h,
                    ..s
                },
                _ => {
                    &&& t.name == s.name
                    &&& t.stage is Done
                    &&& t.pipe == s.pipe
                    &&& t.shutdown == s.shutdown
                    &&& t.send == s.send
                    &&& t.outcome matches Some(Ok(c)) && client_holds(
                        c@,
                        s.pipe,
                        s.send,
                        h,
                        s.shutdown,
                    )
                },
            }
        },
        _ => t == s,
    }
}

/// One attempt to connect to the Everything IPC pipe: open the pipe, then create the shutdown,
/// send and receive events.
pub struct Connect {
    name: Vec<u16>,
    stage: ConnectStage,
    pipe: usize,
    shutdown: usize,
    send: usize,
    outcome: Option<Result<EverythingClient, IpcError>>,
}

impl View for Connect {
    type V = ConnectState;

    closed spec fn view(&self) -> ConnectState {
        ConnectState {
            name: self.name@,
            stage: self.stage,
            pipe: self.pipe,
            shutdown: self.shutdown,
            send: self.send,
            outcome: self.outcome,
        }
    }
}

/// A fresh attempt on the pipe named `name`.
pub open spec fn fresh_attempt(name: Seq<u16>) -> ConnectState {
    ConnectState {
        name,
        stage: ConnectStage::OpenPipe,
        pipe: 0,
        shutdown: 0,
        send: 0,
        outcome: None,
    }
}

/// The invariant of a connection attempt: it has an outcome exactly when it is over.
pub open spec fn connect_wf(s: ConnectState) -> bool {
    &&& (s.stage is Done) == (s.outcome is Some)
    &&& (s.stage is SendEvent || s.stage is RecvEvent) ==> s.shutdown != 0
    &&& s.stage is RecvEvent ==> s.send != 0
    &&& s.outcome matches Some(Ok(c)) ==> {
        &&& c@.pipe is Some
        &&& c@.send != 0
        &&& c@.recv != 0
        &&& c@.shutdown != 0
    }
}

/// A connection attempt that succeeds yields a client holding a pipe and three non-null
/// events.
pub proof fn lemma_connected_client_is_complete(s: ConnectState, c: EverythingClient)
    requires
        connect_wf(s),
        s.outcome == Some(Ok::<EverythingClient, IpcError>(c)),
    ensures
        c@.pipe is Some,
        c@.send != 0,
        c@.recv != 0,
        c@.shutdown != 0,
{
}

impl Connect {
    /// An attempt to connect to the Everything instance `instance_name` (the unnamed instance
    /// where it is empty).
    pub fn new(instance_name: &str) -> (c: Connect)
        ensures
            c@ == fresh_attempt(pipe_name_units(instance_name@)),
    {
        let mut name: Vec<u16> = Vec::new();
        let _ = get_pipe_name(&mut name, instance_name);
        assert(name@ =~= pipe_name_units(instance_name@));
        Connect { name, stage: ConnectStage::OpenPipe, pipe: 0, shutdown: 0, send: 0, outcome: None }
    }

    /// The outcome of an attempt that is over; the attempt starts over on the same pipe name.
    pub fn take_outcome(&mut self) -> (r: Result<EverythingClient, IpcError>)
        requires
            connect_wf(old(self)@),
            old(self)@.stage is Done,
        ensures
            old(self)@.outcome == Some(r),
            final(self)@ == fresh_attempt(old(self)@.name),
    {
        let r = self.outcome.take().unwrap();
        self.stage = ConnectStage::OpenPipe;
        self.pipe = 0;
        self.shutdown = 0;
        self.send = 0;
        r
    }

    /// The action that the attempt asks for next.
    pub fn action(&self) -> (a: ConnectAction)
        ensures
            self@.stage is OpenPipe ==> (a matches ConnectAction::OpenPipe(n) && n@ == self@.name),
            self@.stage is Done ==> a is Finished,
            !(self@.stage is OpenPipe) && !(self@.stage is Done) ==> a is CreateEvent,
    {
        match self.stage {
            ConnectStage::OpenPipe => ConnectAction::OpenPipe(self.name.clone()),
            ConnectStage::Done => ConnectAction::Finished,
            _ => ConnectAction::CreateEvent,
        }
    }

    /// Whether the attempt is over.
    pub fn is_done(&self) -> (b: bool)
        ensures
            b == (self@.stage is Done),
    {
        if let ConnectStage::Done = self.stage {
            true
        } else {
            false
        }
    }

    fn finish(&mut self, outcome: Result<EverythingClient, IpcError>)
        ensures
            final(self)@ == connect_finished(old(self)@, outcome),
    {
        self.stage = ConnectStage::Done;
        self.outcome = Some(outcome);
    }

    /// Records the outcome `ev` of the action last asked for.
    pub fn step(&mut self, ev: ConnectEvent)
        requires
            connect_wf(old(self)@),
            connect_accepts(old(self)@, ev),
        ensures
            connect_next(old(self)@, ev, final(self)@),
            connect_wf(final(self)@),
    {
        match ev {
            ConnectEvent::PipeOpened(h) => {
                self.pipe = h;
                self.stage = ConnectStage::ShutdownEvent;
            },
            ConnectEvent::PipeFailed(code) => {
                if code == ERROR_PIPE_BUSY {
                    self.finish(Err(IpcError::PipeBusy));
                } else {
                    self.finish(Err(IpcError::PipeNotFound));
                }
            },
            ConnectEvent::EventFailed => self.finish(Err(IpcError::OutOfMemory)),
            ConnectEvent::EventCreated(h) => {
                if h == 0 {
                    self.finish(Err(IpcError::OutOfMemory));
                } else {
                    match self.stage {
                        ConnectStage::ShutdownEvent => {
                            self.shutdown = h;
                            self.stage = ConnectStage::SendEvent;
                        },
                        ConnectStage::SendEvent => {
                            self.send = h;
                            self.stage = ConnectStage::RecvEvent;
                        },
                        _ => {
                            let c = EverythingClient::from_handles(
                                Handle::new(self.pipe),
                                Handle::new(self.send),
                                Handle::new(h),
                                Handle::new(self.shutdown),
                            );
                            self.finish(Ok(c));
                        },
                    }
                }
            },
            _ => {},
        }
    }

    /// The outcome of an attempt that is over.
    pub fn into_outcome(self) -> (r: Result<EverythingClient, IpcError>)
        requires
            connect_wf(self@),
            self@.stage is Done,
        ensures
            Some(r) == self@.outcome,
    {
        self.outcome.unwrap()
    }
}

/// Milliseconds slept between attempts while the pipe is busy.
pub const RETRY_DELAY_MILLIS: u64 = 100;

/// The instance name tried when no instance name was given and connecting to the unnamed
/// instance failed.
pub const FALLBACK_INSTANCE: &'static str = "1.5a";

/// A timeout, in nanoseconds, for attempts on a busy pipe: the one that callers of
/// [`EverythingClient::new`] pass when they have no other in mind (this library applies none
/// itself).
pub const DEFAULT_TIMEOUT_NANOS: u128 = 10_000_000_000;

/// Where a round of connection attempts stands.
#[derive(Debug, Clone, Copy, PartialEq, Eq, Structural)]
pub enum RoundStage {
    /// Starting the round's clock.
    StartClock,
    /// Running an attempt.
    Attempt,
    /// Measuring the time elapsed since the start of the round, the pipe being busy.
    Measure,
    /// Sleeping before the next attempt.
    Sleep,
    /// Connecting is over.
    Done,
}

/// The abstract state of connecting with retries.
pub struct ConnectorState {
    /// The attempt under way, or the next one.
    pub attempt: ConnectState,
    pub stage: RoundStage,
    /// Whether the fallback instance is still to be tried if the round fails.
    pub fallback: bool,
    /// How long, in nanoseconds, attempts on a busy pipe go on.
    pub timeout: u128,
    /// The outcome, once connecting is over.
    pub outcome: Option<Result<EverythingClient, IpcError>>,
}

/// Whether `r` is the error `PipeBusy`.
pub open spec fn is_busy(r: Result<EverythingClient, IpcError>) -> bool {
    r matches Err(e) && e is PipeBusy
}

/// Whether `t` follows `s` when a round ended with `r` (its attempt already started over):
/// the fallback instance gets a round of its own when the round failed and the fallback is
/// still available; otherwise connecting is over with `r`.
pub open spec fn round_over(s: ConnectorState, r: Result<EverythingClient, IpcError>, t: ConnectorState) -> bool {
    if s.fallback && r is Err {
        t == ConnectorState {
            attempt: fresh_attempt(pipe_name_units(FALLBACK_INSTANCE@)),
            stage: RoundStage::StartClock,
            fallback: false,
            ..s
        }
    } else {
        t == ConnectorState { stage: RoundStage::Done, outcome: Some(r), ..s }
    }
}

/// Whether `ev` is an outcome of the action that `s` asks for.
pub open spec fn connector_accepts(s: ConnectorState, ev: ConnectEvent) -> bool {
    match s.stage {
        RoundStage::StartClock => ev is ClockStarted,
        RoundStage::Attempt => connect_accepts(s.attempt, ev),
        RoundStage::Measure => ev is Elapsed,
        RoundStage::Sleep => ev is Slept,
        RoundStage::Done => false,
    }
}

/// Whether `t` follows `s` on the outcome `ev` of its action: an attempt that succeeds ends
/// connecting; one that finds the pipe busy measures the round's time, and the round goes on
/// after a sleep until the timeout has elapsed; any other failure ends the round.
pub open spec fn connector_next(s: ConnectorState, ev: ConnectEvent, t: ConnectorState) -> bool {
    match s.stage {
        RoundStage::StartClock => t == ConnectorState { stage: RoundStage::Attempt, ..s },
        RoundStage::Attempt => exists|a: ConnectState|
            #![trigger connect_next(s.attempt, ev, a)]
            connect_next(s.attempt, ev, a) && if a.stage is Done {
                let r = a.outcome->0;
                let u = ConnectorState { attempt: fresh_attempt(a.name), ..s };
                if r is Ok {
                    t == ConnectorState { stage: RoundStage::Done, outcome: Some(r), ..u }
                } else if is_busy(r) {
                    t == ConnectorState { stage: RoundStage::Measure, ..u }
                } else {
                    round_over(u, r, t)
                }
            } else {
                t == ConnectorState { attempt: a, ..s }
            },
        RoundStage::Measure => match ev {
            ConnectEvent::Elapsed(d) => if d >= s.timeout {
                round_over(s, Err(IpcError::PipeBusy), t)
            } else {
                t == ConnectorState { stage: RoundStage::Sleep, ..s }
            },
            _ => t == s,
        },
        RoundStage::Sleep => t == ConnectorState { stage: RoundStage::Attempt, ..s },
        RoundStage::Done => t == s,
    }
}

/// The invariant of connecting with retries.
pub open spec fn connector_wf(s: ConnectorState) -> bool {
    &&& connect_wf(s.attempt)
    &&& s.outcome matches Some(Ok(c)) ==> {
        &&& c@.pipe is Some
        &&& c@.send != 0
        &&& c@.recv != 0
        &&& c@.shutdown != 0
    }
    &&& (s.stage is Done) == (s.outcome is Some)
    &&& !(s.stage is Attempt) ==> s.attempt.stage is OpenPipe
    &&& !(s.attempt.stage is Done)
}

/// Connecting to the Everything IPC pipe in rounds: while the pipe is busy, attempts repeat
/// after a short sleep until a timeout; where no instance name was given and the round on the
/// unnamed instance fails, the fallback instance gets a round of its own.
pub struct Connector {
    attempt: Connect,
    stage: RoundStage,
    fallback: bool,
    timeout: u128,
    outcome: Option<Result<EverythingClient, IpcError>>,
}

impl View for Connector {
    type V = ConnectorState;

    closed spec fn view(&self) -> ConnectorState {
        ConnectorState {
            attempt: self.attempt@,
            stage: self.stage,
            fallback: self.fallback,
            timeout: self.timeout,
            outcome: self.outcome,
        }
    }
}

impl Connector {
    /// Connecting to the instance `instance_name` with retries for `timeout` nanoseconds while
    /// the pipe is busy; `fallback` allows a round on the fallback instance.
    pub fn with_instance_timeout(instance_name: &str, timeout: u128, fallback: bool) -> (c: Connector)
        ensures
            c@ == (ConnectorState {
                attempt: fresh_attempt(pipe_name_units(instance_name@)),
                stage: RoundStage::StartClock,
                fallback,
                timeout,
                outcome: None,
            }),
            connector_wf(c@),
    {
        Connector {
            attempt: Connect::new(instance_name),
            stage: RoundStage::StartClock,
            fallback,
            timeout,
            outcome: None,
        }
    }

    /// The action that connecting asks for next.
    pub fn action(&self) -> (a: ConnectAction)
        requires
            connector_wf(self@),
        ensures
            self@.stage is StartClock ==> a is StartClock,
            self@.stage is Attempt ==> {
                &&& self@.attempt.stage is OpenPipe ==> (a matches ConnectAction::OpenPipe(n)
                    && n@ == self@.attempt.name)
                &&& !(self@.attempt.stage is OpenPipe) ==> a is CreateEvent
            },
            self@.stage is Measure ==> a is MeasureElapsed,
            self@.stage is Sleep ==> (a matches ConnectAction::Sleep(ms) && ms
                == RETRY_DELAY_MILLIS),
            self@.stage is Done ==> a is Finished,
    {
        match self.stage {
            RoundStage::StartClock => ConnectAction::StartClock,
            RoundStage::Attempt => self.attempt.action(),
            RoundStage::Measure => ConnectAction::MeasureElapsed,
            RoundStage::Sleep => ConnectAction::Sleep(RETRY_DELAY_MILLIS),
            RoundStage::Done => ConnectAction::Finished,
        }
    }

    /// Whether connecting is over.
    pub fn is_done(&self) -> (b: bool)
        ensures
            b == (self@.stage is Done),
    {
        if let RoundStage::Done = self.stage {
            true
        } else {
            false
        }
    }

    fn end_round(&mut self, r: Result<EverythingClient, IpcError>)
        requires
            connector_wf(old(self)@),
            !(old(self)@.stage is Done),
            old(self)@.attempt.stage is OpenPipe,
            r is Err,
        ensures
            round_over(old(self)@, r, final(self)@),
            connector_wf(final(self)@),
    {
        if self.fallback {
            self.attempt = Connect::new(FALLBACK_INSTANCE);
            self.stage = RoundStage::StartClock;
            self.fallback = false;
        } else {
            self.stage = RoundStage::Done;
            self.outcome = Some(r);
        }
    }

    /// Records the outcome `ev` of the action last asked for.
    pub fn step(&mut self, ev: ConnectEvent)
        requires
            connector_wf(old(self)@),
            connector_accepts(old(self)@, ev),
        ensures
            connector_next(old(self)@, ev, final(self)@),
            connector_wf(final(self)@),
    {
        match self.stage {
            RoundStage::StartClock => {
                self.stage = RoundStage::Attempt;
            },
            RoundStage::Attempt => {
                self.attempt.step(ev);
                let ghost a = self.attempt@;
                if self.attempt.is_done() {
                    let r = self.attempt.take_outcome();
                    let busy = match &r {
                        Err(IpcError::PipeBusy) => true,
                        _ => false,
                    };
                    if let Ok(_) = &r {
                        self.stage = RoundStage::Done;
                        self.outcome = Some(r);
                    } else if busy {
                        self.stage = RoundStage::Measure;
                    } else {
                        self.end_round(r);
                    }
                }
                assert(connect_next(old(self)@.attempt, ev, a));
            },
            RoundStage::Measure => {
                if let ConnectEvent::Elapsed(d) = ev {
                    if d >= self.timeout {
                        self.end_round(Err(IpcError::PipeBusy));
                    } else {
                        self.stage = RoundStage::Sleep;
                    }
                }
            },
            RoundStage::Sleep => {
                self.stage = RoundStage::Attempt;
            },
            RoundStage::Done => {},
        }
    }

    /// The outcome of connecting, once it is over.
    pub fn into_outcome(self) -> (r: Result<EverythingClient, IpcError>)
        requires
            connector_wf(self@),
            self@.stage is Done,
        ensures
            Some(r) == self@.outcome,
    {
        self.outcome.unwrap()
    }
}

/// The name of the pipe that connecting to the instance `instance_name` opens: the unnamed
/// instance's where none is given.
pub open spec fn instance_pipe_name(instance_name: Option<&str>) -> Seq<u16> {
    match instance_name {
        Some(n) => pipe_name_units(n@),
        None => pipe_name_units(Seq::<char>::empty()),
    }
}

/// Once the timeout of a round has elapsed on a busy pipe, the round is over with `PipeBusy`:
/// connecting ends with that error, or, where the fallback is still available, a new round
/// starts on the fallback instance.
pub proof fn lemma_no_retry_after_timeout(s: ConnectorState, d: u128, t: ConnectorState)
    requires
        s.stage is Measure,
        d >= s.timeout,
        connector_next(s, ConnectEvent::Elapsed(d), t),
    ensures
        !s.fallback ==> t.stage is Done && (t.outcome matches Some(Err(e)) && e is PipeBusy),
        s.fallback ==> t.stage is StartClock && t.attempt == fresh_attempt(
            pipe_name_units(FALLBACK_INSTANCE@),
        ) && t.timeout == s.timeout,
{
}

/// Before the timeout of a round has elapsed, a busy pipe is tried again after a sleep.
pub proof fn lemma_busy_pipe_retried_before_timeout(s: ConnectorState, d: u128, t: ConnectorState)
    requires
        s.stage is Measure,
        d < s.timeout,
        connector_next(s, ConnectEvent::Elapsed(d), t),
    ensures
        t.stage is Sleep,
        t.attempt == s.attempt,
{
}

/// Opening the pipe reports `PipeBusy` exactly for the last-error code of a busy pipe (231);
/// every other failure to open it ends the attempt with `PipeNotFound`.
pub proof fn lemma_open_failure_error(s: ConnectState, code: u32, t: ConnectState)
    requires
        connect_next(s, ConnectEvent::PipeFailed(code), t),
    ensures
        t.stage is Done,
        code == 231 ==> (t.outcome matches Some(Err(e)) && e is PipeBusy),
        code != 231 ==> (t.outcome matches Some(Err(e)) && e is PipeNotFound),
{
}

/// The caller's timeout holds for every round: no outcome of any action changes it, the round
/// on the fallback instance included, whatever failure ended the round before it.
pub proof fn lemma_timeout_never_changes(s: ConnectorState, ev: ConnectEvent, t: ConnectorState)
    requires
        connector_next(s, ev, t),
    ensures
        t.timeout == s.timeout,
{
}

/// A failed round that allows the fallback starts the fallback round with the same timeout,
/// whatever the failure.
pub proof fn lemma_fallback_keeps_timeout(
    s: ConnectorState,
    r: Result<EverythingClient, IpcError>,
    t: ConnectorState,
)
    requires
        round_over(s, r, t),
    ensures
        t.timeout == s.timeout,
{
}

/// The fallback instance is tried at most once, after any failed round that allowed it: a new
/// round starts exactly then, on the fallback instance, and without a further fallback.
pub proof fn lemma_fallback_after_failed_round(
    s: ConnectorState,
    r: Result<EverythingClient, IpcError>,
    t: ConnectorState,
)
    requires
        round_over(s, r, t),
    ensures
        t.stage is StartClock <==> (s.fallback && r is Err),
        t.stage is StartClock ==> !t.fallback && t.attempt == fresh_attempt(
            pipe_name_units(FALLBACK_INSTANCE@),
        ),
        !(t.stage is StartClock) ==> t.stage is Done && t.outcome == Some(r),
{
}

/// An empty instance name names the unnamed instance, as no instance name does.
pub proof fn lemma_empty_instance_is_unnamed(instance_name: &str)
    requires
        instance_name@.len() == 0,
    ensures
        instance_pipe_name(Some(instance_name)) == instance_pipe_name(None),
{
    assert(instance_name@ =~= Seq::<char>::empty());
}

impl EverythingClient {
    /// Connect to the Everything IPC pipe, trying common instance names: the attempts that
    /// connect to the instance `instance_name`, retried while the pipe is busy until `timeout`
    /// nanoseconds have elapsed. The timeout is always the caller's; [`DEFAULT_TIMEOUT_NANOS`]
    /// is the usual choice.
    ///
    /// Without an instance name, this will first try to connect to the unnamed instance,
    /// and if that round fails in any way, try "1.5a" with the same timeout.
    pub fn new(instance_name: Option<&str>, timeout: u128) -> (c: Connector)
        ensures
            c@ == (ConnectorState {
                attempt: fresh_attempt(instance_pipe_name(instance_name)),
                stage: RoundStage::StartClock,
                fallback: instance_name is None,
                timeout,
                outcome: None,
            }),
            connector_wf(c@),
    {
        match instance_name {
            Some(n) => Connector::with_instance_timeout(n, timeout, false),
            None => {
                let c = Connector::with_instance_timeout("", timeout, true);
                proof {
                    reveal_strlit("");
                    assert(""@ =~= Seq::<char>::empty());
                }
                c
            },
        }
    }

    /// Connect to the Everything IPC pipe: the one attempt on the instance `instance_name`,
    /// or on the unnamed instance where it is `None` or empty.
    pub fn try_new(instance_name: Option<&str>) -> (c: Connect)
        ensures
            c@ == fresh_attempt(instance_pipe_name(instance_name)),
    {
        match instance_name {
            Some(n) => Connect::new(n),
            None => {
                let c = Connect::new("");
                proof {
                    reveal_strlit("");
                    assert(""@ =~= Seq::<char>::empty());
                }
                c
            },
        }
    }
}

} // verus!
