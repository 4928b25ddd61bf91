use everything_ipc::connect::{
    ConnectAction, ConnectEvent, Connector, DEFAULT_TIMEOUT_NANOS, ERROR_PIPE_BUSY,
    RETRY_DELAY_MILLIS,
};
use everything_ipc::{get_pipe_name, EverythingClient, IpcError};

fn name(instance: &str) -> Vec<u16> {
    let mut b = Vec::new();
    get_pipe_name(&mut b, instance);
    b
}

#[test]
fn try_new_opens_the_named_pipe() {
    let c = EverythingClient::try_new(None);
    match c.action() {
        ConnectAction::OpenPipe(n) => assert_eq!(n, name("")),
        other => panic!("unexpected action {:?}", other),
    }
    let c = EverythingClient::try_new(Some("1.5a"));
    match c.action() {
        ConnectAction::OpenPipe(n) => assert_eq!(n, name("1.5a")),
        other => panic!("unexpected action {:?}", other),
    }
}

#[test]
fn try_new_builds_client() {
    let mut c = EverythingClient::try_new(None);
    c.step(ConnectEvent::PipeOpened(10));
    assert!(matches!(c.action(), ConnectAction::CreateEvent));
    c.step(ConnectEvent::EventCreated(11));
    c.step(ConnectEvent::EventCreated(12));
    c.step(ConnectEvent::EventCreated(13));
    assert!(c.is_done());
    let client = c.into_outcome().unwrap();
    assert_eq!(client.pipe_handle().unwrap().get(), 10);
    assert_eq!(client.shutdown_event().get(), 11);
    assert_eq!(client.send_event().get(), 12);
    assert_eq!(client.recv_event().get(), 13);
    assert_eq!(client.shutdown().unwrap().get(), 11);
}

#[test]
fn try_new_maps_open_errors() {
    let mut c = EverythingClient::try_new(None);
    c.step(ConnectEvent::PipeFailed(ERROR_PIPE_BUSY));
    assert!(matches!(c.into_outcome(), Err(IpcError::PipeBusy)));
    let mut c = EverythingClient::try_new(None);
    c.step(ConnectEvent::PipeFailed(2));
    assert!(matches!(c.into_outcome(), Err(IpcError::PipeNotFound)));
}

#[test]
fn try_new_fails_on_event_errors() {
    let mut c = EverythingClient::try_new(None);
    c.step(ConnectEvent::PipeOpened(10));
    c.step(ConnectEvent::EventFailed);
    assert!(matches!(c.into_outcome(), Err(IpcError::OutOfMemory)));
    let mut c = EverythingClient::try_new(None);
    c.step(ConnectEvent::PipeOpened(10));
    c.step(ConnectEvent::EventCreated(11));
    c.step(ConnectEvent::EventCreated(0));
    assert!(matches!(c.into_outcome(), Err(IpcError::OutOfMemory)));
}

fn connect_ok(c: &mut Connector) {
    c.step(ConnectEvent::PipeOpened(1));
    c.step(ConnectEvent::EventCreated(2));
    c.step(ConnectEvent::EventCreated(3));
    c.step(ConnectEvent::EventCreated(4));
}

#[test]
fn new_retries_busy_pipe_until_it_connects() {
    let mut c = EverythingClient::new(None, DEFAULT_TIMEOUT_NANOS);
    assert!(matches!(c.action(), ConnectAction::StartClock));
    c.step(ConnectEvent::ClockStarted);
    c.step(ConnectEvent::PipeFailed(ERROR_PIPE_BUSY));
    assert!(matches!(c.action(), ConnectAction::MeasureElapsed));
    c.step(ConnectEvent::Elapsed(1_000_000));
    assert!(matches!(c.action(), ConnectAction::Sleep(RETRY_DELAY_MILLIS)));
    c.step(ConnectEvent::Slept);
    match c.action() {
        ConnectAction::OpenPipe(n) => assert_eq!(n, name("")),
        other => panic!("unexpected action {:?}", other),
    }
    connect_ok(&mut c);
    assert!(c.is_done());
    assert!(c.into_outcome().is_ok());
}

#[test]
fn new_gives_up_on_busy_pipe_after_timeout() {
    let mut c = EverythingClient::new(Some("x"), 10_000_000_000);
    c.step(ConnectEvent::ClockStarted);
    c.step(ConnectEvent::PipeFailed(ERROR_PIPE_BUSY));
    c.step(ConnectEvent::Elapsed(10_000_000_000));
    assert!(c.is_done());
    assert!(matches!(c.into_outcome(), Err(IpcError::PipeBusy)));
}

#[test]
fn new_falls_back_to_instance_1_5a() {
    let mut c = EverythingClient::new(None, DEFAULT_TIMEOUT_NANOS);
    c.step(ConnectEvent::ClockStarted);
    c.step(ConnectEvent::PipeFailed(2));
    assert!(matches!(c.action(), ConnectAction::StartClock));
    c.step(ConnectEvent::ClockStarted);
    match c.action() {
        ConnectAction::OpenPipe(n) => assert_eq!(n, name("1.5a")),
        other => panic!("unexpected action {:?}", other),
    }
    c.step(ConnectEvent::PipeFailed(2));
    assert!(c.is_done());
    assert!(matches!(c.into_outcome(), Err(IpcError::PipeNotFound)));
}

#[test]
fn new_with_instance_name_does_not_fall_back() {
    let mut c = EverythingClient::new(Some("mine"), DEFAULT_TIMEOUT_NANOS);
    c.step(ConnectEvent::ClockStarted);
    c.step(ConnectEvent::PipeFailed(2));
    assert!(matches!(c.into_outcome(), Err(IpcError::PipeNotFound)));
}

#[test]
fn new_falls_back_after_any_failure() {
    let mut c = EverythingClient::new(None, DEFAULT_TIMEOUT_NANOS);
    c.step(ConnectEvent::ClockStarted);
    c.step(ConnectEvent::PipeOpened(1));
    c.step(ConnectEvent::EventFailed);
    assert!(matches!(c.action(), ConnectAction::StartClock));
    c.step(ConnectEvent::ClockStarted);
    match c.action() {
        ConnectAction::OpenPipe(n) => assert_eq!(n, name("1.5a")),
        other => panic!("unexpected action {:?}", other),
    }
    connect_ok(&mut c);
    assert!(c.into_outcome().is_ok());
}

#[test]
fn new_falls_back_after_busy_timeout() {
    let mut c = EverythingClient::new(None, 100);
    c.step(ConnectEvent::ClockStarted);
    c.step(ConnectEvent::PipeFailed(ERROR_PIPE_BUSY));
    c.step(ConnectEvent::Elapsed(100));
    assert!(matches!(c.action(), ConnectAction::StartClock));
    c.step(ConnectEvent::ClockStarted);
    c.step(ConnectEvent::PipeFailed(ERROR_PIPE_BUSY));
    c.step(ConnectEvent::Elapsed(100));
    assert!(c.is_done());
    assert!(matches!(c.into_outcome(), Err(IpcError::PipeBusy)));
}

#[test]
fn new_with_instance_name_does_not_retry_other_errors() {
    let mut c = EverythingClient::new(Some("x"), DEFAULT_TIMEOUT_NANOS);
    c.step(ConnectEvent::ClockStarted);
    c.step(ConnectEvent::PipeOpened(1));
    c.step(ConnectEvent::EventFailed);
    assert!(matches!(c.into_outcome(), Err(IpcError::OutOfMemory)));
}

#[test]
fn empty_instance_name_is_the_unnamed_instance() {
    let a = EverythingClient::try_new(Some(""));
    let b = EverythingClient::try_new(None);
    match (a.action(), b.action()) {
        (ConnectAction::OpenPipe(x), ConnectAction::OpenPipe(y)) => assert_eq!(x, y),
        other => panic!("unexpected actions {:?}", other),
    }
}
