use everything_ipc::transfer::{Transfer, TransferEnd, TransferStep, CHUNK_SIZE, ERROR_IO_PENDING};

#[test]
fn empty_transfer_is_complete() {
    let t = Transfer::new(0);
    assert_eq!(t.step(), TransferStep::Ended(TransferEnd::Complete));
}

#[test]
fn transfer_goes_in_chunks() {
    let mut t = Transfer::new(70000);
    assert_eq!(t.step(), TransferStep::Issue { offset: 0, len: CHUNK_SIZE });
    t.on_issued(Ok(65536));
    assert_eq!(t.step(), TransferStep::Issue { offset: 65536, len: 4464 });
    t.on_issued(Ok(4000));
    assert_eq!(t.step(), TransferStep::Issue { offset: 69536, len: 464 });
    t.on_issued(Ok(464));
    assert_eq!(t.step(), TransferStep::Ended(TransferEnd::Complete));
    assert_eq!(t.done(), 70000);
}

#[test]
fn pending_transfer_waits_then_collects() {
    let mut t = Transfer::new(10);
    t.on_issued(Err(ERROR_IO_PENDING));
    assert_eq!(t.step(), TransferStep::Wait);
    t.on_woken(1);
    assert_eq!(t.step(), TransferStep::Collect);
    t.on_collected(Some(4));
    assert_eq!(t.step(), TransferStep::Issue { offset: 4, len: 6 });
    t.on_issued(Err(ERROR_IO_PENDING));
    t.on_woken(1);
    t.on_collected(Some(6));
    assert_eq!(t.step(), TransferStep::Ended(TransferEnd::Complete));
}

#[test]
fn shutdown_ends_pending_transfer() {
    let mut t = Transfer::new(10);
    t.on_issued(Err(ERROR_IO_PENDING));
    t.on_woken(0);
    assert_eq!(t.step(), TransferStep::Ended(TransferEnd::Shutdown));
}

#[test]
fn no_progress_or_failure_stops_transfer() {
    let mut t = Transfer::new(10);
    t.on_issued(Ok(0));
    assert_eq!(t.step(), TransferStep::Ended(TransferEnd::Stopped));

    let mut t = Transfer::new(10);
    t.on_issued(Err(109));
    assert_eq!(t.step(), TransferStep::Ended(TransferEnd::Stopped));

    let mut t = Transfer::new(10);
    t.on_issued(Err(ERROR_IO_PENDING));
    t.on_woken(1);
    t.on_collected(None);
    assert_eq!(t.step(), TransferStep::Ended(TransferEnd::Stopped));

    let mut t = Transfer::new(10);
    t.on_issued(Err(ERROR_IO_PENDING));
    t.on_woken(1);
    t.on_collected(Some(0));
    assert_eq!(t.step(), TransferStep::Ended(TransferEnd::Stopped));
}
