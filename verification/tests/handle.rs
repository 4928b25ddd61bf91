use everything_ipc::Handle;

#[test]
fn handle_keeps_its_value() {
    let h = Handle::new(0x1234);
    assert_eq!(h.get(), 0x1234);
    assert!(!h.is_null());
}

#[test]
fn null_handle() {
    let h = Handle::new(0);
    assert!(h.is_null());
    assert_eq!(h.get(), 0);
}
