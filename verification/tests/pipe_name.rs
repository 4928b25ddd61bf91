use everything_ipc::get_pipe_name;
use everything_ipc::pipe_name::PIPE_NAME_BASE;

fn units(s: &str) -> Vec<u16> {
    s.encode_utf16().collect()
}

#[test]
fn unnamed_instance_pipe_name() {
    let mut buf = Vec::new();
    assert!(get_pipe_name(&mut buf, ""));
    let mut expected = units(r"\\.\PIPE\Everything IPC");
    expected.push(0);
    assert_eq!(buf, expected);
    assert_eq!(PIPE_NAME_BASE, r"\\.\PIPE\Everything IPC");
}

#[test]
fn named_instance_pipe_name() {
    let mut buf = Vec::new();
    assert!(get_pipe_name(&mut buf, "1.5a"));
    let mut expected = units(r"\\.\PIPE\Everything IPC (1.5a)");
    expected.push(0);
    assert_eq!(buf, expected);
    assert_eq!(buf.len(), 31);
}

#[test]
fn pipe_name_is_appended() {
    let mut buf = vec![7u16, 8u16];
    assert!(get_pipe_name(&mut buf, ""));
    assert_eq!(&buf[..2], &[7u16, 8u16]);
    assert_eq!(buf.len(), 2 + units(r"\\.\PIPE\Everything IPC").len() + 1);
    assert_eq!(*buf.last().unwrap(), 0);
}

#[test]
fn pipe_name_encodes_utf16_surrogates() {
    let mut buf = Vec::new();
    assert!(get_pipe_name(&mut buf, "é😀"));
    let base = units(r"\\.\PIPE\Everything IPC");
    let tail = &buf[base.len()..];
    assert_eq!(tail, &[0x20, 0x28, 0xE9, 0xD83D, 0xDE00, 0x29, 0]);
}
