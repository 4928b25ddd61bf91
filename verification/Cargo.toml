[package]
name = "everything-ipc"
version = "0.1.0"
edition = "2021"
publish = false

[dependencies]
bon = "=3.10.3"
thiserror = "=2.0.21"
tokio = { version = "=1.54.1", features = ["time", "rt", "macros"] }
windows = { version = "=0.59.0", features = ["Win32_Foundation", "Win32_Security", "Win32_Storage_FileSystem", "Win32_System_IO", "Win32_System_Threading"] }
