//! Client side of the named-pipe IPC protocol spoken by the Everything 1.5 search service.
//!
//! The library holds the protocol's logic: the pipe name, the wire header, the mapping of
//! response codes to errors, and the state machines that drive a connection and a request
//! through overlapped pipe I/O. The caller performs each I/O action the machines ask for and
//! hands the outcome back.

pub mod client;
pub mod connect;
pub mod error;
pub mod handle;
pub mod pipe_name;
pub mod request;
pub mod transfer;
pub mod wire;

pub use client::EverythingClient;
pub use error::IpcError;
pub use handle::Handle;
pub use pipe_name::get_pipe_name;
pub use wire::Message;
