use vstd::prelude::*;

verus! {

/// `std::io::Error`, carried opaquely by [`IpcError::Io`].
#[verifier::external_type_specification]
#[verifier::external_body]
pub struct ExIoError(std::io::Error);

/// Error type for Everything IPC operations.
#[derive(Debug)]
pub enum IpcError {
    /// out of memory
    OutOfMemory,
    /// IPC pipe not found
    PipeNotFound,
    /// pipe is busy
    PipeBusy,
    /// connection disconnected
    Disconnected,
    /// invalid parameter
    InvalidParameter,
    /// bad request
    BadRequest,
    /// cancelled
    Cancelled,
    /// property not found
    PropertyNotFound,
    /// server error
    Server,
    /// invalid command
    InvalidCommand,
    /// bad response
    BadResponse,
    /// insufficient buffer
    InsufficientBuffer,
    /// shutdown
    Shutdown,
    /// io error
    Io(std::io::Error),
}

} // verus!
