//! The parts of the virtual file system interface that the runtime logic reads.

use vstd::prelude::*;

verus! {

/// How a standard stream of a spawned process is connected.
#[derive(Debug, Copy, Clone, PartialEq, Eq, Structural)]
pub enum StdioMode {
    Piped,
    Inherit,
    Null,
    Log,
}

/// Errors of file system operations.
#[derive(Debug, Copy, Clone, PartialEq, Eq, Structural)]
pub enum FsError {
    BaseNotDirectory,
    NotAFile,
    InvalidFd,
    AlreadyExists,
    Lock,
    IOError,
    AddressInUse,
    AddressNotAvailable,
    BrokenPipe,
    ConnectionAborted,
    ConnectionRefused,
    ConnectionReset,
    Interrupted,
    InvalidData,
    InvalidInput,
    NotConnected,
    EntityNotFound,
    NoDevice,
    PermissionDenied,
    TimedOut,
    UnexpectedEof,
    WouldBlock,
    WriteZero,
    DirectoryNotEmpty,
    UnknownError,
}

/// A file handed to a process, implemented by the embedder.
pub trait VirtualFile {
    fn last_accessed(&self) -> u64;

    fn last_modified(&self) -> u64;

    fn created_time(&self) -> u64;

    fn size(&self) -> u64;

    fn set_len(&mut self, new_size: u64) -> Result<(), FsError>;

    fn unlink(&mut self) -> Result<(), FsError>;

    fn bytes_available(&self) -> Result<usize, FsError>;

    fn bytes_available_read(&self) -> Result<Option<usize>, FsError>;

    fn bytes_available_write(&self) -> Result<Option<usize>, FsError>;

    fn is_open(&self) -> bool;
}

} // verus!
