use vstd::prelude::*;

verus! {

/// Failure taxonomy of the IPC core.
///
/// `ResourceCreationError` reports that a named pipe could not be created on
/// the filesystem; it is fatal for that attempt.  `IoError` reports an
/// open/read/write failure on an already-established pipe, confined to the
/// session in progress.  `DecodeError` reports payload bytes that do not
/// match the message schema; the session should be abandoned.
/// `UnexpectedEof` reports that the peer closed before a full frame arrived.
#[derive(Debug, Clone, Copy, PartialEq, Eq, Structural)]
pub enum IpcError {
    ResourceCreationError,
    IoError,
    DecodeError,
    UnexpectedEof,
}

} // verus!
