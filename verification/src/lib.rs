//! Point-to-point, request/response inter-process communication over POSIX
//! named pipes.
//!
//! The crate holds the rendezvous-and-framing protocol: how a client and a
//! server agree on a pair of private, collision-free pipe paths, and how
//! arbitrary-length structured messages are delimited and reassembled over a
//! byte stream.  Everything here is plain computation on values; the blocking
//! pipe I/O itself lives with the caller, which feeds the bytes it read into
//! the decoders below and writes the bytes the encoders produce.

pub mod error;
pub mod frame;
pub mod interval;
pub mod message;
pub mod paths;
pub mod session;

pub use error::IpcError;
