//! A bidirectional message transport between two cooperating processes.
//!
//! A message is a byte payload of bounded size that may carry one operating
//! system resource handle. This crate holds the rules of that transport: what
//! is handed to the operating system for each operation, how each answer of
//! the operating system is judged, and the typed request/response encoding
//! layered on top. The system calls themselves are made by the embedding
//! program, which feeds their plain results to the functions found here.
//!
//! - [`messagepipe`] is the capability every transport offers.
//! - [`linux`] is the transport over a connected socket that keeps message
//!   boundaries and passes handles as ancillary data.
//! - [`windows`] is the transport over two one-way byte channels, with
//!   length-prefixed frames and handles handed over to a named peer.
//! - [`ipc`] carries typed requests and responses over any transport, in the
//!   byte layout of [`wire`].

pub mod error;
pub mod ipc;
pub mod linux;
pub mod messagepipe;
pub mod windows;
pub mod wire;

pub use error::{CodecFault, PipeError, RecvCause, SendCause};
pub use ipc::{IPCMessagePipe, IPCRequest, IPCResponse, ResponseVerdict, IPC_MESSAGE_MAX_SIZE};
pub use messagepipe::CrossPlatformMessagePipe;
pub use wire::{ByteOrder, WireFormat};
