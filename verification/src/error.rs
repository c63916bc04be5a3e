//! The failures a message pipe reports.

use vstd::prelude::*;

verus! {

/// Why a message could not be handed to the channel.
#[derive(Debug, Clone, Copy, PartialEq, Eq)]
pub enum SendCause {
    /// The operating system refused the transmission with this error code.
    Os { code: i32 },
    /// The payload is longer than the channel can carry in one message.
    MessageTooLarge { len: usize },
    /// The channel took only the first `written` bytes of the message.
    Incomplete { written: usize },
}

/// Why nothing usable was received.
#[derive(Debug, Clone, Copy, PartialEq, Eq)]
pub enum RecvCause {
    /// The operating system reported this error code instead of a message.
    Os { code: i32 },
    /// The peer has closed the channel: no message will come any more.
    Closed,
    /// Ancillary data was announced but holds no readable entry.
    MissingControlHeader,
    /// The ancillary entry is not tagged as carrying resource rights.
    UnexpectedControl { level: i32, kind: i32 },
    /// The ancillary entry carries a value that names no descriptor.
    InvalidDescriptor { value: i32 },
    /// A frame header announces a payload beyond the message bound.
    OversizedFrame { len: u64 },
    /// A frame header is not laid out as the framing demands.
    MalformedFrame,
}

/// What went wrong in encoding or decoding a typed value.
#[derive(Debug, PartialEq, Eq)]
pub enum CodecFault {
    /// The serializer refused; `text` is its own account of why.
    Rejected { text: String },
    /// The encoding is longer than the format allows.
    SizeLimit,
    /// The bytes are well formed but carry a tag outside the catalog.
    UnknownTag { tag: u32 },
}

/// Every failure is returned as one of these values; none is fatal to the
/// process, and only those that report a broken channel are fatal to the
/// channel.
#[derive(Debug, PartialEq, Eq)]
#[allow(inconsistent_fields)]
pub enum PipeError {
    /// The pair of connected endpoints could not be created.
    TransportSetup { code: i32 },
    /// The message was not sent.
    Send { cause: SendCause },
    /// No message was received.
    Recv { cause: RecvCause },
    /// The payload did not arrive whole.
    TruncatedMessage,
    /// The data that carries a handle did not arrive whole.
    TruncatedHandleData,
    /// An endpoint was to be rebuilt from the wrong number of raw handles.
    InvalidHandleCount { given: usize, expected: usize },
    /// A raw handle value cannot name a resource on this transport.
    InvalidHandle { value: u64 },
    /// A handle was to be sent before the peer process was made known.
    RemoteIdentityNotSet,
    /// A typed value could not be encoded.
    Encode { detail: CodecFault },
    /// Received bytes are not the encoding of a typed value.
    Decode { detail: CodecFault },
}

} // verus!
