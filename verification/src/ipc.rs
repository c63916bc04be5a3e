//! Typed requests and responses on top of any message pipe.
//!
//! A typed value travels as one message: the tag of its variant and the
//! variant's field, as fixed-width integers in the byte order of the machine.
//! Decoding is strict: bytes that are not exactly one encoded value of the
//! catalog, or that exceed the message bound, are refused with an error.

use vstd::prelude::*;
use crate::error::{CodecFault, PipeError};
use crate::messagepipe::CrossPlatformMessagePipe;
use crate::wire::{
    decode_tagged, decoded_tagged, encode_tagged, lemma_decoded_inverts_encoding,
    lemma_trailing_bytes_rejected, tagged_bytes, ByteOrder, WireFormat, TAGGED_LEN,
};

verus! {

/// The largest message, in bytes, that a pipe carries and that is encoded or
/// decoded. Larger data has to travel by other means, such as shared memory.
pub const IPC_MESSAGE_MAX_SIZE: u64 = 1 * 1024 * 1024;

/// What a worker asks of its broker.
#[derive(Debug, Clone, Copy, PartialEq, Eq, Structural)]
pub enum IPCRequest {
    /// The worker could not start the program it was meant to run.
    ReportFailedExecve { errno: u64 },
}

/// What a broker answers.
#[derive(Debug, Clone, Copy, PartialEq, Eq, Structural)]
pub enum IPCResponse {
    /// No request is answered yet; this variant keeps the wire form in use.
    Unused { errno: u64 },
}

impl IPCRequest {
    /// The number that names the variant on the wire.
    pub open spec fn tag(self) -> u32 {
        match self {
            IPCRequest::ReportFailedExecve { .. } => 0,
        }
    }

    /// The variant's field.
    pub open spec fn field(self) -> u64 {
        match self {
            IPCRequest::ReportFailedExecve { errno } => errno,
        }
    }

    /// The request with this tag and field, if the catalog has that tag.
    pub open spec fn with_tag(tag: u32, field: u64) -> Option<IPCRequest> {
        if tag == 0 {
            Some(IPCRequest::ReportFailedExecve { errno: field })
        } else {
            None
        }
    }

    /// The bytes this request travels as.
    pub open spec fn wire(self, order: ByteOrder) -> Seq<u8> {
        tagged_bytes(self.tag(), self.field(), order)
    }

    /// The request that `bytes` encode, if they are exactly the wire form of
    /// a request of the catalog and within the format's limit.
    pub open spec fn decoded(bytes: Seq<u8>, format: WireFormat) -> Option<IPCRequest> {
        match decoded_tagged(bytes, format) {
            Some(pair) => IPCRequest::with_tag(pair.0, pair.1),
            None => None,
        }
    }

    /// Encodes the request.
    ///
    /// Fails, with `Encode`, exactly when the encoding would exceed the
    /// format's limit.
    pub fn encode(&self, format: &WireFormat) -> (r: Result<Vec<u8>, PipeError>)
        ensures
            r is Ok <==> self.wire(format.order).len() <= format.limit,
            r is Ok <==> TAGGED_LEN <= format.limit,
            r matches Ok(bytes) ==> bytes@ == self.wire(format.order),
            r is Err ==> r matches Err(PipeError::Encode { detail: CodecFault::Rejected { .. } }),
    {
        match self {
            IPCRequest::ReportFailedExecve { errno } => encode_tagged(0, *errno, format),
        }
    }

    /// Decodes a request from exactly its wire form.
    ///
    /// Bytes over the limit are refused as `SizeLimit`, a well-formed value
    /// with a tag outside the catalog as `UnknownTag`, anything else that is
    /// not one whole encoded value as `Rejected`.
    pub fn decode(bytes: &[u8], format: &WireFormat) -> (r: Result<IPCRequest, PipeError>)
        ensures
            r is Ok <==> IPCRequest::decoded(bytes@, *format) is Some,
            r matches Ok(request) ==> IPCRequest::decoded(bytes@, *format) == Some(request)
                && bytes@ == request.wire(format.order),
            r matches Err(e) ==> e is Decode,
            bytes@.len() > format.limit ==> r == Err::<IPCRequest, PipeError>(
                PipeError::Decode { detail: CodecFault::SizeLimit },
            ),
            decoded_tagged(bytes@, *format) matches Some(pair) ==> pair.0 != 0 ==> r == Err::<
                IPCRequest,
                PipeError,
            >(PipeError::Decode { detail: CodecFault::UnknownTag { tag: pair.0 } }),
            bytes@.len() <= format.limit && decoded_tagged(bytes@, *format) is None ==> r
                matches Err(PipeError::Decode { detail: CodecFault::Rejected { .. } }),
    {
        let (tag, field): (u32, u64) = decode_tagged(bytes, format)?;
        if tag == 0 {
            Ok(IPCRequest::ReportFailedExecve { errno: field })
        } else {
            Err(PipeError::Decode { detail: CodecFault::UnknownTag { tag } })
        }
    }
}

impl IPCResponse {
    /// The number that names the variant on the wire.
    pub open spec fn tag(self) -> u32 {
        match self {
            IPCResponse::Unused { .. } => 0,
        }
    }

    /// The variant's field.
    pub open spec fn field(self) -> u64 {
        match self {
            IPCResponse::Unused { errno } => errno,
        }
    }

    /// The response with this tag and field, if the catalog has that tag.
    pub open spec fn with_tag(tag: u32, field: u64) -> Option<IPCResponse> {
        if tag == 0 {
            Some(IPCResponse::Unused { errno: field })
        } else {
            None
        }
    }

    /// The bytes this response travels as.
    pub open spec fn wire(self, order: ByteOrder) -> Seq<u8> {
        tagged_bytes(self.tag(), self.field(), order)
    }

    /// The response that `bytes` encode, if they are exactly the wire form of
    /// a response of the catalog and within the format's limit.
    pub open spec fn decoded(bytes: Seq<u8>, format: WireFormat) -> Option<IPCResponse> {
        match decoded_tagged(bytes, format) {
            Some(pair) => IPCResponse::with_tag(pair.0, pair.1),
            None => None,
        }
    }

    /// Encodes the response.
    ///
    /// Fails, with `Encode`, exactly when the encoding would exceed the
    /// format's limit.
    pub fn encode(&self, format: &WireFormat) -> (r: Result<Vec<u8>, PipeError>)
        ensures
            r is Ok <==> self.wire(format.order).len() <= format.limit,
            r is Ok <==> TAGGED_LEN <= format.limit,
            r matches Ok(bytes) ==> bytes@ == self.wire(format.order),
            r is Err ==> r matches Err(PipeError::Encode { detail: CodecFault::Rejected { .. } }),
    {
        match self {
            IPCResponse::Unused { errno } => encode_tagged(0, *errno, format),
        }
    }

    /// Decodes a response from exactly its wire form.
    ///
    /// Bytes over the limit are refused as `SizeLimit`, a well-formed value
    /// with a tag outside the catalog as `UnknownTag`, anything else that is
    /// not one whole encoded value as `Rejected`.
    pub fn decode(bytes: &[u8], format: &WireFormat) -> (r: Result<IPCResponse, PipeError>)
        ensures
            r is Ok <==> IPCResponse::decoded(bytes@, *format) is Some,
            r matches Ok(response) ==> IPCResponse::decoded(bytes@, *format) == Some(response)
                && bytes@ == response.wire(format.order),
            r matches Err(e) ==> e is Decode,
            bytes@.len() > format.limit ==> r == Err::<IPCResponse, PipeError>(
                PipeError::Decode { detail: CodecFault::SizeLimit },
            ),
            decoded_tagged(bytes@, *format) matches Some(pair) ==> pair.0 != 0 ==> r == Err::<
                IPCResponse,
                PipeError,
            >(PipeError::Decode { detail: CodecFault::UnknownTag { tag: pair.0 } }),
            bytes@.len() <= format.limit && decoded_tagged(bytes@, *format) is None ==> r
                matches Err(PipeError::Decode { detail: CodecFault::Rejected { .. } }),
    {
        let (tag, field): (u32, u64) = decode_tagged(bytes, format)?;
        if tag == 0 {
            Ok(IPCResponse::Unused { errno: field })
        } else {
            Err(PipeError::Decode { detail: CodecFault::UnknownTag { tag } })
        }
    }
}

impl WireFormat {
    /// The format typed messages travel in: the byte order of this machine
    /// and the message bound as limit.
    pub fn native() -> (format: WireFormat)
        ensures
            format.limit == IPC_MESSAGE_MAX_SIZE,
    {
        WireFormat { order: ByteOrder::native(), limit: IPC_MESSAGE_MAX_SIZE }
    }
}

/// Round trip: a request whose encoding is within the limit decodes to
/// itself.
pub proof fn lemma_request_round_trip(request: IPCRequest, format: WireFormat)
    requires
        request.wire(format.order).len() <= format.limit,
    ensures
        IPCRequest::decoded(request.wire(format.order), format) == Some(request),
{
    lemma_decoded_inverts_encoding(request.tag(), request.field(), format);
}

/// Round trip: a response whose encoding is within the limit decodes to
/// itself.
pub proof fn lemma_response_round_trip(response: IPCResponse, format: WireFormat)
    requires
        response.wire(format.order).len() <= format.limit,
    ensures
        IPCResponse::decoded(response.wire(format.order), format) == Some(response),
{
    lemma_decoded_inverts_encoding(response.tag(), response.field(), format);
}

/// Strict decoding of requests: an encoded request followed by one or more
/// further bytes decodes to nothing, and so do bytes beyond the limit; an
/// encoded request of exactly the limit's length decodes.
pub proof fn lemma_request_strict_decode(request: IPCRequest, extra: Seq<u8>, format: WireFormat)
    ensures
        extra.len() > 0 ==> IPCRequest::decoded(request.wire(format.order) + extra, format) is None,
        request.wire(format.order).len() == format.limit ==> IPCRequest::decoded(
            request.wire(format.order),
            format,
        ) == Some(request),
        request.wire(format.order).len() > format.limit ==> IPCRequest::decoded(
            request.wire(format.order),
            format,
        ) is None,
{
    if extra.len() > 0 {
        lemma_trailing_bytes_rejected(request.tag(), request.field(), extra, format);
    }
    if request.wire(format.order).len() == format.limit {
        lemma_request_round_trip(request, format);
    }
}

/// Strict decoding of responses: an encoded response followed by one or more
/// further bytes decodes to nothing, and so do bytes beyond the limit; an
/// encoded response of exactly the limit's length decodes.
pub proof fn lemma_response_strict_decode(
    response: IPCResponse,
    extra: Seq<u8>,
    format: WireFormat,
)
    ensures
        extra.len() > 0 ==> IPCResponse::decoded(response.wire(format.order) + extra, format)
            is None,
        response.wire(format.order).len() == format.limit ==> IPCResponse::decoded(
            response.wire(format.order),
            format,
        ) == Some(response),
        response.wire(format.order).len() > format.limit ==> IPCResponse::decoded(
            response.wire(format.order),
            format,
        ) is None,
{
    if extra.len() > 0 {
        lemma_trailing_bytes_rejected(response.tag(), response.field(), extra, format);
    }
    if response.wire(format.order).len() == format.limit {
        lemma_response_round_trip(response, format);
    }
}

/// What is handed to the pipe for a request: its encoding and no handle.
///
/// Fails, with `Encode`, exactly when the encoding would exceed the format's
/// limit.
pub fn outgoing_message(request: &IPCRequest, format: &WireFormat) -> (r: Result<
    (Vec<u8>, Option<u64>),
    PipeError,
>)
    ensures
        r is Ok <==> request.wire(format.order).len() <= format.limit,
        r matches Ok(message) ==> message.0@ == request.wire(format.order) && message.1 is None,
        r matches Err(e) ==> e is Encode,
{
    let bytes = request.encode(format)?;
    Ok((bytes, None))
}

/// What a typed receive comes to: the response or the failure, and the
/// handle that has to be closed.
///
/// No typed message carries a handle. One that comes with a message all the
/// same is not handed on, whether the message decodes or not: it is named
/// here, to be closed by whoever owns the transport.
#[derive(Debug)]
pub struct ResponseVerdict {
    pub result: Result<IPCResponse, PipeError>,
    pub close: Option<u64>,
}

/// Whether `verdict` is what the typed layer makes of what the pipe
/// received: a failure of the pipe is passed on unchanged, and a message is
/// decoded strictly as a response, or refused with `Decode`. A handle that
/// came with the message is named for closing in either case.
pub open spec fn response_from(
    received: Result<(Vec<u8>, Option<u64>), PipeError>,
    format: WireFormat,
    verdict: ResponseVerdict,
) -> bool {
    match received {
        Err(e) => verdict.result == Err::<IPCResponse, PipeError>(e) && verdict.close is None,
        Ok(message) => verdict.close == message.1 && match IPCResponse::decoded(
            message.0@,
            format,
        ) {
            Some(response) => verdict.result == Ok::<IPCResponse, PipeError>(response),
            None => verdict.result matches Err(PipeError::Decode { .. }),
        },
    }
}

/// What the typed layer makes of what the pipe received, as `response_from`
/// states it.
pub fn incoming_response(
    received: Result<(Vec<u8>, Option<u64>), PipeError>,
    format: &WireFormat,
) -> (verdict: ResponseVerdict)
    ensures
        response_from(received, *format, verdict),
        received matches Ok(message) ==> verdict.close == message.1,
        received is Err ==> verdict.close is None,
{
    match received {
        Err(e) => ResponseVerdict { result: Err(e), close: None },
        Ok((bytes, handle)) => ResponseVerdict {
            result: IPCResponse::decode(bytes.as_slice(), format),
            close: handle,
        },
    }
}

/// A pipe that carries typed requests one way and typed responses back.
pub struct IPCMessagePipe<P: CrossPlatformMessagePipe> {
    pipe: P,
    format: WireFormat,
}

impl<P: CrossPlatformMessagePipe> IPCMessagePipe<P> {
    /// The format this pipe encodes and decodes in.
    pub closed spec fn format(&self) -> WireFormat {
        self.format
    }

    /// The transport underneath.
    pub closed spec fn transport(&self) -> P {
        self.pipe
    }

    /// Wraps one endpoint of a transport. Messages travel in the byte order
    /// of this machine and are bounded by `IPC_MESSAGE_MAX_SIZE`.
    pub fn new(pipe: P) -> (r: Self)
        ensures
            r.transport() == pipe,
            r.format().limit == IPC_MESSAGE_MAX_SIZE,
    {
        Self { pipe, format: WireFormat::native() }
    }

    /// Encodes `request` and sends it as one message without a handle.
    ///
    /// A request whose encoding exceeds the limit is refused with `Encode`
    /// and the transport is left alone. Otherwise the transport is given the
    /// encoding and no handle, and its answer is returned as it is.
    pub fn send(&mut self, request: &IPCRequest) -> (r: Result<(), PipeError>)
        ensures
            final(self).format() == old(self).format(),
            request.wire(old(self).format().order).len() > old(self).format().limit ==> (r
                matches Err(PipeError::Encode { .. }) && final(self).transport() == old(
                self,
            ).transport()),
            request.wire(old(self).format().order).len() <= old(self).format().limit ==> old(
                self,
            ).transport().send_yields(
                request.wire(old(self).format().order),
                None,
                final(self).transport(),
                r,
            ),
    {
        let (bytes, handle) = outgoing_message(request, &self.format)?;
        self.pipe.send(bytes.as_slice(), handle)
    }

    /// Receives one message and decodes it as a response.
    ///
    /// The verdict is what `response_from` makes of what the transport
    /// received: the response or the failure, and the handle that came with
    /// the message, which is to be closed.
    pub fn recv(&mut self) -> (verdict: ResponseVerdict)
        ensures
            final(self).format() == old(self).format(),
            exists|received: Result<(Vec<u8>, Option<u64>), PipeError>|
                old(self).transport().recv_yields(final(self).transport(), received)
                    && response_from(received, old(self).format(), verdict),
    {
        let received = self.pipe.recv();
        incoming_response(received, &self.format)
    }
}

} // verus!
