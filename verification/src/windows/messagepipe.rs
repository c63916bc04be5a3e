//! One endpoint of a pair of one-way byte channels.
//!
//! A byte channel keeps no message boundaries, so every message travels as a
//! frame: a header that gives the payload's length and the handle that comes
//! with it, then the payload. A handle can only be handed over to a process
//! that is known, so the peer has to be named before a message with a handle
//! is sent. This module decides what the endpoints of a pair are made of,
//! what a frame looks like and what received bytes mean; reading and writing
//! are done by the embedding program.

use vstd::prelude::*;
use vstd::slice::slice_subrange;
use crate::error::{PipeError, RecvCause, SendCause};
use crate::ipc::IPC_MESSAGE_MAX_SIZE;
use crate::wire::{
    decode_tagged, decoded_tagged, encode_tagged, lemma_decoded_inverts_encoding,
    lemma_tagged_len, tagged_bytes, ByteOrder, WireFormat, TAGGED_LEN,
};

verus! {

/// The length of a frame's header: the tagged pair of payload length and
/// handle value, then one byte that says whether a handle is there.
pub const HEADER_LEN: usize = 13;

/// The call that creates one of the two byte channels.
#[derive(Debug, Clone, Copy, PartialEq, Eq, Structural)]
pub struct PipeCall {
    /// The size of the channel's buffer: room for one message of the bound.
    pub capacity: u32,
}

/// What the operating system answered to a `PipeCall`.
#[derive(Debug, Clone, Copy, PartialEq, Eq, Structural)]
pub struct PipeReply {
    /// The call's return value; zero on failure.
    pub ret: i32,
    /// The error code that goes with a failure.
    pub code: i32,
    /// The handles of the channel's two ends.
    pub read: u64,
    pub write: u64,
}

/// The two ends of one byte channel.
#[derive(Debug, Clone, Copy, PartialEq, Eq, Structural)]
pub struct PipeEnds {
    pub read: u64,
    pub write: u64,
}

/// What the creation of a pair comes to: the two endpoints or the failure,
/// and the handles that have to be closed because no endpoint owns them.
#[derive(Debug)]
pub struct PairVerdict {
    pub result: Result<(OSMessagePipe, OSMessagePipe), PipeError>,
    pub close: Vec<u64>,
}

/// A handle to be made available to the peer before its value is sent.
#[derive(Debug, Clone, Copy, PartialEq, Eq, Structural)]
pub struct HandleTransfer {
    /// The handle as this process knows it.
    pub handle: u64,
    /// The process that is to receive it.
    pub remote_pid: u64,
}

/// What a frame's header says.
#[derive(Debug, Clone, Copy, PartialEq, Eq, Structural)]
pub struct FrameHeader {
    /// The number of payload bytes that follow the header.
    pub payload_len: u32,
    /// The handle that comes with the message, as the receiver knows it.
    pub handle: Option<u64>,
}

/// What the operating system answered to one read or write call.
#[derive(Debug, Clone, Copy, PartialEq, Eq, Structural)]
pub struct TransferReply {
    /// The call's return value; zero on failure.
    pub ret: i32,
    /// The error code that goes with a failure.
    pub code: i32,
    /// The number of bytes the call read or wrote.
    pub moved: u32,
}

/// Where the reading of one part of a frame stands after a read call.
#[derive(Debug, Clone, Copy, PartialEq, Eq, Structural)]
pub enum ReadStep {
    /// More is to come: read again, into the buffer from `filled` on.
    Again { filled: usize },
    /// Reading is over with `filled` bytes in the buffer; `failure` is the
    /// error code of the call that ended it early, if one did.
    Done { filled: usize, failure: Option<i32> },
}

/// What a receive comes to: what the caller gets, and the handle that has to
/// be closed before the caller gets it.
#[derive(Debug)]
pub struct RecvVerdict {
    pub result: Result<(Vec<u8>, Option<u64>), PipeError>,
    pub close: Option<u64>,
}

/// What an endpoint consists of.
pub struct EndpointState {
    /// The end this endpoint reads from.
    pub read_handle: u64,
    /// The end this endpoint writes to.
    pub write_handle: u64,
    /// The peer process, once it has been made known.
    pub remote_pid: Option<u64>,
}

/// The header of a frame: the payload's length and the handle's value, zero
/// if there is none, as a tagged pair, then one byte that is one if there is
/// a handle and zero if not.
pub open spec fn header_bytes(header: FrameHeader, order: ByteOrder) -> Seq<u8> {
    match header.handle {
        Some(value) => tagged_bytes(header.payload_len, value, order) + seq![1u8],
        None => tagged_bytes(header.payload_len, 0, order) + seq![0u8],
    }
}

/// The frame a message travels as: its header, then its payload.
pub open spec fn frame_bytes(message: Seq<u8>, handle: Option<u64>, order: ByteOrder) -> Seq<u8> {
    header_bytes(FrameHeader { payload_len: message.len() as u32, handle }, order) + message
}

/// Where reading stands when `filled` of `wanted` bytes were there and a
/// call answered `reply`: a failed call or one that brought nothing ends the
/// reading with what is there, and otherwise reading goes on until `wanted`
/// bytes are there.
pub open spec fn read_step(wanted: usize, filled: usize, reply: TransferReply) -> ReadStep {
    if reply.ret == 0 {
        ReadStep::Done { filled, failure: Some(reply.code) }
    } else if reply.moved == 0 {
        ReadStep::Done { filled, failure: None }
    } else if filled + reply.moved >= wanted {
        ReadStep::Done { filled: wanted, failure: None }
    } else {
        ReadStep::Again { filled: (filled + reply.moved) as usize }
    }
}

/// What received header bytes mean, `failure` being the error code of the
/// call that ended the reading early, if one did. No bytes and a failure are
/// a receive error with that code; fewer or more bytes than a header has are
/// `TruncatedHandleData`; a presence byte other than zero and one, or a
/// handle value without a handle, is a malformed frame; a payload length
/// beyond the message bound is an oversized frame.
pub open spec fn parsed_header(bytes: Seq<u8>, failure: Option<i32>, order: ByteOrder) -> Result<
    FrameHeader,
    PipeError,
> {
    if bytes.len() == 0 && failure is Some {
        Err(PipeError::Recv { cause: RecvCause::Os { code: failure->0 } })
    } else if bytes.len() != HEADER_LEN {
        Err(PipeError::TruncatedHandleData)
    } else {
        let pair = decoded_tagged(
            bytes.subrange(0, TAGGED_LEN as int),
            WireFormat { order, limit: TAGGED_LEN },
        )->0;
        let presence = bytes[TAGGED_LEN as int];
        if presence > 1 || (presence == 0 && pair.1 != 0) {
            Err(PipeError::Recv { cause: RecvCause::MalformedFrame })
        } else if pair.0 > IPC_MESSAGE_MAX_SIZE {
            Err(PipeError::Recv { cause: RecvCause::OversizedFrame { len: pair.0 as u64 } })
        } else {
            Ok(
                FrameHeader {
                    payload_len: pair.0,
                    handle: if presence == 1 {
                        Some(pair.1)
                    } else {
                        None
                    },
                },
            )
        }
    }
}

/// What a header and the payload bytes read after it mean: the message, if
/// the payload is as long as the header says, and `TruncatedMessage` if not.
pub open spec fn recv_outcome(header: FrameHeader, payload: Seq<u8>) -> Result<
    (Seq<u8>, Option<u64>),
    PipeError,
> {
    if payload.len() == header.payload_len {
        Ok((payload, header.handle))
    } else {
        Err(PipeError::TruncatedMessage)
    }
}

/// What has to happen before a message of `len` bytes with `handle` is sent
/// from an endpoint in `state`. A handle is refused with
/// `RemoteIdentityNotSet` as long as no peer is known, and a payload beyond
/// the message bound with `MessageTooLarge`. Otherwise a handle has to be
/// handed over to the peer process first, and a message without one needs
/// nothing.
pub open spec fn send_plan(state: EndpointState, len: usize, handle: Option<u64>) -> Result<
    Option<HandleTransfer>,
    PipeError,
> {
    if handle is Some && state.remote_pid is None {
        Err(PipeError::RemoteIdentityNotSet)
    } else if len > IPC_MESSAGE_MAX_SIZE {
        Err(PipeError::Send { cause: SendCause::MessageTooLarge { len } })
    } else {
        match handle {
            Some(value) => Ok(
                Some(HandleTransfer { handle: value, remote_pid: state.remote_pid->0 }),
            ),
            None => Ok(None),
        }
    }
}

/// What importing raw handle values gives: the read end and the write end,
/// if there are exactly two values.
pub open spec fn imported(handles: Seq<u64>) -> Result<EndpointState, PipeError> {
    if handles.len() != 2 {
        Err(PipeError::InvalidHandleCount { given: handles.len() as usize, expected: 2 })
    } else {
        Ok(EndpointState { read_handle: handles[0], write_handle: handles[1], remote_pid: None })
    }
}

impl RecvVerdict {
    /// Whether this verdict hands the caller `outcome`.
    pub open spec fn gives(self, outcome: Result<(Seq<u8>, Option<u64>), PipeError>) -> bool {
        match (self.result, outcome) {
            (Ok(got), Ok(expected)) => got.0@ == expected.0 && got.1 == expected.1,
            (Err(got), Err(expected)) => got == expected,
            _ => false,
        }
    }
}

/// One endpoint: the read end of one channel and the write end of the
/// other, and the peer process once it is known.
#[derive(Debug)]
pub struct OSMessagePipe {
    read_handle: u64,
    write_handle: u64,
    remote_pid: Option<u64>,
}

impl View for OSMessagePipe {
    type V = EndpointState;

    closed spec fn view(&self) -> EndpointState {
        EndpointState {
            read_handle: self.read_handle,
            write_handle: self.write_handle,
            remote_pid: self.remote_pid,
        }
    }
}

impl OSMessagePipe {
    /// The handle this endpoint reads from.
    pub fn read_handle(&self) -> (handle: u64)
        ensures
            handle == self@.read_handle,
    {
        self.read_handle
    }

    /// The handle this endpoint writes to.
    pub fn write_handle(&self) -> (handle: u64)
        ensures
            handle == self@.write_handle,
    {
        self.write_handle
    }

    /// The peer process, if it has been made known.
    pub fn remote_pid(&self) -> (pid: Option<u64>)
        ensures
            pid == self@.remote_pid,
    {
        self.remote_pid
    }

    /// The raw handle values of this endpoint: the read end, then the write
    /// end.
    pub fn as_handles(&self) -> (handles: Vec<u64>)
        ensures
            handles@ == seq![self@.read_handle, self@.write_handle],
    {
        let mut handles: Vec<u64> = Vec::new();
        handles.push(self.read_handle);
        handles.push(self.write_handle);
        handles
    }

    /// Rebuilds an endpoint from raw handle values; its peer is not known.
    ///
    /// Any number of values other than two is refused with
    /// `InvalidHandleCount`.
    pub fn from_raw_handles(handles: Vec<u64>) -> (r: Result<OSMessagePipe, PipeError>)
        ensures
            handles@.len() != 2 ==> r == Err::<OSMessagePipe, PipeError>(
                PipeError::InvalidHandleCount { given: handles@.len() as usize, expected: 2 },
            ),
            imported(handles@) matches Ok(state) ==> (r matches Ok(pipe) && pipe@ == state),
            imported(handles@) matches Err(e) ==> r == Err::<OSMessagePipe, PipeError>(e),
    {
        if handles.len() != 2 {
            return Err(PipeError::InvalidHandleCount { given: handles.len(), expected: 2 });
        }
        Ok(OSMessagePipe { read_handle: handles[0], write_handle: handles[1], remote_pid: None })
    }

    /// Records the peer process, to which handles are handed from now on.
    pub fn set_remote_pid(&mut self, pid: u64)
        ensures
            final(self)@ == (EndpointState { remote_pid: Some(pid), ..old(self)@ }),
    {
        self.remote_pid = Some(pid);
    }

    /// The call that creates each of the two channels: a buffer as large as
    /// the message bound.
    pub fn plan_pipe() -> (call: PipeCall)
        ensures
            call.capacity == IPC_MESSAGE_MAX_SIZE,
    {
        PipeCall { capacity: IPC_MESSAGE_MAX_SIZE as u32 }
    }

    /// What the answer to the first `PipeCall` means: the channel's ends, or
    /// `TransportSetup` with the error code when the call returned zero.
    pub fn first_pipe(reply: PipeReply) -> (r: Result<PipeEnds, PipeError>)
        ensures
            reply.ret == 0 ==> r == Err::<PipeEnds, PipeError>(
                PipeError::TransportSetup { code: reply.code },
            ),
            reply.ret != 0 ==> r == Ok::<PipeEnds, PipeError>(
                PipeEnds { read: reply.read, write: reply.write },
            ),
    {
        if reply.ret == 0 {
            Err(PipeError::TransportSetup { code: reply.code })
        } else {
            Ok(PipeEnds { read: reply.read, write: reply.write })
        }
    }

    /// What creating a pair gives its caller, from the ends of the first
    /// channel and what the operating system answered to the second
    /// `PipeCall`.
    ///
    /// When the second call failed, the result is `TransportSetup` with the
    /// error code and both ends of the first channel are to be closed. When
    /// it succeeded, each endpoint gets the write end of one channel and the
    /// read end of the other, so that what one endpoint writes the other
    /// reads; no peer is known yet and nothing is to be closed.
    pub fn new(first: PipeEnds, reply: PipeReply) -> (verdict: PairVerdict)
        ensures
            reply.ret == 0 ==> verdict.result == Err::<(OSMessagePipe, OSMessagePipe), PipeError>(
                PipeError::TransportSetup { code: reply.code },
            ) && verdict.close@ == seq![first.read, first.write],
            reply.ret != 0 ==> verdict.close@ == Seq::<u64>::empty() && (verdict.result matches Ok(
                pair,
            ) && pair.0@ == (EndpointState {
                read_handle: reply.read,
                write_handle: first.write,
                remote_pid: None,
            }) && pair.1@ == (EndpointState {
                read_handle: first.read,
                write_handle: reply.write,
                remote_pid: None,
            })),
    {
        let mut close: Vec<u64> = Vec::new();
        if reply.ret == 0 {
            close.push(first.read);
            close.push(first.write);
            return PairVerdict {
                result: Err(PipeError::TransportSetup { code: reply.code }),
                close,
            };
        }
        let near = OSMessagePipe {
            read_handle: reply.read,
            write_handle: first.write,
            remote_pid: None,
        };
        let far = OSMessagePipe {
            read_handle: first.read,
            write_handle: reply.write,
            remote_pid: None,
        };
        PairVerdict { result: Ok((near, far)), close }
    }

    /// What has to happen before a message of `len` bytes with `handle` is
    /// sent, as `send_plan` states it.
    pub fn plan_send(&self, len: usize, handle: Option<u64>) -> (r: Result<
        Option<HandleTransfer>,
        PipeError,
    >)
        ensures
            r == send_plan(self@, len, handle),
    {
        let transfer: Option<HandleTransfer> = match handle {
            None => None,
            Some(value) => match self.remote_pid {
                None => {
                    return Err(PipeError::RemoteIdentityNotSet);
                },
                Some(pid) => Some(HandleTransfer { handle: value, remote_pid: pid }),
            },
        };
        if len as u64 > IPC_MESSAGE_MAX_SIZE {
            return Err(PipeError::Send { cause: SendCause::MessageTooLarge { len } });
        }
        Ok(transfer)
    }

    /// The bytes to write for a message: its frame. `remote_handle` is the
    /// handle as the peer knows it, after it was handed over.
    ///
    /// A payload beyond the message bound is refused with `MessageTooLarge`.
    pub fn frame(message: &[u8], remote_handle: Option<u64>, order: ByteOrder) -> (r: Result<
        Vec<u8>,
        PipeError,
    >)
        ensures
            message@.len() > IPC_MESSAGE_MAX_SIZE ==> r == Err::<Vec<u8>, PipeError>(
                PipeError::Send { cause: SendCause::MessageTooLarge { len: message@.len() as usize } },
            ),
            message@.len() <= IPC_MESSAGE_MAX_SIZE ==> (r matches Ok(bytes) && bytes@
                == frame_bytes(message@, remote_handle, order)),
    {
        if message.len() as u64 > IPC_MESSAGE_MAX_SIZE {
            return Err(PipeError::Send { cause: SendCause::MessageTooLarge { len: message.len() } });
        }
        let format = WireFormat { order, limit: TAGGED_LEN };
        let payload_len: u32 = message.len() as u32;
        let (slot, presence): (u64, u8) = match remote_handle {
            Some(value) => (value, 1),
            None => (0, 0),
        };
        let mut bytes: Vec<u8> = encode_tagged(payload_len, slot, &format)?;
        bytes.push(presence);
        let mut at: usize = 0;
        while at < message.len()
            invariant
                at <= message@.len(),
                bytes@ == header_bytes(FrameHeader { payload_len, handle: remote_handle }, order)
                    + message@.subrange(0, at as int),
            decreases message@.len() - at,
        {
            bytes.push(message[at]);
            at += 1;
        }
        assert(message@.subrange(0, at as int) == message@);
        Ok(bytes)
    }

    /// Where the reading of `wanted` bytes stands before the first call:
    /// there is nothing to read for when nothing is wanted.
    pub fn begin_read(wanted: usize) -> (step: ReadStep)
        ensures
            wanted == 0 ==> step == (ReadStep::Done { filled: 0, failure: None }),
            wanted > 0 ==> step == (ReadStep::Again { filled: 0 }),
    {
        if wanted == 0 {
            ReadStep::Done { filled: 0, failure: None }
        } else {
            ReadStep::Again { filled: 0 }
        }
    }

    /// Where the reading of `wanted` bytes stands after a read call, as
    /// `read_step` states it. Reading that goes on has come closer to its
    /// end.
    pub fn after_read(wanted: usize, filled: usize, reply: TransferReply) -> (step: ReadStep)
        ensures
            step == read_step(wanted, filled, reply),
            step is Again ==> filled < step->Again_filled < wanted,
    {
        if reply.ret == 0 {
            return ReadStep::Done { filled, failure: Some(reply.code) };
        }
        if reply.moved == 0 {
            return ReadStep::Done { filled, failure: None };
        }
        if filled >= wanted || reply.moved as usize >= wanted - filled {
            return ReadStep::Done { filled: wanted, failure: None };
        }
        ReadStep::Again { filled: filled + reply.moved as usize }
    }

    /// What sending gives its caller, from what the operating system
    /// answered to the one call that writes the frame: a return value of
    /// zero is a send error with the error code, and a frame that was not
    /// taken whole is a send error that says how much was taken.
    pub fn send(frame_len: usize, reply: TransferReply) -> (r: Result<(), PipeError>)
        ensures
            reply.ret == 0 ==> r == Err::<(), PipeError>(
                PipeError::Send { cause: SendCause::Os { code: reply.code } },
            ),
            reply.ret != 0 && reply.moved != frame_len ==> r == Err::<(), PipeError>(
                PipeError::Send { cause: SendCause::Incomplete { written: reply.moved as usize } },
            ),
            reply.ret != 0 && reply.moved == frame_len ==> r is Ok,
    {
        if reply.ret == 0 {
            return Err(PipeError::Send { cause: SendCause::Os { code: reply.code } });
        }
        if reply.moved as usize != frame_len {
            return Err(
                PipeError::Send { cause: SendCause::Incomplete { written: reply.moved as usize } },
            );
        }
        Ok(())
    }

    /// What the bytes read as a header mean, as `parsed_header` states it.
    pub fn parse_header(bytes: &[u8], failure: Option<i32>, order: ByteOrder) -> (r: Result<
        FrameHeader,
        PipeError,
    >)
        ensures
            r == parsed_header(bytes@, failure, order),
    {
        if bytes.len() == 0 {
            if let Some(code) = failure {
                return Err(PipeError::Recv { cause: RecvCause::Os { code } });
            }
        }
        if bytes.len() != HEADER_LEN {
            return Err(PipeError::TruncatedHandleData);
        }
        let format = WireFormat { order, limit: TAGGED_LEN };
        let pair: (u32, u64) = match decode_tagged(slice_subrange(bytes, 0, 12), &format) {
            Ok(pair) => pair,
            Err(e) => {
                return Err(e);
            },
        };
        let presence: u8 = bytes[12];
        if presence > 1 || (presence == 0 && pair.1 != 0) {
            return Err(PipeError::Recv { cause: RecvCause::MalformedFrame });
        }
        if pair.0 as u64 > IPC_MESSAGE_MAX_SIZE {
            return Err(PipeError::Recv { cause: RecvCause::OversizedFrame { len: pair.0 as u64 } });
        }
        Ok(
            FrameHeader {
                payload_len: pair.0,
                handle: if presence == 1 {
                    Some(pair.1)
                } else {
                    None
                },
            },
        )
    }

    /// What receiving gives its caller, from the header and the payload
    /// bytes read after it: the message or the failure, as `recv_outcome`
    /// states it, and the handle to close first, which is the one the header
    /// brought when the payload did not arrive whole.
    pub fn recv(header: FrameHeader, payload: Vec<u8>) -> (verdict: RecvVerdict)
        ensures
            verdict.gives(recv_outcome(header, payload@)),
            verdict.close == (if recv_outcome(header, payload@) is Err {
                header.handle
            } else {
                None
            }),
    {
        if payload.len() != header.payload_len as usize {
            return RecvVerdict { result: Err(PipeError::TruncatedMessage), close: header.handle };
        }
        RecvVerdict { result: Ok((payload, header.handle)), close: None }
    }
}

/// Exporting and importing are inverse, but for the peer, which does not
/// travel with the handles: the handles of an endpoint import to an endpoint
/// with the same two ends and no known peer.
pub proof fn lemma_import_inverts_export(state: EndpointState)
    ensures
        imported(seq![state.read_handle, state.write_handle]) == Ok::<EndpointState, PipeError>(
            EndpointState { remote_pid: None, ..state },
        ),
{
}

/// Framing round trip: the first thirteen bytes of a frame parse to the
/// header that names the payload's length and the handle, and the bytes
/// after them are the payload, which that header accepts.
pub proof fn lemma_frame_round_trip(message: Seq<u8>, handle: Option<u64>, order: ByteOrder)
    requires
        message.len() <= IPC_MESSAGE_MAX_SIZE,
    ensures
        frame_bytes(message, handle, order).len() == HEADER_LEN + message.len(),
        parsed_header(
            frame_bytes(message, handle, order).subrange(0, HEADER_LEN as int),
            None,
            order,
        ) == Ok::<FrameHeader, PipeError>(
            FrameHeader { payload_len: message.len() as u32, handle },
        ),
        frame_bytes(message, handle, order).subrange(
            HEADER_LEN as int,
            HEADER_LEN + message.len(),
        ) == message,
        recv_outcome(FrameHeader { payload_len: message.len() as u32, handle }, message) == Ok::<
            (Seq<u8>, Option<u64>),
            PipeError,
        >((message, handle)),
{
    let header = FrameHeader { payload_len: message.len() as u32, handle };
    let slot: u64 = match handle {
        Some(value) => value,
        None => 0,
    };
    let format = WireFormat { order, limit: TAGGED_LEN };
    let frame = frame_bytes(message, handle, order);
    lemma_tagged_len(header.payload_len, slot, order);
    lemma_decoded_inverts_encoding(header.payload_len, slot, format);
    let head = frame.subrange(0, HEADER_LEN as int);
    assert(head == header_bytes(header, order));
    assert(head.subrange(0, TAGGED_LEN as int) == tagged_bytes(header.payload_len, slot, order));
    assert(frame.subrange(HEADER_LEN as int, HEADER_LEN + message.len()) == message);
}

/// A cut payload leaves no handle behind: when fewer bytes arrive than the
/// header announces, the caller is given `TruncatedMessage` and the handle
/// the header brought, if it brought one, is named for closing.
pub proof fn lemma_cut_payload_leaves_no_handle(header: FrameHeader, payload: Seq<u8>)
    requires
        payload.len() < header.payload_len,
    ensures
        recv_outcome(header, payload) == Err::<(Seq<u8>, Option<u64>), PipeError>(
            PipeError::TruncatedMessage,
        ),
{
}

} // verus!
