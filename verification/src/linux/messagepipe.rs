//! One endpoint of a connected, message-preserving socket pair.
//!
//! A message is one datagram. A handle travels beside it as a single
//! ancillary entry tagged as carrying resource rights, and is absent from the
//! datagram when the message has none. This module decides what each system
//! call is given and what its answer means; the calls themselves are made by
//! the embedding program, which passes their plain results in.

use vstd::prelude::*;
use crate::error::{PipeError, RecvCause, SendCause};
use crate::ipc::IPC_MESSAGE_MAX_SIZE;

verus! {

/// `libc::AF_UNIX`, the address family of local sockets. Its value belongs to
/// the platform; nothing is claimed of it.
#[verifier::external_body]
fn af_unix() -> i32 {
    libc::AF_UNIX
}

/// `libc::SOCK_SEQPACKET`, the socket type that is connected and keeps
/// message boundaries. Nothing is claimed of its value.
#[verifier::external_body]
fn sock_seqpacket() -> i32 {
    libc::SOCK_SEQPACKET
}

/// `libc::SOL_SOCKET`, the level of socket-wide ancillary data. Nothing is
/// claimed of its value.
#[verifier::external_body]
fn sol_socket() -> i32 {
    libc::SOL_SOCKET
}

/// `libc::SCM_RIGHTS`, the type of an ancillary entry that carries
/// descriptors. Nothing is claimed of its value.
#[verifier::external_body]
fn scm_rights() -> i32 {
    libc::SCM_RIGHTS
}

/// `libc::MSG_CTRUNC`, the flag that reports cut ancillary data. Nothing is
/// claimed of its value.
#[verifier::external_body]
fn msg_ctrunc() -> i32 {
    libc::MSG_CTRUNC
}

/// `libc::MSG_TRUNC`, the flag that reports a cut payload. Nothing is claimed
/// of its value.
#[verifier::external_body]
fn msg_trunc() -> i32 {
    libc::MSG_TRUNC
}

/// `libc::MSG_NOSIGNAL`, the flag that turns the signal for a closed peer
/// into an error return. Nothing is claimed of its value.
#[verifier::external_body]
fn msg_nosignal() -> i32 {
    libc::MSG_NOSIGNAL
}

/// `libc::MSG_CMSG_CLOEXEC`, the flag that marks received descriptors as
/// closed on exec. Nothing is claimed of its value.
#[verifier::external_body]
fn msg_cmsg_cloexec() -> i32 {
    libc::MSG_CMSG_CLOEXEC
}

/// `libc::MSG_WAITALL`, the flag that makes a receive wait for the whole
/// request. Nothing is claimed of its value.
#[verifier::external_body]
fn msg_waitall() -> i32 {
    libc::MSG_WAITALL
}

/// `libc::POLLHUP`, the event that reports a peer that has hung up. Nothing
/// is claimed of its value.
#[verifier::external_body]
fn pollhup() -> i16 {
    libc::POLLHUP
}

/// The numbers by which the platform names what this transport uses.
///
/// Every rule below is stated, and proved, for any such numbers; `native`
/// gives those of the platform the program is built for.
#[derive(Debug, Clone, Copy, PartialEq, Eq, Structural)]
pub struct SocketAbi {
    /// The address family of local sockets.
    pub local_family: i32,
    /// The socket type that is connected and keeps message boundaries.
    pub sequenced_packets: i32,
    /// The level of the ancillary entry that carries resource rights.
    pub rights_level: i32,
    /// The type of the ancillary entry that carries resource rights.
    pub rights_type: i32,
    /// The flag set on a received message whose ancillary data was cut.
    pub control_truncated: i32,
    /// The flag set on a received message whose payload was cut.
    pub payload_truncated: i32,
    /// The flag that asks for an error return, not a signal, on a closed peer.
    pub no_signal: i32,
    /// The flag that marks received handles as not inherited by programs
    /// started later.
    pub close_on_exec: i32,
    /// The flag that makes a receive block until the message is whole.
    pub wait_all: i32,
    /// The event by which a peer check reports that the peer has closed.
    pub hang_up: i16,
}

impl SocketAbi {
    /// The numbers of the platform the program is built for.
    pub fn native() -> SocketAbi {
        SocketAbi {
            local_family: af_unix(),
            sequenced_packets: sock_seqpacket(),
            rights_level: sol_socket(),
            rights_type: scm_rights(),
            control_truncated: msg_ctrunc(),
            payload_truncated: msg_trunc(),
            no_signal: msg_nosignal(),
            close_on_exec: msg_cmsg_cloexec(),
            wait_all: msg_waitall(),
            hang_up: pollhup(),
        }
    }
}

/// The call that creates a connected pair.
#[derive(Debug, Clone, Copy, PartialEq, Eq, Structural)]
pub struct PairCall {
    pub family: i32,
    pub kind: i32,
    pub protocol: i32,
}

/// What the operating system answered to a `PairCall`.
#[derive(Debug, Clone, Copy, PartialEq, Eq, Structural)]
pub struct PairReply {
    /// The call's return value; negative on failure.
    pub ret: i32,
    /// The error code that goes with a failure.
    pub errno: i32,
    /// The two descriptors the call filled in.
    pub first: i32,
    pub second: i32,
}

/// The ancillary entry that hands over one descriptor.
#[derive(Debug, Clone, Copy, PartialEq, Eq, Structural)]
pub struct RightsEntry {
    pub level: i32,
    pub kind: i32,
    pub descriptor: i32,
}

/// What a call that sends one message is given, besides the socket and the
/// payload.
#[derive(Debug, Clone, Copy, PartialEq, Eq, Structural)]
pub struct SendCall {
    /// The one ancillary entry to attach; `None` means that no ancillary
    /// data is attached at all, not an empty buffer.
    pub rights: Option<RightsEntry>,
    pub flags: i32,
}

/// What a call that receives one message is given, besides the socket.
#[derive(Debug, Clone, Copy, PartialEq, Eq, Structural)]
pub struct RecvCall {
    /// The size of the payload buffer to provide.
    pub payload_capacity: usize,
    /// The number of handles the ancillary buffer must have room for.
    pub handle_capacity: usize,
    pub flags: i32,
}

/// The call that asks, without waiting and without awaiting any event,
/// what has happened to the socket's peer.
#[derive(Debug, Clone, Copy, PartialEq, Eq, Structural)]
pub struct PeerCall {
    /// The events to wait for: none, since a closed peer is always reported.
    pub events: i16,
    /// The time to wait, in milliseconds: none.
    pub timeout: i32,
}

/// The ancillary data found with a received message.
#[derive(Debug, PartialEq, Eq)]
pub enum ControlData {
    /// No ancillary data came with the message.
    Absent,
    /// Ancillary data is announced, but no entry can be read from it.
    Unreadable,
    /// The first entry, with its data read as descriptors: as many as the
    /// entry's length says it holds.
    Entry { level: i32, kind: i32, values: Vec<i32> },
}

/// What the operating system answered to a `RecvCall`.
#[derive(Debug)]
pub struct RecvReply {
    /// The call's return value: the payload's length, or negative on failure.
    pub ret: isize,
    /// The error code that goes with a failure.
    pub errno: i32,
    pub control: ControlData,
    /// The flags the operating system set on the message.
    pub flags: i32,
    /// The payload buffer as the call left it.
    pub buffer: Vec<u8>,
    /// The events the peer check reported after the call, and zero where no
    /// check was made.
    pub peer_events: i16,
}

/// What a receive comes to: what the caller gets, and the descriptors that
/// have to be closed before the caller gets it.
#[derive(Debug)]
pub struct RecvVerdict {
    pub result: Result<(Vec<u8>, Option<u64>), PipeError>,
    pub close: Vec<i32>,
}

/// The payload a reply holds: the part of the buffer the call filled.
pub open spec fn received_payload(reply: RecvReply) -> Seq<u8> {
    if 0 <= reply.ret <= reply.buffer@.len() {
        reply.buffer@.subrange(0, reply.ret as int)
    } else {
        reply.buffer@
    }
}

/// What is wrong with the ancillary data of a reply, if anything: data that
/// cannot be read, or whose first entry is not tagged as resource rights, is
/// a receive error.
pub open spec fn control_fault(reply: RecvReply, abi: SocketAbi) -> Option<PipeError> {
    match reply.control {
        ControlData::Absent => None,
        ControlData::Unreadable => Some(
            PipeError::Recv { cause: RecvCause::MissingControlHeader },
        ),
        ControlData::Entry { level, kind, .. } => if level == abi.rights_level && kind
            == abi.rights_type {
            None
        } else {
            Some(PipeError::Recv { cause: RecvCause::UnexpectedControl { level, kind } })
        },
    }
}

/// The descriptors that arrived with a reply and are now open in this
/// process: the values of a rights entry of a call that did not fail.
pub open spec fn arrived_descriptors(reply: RecvReply, abi: SocketAbi) -> Seq<i32> {
    match reply.control {
        ControlData::Entry { level, kind, values } => if reply.ret >= 0 && level
            == abi.rights_level && kind == abi.rights_type {
            values@
        } else {
            Seq::empty()
        },
        _ => Seq::empty(),
    }
}

/// Whether a reply reports the end of the stream: nothing was received, no
/// ancillary data came, and the peer check found the peer closed. Without
/// the peer check such a reply cannot be told from an empty message; with
/// it, an empty message without a handle reads as the closure only if its
/// sender has closed by the time of the check.
pub open spec fn reports_closure(reply: RecvReply, abi: SocketAbi) -> bool {
    reply.ret == 0 && reply.control is Absent && reply.peer_events & abi.hang_up != 0
}

/// What a reply means for the caller. In this order: a failed call is a
/// receive error with its code; ancillary data that cannot be read or is not
/// tagged as resource rights is a receive error; cut ancillary data is
/// `TruncatedHandleData`; a cut payload is `TruncatedMessage`; the end of
/// the stream is a receive error that reports the closure; a first
/// descriptor that is negative is a receive error; and otherwise the message
/// is the filled part of the buffer with the first descriptor that arrived,
/// if one did.
pub open spec fn recv_outcome(reply: RecvReply, abi: SocketAbi) -> Result<
    (Seq<u8>, Option<u64>),
    PipeError,
> {
    let arrived = arrived_descriptors(reply, abi);
    if reply.ret < 0 {
        Err(PipeError::Recv { cause: RecvCause::Os { code: reply.errno } })
    } else if control_fault(reply, abi) is Some {
        Err(control_fault(reply, abi)->0)
    } else if reply.flags & abi.control_truncated != 0 {
        Err(PipeError::TruncatedHandleData)
    } else if reply.flags & abi.payload_truncated != 0 {
        Err(PipeError::TruncatedMessage)
    } else if reports_closure(reply, abi) {
        Err(PipeError::Recv { cause: RecvCause::Closed })
    } else if arrived.len() == 0 {
        Ok((received_payload(reply), None))
    } else if arrived[0] < 0 {
        Err(PipeError::Recv { cause: RecvCause::InvalidDescriptor { value: arrived[0] } })
    } else {
        Ok((received_payload(reply), Some(arrived[0] as u64)))
    }
}

/// The descriptor that is handed to the caller, if the caller is given a
/// message with a handle.
pub open spec fn handed_descriptor(reply: RecvReply, abi: SocketAbi) -> Seq<i32> {
    match recv_outcome(reply, abi) {
        Ok(received) => match received.1 {
            Some(value) => seq![value as i32],
            None => Seq::empty(),
        },
        Err(_) => Seq::empty(),
    }
}

/// The descriptors to close after a reply: all that arrived, but for the one
/// that is handed to the caller.
pub open spec fn descriptors_to_close(reply: RecvReply, abi: SocketAbi) -> Seq<i32> {
    if handed_descriptor(reply, abi).len() > 0 {
        arrived_descriptors(reply, abi).drop_first()
    } else {
        arrived_descriptors(reply, abi)
    }
}

impl RecvVerdict {
    /// Whether this verdict hands the caller `outcome`.
    pub open spec fn gives(self, outcome: Result<(Seq<u8>, Option<u64>), PipeError>) -> bool {
        match (self.result, outcome) {
            (Ok(got), Ok(expected)) => got.0@ == expected.0 && got.1 == expected.1,
            (Err(got), Err(expected)) => got == expected,
            _ => false,
        }
    }
}

/// What sending a message with `handle` asks of the operating system: one
/// rights entry for the handle's descriptor if there is a handle, no
/// ancillary data if there is none, and never a signal. A handle that does
/// not fit a descriptor is refused.
pub open spec fn send_call(handle: Option<u64>, abi: SocketAbi) -> Result<SendCall, PipeError> {
    match handle {
        None => Ok(SendCall { rights: None, flags: abi.no_signal }),
        Some(value) => if value <= i32::MAX {
            Ok(
                SendCall {
                    rights: Some(
                        RightsEntry {
                            level: abi.rights_level,
                            kind: abi.rights_type,
                            descriptor: value as i32,
                        },
                    ),
                    flags: abi.no_signal,
                },
            )
        } else {
            Err(PipeError::InvalidHandle { value })
        },
    }
}

/// What importing raw handle values gives: the one value, if there is
/// exactly one and it fits a descriptor.
pub open spec fn imported(handles: Seq<u64>) -> Result<u64, PipeError> {
    if handles.len() != 1 {
        Err(PipeError::InvalidHandleCount { given: handles.len() as usize, expected: 1 })
    } else if handles[0] > i32::MAX {
        Err(PipeError::InvalidHandle { value: handles[0] })
    } else {
        Ok(handles[0])
    }
}

/// A message planned by `send_call` has arrived whole: the call returned the
/// payload's length, the buffer starts with the payload, neither truncation
/// flag is set, the reply does not report the end of the stream, and the
/// ancillary data is a rights entry with one open descriptor exactly when
/// the sender attached one.
pub open spec fn arrived_whole(message: Seq<u8>, call: SendCall, reply: RecvReply, abi: SocketAbi) -> bool {
    &&& reply.ret == message.len()
    &&& message.len() <= reply.buffer@.len()
    &&& reply.buffer@.subrange(0, message.len() as int) == message
    &&& reply.flags & abi.control_truncated == 0
    &&& reply.flags & abi.payload_truncated == 0
    &&& !reports_closure(reply, abi)
    &&& match call.rights {
        None => reply.control is Absent,
        Some(entry) => reply.control matches ControlData::Entry { level, kind, values } && level
            == entry.level && kind == entry.kind && values@.len() == 1 && values@[0] >= 0,
    }
}

/// Round trip, as far as it is this library's part: when the operating
/// system delivers whole what `send_call` asked it to send, the receiver is
/// given exactly the payload, with no handle if none was sent and with the
/// descriptor that arrived if one was; and nothing is closed.
pub proof fn lemma_whole_message_is_returned(
    message: Seq<u8>,
    handle: Option<u64>,
    reply: RecvReply,
    abi: SocketAbi,
)
    requires
        send_call(handle, abi) matches Ok(call) && arrived_whole(message, call, reply, abi),
    ensures
        recv_outcome(reply, abi) matches Ok(received) && received.0 == message && (handle is None
            ==> received.1 is None) && (handle is Some ==> received.1 is Some
            && arrived_descriptors(reply, abi) == seq![received.1->0 as i32]),
        descriptors_to_close(reply, abi) == Seq::<i32>::empty(),
{
    let arrived = arrived_descriptors(reply, abi);
    if handle is Some {
        assert(arrived =~= seq![arrived[0]]);
        assert(arrived.drop_first() =~= Seq::<i32>::empty());
    }
}

/// No handle is lost and none is owned twice: the descriptors that arrived
/// are the one handed to the caller, if one is, followed by those named for
/// closing. Nothing else is handed out or closed.
pub proof fn lemma_arrived_handles_accounted(reply: RecvReply, abi: SocketAbi)
    ensures
        arrived_descriptors(reply, abi) == handed_descriptor(reply, abi) + descriptors_to_close(
            reply,
            abi,
        ),
        recv_outcome(reply, abi) is Err ==> handed_descriptor(reply, abi) == Seq::<i32>::empty(),
{
    let arrived = arrived_descriptors(reply, abi);
    if handed_descriptor(reply, abi).len() > 0 {
        assert(arrived =~= seq![arrived[0]] + arrived.drop_first());
    } else {
        assert(arrived =~= Seq::<i32>::empty() + arrived);
    }
}

/// Truncation: when a call that did not fail brings acceptable ancillary data
/// and reports cut ancillary data or a cut payload, the caller is given
/// `TruncatedHandleData` or `TruncatedMessage`, and every descriptor that
/// arrived is named for closing.
pub proof fn lemma_truncation_leaves_no_handle(reply: RecvReply, abi: SocketAbi)
    requires
        reply.ret >= 0,
        control_fault(reply, abi) is None,
        reply.flags & abi.control_truncated != 0 || reply.flags & abi.payload_truncated != 0,
    ensures
        reply.flags & abi.control_truncated != 0 ==> recv_outcome(reply, abi) == Err::<
            (Seq<u8>, Option<u64>),
            PipeError,
        >(PipeError::TruncatedHandleData),
        reply.flags & abi.control_truncated == 0 ==> recv_outcome(reply, abi) == Err::<
            (Seq<u8>, Option<u64>),
            PipeError,
        >(PipeError::TruncatedMessage),
        descriptors_to_close(reply, abi) == arrived_descriptors(reply, abi),
{
}

/// Closure: a reply of a call that did not fail, with no ancillary data and
/// no truncation, that reports the end of the stream is a receive error that
/// says so, with nothing handed out and nothing to close. As the reply of
/// every later call on a closed channel is the same, so is the error.
pub proof fn lemma_closed_peer_is_an_error(reply: RecvReply, abi: SocketAbi)
    requires
        reports_closure(reply, abi),
        reply.flags & abi.control_truncated == 0,
        reply.flags & abi.payload_truncated == 0,
    ensures
        recv_outcome(reply, abi) == Err::<(Seq<u8>, Option<u64>), PipeError>(
            PipeError::Recv { cause: RecvCause::Closed },
        ),
        descriptors_to_close(reply, abi) == Seq::<i32>::empty(),
{
}

/// Exporting and importing are inverse: the handles of an endpoint import to
/// that endpoint's value, and handles that import are the export of what
/// they import to.
pub proof fn lemma_import_inverts_export(value: u64, handles: Seq<u64>)
    ensures
        value <= i32::MAX ==> imported(seq![value]) == Ok::<u64, PipeError>(value),
        imported(handles) matches Ok(found) ==> handles == seq![found],
{
    if imported(handles) is Ok {
        assert(handles =~= seq![handles[0]]);
    }
}

/// One endpoint: the descriptor of its socket.
///
/// The endpoint stands for the ownership of that descriptor. It is handed
/// out as a raw value by `as_handles` and taken back by `from_raw_handles`.
#[derive(Debug)]
pub struct OSMessagePipe {
    file_descriptor: i32,
}

impl View for OSMessagePipe {
    type V = u64;

    /// The endpoint's one raw handle value.
    closed spec fn view(&self) -> u64 {
        self.file_descriptor as u64
    }
}

impl OSMessagePipe {
    #[verifier::type_invariant]
    spec fn valid(self) -> bool {
        self.file_descriptor >= 0
    }

    /// The socket's descriptor, for the system calls made on it.
    pub fn descriptor(&self) -> (fd: i32)
        ensures
            fd >= 0,
            fd as u64 == self@,
    {
        proof {
            use_type_invariant(self);
        }
        self.file_descriptor
    }

    /// The raw handle values of this endpoint: its one descriptor.
    pub fn as_handles(&self) -> (handles: Vec<u64>)
        ensures
            handles@ == seq![self@],
            imported(handles@) == Ok::<u64, PipeError>(self@),
    {
        proof {
            use_type_invariant(self);
        }
        let mut handles: Vec<u64> = Vec::new();
        handles.push(self.file_descriptor as u64);
        handles
    }

    /// Rebuilds an endpoint from raw handle values.
    ///
    /// Any number of values other than one is refused with
    /// `InvalidHandleCount`, and a value that fits no descriptor with
    /// `InvalidHandle`.
    pub fn from_raw_handles(handles: Vec<u64>) -> (r: Result<OSMessagePipe, PipeError>)
        ensures
            handles@.len() != 1 ==> r == Err::<OSMessagePipe, PipeError>(
                PipeError::InvalidHandleCount { given: handles@.len() as usize, expected: 1 },
            ),
            imported(handles@) matches Ok(value) ==> (r matches Ok(pipe) && pipe@ == value),
            imported(handles@) matches Err(e) ==> r == Err::<OSMessagePipe, PipeError>(e),
    {
        if handles.len() != 1 {
            return Err(PipeError::InvalidHandleCount { given: handles.len(), expected: 1 });
        }
        let value: u64 = handles[0];
        if value > i32::MAX as u64 {
            return Err(PipeError::InvalidHandle { value });
        }
        Ok(OSMessagePipe { file_descriptor: value as i32 })
    }

    /// The call that creates a connected pair: local sockets that keep
    /// message boundaries, default protocol.
    pub fn plan_pair(abi: &SocketAbi) -> (call: PairCall)
        ensures
            call == (PairCall {
                family: abi.local_family,
                kind: abi.sequenced_packets,
                protocol: 0,
            }),
    {
        PairCall { family: abi.local_family, kind: abi.sequenced_packets, protocol: 0 }
    }

    /// What creating a pair gives its caller, from what the operating system
    /// answered to the `PairCall`: the two endpoints, or `TransportSetup`
    /// with the reply's error code when the call failed or gave no two
    /// descriptors.
    pub fn new(reply: PairReply) -> (r: Result<(OSMessagePipe, OSMessagePipe), PipeError>)
        ensures
            r is Ok <==> reply.ret >= 0 && reply.first >= 0 && reply.second >= 0,
            r matches Ok(pair) ==> pair.0@ == reply.first as u64 && pair.1@ == reply.second as u64,
            r is Err ==> r == Err::<(OSMessagePipe, OSMessagePipe), PipeError>(
                PipeError::TransportSetup { code: reply.errno },
            ),
    {
        if reply.ret < 0 || reply.first < 0 || reply.second < 0 {
            return Err(PipeError::TransportSetup { code: reply.errno });
        }
        Ok(
            (
                OSMessagePipe { file_descriptor: reply.first },
                OSMessagePipe { file_descriptor: reply.second },
            ),
        )
    }

    /// Does nothing: a descriptor is passed over this transport without
    /// naming the process that receives it.
    pub fn set_remote_pid(&mut self, pid: u64)
        ensures
            final(self)@ == old(self)@,
    {
    }

    /// What the call that sends a message with `handle` is given, as
    /// `send_call` states it.
    pub fn plan_send(handle: Option<u64>, abi: &SocketAbi) -> (r: Result<SendCall, PipeError>)
        ensures
            r == send_call(handle, *abi),
    {
        match handle {
            None => Ok(SendCall { rights: None, flags: abi.no_signal }),
            Some(value) => {
                if value > i32::MAX as u64 {
                    return Err(PipeError::InvalidHandle { value });
                }
                Ok(
                    SendCall {
                        rights: Some(
                            RightsEntry {
                                level: abi.rights_level,
                                kind: abi.rights_type,
                                descriptor: value as i32,
                            },
                        ),
                        flags: abi.no_signal,
                    },
                )
            },
        }
    }

    /// What sending gives its caller, from what the operating system
    /// answered to the `SendCall`: a negative return value is a send error
    /// with the error code, anything else is success.
    pub fn send(ret: isize, errno: i32) -> (r: Result<(), PipeError>)
        ensures
            ret < 0 ==> r == Err::<(), PipeError>(
                PipeError::Send { cause: SendCause::Os { code: errno } },
            ),
            ret >= 0 ==> r is Ok,
    {
        if ret < 0 {
            Err(PipeError::Send { cause: SendCause::Os { code: errno } })
        } else {
            Ok(())
        }
    }

    /// What the call that receives a message is given: a payload buffer of
    /// the message bound, room for exactly one handle whether or not one
    /// comes, no signal, the whole message or nothing, and any handle that
    /// arrives marked as closed on exec.
    pub fn plan_recv(abi: &SocketAbi) -> (call: RecvCall)
        ensures
            call.payload_capacity == IPC_MESSAGE_MAX_SIZE,
            call.handle_capacity == 1,
            call.flags == abi.no_signal | abi.close_on_exec | abi.wait_all,
            call.flags & abi.close_on_exec == abi.close_on_exec,
            call.flags & abi.no_signal == abi.no_signal,
            call.flags & abi.wait_all == abi.wait_all,
    {
        let a: i32 = abi.no_signal;
        let b: i32 = abi.close_on_exec;
        let c: i32 = abi.wait_all;
        assert((a | b | c) & a == a && (a | b | c) & b == b && (a | b | c) & c == c)
            by (bit_vector);
        RecvCall {
            payload_capacity: IPC_MESSAGE_MAX_SIZE as usize,
            handle_capacity: 1,
            flags: a | b | c,
        }
    }

    /// Whether the peer has to be asked about after a receive call that
    /// returned `ret`, and how: a call that received nothing may have met
    /// the end of the stream, and only the peer check can tell.
    pub fn plan_peer_check(ret: isize) -> (call: Option<PeerCall>)
        ensures
            ret == 0 ==> call == Some(PeerCall { events: 0, timeout: 0 }),
            ret != 0 ==> call is None,
    {
        if ret == 0 {
            Some(PeerCall { events: 0, timeout: 0 })
        } else {
            None
        }
    }

    /// The number of descriptors to read out of an ancillary entry: as many
    /// values of `width` bytes as lie whole between the entry's head of
    /// `head_len` bytes and its end, which is its own length `entry_len` or
    /// the `filled` part of the ancillary buffer, whichever is less. None of
    /// them lies beyond the filled part.
    pub fn descriptors_held(entry_len: usize, filled: usize, head_len: usize, width: usize) -> (n:
        usize)
        ensures
            width == 0 || entry_len <= head_len || filled <= head_len ==> n == 0,
            width > 0 && entry_len > head_len && filled > head_len ==> n == ((if entry_len
                <= filled {
                entry_len
            } else {
                filled
            }) - head_len) / (width as int),
            n > 0 ==> head_len + n * width <= filled,
    {
        if width == 0 || entry_len <= head_len || filled <= head_len {
            return 0;
        }
        let end: usize = if entry_len <= filled {
            entry_len
        } else {
            filled
        };
        let room: usize = end - head_len;
        let n: usize = room / width;
        assert(n * width <= room) by (nonlinear_arith)
            requires
                width > 0,
                n == room / width,
        ;
        n
    }

    /// What receiving gives its caller, from what the operating system
    /// answered to the `RecvCall` and to the peer check: the message or the
    /// failure, as `recv_outcome` states it, and the descriptors to close
    /// first, which are all that arrived but for the one the caller gets.
    pub fn recv(reply: RecvReply, abi: &SocketAbi) -> (verdict: RecvVerdict)
        ensures
            verdict.gives(recv_outcome(reply, *abi)),
            verdict.close@ == descriptors_to_close(reply, *abi),
    {
        let RecvReply { ret, errno, control, flags, buffer, peer_events } = reply;
        if ret < 0 {
            return RecvVerdict {
                result: Err(PipeError::Recv { cause: RecvCause::Os { code: errno } }),
                close: Vec::new(),
            };
        }
        let mut bare: bool = false;
        let mut arrived: Vec<i32> = match control {
            ControlData::Absent => {
                bare = true;
                Vec::new()
            },
            ControlData::Unreadable => {
                return RecvVerdict {
                    result: Err(PipeError::Recv { cause: RecvCause::MissingControlHeader }),
                    close: Vec::new(),
                };
            },
            ControlData::Entry { level, kind, values } => {
                if level != abi.rights_level || kind != abi.rights_type {
                    return RecvVerdict {
                        result: Err(
                            PipeError::Recv { cause: RecvCause::UnexpectedControl { level, kind } },
                        ),
                        close: Vec::new(),
                    };
                }
                values
            },
        };
        if flags & abi.control_truncated != 0 {
            return RecvVerdict { result: Err(PipeError::TruncatedHandleData), close: arrived };
        }
        if flags & abi.payload_truncated != 0 {
            return RecvVerdict { result: Err(PipeError::TruncatedMessage), close: arrived };
        }
        if ret == 0 && bare && peer_events & abi.hang_up != 0 {
            return RecvVerdict {
                result: Err(PipeError::Recv { cause: RecvCause::Closed }),
                close: arrived,
            };
        }
        let mut payload: Vec<u8> = buffer;
        if arrived.len() == 0 {
            payload.truncate(ret as usize);
            return RecvVerdict { result: Ok((payload, None)), close: arrived };
        }
        let first: i32 = arrived[0];
        if first < 0 {
            return RecvVerdict {
                result: Err(PipeError::Recv { cause: RecvCause::InvalidDescriptor { value: first } }),
                close: arrived,
            };
        }
        arrived.remove(0);
        assert(arrived@ == arrived_descriptors(reply, *abi).drop_first());
        payload.truncate(ret as usize);
        RecvVerdict { result: Ok((payload, Some(first as u64))), close: arrived }
    }
}

} // verus!
