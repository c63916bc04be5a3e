use std::cell::RefCell;
use std::collections::VecDeque;
use std::rc::Rc;

use bincode::Options;
use serde::ser::SerializeStructVariant;

use ipc_pipe::wire::{decode_tagged, encode_tagged, ByteOrder, WireFormat, TAGGED_LEN};
use ipc_pipe::{
    CodecFault, CrossPlatformMessagePipe, IPCMessagePipe, IPCRequest, IPCResponse, PipeError,
    RecvCause, SendCause, IPC_MESSAGE_MAX_SIZE,
};
use ipc_pipe::ipc::{incoming_response, outgoing_message};

fn little() -> WireFormat {
    WireFormat { order: ByteOrder::Little, limit: IPC_MESSAGE_MAX_SIZE }
}

fn big() -> WireFormat {
    WireFormat { order: ByteOrder::Big, limit: IPC_MESSAGE_MAX_SIZE }
}

/// A value that serde sees as the first struct variant of an enum, with one
/// field: what a derived impl hands to the serializer for a request.
struct VariantShape {
    errno: u64,
}

impl serde::Serialize for VariantShape {
    fn serialize<S: serde::Serializer>(&self, serializer: S) -> Result<S::Ok, S::Error> {
        let mut state = serializer.serialize_struct_variant("IPCRequest", 0, "ReportFailedExecve", 1)?;
        state.serialize_field("errno", &self.errno)?;
        state.end()
    }
}

fn reference_bytes(errno: u64) -> Vec<u8> {
    bincode::DefaultOptions::new()
        .with_limit(IPC_MESSAGE_MAX_SIZE)
        .with_native_endian()
        .with_fixint_encoding()
        .reject_trailing_bytes()
        .serialize(&VariantShape { errno })
        .unwrap()
}

#[test]
fn scenario_request_round_trip_then_trailing_byte() {
    let format = WireFormat::native();
    let request = IPCRequest::ReportFailedExecve { errno: 5 };
    let mut bytes = request.encode(&format).unwrap();
    assert_eq!(IPCRequest::decode(&bytes, &format), Ok(request));
    bytes.push(0);
    assert!(matches!(IPCRequest::decode(&bytes, &format), Err(PipeError::Decode { .. })));
}

#[test]
fn request_bytes_little_endian() {
    let bytes = IPCRequest::ReportFailedExecve { errno: 5 }.encode(&little()).unwrap();
    assert_eq!(bytes, vec![0, 0, 0, 0, 5, 0, 0, 0, 0, 0, 0, 0]);
}

#[test]
fn request_bytes_big_endian() {
    let bytes = IPCRequest::ReportFailedExecve { errno: 5 }.encode(&big()).unwrap();
    assert_eq!(bytes, vec![0, 0, 0, 0, 0, 0, 0, 0, 0, 0, 0, 5]);
}

#[test]
fn tagged_bytes_put_every_byte_in_its_place() {
    let le = encode_tagged(0x0102_0304, 0x1122_3344_5566_7788, &little()).unwrap();
    assert_eq!(le, vec![4, 3, 2, 1, 0x88, 0x77, 0x66, 0x55, 0x44, 0x33, 0x22, 0x11]);
    let be = encode_tagged(0x0102_0304, 0x1122_3344_5566_7788, &big()).unwrap();
    assert_eq!(be, vec![1, 2, 3, 4, 0x11, 0x22, 0x33, 0x44, 0x55, 0x66, 0x77, 0x88]);
    assert_eq!(le.len() as u64, TAGGED_LEN);
}

#[test]
fn tagged_decode_reads_every_byte_from_its_place() {
    let le = [4, 3, 2, 1, 0x88, 0x77, 0x66, 0x55, 0x44, 0x33, 0x22, 0x11];
    assert_eq!(decode_tagged(&le, &little()), Ok((0x0102_0304, 0x1122_3344_5566_7788)));
    let be = [1, 2, 3, 4, 0x11, 0x22, 0x33, 0x44, 0x55, 0x66, 0x77, 0x88];
    assert_eq!(decode_tagged(&be, &big()), Ok((0x0102_0304, 0x1122_3344_5566_7788)));
    assert_eq!(decode_tagged(&le, &big()), Ok((0x0403_0201, 0x8877_6655_4433_2211)));
}

#[test]
fn request_bytes_are_those_of_a_derived_serializer() {
    let format = WireFormat::native();
    for errno in [0u64, 1, 5, 255, 256, 0xdead_beef, u64::MAX] {
        let bytes = IPCRequest::ReportFailedExecve { errno }.encode(&format).unwrap();
        assert_eq!(bytes, reference_bytes(errno));
        assert_eq!(
            IPCRequest::decode(&reference_bytes(errno), &format),
            Ok(IPCRequest::ReportFailedExecve { errno })
        );
    }
}

#[test]
fn native_order_is_the_machine_s() {
    let expected = if u16::from_ne_bytes([1, 0]) == 1 { ByteOrder::Little } else { ByteOrder::Big };
    assert_eq!(ByteOrder::native(), expected);
    assert_eq!(WireFormat::native().order, expected);
    assert_eq!(WireFormat::native().limit, 1024 * 1024);
    assert_eq!(IPC_MESSAGE_MAX_SIZE, 1_048_576);
}

#[test]
fn order_is_read_off_the_stored_one() {
    assert_eq!(ByteOrder::of_stored_one([1, 0]), ByteOrder::Little);
    assert_eq!(ByteOrder::of_stored_one([0, 1]), ByteOrder::Big);
    assert_eq!(ByteOrder::of_stored_one(1u16.to_le_bytes()), ByteOrder::Little);
    assert_eq!(ByteOrder::of_stored_one(1u16.to_be_bytes()), ByteOrder::Big);
}

#[test]
fn response_round_trip_in_both_orders() {
    for format in [little(), big()] {
        for errno in [0u64, 7, u64::MAX] {
            let response = IPCResponse::Unused { errno };
            let bytes = response.encode(&format).unwrap();
            assert_eq!(bytes.len(), 12);
            assert_eq!(IPCResponse::decode(&bytes, &format), Ok(response));
        }
    }
}

#[test]
fn request_round_trip_in_both_orders() {
    for format in [little(), big()] {
        for errno in [0u64, 2, 1 << 40, u64::MAX] {
            let request = IPCRequest::ReportFailedExecve { errno };
            let bytes = request.encode(&format).unwrap();
            assert_eq!(IPCRequest::decode(&bytes, &format), Ok(request));
        }
    }
}

#[test]
fn decode_refuses_any_trailing_bytes() {
    for format in [little(), big()] {
        let valid = IPCResponse::Unused { errno: 9 }.encode(&format).unwrap();
        for extra in 1..20usize {
            let mut bytes = valid.clone();
            bytes.extend(std::iter::repeat(0xaau8).take(extra));
            assert!(matches!(
                IPCResponse::decode(&bytes, &format),
                Err(PipeError::Decode { detail: CodecFault::Rejected { .. } })
            ));
            assert!(matches!(
                IPCRequest::decode(&bytes, &format),
                Err(PipeError::Decode { detail: CodecFault::Rejected { .. } })
            ));
        }
    }
}

#[test]
fn decode_refuses_short_input() {
    let valid = IPCRequest::ReportFailedExecve { errno: 9 }.encode(&little()).unwrap();
    for len in 0..12usize {
        assert!(matches!(
            IPCRequest::decode(&valid[..len], &little()),
            Err(PipeError::Decode { detail: CodecFault::Rejected { .. } })
        ));
    }
}

#[test]
fn decode_refuses_unknown_tag() {
    let bytes = encode_tagged(1, 5, &little()).unwrap();
    assert_eq!(
        IPCRequest::decode(&bytes, &little()),
        Err(PipeError::Decode { detail: CodecFault::UnknownTag { tag: 1 } })
    );
    assert_eq!(
        IPCResponse::decode(&bytes, &little()),
        Err(PipeError::Decode { detail: CodecFault::UnknownTag { tag: 1 } })
    );
    let bytes = encode_tagged(u32::MAX, 5, &big()).unwrap();
    assert_eq!(
        IPCResponse::decode(&bytes, &big()),
        Err(PipeError::Decode { detail: CodecFault::UnknownTag { tag: u32::MAX } })
    );
}

#[test]
fn decode_at_the_limit_succeeds_and_over_it_fails() {
    let request = IPCRequest::ReportFailedExecve { errno: 3 };
    let bytes = request.encode(&little()).unwrap();
    let exact = WireFormat { order: ByteOrder::Little, limit: 12 };
    assert_eq!(IPCRequest::decode(&bytes, &exact), Ok(request));
    let tight = WireFormat { order: ByteOrder::Little, limit: 11 };
    assert_eq!(
        IPCRequest::decode(&bytes, &tight),
        Err(PipeError::Decode { detail: CodecFault::SizeLimit })
    );
    assert_eq!(
        decode_tagged(&bytes, &tight),
        Err(PipeError::Decode { detail: CodecFault::SizeLimit })
    );
}

#[test]
fn decode_refuses_input_over_the_message_bound() {
    let bytes = vec![0u8; IPC_MESSAGE_MAX_SIZE as usize + 1];
    assert_eq!(
        IPCResponse::decode(&bytes, &WireFormat::native()),
        Err(PipeError::Decode { detail: CodecFault::SizeLimit })
    );
    let bytes = vec![0u8; IPC_MESSAGE_MAX_SIZE as usize];
    assert!(matches!(
        IPCResponse::decode(&bytes, &WireFormat::native()),
        Err(PipeError::Decode { detail: CodecFault::Rejected { .. } })
    ));
}

#[test]
fn encode_at_the_limit_succeeds_and_over_it_fails() {
    let request = IPCRequest::ReportFailedExecve { errno: 3 };
    for order in [ByteOrder::Little, ByteOrder::Big] {
        assert!(request.encode(&WireFormat { order, limit: 12 }).is_ok());
        assert!(matches!(
            request.encode(&WireFormat { order, limit: 11 }),
            Err(PipeError::Encode { detail: CodecFault::Rejected { .. } })
        ));
        assert!(matches!(
            IPCResponse::Unused { errno: 3 }.encode(&WireFormat { order, limit: 0 }),
            Err(PipeError::Encode { .. })
        ));
    }
}

#[test]
fn encode_failure_carries_the_serializer_s_text() {
    let tight = WireFormat { order: ByteOrder::Little, limit: 4 };
    match encode_tagged(0, 0, &tight) {
        Err(PipeError::Encode { detail: CodecFault::Rejected { text } }) => {
            assert_eq!(text, "the size limit has been reached")
        }
        other => panic!("unexpected: {:?}", other),
    }
}

#[test]
fn outgoing_message_has_no_handle() {
    let (bytes, handle) =
        outgoing_message(&IPCRequest::ReportFailedExecve { errno: 5 }, &little()).unwrap();
    assert_eq!(bytes, vec![0, 0, 0, 0, 5, 0, 0, 0, 0, 0, 0, 0]);
    assert_eq!(handle, None);
    let tight = WireFormat { order: ByteOrder::Little, limit: 3 };
    assert!(matches!(
        outgoing_message(&IPCRequest::ReportFailedExecve { errno: 5 }, &tight),
        Err(PipeError::Encode { .. })
    ));
}

#[test]
fn incoming_response_decodes_or_passes_the_failure_on() {
    let bytes = vec![0, 0, 0, 0, 0, 0, 0, 0, 0, 0, 0, 42];
    let verdict = incoming_response(Ok((bytes, None)), &big());
    assert_eq!(verdict.result, Ok(IPCResponse::Unused { errno: 42 }));
    assert_eq!(verdict.close, None);
    let verdict = incoming_response(Err(PipeError::TruncatedMessage), &big());
    assert_eq!(verdict.result, Err(PipeError::TruncatedMessage));
    assert_eq!(verdict.close, None);
    let verdict =
        incoming_response(Err(PipeError::Recv { cause: RecvCause::Os { code: 104 } }), &big());
    assert_eq!(verdict.result, Err(PipeError::Recv { cause: RecvCause::Os { code: 104 } }));
    assert_eq!(verdict.close, None);
    let verdict = incoming_response(Ok((vec![1, 2, 3], None)), &big());
    assert!(matches!(verdict.result, Err(PipeError::Decode { .. })));
    assert_eq!(verdict.close, None);
}

#[test]
fn handle_with_a_response_is_named_for_closing() {
    let bytes = vec![0, 0, 0, 0, 0, 0, 0, 0, 0, 0, 0, 42];
    let verdict = incoming_response(Ok((bytes.clone(), Some(3))), &big());
    assert_eq!(verdict.result, Ok(IPCResponse::Unused { errno: 42 }));
    assert_eq!(verdict.close, Some(3));
    let mut trailing = bytes;
    trailing.push(0);
    let verdict = incoming_response(Ok((trailing, Some(4))), &big());
    assert!(matches!(verdict.result, Err(PipeError::Decode { .. })));
    assert_eq!(verdict.close, Some(4));
    let verdict = incoming_response(Ok((vec![1, 0, 0, 0, 0, 0, 0, 0, 0, 0, 0, 0], Some(5))), &little());
    assert_eq!(
        verdict.result,
        Err(PipeError::Decode { detail: CodecFault::UnknownTag { tag: 1 } })
    );
    assert_eq!(verdict.close, Some(5));
}

type Sent = Rc<RefCell<Vec<(Vec<u8>, Option<u64>)>>>;

/// A transport that records what it is given and answers from a script.
struct Scripted {
    sent: Sent,
    send_answers: VecDeque<Result<(), PipeError>>,
    inbox: VecDeque<Result<(Vec<u8>, Option<u64>), PipeError>>,
}

impl Scripted {
    fn with(sent: &Sent) -> Scripted {
        Scripted { sent: sent.clone(), send_answers: VecDeque::new(), inbox: VecDeque::new() }
    }
}

impl CrossPlatformMessagePipe for Scripted {
    fn as_handles(&self) -> Vec<u64> {
        Vec::new()
    }

    fn from_raw_handles(handles: Vec<u64>) -> Result<Self, PipeError> {
        Err(PipeError::InvalidHandleCount { given: handles.len(), expected: 0 })
    }

    fn new() -> Result<(Self, Self), PipeError> {
        Err(PipeError::TransportSetup { code: 0 })
    }

    fn set_remote_pid(&mut self, _pid: u64) {}

    fn recv(&mut self) -> Result<(Vec<u8>, Option<u64>), PipeError> {
        self.inbox.pop_front().unwrap_or(Err(PipeError::Recv { cause: RecvCause::Os { code: 11 } }))
    }

    fn send(&mut self, message: &[u8], handle: Option<u64>) -> Result<(), PipeError> {
        self.sent.borrow_mut().push((message.to_vec(), handle));
        self.send_answers.pop_front().unwrap_or(Ok(()))
    }
}

#[test]
fn typed_pipe_sends_the_encoding_without_a_handle() {
    let sent: Sent = Rc::new(RefCell::new(Vec::new()));
    let mut pipe = IPCMessagePipe::new(Scripted::with(&sent));
    assert_eq!(pipe.send(&IPCRequest::ReportFailedExecve { errno: 5 }), Ok(()));
    assert_eq!(pipe.send(&IPCRequest::ReportFailedExecve { errno: 6 }), Ok(()));
    let log = sent.borrow();
    assert_eq!(log.len(), 2);
    assert_eq!(log[0], (reference_bytes(5), None));
    assert_eq!(log[1], (reference_bytes(6), None));
}

#[test]
fn typed_pipe_returns_the_transport_s_send_failure() {
    let sent: Sent = Rc::new(RefCell::new(Vec::new()));
    let mut transport = Scripted::with(&sent);
    transport.send_answers.push_back(Err(PipeError::Send { cause: SendCause::Os { code: 32 } }));
    let mut pipe = IPCMessagePipe::new(transport);
    assert_eq!(
        pipe.send(&IPCRequest::ReportFailedExecve { errno: 5 }),
        Err(PipeError::Send { cause: SendCause::Os { code: 32 } })
    );
    assert_eq!(pipe.send(&IPCRequest::ReportFailedExecve { errno: 5 }), Ok(()));
}

#[test]
fn typed_pipe_decodes_what_the_transport_received() {
    let sent: Sent = Rc::new(RefCell::new(Vec::new()));
    let mut transport = Scripted::with(&sent);
    transport.inbox.push_back(Ok((reference_bytes(77), None)));
    let mut trailing = reference_bytes(77);
    trailing.push(1);
    transport.inbox.push_back(Ok((trailing, None)));
    transport.inbox.push_back(Err(PipeError::TruncatedHandleData));
    transport.inbox.push_back(Ok((reference_bytes(78), Some(4))));
    let mut pipe = IPCMessagePipe::new(transport);
    let verdict = pipe.recv();
    assert_eq!(verdict.result, Ok(IPCResponse::Unused { errno: 77 }));
    assert_eq!(verdict.close, None);
    let verdict = pipe.recv();
    assert!(matches!(verdict.result, Err(PipeError::Decode { .. })));
    assert_eq!(verdict.close, None);
    let verdict = pipe.recv();
    assert_eq!(verdict.result, Err(PipeError::TruncatedHandleData));
    assert_eq!(verdict.close, None);
    let verdict = pipe.recv();
    assert_eq!(verdict.result, Ok(IPCResponse::Unused { errno: 78 }));
    assert_eq!(verdict.close, Some(4));
    let verdict = pipe.recv();
    assert_eq!(verdict.result, Err(PipeError::Recv { cause: RecvCause::Os { code: 11 } }));
    assert_eq!(verdict.close, None);
    assert!(sent.borrow().is_empty());
}

#[test]
fn typed_pipe_names_the_handle_of_a_refused_message() {
    let sent: Sent = Rc::new(RefCell::new(Vec::new()));
    let mut transport = Scripted::with(&sent);
    transport.inbox.push_back(Ok((vec![9, 9], Some(6))));
    let mut pipe = IPCMessagePipe::new(transport);
    let verdict = pipe.recv();
    assert!(matches!(verdict.result, Err(PipeError::Decode { .. })));
    assert_eq!(verdict.close, Some(6));
}
