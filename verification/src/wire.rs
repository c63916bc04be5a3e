//! The byte layout of typed values: fixed-width integers in a chosen byte
//! order, one value per message, nothing after it.
//!
//! The bytes themselves are produced and parsed by `bincode`; this module
//! states what it hands back and builds the bounded, strict codec on it.

use vstd::prelude::*;
use bincode::Options;
use crate::error::{CodecFault, PipeError};

verus! {

/// The order in which the bytes of an integer are laid out.
#[derive(Debug, Clone, Copy, PartialEq, Eq, Structural)]
pub enum ByteOrder {
    /// Least significant byte first.
    Little,
    /// Most significant byte first.
    Big,
}

/// The two bytes of `x` in the given order.
pub open spec fn u16_bytes(x: u16, order: ByteOrder) -> Seq<u8> {
    match order {
        ByteOrder::Little => seq![x as u8, (x >> 8) as u8],
        ByteOrder::Big => seq![(x >> 8) as u8, x as u8],
    }
}

/// The four bytes of `x` in the given order.
pub open spec fn u32_bytes(x: u32, order: ByteOrder) -> Seq<u8> {
    match order {
        ByteOrder::Little => seq![x as u8, (x >> 8) as u8, (x >> 16) as u8, (x >> 24) as u8],
        ByteOrder::Big => seq![(x >> 24) as u8, (x >> 16) as u8, (x >> 8) as u8, x as u8],
    }
}

/// The eight bytes of `x` in the given order.
pub open spec fn u64_bytes(x: u64, order: ByteOrder) -> Seq<u8> {
    match order {
        ByteOrder::Little => seq![
            x as u8,
            (x >> 8) as u8,
            (x >> 16) as u8,
            (x >> 24) as u8,
            (x >> 32) as u8,
            (x >> 40) as u8,
            (x >> 48) as u8,
            (x >> 56) as u8,
        ],
        ByteOrder::Big => seq![
            (x >> 56) as u8,
            (x >> 48) as u8,
            (x >> 40) as u8,
            (x >> 32) as u8,
            (x >> 24) as u8,
            (x >> 16) as u8,
            (x >> 8) as u8,
            x as u8,
        ],
    }
}

/// The number of bytes every tagged value takes on the wire.
pub const TAGGED_LEN: u64 = 12;

/// The wire form of a tagged value: the variant's tag as a 32-bit integer,
/// then its 64-bit field, with no padding and no length prefix.
pub open spec fn tagged_bytes(tag: u32, field: u64, order: ByteOrder) -> Seq<u8> {
    u32_bytes(tag, order) + u64_bytes(field, order)
}

/// How typed values are laid out and how large an encoding may be.
#[derive(Debug, Clone, Copy, PartialEq, Eq, Structural)]
pub struct WireFormat {
    /// The byte order of every integer.
    pub order: ByteOrder,
    /// The largest encoding, in bytes, that is produced or accepted.
    pub limit: u64,
}

/// What a strict, bounded decoder makes of `bytes`: the pair whose wire form
/// they are, if they are within the limit and are the wire form of a pair.
pub open spec fn decoded_tagged(bytes: Seq<u8>, format: WireFormat) -> Option<(u32, u64)> {
    if bytes.len() <= format.limit && exists|pair: (u32, u64)|
        bytes == tagged_bytes(pair.0, pair.1, format.order) {
        Some(choose|pair: (u32, u64)| bytes == tagged_bytes(pair.0, pair.1, format.order))
    } else {
        None
    }
}

/// `bincode::ErrorKind`, the error of bincode's calls. It is carried from
/// the call to `fault_text` and never looked into.
#[verifier::external_type_specification]
#[verifier::external_body]
pub struct ExErrorKind(bincode::ErrorKind);

/// `bincode::Options::serialize` on the pair `(tag, field)`, configured for
/// fixed-width integers in little-endian order with a byte limit.
///
/// bincode writes a tuple as its elements one after the other and a
/// fixed-width integer as its bytes in the configured order, after it has
/// counted the bytes against the limit: it fails exactly when the twelve
/// bytes exceed `limit`.
#[verifier::external_body]
fn serialize_little(tag: u32, field: u64, limit: u64) -> (r: Result<Vec<u8>, Box<bincode::ErrorKind>>)
    ensures
        r is Ok <==> TAGGED_LEN <= limit,
        r matches Ok(bytes) ==> bytes@ == tagged_bytes(tag, field, ByteOrder::Little),
{
    bincode::DefaultOptions::new()
        .with_limit(limit)
        .with_little_endian()
        .with_fixint_encoding()
        .reject_trailing_bytes()
        .serialize(&(tag, field))
}

/// `bincode::Options::serialize` on the pair `(tag, field)`, configured as
/// in `serialize_little` but for big-endian order.
#[verifier::external_body]
fn serialize_big(tag: u32, field: u64, limit: u64) -> (r: Result<Vec<u8>, Box<bincode::ErrorKind>>)
    ensures
        r is Ok <==> TAGGED_LEN <= limit,
        r matches Ok(bytes) ==> bytes@ == tagged_bytes(tag, field, ByteOrder::Big),
{
    bincode::DefaultOptions::new()
        .with_limit(limit)
        .with_big_endian()
        .with_fixint_encoding()
        .reject_trailing_bytes()
        .serialize(&(tag, field))
}

/// `bincode::Options::deserialize` of a pair `(u32, u64)` from a slice,
/// configured for fixed-width integers in little-endian order, rejecting
/// trailing bytes.
///
/// bincode reads four bytes, then eight, and fails when the slice runs out
/// or when bytes are left over: it succeeds exactly on slices of twelve
/// bytes, and then the slice is the wire form of the pair it returns. On a
/// slice bincode does not apply the byte limit, so `limit` has no part in
/// the outcome.
#[verifier::external_body]
fn deserialize_little(bytes: &[u8], limit: u64) -> (r: Result<(u32, u64), Box<bincode::ErrorKind>>)
    ensures
        r is Ok <==> bytes@.len() == TAGGED_LEN,
        r matches Ok(pair) ==> bytes@ == tagged_bytes(pair.0, pair.1, ByteOrder::Little),
{
    bincode::DefaultOptions::new()
        .with_limit(limit)
        .with_little_endian()
        .with_fixint_encoding()
        .reject_trailing_bytes()
        .deserialize(bytes)
}

/// `bincode::Options::deserialize` of a pair `(u32, u64)` from a slice,
/// configured as in `deserialize_little` but for big-endian order.
#[verifier::external_body]
fn deserialize_big(bytes: &[u8], limit: u64) -> (r: Result<(u32, u64), Box<bincode::ErrorKind>>)
    ensures
        r is Ok <==> bytes@.len() == TAGGED_LEN,
        r matches Ok(pair) ==> bytes@ == tagged_bytes(pair.0, pair.1, ByteOrder::Big),
{
    bincode::DefaultOptions::new()
        .with_limit(limit)
        .with_big_endian()
        .with_fixint_encoding()
        .reject_trailing_bytes()
        .deserialize(bytes)
}

/// The `Display` text of a `bincode::ErrorKind`. Nothing is claimed of it.
#[verifier::external_body]
fn fault_text(fault: &bincode::ErrorKind) -> String {
    format!("{}", fault)
}

/// `u16::to_ne_bytes`: the bytes of `x` as this machine stores them, which
/// is one of the two orders.
#[verifier::external_body]
fn native_u16_bytes(x: u16) -> (r: [u8; 2])
    ensures
        r@ == u16_bytes(x, ByteOrder::Little) || r@ == u16_bytes(x, ByteOrder::Big),
{
    x.to_ne_bytes()
}

impl ByteOrder {
    /// The order in which `stored` holds the number one: little if the one
    /// comes first, big if not.
    pub fn of_stored_one(stored: [u8; 2]) -> (order: ByteOrder)
        ensures
            order == (if stored@[0] == 1 {
                ByteOrder::Little
            } else {
                ByteOrder::Big
            }),
            stored@ == u16_bytes(1, ByteOrder::Little) ==> order == ByteOrder::Little,
            stored@ == u16_bytes(1, ByteOrder::Big) ==> order == ByteOrder::Big,
    {
        assert(1u16 as u8 == 1 && (1u16 >> 8) as u8 == 0) by (bit_vector);
        if stored[0] == 1 {
            ByteOrder::Little
        } else {
            ByteOrder::Big
        }
    }

    /// The byte order of the machine this runs on, found by looking at how
    /// it stores the number one.
    pub fn native() -> ByteOrder {
        ByteOrder::of_stored_one(native_u16_bytes(1))
    }
}

/// An integer is determined by its four bytes.
proof fn lemma_u32_determined(x: u32, y: u32)
    by (bit_vector)
    requires
        x as u8 == y as u8,
        (x >> 8) as u8 == (y >> 8) as u8,
        (x >> 16) as u8 == (y >> 16) as u8,
        (x >> 24) as u8 == (y >> 24) as u8,
    ensures
        x == y,
{
}

/// An integer is determined by its eight bytes.
proof fn lemma_u64_determined(x: u64, y: u64)
    by (bit_vector)
    requires
        x as u8 == y as u8,
        (x >> 8) as u8 == (y >> 8) as u8,
        (x >> 16) as u8 == (y >> 16) as u8,
        (x >> 24) as u8 == (y >> 24) as u8,
        (x >> 32) as u8 == (y >> 32) as u8,
        (x >> 40) as u8 == (y >> 40) as u8,
        (x >> 48) as u8 == (y >> 48) as u8,
        (x >> 56) as u8 == (y >> 56) as u8,
    ensures
        x == y,
{
}

/// Every tagged value takes twelve bytes.
pub proof fn lemma_tagged_len(tag: u32, field: u64, order: ByteOrder)
    ensures
        tagged_bytes(tag, field, order).len() == TAGGED_LEN,
{
}

/// Two tagged values with the same wire form in one byte order are the same
/// value: nothing is lost on the wire.
pub proof fn lemma_tagged_injective(
    tag: u32,
    field: u64,
    other_tag: u32,
    other_field: u64,
    order: ByteOrder,
)
    requires
        tagged_bytes(tag, field, order) == tagged_bytes(other_tag, other_field, order),
    ensures
        tag == other_tag,
        field == other_field,
{
    let whole = tagged_bytes(tag, field, order);
    let head = u32_bytes(tag, order);
    let tail = u64_bytes(field, order);
    let other_head = u32_bytes(other_tag, order);
    let other_tail = u64_bytes(other_field, order);
    assert(head =~= whole.subrange(0, 4));
    assert(other_head =~= whole.subrange(0, 4));
    assert(tail =~= whole.subrange(4, 12));
    assert(other_tail =~= whole.subrange(4, 12));
    assert(head[0] == other_head[0] && head[1] == other_head[1] && head[2] == other_head[2]
        && head[3] == other_head[3]);
    lemma_u32_determined(tag, other_tag);
    assert(tail[0] == other_tail[0] && tail[1] == other_tail[1] && tail[2] == other_tail[2]
        && tail[3] == other_tail[3] && tail[4] == other_tail[4] && tail[5] == other_tail[5]
        && tail[6] == other_tail[6] && tail[7] == other_tail[7]);
    lemma_u64_determined(field, other_field);
}

/// Decoding undoes encoding: within the limit, the wire form of a pair
/// decodes to that pair.
pub proof fn lemma_decoded_inverts_encoding(tag: u32, field: u64, format: WireFormat)
    requires
        tagged_bytes(tag, field, format.order).len() <= format.limit,
    ensures
        decoded_tagged(tagged_bytes(tag, field, format.order), format) == Some((tag, field)),
{
    let bytes = tagged_bytes(tag, field, format.order);
    assert(bytes == tagged_bytes((tag, field).0, (tag, field).1, format.order));
    let found = choose|pair: (u32, u64)| bytes == tagged_bytes(pair.0, pair.1, format.order);
    lemma_tagged_injective(tag, field, found.0, found.1, format.order);
}

/// Strictness: a wire form followed by one or more further bytes decodes to
/// nothing.
pub proof fn lemma_trailing_bytes_rejected(
    tag: u32,
    field: u64,
    extra: Seq<u8>,
    format: WireFormat,
)
    requires
        extra.len() > 0,
    ensures
        decoded_tagged(tagged_bytes(tag, field, format.order) + extra, format) is None,
{
    let bytes = tagged_bytes(tag, field, format.order) + extra;
    assert(bytes.len() > TAGGED_LEN);
    assert forall|pair: (u32, u64)| bytes != tagged_bytes(pair.0, pair.1, format.order) by {
        lemma_tagged_len(pair.0, pair.1, format.order);
    }
}

/// The bound: bytes beyond the format's limit decode to nothing.
pub proof fn lemma_over_limit_rejected(bytes: Seq<u8>, format: WireFormat)
    requires
        bytes.len() > format.limit,
    ensures
        decoded_tagged(bytes, format) is None,
{
}

/// Encodes a tagged value in the given format.
///
/// Fails exactly when the twelve bytes of the encoding exceed the format's
/// limit.
pub fn encode_tagged(tag: u32, field: u64, format: &WireFormat) -> (r: Result<Vec<u8>, PipeError>)
    ensures
        r is Ok <==> TAGGED_LEN <= format.limit,
        r matches Ok(bytes) ==> bytes@ == tagged_bytes(tag, field, format.order),
        r is Err ==> r matches Err(PipeError::Encode { detail: CodecFault::Rejected { .. } }),
{
    let written = match format.order {
        ByteOrder::Little => serialize_little(tag, field, format.limit),
        ByteOrder::Big => serialize_big(tag, field, format.limit),
    };
    match written {
        Ok(bytes) => Ok(bytes),
        Err(fault) => Err(PipeError::Encode { detail: CodecFault::Rejected { text: fault_text(&*fault) } }),
    }
}

/// Decodes the tag and field of a tagged value from exactly its wire form.
///
/// Succeeds exactly when `bytes` is within the format's limit and is twelve
/// bytes long; the pair returned is then the one whose wire form it is.
/// Input over the limit is refused as `SizeLimit` before it is looked at.
pub fn decode_tagged(bytes: &[u8], format: &WireFormat) -> (r: Result<(u32, u64), PipeError>)
    ensures
        r is Ok <==> bytes@.len() == TAGGED_LEN && bytes@.len() <= format.limit,
        r is Ok <==> decoded_tagged(bytes@, *format) is Some,
        r matches Ok(pair) ==> decoded_tagged(bytes@, *format) == Some(pair) && bytes@
            == tagged_bytes(pair.0, pair.1, format.order),
        bytes@.len() > format.limit ==> r == Err::<(u32, u64), PipeError>(
            PipeError::Decode { detail: CodecFault::SizeLimit },
        ),
        bytes@.len() <= format.limit && r is Err ==> r matches Err(
            PipeError::Decode { detail: CodecFault::Rejected { .. } },
        ),
        r matches Err(e) ==> e is Decode,
{
    if bytes.len() as u64 > format.limit {
        return Err(PipeError::Decode { detail: CodecFault::SizeLimit });
    }
    let parsed = match format.order {
        ByteOrder::Little => deserialize_little(bytes, format.limit),
        ByteOrder::Big => deserialize_big(bytes, format.limit),
    };
    match parsed {
        Ok(pair) => {
            proof {
                lemma_decoded_inverts_encoding(pair.0, pair.1, *format);
            }
            Ok(pair)
        },
        Err(fault) => {
            proof {
                assert forall|pair: (u32, u64)|
                    bytes@ != tagged_bytes(pair.0, pair.1, format.order) by {
                    lemma_tagged_len(pair.0, pair.1, format.order);
                }
            }
            Err(PipeError::Decode { detail: CodecFault::Rejected { text: fault_text(&*fault) } })
        },
    }
}

} // verus!
