//! The protobuf wire format, as far as an error status needs it.
//!
//! A message on the wire is a run of fields. Each field starts with a key,
//! which packs the field's number and the shape of what follows; numbers are
//! written as varints, and strings, byte blobs and embedded messages are
//! written as a length followed by that many bytes. The spec functions below
//! say byte for byte what each field looks like; the writers append exactly
//! those bytes to a buffer.

use vstd::prelude::*;
use vstd::utf8::encode_utf8;

verus! {

/// The largest number a field can have.
pub const MAX_TAG: u32 = 0x1FFF_FFFF;

/// Whether `tag` can number a field.
pub open spec fn valid_tag(tag: u32) -> bool {
    1 <= tag && tag <= MAX_TAG
}

/// The base-128 varint of `value`: seven bits to a byte, low bits first, the
/// top bit of a byte set while more bytes follow.
pub open spec fn varint(value: nat) -> Seq<u8>
    decreases value,
{
    if value < 128 {
        seq![value as u8]
    } else {
        seq![(value % 128 + 128) as u8] + varint(value / 128)
    }
}

/// The key of field `tag` whose payload has the shape `wire_type`
/// (0 for a varint, 2 for length-delimited bytes).
pub open spec fn field_key(tag: u32, wire_type: nat) -> Seq<u8> {
    varint(tag as nat * 8 + wire_type)
}

/// The 64 bits that stand for a signed 32-bit number on the wire: the number
/// itself if it is not negative, else its two's complement, sign-extended.
pub open spec fn int32_bits(value: i32) -> nat {
    if value >= 0 {
        value as nat
    } else {
        (0x1_0000_0000_0000_0000 + value) as nat
    }
}

/// Field `tag` holding the signed 32-bit number `value`.
pub open spec fn int32_field(tag: u32, value: i32) -> Seq<u8> {
    field_key(tag, 0) + varint(int32_bits(value))
}

/// Field `tag` holding the bytes `body` behind their length.
pub open spec fn length_delimited(tag: u32, body: Seq<u8>) -> Seq<u8> {
    field_key(tag, 2) + varint(body.len()) + body
}

/// Field `tag` holding `text`, which goes on the wire as UTF-8.
pub open spec fn string_field(tag: u32, text: Seq<char>) -> Seq<u8> {
    length_delimited(tag, encode_utf8(text))
}

/// `prost::encoding::int32::encode`: appends field `tag` with the number
/// `value` to `buf`, as a varint key followed by the varint of the
/// sign-extended value. Nothing already in `buf` changes.
#[verifier::external_body]
pub(crate) fn put_int32(tag: u32, value: i32, buf: &mut Vec<u8>)
    requires
        valid_tag(tag),
    ensures
        final(buf)@ == old(buf)@ + int32_field(tag, value),
{
    prost::encoding::int32::encode(tag, &value, buf)
}

/// `prost::encoding::string::encode`: appends field `tag` with the UTF-8 bytes
/// of `value` to `buf`, behind a length-delimited key and the byte count.
/// Nothing already in `buf` changes.
#[verifier::external_body]
pub(crate) fn put_string(tag: u32, value: &String, buf: &mut Vec<u8>)
    requires
        valid_tag(tag),
    ensures
        final(buf)@ == old(buf)@ + string_field(tag, value@),
{
    prost::encoding::string::encode(tag, value, buf)
}

/// `prost::encoding::bytes::encode`: appends field `tag` with the bytes of
/// `value` to `buf`, behind a length-delimited key and the byte count. Nothing
/// already in `buf` changes.
#[verifier::external_body]
pub(crate) fn put_bytes(tag: u32, value: &Vec<u8>, buf: &mut Vec<u8>)
    requires
        valid_tag(tag),
    ensures
        final(buf)@ == old(buf)@ + length_delimited(tag, value@),
{
    prost::encoding::bytes::encode(tag, value, buf)
}

} // verus!
