//! The message that tells a sender that its peer cannot be reached.

use crate::message::{
    ChannelMessage, ChannelMessageView, MessagePackage, MessagePackageView, MetadataEntry,
    PackageType,
};
use crate::status::{details_wire, status_wire, Any, AnyView, Status, StatusView};
use crate::wire::{int32_field, string_field, varint};
use vstd::prelude::*;
use vstd::string::*;
use vstd::utf8::{encode_utf8, is_ascii_chars, is_ascii_chars_encode_utf8};

verus! {

/// The status code that says that a service is unavailable.
pub const UNAVAILABLE: i32 = 14;

/// The sentence that goes with `UNAVAILABLE`.
pub const UNAVAILABLE_MESSAGE: &'static str = "target service is offline or not available";

/// The URI that marks a payload as an encoded error status.
pub const STATUS_TYPE_URL: &'static str = "type.googleapis.com/google.rpc.Status";

/// The status that reports an unreachable peer: the fixed code and sentence,
/// without details.
pub open spec fn unavailable_status() -> StatusView {
    StatusView { code: UNAVAILABLE, message: UNAVAILABLE_MESSAGE@, details: Seq::empty() }
}

/// The package that reports an unreachable peer: an error package without a
/// method or metadata, whose payload is the encoded status under its URI.
pub open spec fn error_not_found() -> MessagePackageView {
    MessagePackageView {
        kind: PackageType::Error,
        method: Seq::empty(),
        payload: Some(
            AnyView { type_url: STATUS_TYPE_URL@, value: status_wire(unavailable_status()) },
        ),
        md: Seq::empty(),
    }
}

/// The message that reports an unreachable peer in answer to the message
/// numbered `sid`.
pub open spec fn unavailable(sid: i64) -> ChannelMessageView {
    ChannelMessageView { sid, pkg: Some(error_not_found()) }
}

/// Builds the package that reports an unreachable peer.
pub fn new_error_not_found() -> (pkg: MessagePackage)
    ensures
        pkg@ == error_not_found(),
{
    let status = Status {
        code: UNAVAILABLE,
        message: String::from_str(UNAVAILABLE_MESSAGE),
        details: Vec::new(),
    };
    assert(status@.details == Seq::<AnyView>::empty());
    let value = status.encode();
    let md: Vec<MetadataEntry> = Vec::new();
    let pkg = MessagePackage {
        kind: PackageType::Error,
        method: String::new(),
        payload: Some(Any { type_url: String::from_str(STATUS_TYPE_URL), value }),
        md,
    };
    assert(pkg@.md == error_not_found().md);
    pkg
}

/// Builds the message that reports an unreachable peer. It carries the
/// sequence identifier of the message that could not be delivered, so that the
/// sender can tell which one failed.
pub fn build_unavailable(sid: i64) -> (message: ChannelMessage)
    ensures
        message@ == unavailable(sid),
{
    ChannelMessage { sid, pkg: Some(new_error_not_found()) }
}

/// The encoded status of an unreachable peer, byte for byte: the code 14 as
/// field 1, then the sentence as field 2, 42 bytes of ASCII behind their
/// length. It is 46 bytes long.
pub proof fn lemma_unavailable_status_wire()
    ensures
        status_wire(unavailable_status()).len() == 46,
        status_wire(unavailable_status()).subrange(0, 4) == seq![8u8, 14u8, 18u8, 42u8],
        forall|i: int|
            0 <= i < 42 ==> #[trigger] status_wire(unavailable_status())[4 + i]
                == UNAVAILABLE_MESSAGE@[i] as u8,
{
    let text = UNAVAILABLE_MESSAGE@;
    reveal_strlit("target service is offline or not available");
    assert(text.len() == 42);
    assert(is_ascii_chars(text));
    is_ascii_chars_encode_utf8(text);
    let bytes = encode_utf8(text);
    assert(varint(8) == seq![8u8]);
    assert(varint(14) == seq![14u8]);
    assert(varint(18) == seq![18u8]);
    assert(varint(42) == seq![42u8]);
    assert(int32_field(1, UNAVAILABLE) == seq![8u8, 14u8]);
    assert(string_field(2, text) == seq![18u8, 42u8] + bytes);
    assert(details_wire(Seq::<AnyView>::empty()) == Seq::<u8>::empty());
    let wire = status_wire(unavailable_status());
    assert(wire == seq![8u8, 14u8, 18u8, 42u8] + bytes);
}

} // verus!
