//! Reading the two identities that a caller declares when it opens a call.
//!
//! A call carries text entries beside its message stream. Two of them are
//! required: who the caller is, and whom it wants to reach. A call that lacks
//! either is refused before anything else happens.

use tonic::metadata::MetadataMap;
use vstd::prelude::*;
use vstd::string::*;

verus! {

/// The entry that names the caller.
pub const SENDER_KEY: &'static str = "sender_id";

/// The entry that names the peer the caller wants to reach.
pub const RECEIVER_KEY: &'static str = "receiver_id";

/// The status code with which a refused call fails: an invalid argument.
pub const INVALID_ARGUMENT: i32 = 3;

/// `tonic::metadata::MetadataMap`, the entries that accompany a call. Nothing
/// inside it is visible to the verifier; `metadata_entries` names what a
/// lookup finds in it.
#[verifier::external_type_specification]
#[verifier::external_body]
pub struct ExMetadataMap(MetadataMap);

/// For each key under which a text lookup finds something, the bytes of the
/// first value stored there.
pub uninterp spec fn metadata_entries(md: MetadataMap) -> Map<Seq<char>, Seq<u8>>;

/// A byte that may occur in a value that reads as text: printable ASCII, or a
/// horizontal tab.
pub open spec fn is_visible_ascii(b: u8) -> bool {
    (32 <= b && b < 127) || b == 9
}

/// Whether a stored value reads as text: every byte of it is visible ASCII.
pub open spec fn is_text(bytes: Seq<u8>) -> bool {
    forall|i: int| 0 <= i < bytes.len() ==> is_visible_ascii(#[trigger] bytes[i])
}

/// The text that a value of visible ASCII bytes spells.
pub open spec fn as_text(bytes: Seq<u8>) -> Seq<char> {
    bytes.map_values(|b: u8| b as char)
}

/// The text declared under `key`: present only if a value is stored there and
/// that value reads as text.
pub open spec fn declared_text(entries: Map<Seq<char>, Seq<u8>>, key: Seq<char>) -> Option<
    Seq<char>,
> {
    if entries.contains_key(key) && is_text(entries[key]) {
        Some(as_text(entries[key]))
    } else {
        None
    }
}

/// `MetadataMap::get` followed by `MetadataValue::to_str` on what it found.
/// `None` means that nothing is stored under `key`. `Some(Ok(..))` carries the
/// value as text, and comes exactly when every byte of the value is visible
/// ASCII. `Some(Err(..))` carries the outside error's description, of which
/// nothing is claimed.
#[verifier::external_body]
fn lookup(md: &MetadataMap, key: &str) -> (found: Option<Result<String, String>>)
    ensures
        match found {
            None => !metadata_entries(*md).contains_key(key@),
            Some(Ok(text)) => metadata_entries(*md).contains_key(key@) && is_text(
                metadata_entries(*md)[key@],
            ) && text@ == as_text(metadata_entries(*md)[key@]),
            Some(Err(_)) => metadata_entries(*md).contains_key(key@) && !is_text(
                metadata_entries(*md)[key@],
            ),
        },
{
    match md.get(key) {
        None => None,
        Some(value) => match value.to_str() {
            Ok(text) => Some(Ok(text.to_string())),
            Err(error) => Some(Err(error.to_string())),
        },
    }
}

/// Why a call was refused before it was set up.
#[derive(Debug, Clone, PartialEq, Eq)]
pub enum SetupError {
    /// No value is stored under the required key.
    Missing { key: String },
    /// A value is stored under the required key, but it does not read as text.
    NotText { key: String, detail: String },
}

/// The mathematical content of a `SetupError`.
pub enum SetupErrorView {
    Missing { key: Seq<char> },
    NotText { key: Seq<char>, detail: Seq<char> },
}

impl View for SetupError {
    type V = SetupErrorView;

    open spec fn view(&self) -> SetupErrorView {
        match *self {
            SetupError::Missing { key } => SetupErrorView::Missing { key: key@ },
            SetupError::NotText { key, detail } => SetupErrorView::NotText {
                key: key@,
                detail: detail@,
            },
        }
    }
}

impl SetupErrorView {
    /// The key whose value was missing or unreadable.
    pub open spec fn key(self) -> Seq<char> {
        match self {
            SetupErrorView::Missing { key } => key,
            SetupErrorView::NotText { key, .. } => key,
        }
    }

    /// The sentence that tells the caller what was wrong.
    pub open spec fn message(self) -> Seq<char> {
        match self {
            SetupErrorView::Missing { key } => "No "@ + key + " in metadata"@,
            SetupErrorView::NotText { key, detail } => key + " to str err in metadata: "@ + detail,
        }
    }
}

impl SetupError {
    /// The status code of the failure. Every setup error is an invalid argument.
    pub fn code(&self) -> (code: i32)
        ensures
            code == INVALID_ARGUMENT,
    {
        INVALID_ARGUMENT
    }

    /// The sentence that tells the caller what was wrong. It names the key.
    pub fn message(&self) -> (text: String)
        ensures
            text@ == self@.message(),
    {
        match self {
            SetupError::Missing { key } => {
                let mut text = String::from_str("No ");
                text.append(key.as_str());
                text.append(" in metadata");
                text
            },
            SetupError::NotText { key, detail } => {
                let mut text = key.clone();
                text.append(" to str err in metadata: ");
                text.append(detail.as_str());
                text
            },
        }
    }
}

/// Whether `error` is the refusal that a lookup of `key` calls for: nothing
/// is declared as text under `key`, the error names `key`, and it says
/// `Missing` exactly when nothing at all is stored there.
pub open spec fn refusal(entries: Map<Seq<char>, Seq<u8>>, key: Seq<char>, error: SetupErrorView) -> bool {
    &&& declared_text(entries, key) is None
    &&& error.key() == key
    &&& error is Missing <==> !entries.contains_key(key)
}

/// Reads the text declared under `key`.
///
/// Succeeds exactly when a value is stored under `key` and reads as text, and
/// then returns that text. Otherwise the error names `key` and says which of
/// the two was wrong.
pub fn parse_metadata_value(md: &MetadataMap, key: &str) -> (r: Result<String, SetupError>)
    ensures
        match r {
            Ok(text) => declared_text(metadata_entries(*md), key@) == Some(text@),
            Err(error) => refusal(metadata_entries(*md), key@, error@),
        },
{
    match lookup(md, key) {
        Some(Ok(text)) => Ok(text),
        Some(Err(detail)) => Err(SetupError::NotText { key: String::from_str(key), detail }),
        None => Err(SetupError::Missing { key: String::from_str(key) }),
    }
}

} // verus!
