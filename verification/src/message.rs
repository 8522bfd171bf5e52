//! The messages that the relay carries.
//!
//! A message is an envelope around a package. The relay reads the envelope's
//! sequence identifier and nothing else: the package is cargo, handed on as
//! it came.

use crate::status::{Any, AnyView};
use vstd::prelude::*;

verus! {

/// What kind of package an envelope holds.
#[derive(Debug, Clone, Copy, PartialEq, Eq, Structural)]
pub enum PackageType {
    /// A kind that this relay does not know.
    Unknown,
    /// Application data.
    Data,
    /// A control message between the two endpoints.
    Control,
    /// An error report.
    Error,
}

/// One metadata entry of a package.
#[derive(Debug, Clone, PartialEq, Eq)]
pub struct MetadataEntry {
    pub key: String,
    pub value: String,
}

/// The mathematical content of a `MetadataEntry`.
pub struct MetadataEntryView {
    pub key: Seq<char>,
    pub value: Seq<char>,
}

impl View for MetadataEntry {
    type V = MetadataEntryView;

    open spec fn view(&self) -> MetadataEntryView {
        MetadataEntryView { key: self.key@, value: self.value@ }
    }
}

/// The cargo of a message: a kind, the name of a method, a typed payload and
/// metadata entries.
#[derive(Debug, Clone, PartialEq, Eq)]
pub struct MessagePackage {
    pub kind: PackageType,
    pub method: String,
    pub payload: Option<Any>,
    pub md: Vec<MetadataEntry>,
}

/// The mathematical content of a `MessagePackage`.
pub struct MessagePackageView {
    pub kind: PackageType,
    pub method: Seq<char>,
    pub payload: Option<AnyView>,
    pub md: Seq<MetadataEntryView>,
}

impl View for MessagePackage {
    type V = MessagePackageView;

    open spec fn view(&self) -> MessagePackageView {
        MessagePackageView {
            kind: self.kind,
            method: self.method@,
            payload: match self.payload {
                Some(payload) => Some(payload@),
                None => None,
            },
            md: self.md@.map_values(|entry: MetadataEntry| entry@),
        }
    }
}

/// A message as it travels through the relay: a sequence identifier, by which
/// the endpoints tell their messages apart, and a package.
#[derive(Debug, Clone, PartialEq, Eq)]
pub struct ChannelMessage {
    pub sid: i64,
    pub pkg: Option<MessagePackage>,
}

/// The mathematical content of a `ChannelMessage`.
pub struct ChannelMessageView {
    pub sid: i64,
    pub pkg: Option<MessagePackageView>,
}

impl View for ChannelMessage {
    type V = ChannelMessageView;

    open spec fn view(&self) -> ChannelMessageView {
        ChannelMessageView {
            sid: self.sid,
            pkg: match self.pkg {
                Some(pkg) => Some(pkg@),
                None => None,
            },
        }
    }
}

} // verus!
