//! The structured error status that travels inside an error package, and its
//! encoding for the wire.

use crate::wire::{int32_field, length_delimited, put_bytes, put_int32, put_string, string_field};
use vstd::prelude::*;

verus! {

/// A payload together with the URI that says what type of message it holds.
#[derive(Debug, Clone, PartialEq, Eq)]
pub struct Any {
    pub type_url: String,
    pub value: Vec<u8>,
}

/// The mathematical content of an `Any`.
pub struct AnyView {
    pub type_url: Seq<char>,
    pub value: Seq<u8>,
}

impl View for Any {
    type V = AnyView;

    open spec fn view(&self) -> AnyView {
        AnyView { type_url: self.type_url@, value: self.value@ }
    }
}

/// An error status: a code from the usual RPC status codes, a sentence for a
/// human reader, and any number of typed details.
#[derive(Debug, Clone, PartialEq, Eq)]
pub struct Status {
    pub code: i32,
    pub message: String,
    pub details: Vec<Any>,
}

/// The mathematical content of a `Status`.
pub struct StatusView {
    pub code: i32,
    pub message: Seq<char>,
    pub details: Seq<AnyView>,
}

impl View for Status {
    type V = StatusView;

    open spec fn view(&self) -> StatusView {
        StatusView {
            code: self.code,
            message: self.message@,
            details: self.details@.map_values(|detail: Any| detail@),
        }
    }
}

/// The bytes of a typed payload on the wire: the type URI as field 1 and the
/// value as field 2, each left out when it is empty.
pub open spec fn any_wire(any: AnyView) -> Seq<u8> {
    (if any.type_url.len() > 0 {
        string_field(1, any.type_url)
    } else {
        Seq::empty()
    }) + (if any.value.len() > 0 {
        length_delimited(2, any.value)
    } else {
        Seq::empty()
    })
}

/// The bytes of a list of details on the wire: each one an embedded message
/// in field 3, in the order of the list.
pub open spec fn details_wire(details: Seq<AnyView>) -> Seq<u8>
    decreases details.len(),
{
    if details.len() == 0 {
        Seq::empty()
    } else {
        details_wire(details.drop_last()) + length_delimited(3, any_wire(details.last()))
    }
}

/// The bytes of a status on the wire: the code as field 1 and the message as
/// field 2, each left out when it is zero or empty, then the details.
pub open spec fn status_wire(status: StatusView) -> Seq<u8> {
    (if status.code != 0 {
        int32_field(1, status.code)
    } else {
        Seq::empty()
    }) + (if status.message.len() > 0 {
        string_field(2, status.message)
    } else {
        Seq::empty()
    }) + details_wire(status.details)
}

impl Any {
    /// The bytes of this payload on the wire.
    pub fn encode(&self) -> (bytes: Vec<u8>)
        ensures
            bytes@ == any_wire(self@),
    {
        let mut buf: Vec<u8> = Vec::new();
        if !self.type_url.as_str().is_empty() {
            put_string(1, &self.type_url, &mut buf);
        }
        if self.value.len() != 0 {
            put_bytes(2, &self.value, &mut buf);
        }
        buf
    }
}

impl Status {
    /// The bytes of this status on the wire.
    pub fn encode(&self) -> (bytes: Vec<u8>)
        ensures
            bytes@ == status_wire(self@),
    {
        let mut buf: Vec<u8> = Vec::new();
        if self.code != 0 {
            put_int32(1, self.code, &mut buf);
        }
        if !self.message.as_str().is_empty() {
            put_string(2, &self.message, &mut buf);
        }
        let ghost head = buf@;
        let mut i: usize = 0;
        while i < self.details.len()
            invariant
                i <= self.details.len(),
                buf@ == head + details_wire(self@.details.take(i as int)),
            decreases self.details.len() - i,
        {
            let body = self.details[i].encode();
            put_bytes(3, &body, &mut buf);
            proof {
                let done = self@.details.take(i as int + 1);
                assert(done.drop_last() == self@.details.take(i as int));
                assert(done.last() == self.details[i as int]@);
            }
            i += 1;
        }
        proof {
            assert(self@.details.take(i as int) == self@.details);
        }
        buf
    }
}

} // verus!
