//! The relay's entry point: a call comes in with its metadata, and either a
//! connection is opened for it or the call is refused.

use crate::connection::{Connection, ConnectionView};
use crate::metadata::{
    declared_text, metadata_entries, parse_metadata_value, refusal, SetupError, RECEIVER_KEY,
    SENDER_KEY,
};
use crate::registry::{no_entries, registered, Registry};
use tonic::metadata::MetadataMap;
use vstd::prelude::*;

verus! {

/// The relay: the registry of the endpoints that are connected right now.
#[derive(Debug)]
pub struct ChannelServer {
    pub channels: Registry,
}

/// Whether a call declares both of its identities as text.
pub open spec fn declares_both(entries: Map<Seq<char>, Seq<u8>>) -> bool {
    declared_text(entries, SENDER_KEY@) is Some && declared_text(entries, RECEIVER_KEY@) is Some
}

/// The key over which a call that does not declare both identities is
/// refused: the sender's if that is at fault, else the receiver's.
pub open spec fn refused_key(entries: Map<Seq<char>, Seq<u8>>) -> Seq<char> {
    if declared_text(entries, SENDER_KEY@) is None {
        SENDER_KEY@
    } else {
        RECEIVER_KEY@
    }
}

impl ChannelServer {
    /// A relay to which nobody is connected.
    pub fn new() -> (server: Self)
        ensures
            server.channels@ == no_entries(),
    {
        ChannelServer { channels: Registry::new() }
    }

    /// Accepts a call whose metadata is `md` and whose delivery queue is
    /// `queue`.
    ///
    /// The call is accepted exactly when `md` declares a sender and a receiver
    /// as text. The sender is then registered under `queue`, and the
    /// connection that comes back is forwarding. Otherwise the call is refused
    /// over the first identity at fault, and the registry stays as it was.
    pub fn channel(&mut self, md: &MetadataMap, queue: u64) -> (r: Result<Connection, SetupError>)
        ensures
            r is Ok <==> declares_both(metadata_entries(*md)),
            match r {
                Ok(conn) => {
                    &&& declared_text(metadata_entries(*md), SENDER_KEY@) == Some(conn@.sender_id)
                    &&& declared_text(metadata_entries(*md), RECEIVER_KEY@) == Some(
                        conn@.receiver_id,
                    )
                    &&& conn@ == ConnectionView::opened(conn@.sender_id, conn@.receiver_id, queue)
                    &&& final(self).channels@ == registered(
                        old(self).channels@,
                        conn@.sender_id,
                        queue,
                    )
                },
                Err(error) => {
                    &&& refusal(metadata_entries(*md), refused_key(metadata_entries(*md)), error@)
                    &&& final(self).channels@ == old(self).channels@
                },
            },
    {
        let sender_id = match parse_metadata_value(md, SENDER_KEY) {
            Ok(text) => text,
            Err(error) => {
                return Err(error);
            },
        };
        let receiver_id = match parse_metadata_value(md, RECEIVER_KEY) {
            Ok(text) => text,
            Err(error) => {
                return Err(error);
            },
        };
        Ok(Connection::open(&mut self.channels, sender_id, receiver_id, queue))
    }
}

} // verus!
