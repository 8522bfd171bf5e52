use grpchub::connection::{Action, Connection, Inbound, Phase, QUEUE_CAPACITY};
use grpchub::failure::build_unavailable;
use grpchub::message::{ChannelMessage, MessagePackage, MetadataEntry, PackageType};
use grpchub::metadata::SetupError;
use grpchub::registry::Registry;
use grpchub::server::ChannelServer;
use grpchub::status::Any;
use tonic::metadata::{AsciiMetadataValue, MetadataMap};

fn data(sid: i64, payload: &str) -> ChannelMessage {
    ChannelMessage {
        sid,
        pkg: Some(MessagePackage {
            kind: PackageType::Data,
            method: "echo".to_string(),
            payload: Some(Any {
                type_url: "type.example/text".to_string(),
                value: payload.as_bytes().to_vec(),
            }),
            md: vec![MetadataEntry { key: "trace".to_string(), value: "t-1".to_string() }],
        }),
    }
}

fn call(sender: Option<&'static str>, receiver: Option<&'static str>) -> MetadataMap {
    let mut md = MetadataMap::new();
    if let Some(sender) = sender {
        md.insert("sender_id", AsciiMetadataValue::from_static(sender));
    }
    if let Some(receiver) = receiver {
        md.insert("receiver_id", AsciiMetadataValue::from_static(receiver));
    }
    md
}

#[test]
fn queue_capacity_is_32() {
    assert_eq!(QUEUE_CAPACITY, 32);
}

#[test]
fn new_server_has_no_endpoints() {
    let server = ChannelServer::new();
    assert_eq!(server.channels.len(), 0);
}

#[test]
fn accepted_call_registers_the_sender() {
    let mut server = ChannelServer::new();
    let conn = server.channel(&call(Some("alice"), Some("bob")), 11).unwrap();
    assert_eq!(conn.sender_id(), "alice");
    assert_eq!(conn.receiver_id(), "bob");
    assert_eq!(conn.queue(), 11);
    assert_eq!(conn.phase(), Phase::Forwarding);
    assert_eq!(server.channels.resolve("alice"), Some(11));
    assert_eq!(server.channels.resolve("bob"), None);
    assert_eq!(server.channels.len(), 1);
}

#[test]
fn call_without_sender_is_refused_and_registers_nothing() {
    let mut server = ChannelServer::new();
    server.channels.register("carol".to_string(), 1);
    let refused = server.channel(&call(None, Some("bob")), 11).unwrap_err();
    assert_eq!(refused, SetupError::Missing { key: "sender_id".to_string() });
    assert_eq!(refused.message(), "No sender_id in metadata");
    assert_eq!(server.channels.len(), 1);
    assert_eq!(server.channels.resolve("carol"), Some(1));
    assert_eq!(server.channels.resolve("bob"), None);
}

#[test]
fn call_without_receiver_is_refused_and_registers_nothing() {
    let mut server = ChannelServer::new();
    let refused = server.channel(&call(Some("alice"), None), 11).unwrap_err();
    assert_eq!(refused, SetupError::Missing { key: "receiver_id".to_string() });
    assert_eq!(server.channels.len(), 0);
    assert_eq!(server.channels.resolve("alice"), None);
}

#[test]
fn call_without_either_is_refused_over_the_sender() {
    let mut server = ChannelServer::new();
    let refused = server.channel(&call(None, None), 11).unwrap_err();
    assert_eq!(refused, SetupError::Missing { key: "sender_id".to_string() });
    assert_eq!(server.channels.len(), 0);
}

#[test]
fn call_with_unreadable_sender_is_refused() {
    let mut server = ChannelServer::new();
    let mut md = call(None, Some("bob"));
    md.insert("sender_id", AsciiMetadataValue::try_from(vec![0xc3u8, 0xa9]).unwrap());
    let refused = server.channel(&md, 11).unwrap_err();
    assert!(matches!(refused, SetupError::NotText { ref key, .. } if key == "sender_id"));
    assert_eq!(refused.code(), 3);
    assert_eq!(server.channels.len(), 0);
}

#[test]
fn call_with_unreadable_receiver_is_refused() {
    let mut server = ChannelServer::new();
    let mut md = call(Some("alice"), None);
    md.insert("receiver_id", AsciiMetadataValue::try_from(vec![0xffu8]).unwrap());
    let refused = server.channel(&md, 11).unwrap_err();
    assert!(matches!(refused, SetupError::NotText { ref key, .. } if key == "receiver_id"));
    assert_eq!(server.channels.len(), 0);
    assert_eq!(server.channels.resolve("alice"), None);
}

#[test]
fn second_call_of_the_same_sender_replaces_the_queue() {
    let mut server = ChannelServer::new();
    let first = server.channel(&call(Some("alice"), Some("bob")), 1).unwrap();
    let second = server.channel(&call(Some("alice"), Some("carol")), 2).unwrap();
    assert_eq!(server.channels.len(), 1);
    assert_eq!(server.channels.resolve("alice"), Some(2));
    assert_eq!(first.queue(), 1);
    assert_eq!(second.queue(), 2);
}

#[test]
fn open_registers_and_forwards() {
    let mut registry = Registry::new();
    let conn = Connection::open(&mut registry, "alice".to_string(), "bob".to_string(), 4);
    assert_eq!(conn.sender_id(), "alice");
    assert_eq!(conn.receiver_id(), "bob");
    assert_eq!(conn.queue(), 4);
    assert_eq!(conn.phase(), Phase::Forwarding);
    assert_eq!(registry.resolve("alice"), Some(4));
}

#[test]
fn messages_reach_a_registered_receiver_in_order_and_unchanged() {
    let mut registry = Registry::new();
    let mut alice = Connection::open(&mut registry, "alice".to_string(), "bob".to_string(), 1);
    let _bob = Connection::open(&mut registry, "bob".to_string(), "alice".to_string(), 2);
    let sent = vec![data(10, "one"), data(11, "two"), data(12, "three"), data(10, "again")];
    let mut delivered = Vec::new();
    for message in sent.iter() {
        match alice.forward(&registry, Inbound::Message(message.clone())) {
            Action::Forward { queue, message } => {
                assert_eq!(queue, 2);
                delivered.push(message);
            }
            other => panic!("expected Forward, got {:?}", other),
        }
        assert_eq!(alice.phase(), Phase::Forwarding);
    }
    assert_eq!(delivered, sent);
}

#[test]
fn message_without_a_package_is_forwarded_too() {
    let mut registry = Registry::new();
    let mut alice = Connection::open(&mut registry, "alice".to_string(), "bob".to_string(), 1);
    registry.register("bob".to_string(), 2);
    let bare = ChannelMessage { sid: 5, pkg: None };
    assert_eq!(
        alice.forward(&registry, Inbound::Message(bare.clone())),
        Action::Forward { queue: 2, message: bare }
    );
}

#[test]
fn forwarding_follows_the_receiver_to_its_newest_queue() {
    let mut registry = Registry::new();
    let mut alice = Connection::open(&mut registry, "alice".to_string(), "bob".to_string(), 1);
    registry.register("bob".to_string(), 2);
    assert_eq!(
        alice.forward(&registry, Inbound::Message(data(1, "a"))),
        Action::Forward { queue: 2, message: data(1, "a") }
    );
    registry.register("bob".to_string(), 3);
    assert_eq!(
        alice.forward(&registry, Inbound::Message(data(2, "b"))),
        Action::Forward { queue: 3, message: data(2, "b") }
    );
}

#[test]
fn a_sender_may_address_itself() {
    let mut registry = Registry::new();
    let mut echo = Connection::open(&mut registry, "echo".to_string(), "echo".to_string(), 8);
    assert_eq!(
        echo.forward(&registry, Inbound::Message(data(1, "ping"))),
        Action::Forward { queue: 8, message: data(1, "ping") }
    );
}

#[test]
fn unregistered_receiver_bounces_once_with_the_first_sequence_identifier() {
    let mut registry = Registry::new();
    let mut alice = Connection::open(&mut registry, "alice".to_string(), "bob".to_string(), 1);
    let first = alice.forward(&registry, Inbound::Message(data(77, "hello")));
    assert_eq!(first, Action::Bounce { queue: 1, message: build_unavailable(77) });
    assert_eq!(alice.phase(), Phase::Terminating);
    assert_eq!(alice.forward(&registry, Inbound::Message(data(78, "more"))), Action::Stop);
    assert_eq!(alice.forward(&registry, Inbound::Message(data(79, "more"))), Action::Stop);
    assert_eq!(alice.phase(), Phase::Terminating);
}

#[test]
fn nothing_is_forwarded_after_a_bounce_even_if_the_receiver_appears() {
    let mut registry = Registry::new();
    let mut alice = Connection::open(&mut registry, "alice".to_string(), "bob".to_string(), 1);
    assert!(matches!(
        alice.forward(&registry, Inbound::Message(data(1, "x"))),
        Action::Bounce { .. }
    ));
    registry.register("bob".to_string(), 2);
    assert_eq!(alice.forward(&registry, Inbound::Message(data(2, "y"))), Action::Stop);
}

#[test]
fn bounce_carries_an_unavailable_status() {
    let mut registry = Registry::new();
    let mut alice = Connection::open(&mut registry, "alice".to_string(), "bob".to_string(), 1);
    match alice.forward(&registry, Inbound::Message(data(2, "x"))) {
        Action::Bounce { queue, message } => {
            assert_eq!(queue, 1);
            assert_eq!(message.sid, 2);
            let pkg = message.pkg.unwrap();
            assert_eq!(pkg.kind, PackageType::Error);
            let payload = pkg.payload.unwrap();
            assert_eq!(payload.type_url, "type.googleapis.com/google.rpc.Status");
            assert_eq!(&payload.value[..2], &[0x08, 14]);
        }
        other => panic!("expected Bounce, got {:?}", other),
    }
}

#[test]
fn end_of_stream_stops_forwarding() {
    let mut registry = Registry::new();
    let mut alice = Connection::open(&mut registry, "alice".to_string(), "bob".to_string(), 1);
    registry.register("bob".to_string(), 2);
    assert_eq!(alice.forward(&registry, Inbound::Closed), Action::Stop);
    assert_eq!(alice.phase(), Phase::Terminating);
    assert_eq!(alice.forward(&registry, Inbound::Message(data(1, "late"))), Action::Stop);
}

#[test]
fn failed_read_stops_forwarding() {
    let mut registry = Registry::new();
    let mut alice = Connection::open(&mut registry, "alice".to_string(), "bob".to_string(), 1);
    registry.register("bob".to_string(), 2);
    assert_eq!(alice.forward(&registry, Inbound::Failed), Action::Stop);
    assert_eq!(alice.phase(), Phase::Terminating);
    assert_eq!(alice.forward(&registry, Inbound::Message(data(1, "late"))), Action::Stop);
}

#[test]
fn forwarding_leaves_the_registry_alone() {
    let mut registry = Registry::new();
    let mut alice = Connection::open(&mut registry, "alice".to_string(), "bob".to_string(), 1);
    let _ = alice.forward(&registry, Inbound::Message(data(1, "x")));
    let _ = alice.forward(&registry, Inbound::Closed);
    assert_eq!(registry.len(), 1);
    assert_eq!(registry.resolve("alice"), Some(1));
}

#[test]
fn connect_then_disconnect_leaves_nothing_registered() {
    let mut registry = Registry::new();
    let mut a = Connection::open(&mut registry, "A".to_string(), "B".to_string(), 3);
    assert_eq!(registry.resolve("A"), Some(3));
    assert_eq!(a.forward(&registry, Inbound::Closed), Action::Stop);
    assert_eq!(a.close(&mut registry), 3);
    assert_eq!(registry.resolve("A"), None);
    assert_eq!(registry.len(), 0);
}

#[test]
fn close_leaves_other_endpoints_registered() {
    let mut registry = Registry::new();
    let alice = Connection::open(&mut registry, "alice".to_string(), "bob".to_string(), 1);
    let _bob = Connection::open(&mut registry, "bob".to_string(), "alice".to_string(), 2);
    assert_eq!(alice.close(&mut registry), 1);
    assert_eq!(registry.resolve("alice"), None);
    assert_eq!(registry.resolve("bob"), Some(2));
}

#[test]
fn closing_an_older_connection_unregisters_the_identity_whoever_holds_it() {
    let mut registry = Registry::new();
    let older = Connection::open(&mut registry, "alice".to_string(), "bob".to_string(), 1);
    let newer = Connection::open(&mut registry, "alice".to_string(), "bob".to_string(), 2);
    assert_eq!(registry.resolve("alice"), Some(2));
    assert_eq!(older.close(&mut registry), 1);
    assert_eq!(registry.resolve("alice"), None);
    assert_eq!(newer.close(&mut registry), 2);
    assert_eq!(registry.len(), 0);
}

#[test]
fn alice_and_bob() {
    let mut server = ChannelServer::new();
    let mut alice = server.channel(&call(Some("alice"), Some("bob")), 1).unwrap();
    let bob = server.channel(&call(Some("bob"), Some("alice")), 2).unwrap();

    let hi = data(1, "hi");
    assert_eq!(
        alice.forward(&server.channels, Inbound::Message(hi.clone())),
        Action::Forward { queue: 2, message: hi }
    );

    assert_eq!(bob.close(&mut server.channels), 2);

    let bounced = alice.forward(&server.channels, Inbound::Message(data(2, "x")));
    assert_eq!(bounced, Action::Bounce { queue: 1, message: build_unavailable(2) });
    assert_eq!(alice.phase(), Phase::Terminating);
    assert_eq!(alice.forward(&server.channels, Inbound::Message(data(3, "y"))), Action::Stop);

    assert_eq!(alice.close(&mut server.channels), 1);
    assert_eq!(server.channels.len(), 0);
}
