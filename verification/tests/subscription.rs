//! The end-to-end scenario: items published under interleaved topics reach a
//! reader subscribed to one topic, in publish order, and exhaustion is
//! terminal.

use domain_subscriber::{
    BufferedMessageStream, CommsPublicKey, DecodeError, DecodeMessage, DomainSubscriberError,
    InboundMessage, MessageInfo, PeerNodeIdentity, SyncDomainSubscription,
};

#[derive(Debug, Clone, PartialEq)]
struct Dummy {
    a: u32,
    b: String,
}

/// Wire format used by these tests: four little-endian bytes for `a`, then
/// the UTF-8 bytes of `b`.
fn encode_dummy(d: &Dummy) -> Vec<u8> {
    let mut bytes = d.a.to_le_bytes().to_vec();
    bytes.extend_from_slice(d.b.as_bytes());
    bytes
}

impl DecodeMessage for Dummy {
    fn decode(bytes: &Vec<u8>) -> Result<Dummy, DecodeError> {
        if bytes.len() < 4 {
            return Err(DecodeError);
        }
        let a = u32::from_le_bytes([bytes[0], bytes[1], bytes[2], bytes[3]]);
        match String::from_utf8(bytes[4..].to_vec()) {
            Ok(b) => Ok(Dummy { a, b }),
            Err(_) => Err(DecodeError),
        }
    }
}

fn test_identity() -> (PeerNodeIdentity, CommsPublicKey) {
    (
        PeerNodeIdentity {
            node_id: vec![0x4e, 0x4f, 0x44, 0x45],
        },
        CommsPublicKey {
            key: vec![0x50, 0x4b, 0x30, 0x31],
        },
    )
}

/// A stand-in for the external fan-out channel: keeps, in publish order, the
/// messages published under one topic, wrapped as raw inbound messages.
fn fan_out_to_topic(messages: &[(String, Dummy)], topic: &str) -> Vec<InboundMessage> {
    let mut items = Vec::new();
    for (published_topic, payload) in messages {
        if published_topic == topic {
            let (peer, origin) = test_identity();
            items.push(InboundMessage::new(peer, origin, encode_dummy(payload)));
        }
    }
    items
}

#[test]
fn topic_pub_sub() {
    let messages = vec![
        (
            "Topic1".to_string(),
            Dummy {
                a: 1u32,
                b: "one".to_string(),
            },
        ),
        (
            "Topic2".to_string(),
            Dummy {
                a: 2u32,
                b: "two".to_string(),
            },
        ),
        (
            "Topic1".to_string(),
            Dummy {
                a: 3u32,
                b: "three".to_string(),
            },
        ),
        (
            "Topic2".to_string(),
            Dummy {
                a: 4u32,
                b: "four".to_string(),
            },
        ),
        (
            "Topic1".to_string(),
            Dummy {
                a: 5u32,
                b: "five".to_string(),
            },
        ),
        (
            "Topic2".to_string(),
            Dummy {
                a: 6u32,
                b: "size".to_string(),
            },
        ),
        (
            "Topic1".to_string(),
            Dummy {
                a: 7u32,
                b: "seven".to_string(),
            },
        ),
    ];

    // All publishers have run and been dropped, so the per-topic source is
    // complete once its buffered items are drained.
    let subscription = BufferedMessageStream::from_parts(fan_out_to_topic(&messages, "Topic1"), true);

    let mut domain_sub = SyncDomainSubscription::new(subscription);

    let messages: Vec<(MessageInfo, Dummy)> = domain_sub.receive_messages::<Dummy>().unwrap();

    assert_eq!(
        domain_sub.receive_messages::<Dummy>().unwrap_err(),
        DomainSubscriberError::SubscriptionStreamEnded
    );

    assert_eq!(messages.len(), 4);
    assert_eq!(messages[0].1.a, 1);
    assert_eq!(messages[1].1.a, 3);
    assert_eq!(messages[2].1.a, 5);
    assert_eq!(messages[3].1.a, 7);
}

#[test]
fn other_topic_sees_its_own_items_only() {
    let messages = vec![
        ("Topic1".to_string(), Dummy { a: 1, b: "one".to_string() }),
        ("Topic2".to_string(), Dummy { a: 2, b: "two".to_string() }),
        ("Topic1".to_string(), Dummy { a: 3, b: "three".to_string() }),
        ("Topic2".to_string(), Dummy { a: 4, b: "four".to_string() }),
    ];

    let subscription = BufferedMessageStream::from_parts(fan_out_to_topic(&messages, "Topic2"), true);
    let mut domain_sub = SyncDomainSubscription::new(subscription);

    let received = domain_sub.receive_messages::<Dummy>().unwrap();
    assert_eq!(received.len(), 2);
    assert_eq!(received[0].1, Dummy { a: 2, b: "two".to_string() });
    assert_eq!(received[1].1, Dummy { a: 4, b: "four".to_string() });
}

#[test]
fn provenance_is_carried_beside_each_item() {
    let (peer, origin) = test_identity();
    let items = vec![InboundMessage::new(
        peer,
        origin,
        encode_dummy(&Dummy { a: 9, b: "nine".to_string() }),
    )];
    let mut domain_sub = SyncDomainSubscription::new(BufferedMessageStream::from_parts(items, true));

    let received = domain_sub.receive_messages::<Dummy>().unwrap();
    assert_eq!(received.len(), 1);
    let (expected_peer, expected_origin) = test_identity();
    assert_eq!(received[0].0.peer_source.node_id, expected_peer.node_id);
    assert_eq!(received[0].0.origin_source.key, expected_origin.key);
    assert_eq!(received[0].1.a, 9);
    assert_eq!(received[0].1.b, "nine");
}
