use mdk_e2e_test::bytes::u64_to_be;
use mdk_e2e_test::peeler::{
    digest_id, hash_id, wrap, EncryptedPayload, GroupContextSnapshot, PeeledContent,
};
use mdk_e2e_test::transport::{
    MemberId, MessageId, Timestamp, TransportEnvelope, TransportMessage, TransportSource,
};
use mdk_e2e_test::RelayPeeler;
use std::collections::hash_map::DefaultHasher;
use std::hash::{Hash, Hasher};

fn std_id(bytes: &[u8]) -> Vec<u8> {
    let mut hasher = DefaultHasher::new();
    bytes.hash(&mut hasher);
    hasher.finish().to_be_bytes().to_vec()
}

fn group(id: &[u8]) -> GroupContextSnapshot {
    GroupContextSnapshot {
        transport_group_id: Some(id.to_vec()),
    }
}

#[test]
fn numbers_are_big_endian() {
    assert_eq!(u64_to_be(0), vec![0; 8]);
    assert_eq!(u64_to_be(0x0102030405060708), vec![1, 2, 3, 4, 5, 6, 7, 8]);
    assert_eq!(u64_to_be(u64::MAX), vec![0xff; 8]);
    for x in [1u64, 255, 256, 65_536, 1 << 40, u64::MAX - 1] {
        assert_eq!(u64_to_be(x), x.to_be_bytes().to_vec());
    }
    assert_eq!(
        digest_id(0x0102030405060708),
        MessageId(vec![1, 2, 3, 4, 5, 6, 7, 8])
    );
}

#[test]
fn ids_are_default_hashes() {
    for bytes in [&b""[..], b"a", b"hello", &[0u8; 1000]] {
        let id = hash_id(bytes);
        assert_eq!(id.as_slice().len(), 8);
        assert_eq!(id.as_slice(), std_id(bytes).as_slice());
        assert_eq!(id, hash_id(bytes));
    }
    assert_ne!(hash_id(b"a"), hash_id(b"b"));
}

#[test]
fn wrapped_group_message() {
    let payload = EncryptedPayload {
        ciphertext: b"hello".to_vec(),
    };
    let message = RelayPeeler.wrap_group_message(&payload, &group(&[1, 2]));
    assert_eq!(
        message,
        TransportMessage {
            id: MessageId(std_id(b"hello")),
            payload: b"hello".to_vec(),
            timestamp: Timestamp(0),
            causal_deps: vec![],
            source: TransportSource("relay-test".to_string()),
            envelope: TransportEnvelope::GroupMessage {
                transport_group_id: vec![1, 2]
            },
        }
    );
}

#[test]
fn group_without_transport_id_is_routed_by_the_empty_id() {
    let payload = EncryptedPayload { ciphertext: vec![] };
    let context = GroupContextSnapshot {
        transport_group_id: None,
    };
    let message = RelayPeeler.wrap_group_message(&payload, &context);
    assert_eq!(
        message.envelope,
        TransportEnvelope::GroupMessage {
            transport_group_id: vec![]
        }
    );
    assert_eq!(message.id, MessageId(std_id(b"")));
}

#[test]
fn wrapped_welcome() {
    let payload = EncryptedPayload {
        ciphertext: b"welcome".to_vec(),
    };
    let bob = MemberId::new(vec![7; 32]);
    let message = RelayPeeler.wrap_welcome(&payload, &bob);
    assert_eq!(message.id, MessageId(std_id(b"welcome")));
    assert_eq!(message.payload, b"welcome".to_vec());
    assert_eq!(message.timestamp, Timestamp(0));
    assert_eq!(message.causal_deps, vec![]);
    assert_eq!(message.source, TransportSource("relay-test".to_string()));
    assert_eq!(message.envelope, TransportEnvelope::Welcome { recipient: bob });
}

#[test]
fn wrap_takes_the_id_as_it_is() {
    let payload = EncryptedPayload {
        ciphertext: b"x".to_vec(),
    };
    let envelope = TransportEnvelope::GroupMessage {
        transport_group_id: vec![3],
    };
    let message = wrap(MessageId(vec![9]), &payload, envelope);
    assert_eq!(message.id, MessageId(vec![9]));
    assert_eq!(message.payload, b"x".to_vec());
}

#[test]
fn group_messages_pass_through() {
    let payload = EncryptedPayload {
        ciphertext: vec![0, 1, 2, 255],
    };
    let message = RelayPeeler.wrap_group_message(&payload, &group(&[5]));
    let peeled = RelayPeeler.peel_group_message(&message, &group(&[5]));
    assert_eq!(peeled.id, message.id);
    assert_eq!(peeled.group_id, None);
    assert_eq!(peeled.sender, None);
    assert_eq!(
        peeled.content,
        PeeledContent::MlsMessage {
            bytes: payload.ciphertext
        }
    );
    assert_eq!(peeled.origin, message);
}

#[test]
fn welcomes_pass_through() {
    let payload = EncryptedPayload {
        ciphertext: vec![0, 1, 2, 255],
    };
    let mut message = RelayPeeler.wrap_welcome(&payload, &MemberId(vec![1]));
    message.causal_deps = vec![MessageId(vec![4]), MessageId(vec![])];
    let peeled = RelayPeeler.peel_welcome(&message);
    assert_eq!(peeled.id, message.id);
    assert_eq!(peeled.group_id, None);
    assert_eq!(peeled.sender, None);
    assert_eq!(
        peeled.content,
        PeeledContent::Welcome {
            bytes: payload.ciphertext
        }
    );
    assert_eq!(peeled.origin, message);
}

#[test]
fn same_payload_differs_in_envelope_only() {
    let payload = EncryptedPayload {
        ciphertext: b"same".to_vec(),
    };
    let first = RelayPeeler.wrap_welcome(&payload, &MemberId(vec![1]));
    let second = RelayPeeler.wrap_welcome(&payload, &MemberId(vec![2]));
    let third = RelayPeeler.wrap_group_message(&payload, &group(&[3]));
    assert_ne!(first.envelope, second.envelope);
    for other in [second, third] {
        assert_eq!(
            first,
            TransportMessage {
                envelope: first.envelope.clone(),
                ..other
            }
        );
    }
}
