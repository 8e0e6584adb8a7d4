use base64::engine::general_purpose::STANDARD;
use base64::Engine;
use mdk_e2e_test::event::{try_event_to_transport_message, EventError, RelayEvent};
use mdk_e2e_test::order::sort_events;
use mdk_e2e_test::peeler::{EncryptedPayload, GroupContextSnapshot, PeeledContent};
use mdk_e2e_test::publish::{
    can_encode, draft_key_package, draft_message, has_valid_signature, key_package_event, message_event,
    EventDraft,
};
use mdk_e2e_test::query::{event_filter, EventFilter, FilterError, TagFilter};
use mdk_e2e_test::transport::{
    MemberId, MessageId, Timestamp, TransportEnvelope, TransportMessage, TransportSource,
};
use mdk_e2e_test::{
    event_to_transport_message, pad32, RelayPeeler, KIND_GROUP_MESSAGE, KIND_KEY_PACKAGE,
    KIND_WELCOME,
};
use nostr_sdk::secp256k1::schnorr::Signature;
use nostr_sdk::{Event, EventId, Keys, Kind, PublicKey, SecretKey, Tag};

const SECRET: [u8; 32] = [0x11; 32];

fn author() -> Vec<u8> {
    let keys = Keys::new(SecretKey::from_slice(&SECRET).unwrap());
    keys.public_key().to_bytes().to_vec()
}

fn welcome(recipient: Vec<u8>, payload: &[u8]) -> TransportMessage {
    TransportMessage {
        id: MessageId(vec![1]),
        payload: payload.to_vec(),
        timestamp: Timestamp(9),
        causal_deps: vec![MessageId(vec![2])],
        source: TransportSource("test".to_string()),
        envelope: TransportEnvelope::Welcome {
            recipient: MemberId(recipient),
        },
    }
}

fn group_message(group: Vec<u8>, payload: &[u8]) -> TransportMessage {
    TransportMessage {
        envelope: TransportEnvelope::GroupMessage {
            transport_group_id: group,
        },
        ..welcome(vec![], payload)
    }
}

fn tags(list: &[[&str; 2]]) -> Vec<Vec<String>> {
    list.iter()
        .map(|tag| tag.iter().map(|part| part.to_string()).collect())
        .collect()
}

fn to_nostr(event: &RelayEvent) -> Event {
    Event::new(
        EventId::from_byte_array(event.id),
        PublicKey::from_byte_array(event.pubkey),
        nostr_sdk::Timestamp::from_secs(event.created_at),
        Kind::from(event.kind),
        event.tags.iter().map(|tag| Tag::parse(tag.clone()).unwrap()),
        event.content.clone(),
        Signature::from_slice(&event.sig).unwrap(),
    )
}

#[test]
fn drafts_are_exact() {
    assert_eq!(
        draft_message(&welcome(vec![0x00, 0xff, 0x1a], b"hello")),
        EventDraft {
            kind: 444,
            content: "aGVsbG8=".to_string(),
            tags: tags(&[["p", "00ff1a"]]),
        }
    );
    assert_eq!(
        draft_message(&group_message(vec![0xab], b"foobar")),
        EventDraft {
            kind: 445,
            content: "Zm9vYmFy".to_string(),
            tags: tags(&[["h", "ab"]]),
        }
    );
    assert_eq!(
        draft_key_package(&[0xff], &[]),
        EventDraft {
            kind: 443,
            content: "/w==".to_string(),
            tags: tags(&[["p", ""]]),
        }
    );
    assert!(can_encode(&[0; 10], &[1; 32]));
}

#[test]
fn signed_events_verify() {
    let message = welcome(pad32(b"bob"), b"payload");
    let event = message_event(&message, &SECRET);
    assert_eq!(event.pubkey.to_vec(), author());
    assert_eq!(event.kind, KIND_WELCOME);
    assert_eq!(event.content, STANDARD.encode(b"payload"));
    assert_eq!(event.tags, tags(&[["p", &hex::encode(pad32(b"bob"))]]));
    let nostr = to_nostr(&event);
    assert!(nostr.verify_id());
    assert!(nostr.verify_signature());
    assert_ne!(event.id, message_event(&welcome(pad32(b"bob"), b"other"), &SECRET).id);
}

#[test]
fn published_messages_are_read_back() {
    for payload in [&b""[..], b"a", b"ab", b"abc", &[0xff; 300]] {
        for message in [
            welcome(pad32(b"bob"), payload),
            welcome(vec![], payload),
            group_message(vec![0xab, 0xcd], payload),
            group_message(vec![], payload),
            group_message(author(), payload),
        ] {
            let event = message_event(&message, &SECRET);
            let back = event_to_transport_message(&event);
            assert_eq!(back.payload, message.payload);
            assert_eq!(back.envelope, message.envelope);
            assert_eq!(back.id, MessageId(event.id.to_vec()));
            assert_eq!(back.timestamp, Timestamp(event.created_at));
            assert_eq!(back.causal_deps, vec![]);
            assert_eq!(back.source, TransportSource("nostr".to_string()));
        }
    }
}

#[test]
fn signature_is_checked_for_author_and_id() {
    for event in [
        message_event(&welcome(pad32(b"bob"), b"x"), &SECRET),
        message_event(&group_message(vec![0xcd], b"x"), &SECRET),
        key_package_event(b"kp", &pad32(b"bob"), &SECRET),
    ] {
        assert!(has_valid_signature(&event));
        let mut other = event;
        other.content.push('!');
        other.tags.push(vec![]);
        assert!(has_valid_signature(&other));
        other.sig[0] ^= 1;
        assert!(!has_valid_signature(&other));
        other.sig[0] ^= 1;
        other.id[0] ^= 1;
        assert!(!has_valid_signature(&other));
        other.id[0] ^= 1;
        other.pubkey = [0xff; 32];
        assert!(!has_valid_signature(&other));
        other.pubkey = pad32(b"bob").try_into().unwrap();
        assert!(!has_valid_signature(&other));
        other.sig = [0; 64];
        assert!(!has_valid_signature(&other));
    }
}

#[test]
fn welcome_to_oneself_loses_its_recipient() {
    let event = message_event(&welcome(author(), b"payload"), &SECRET);
    assert_eq!(event.tags, Vec::<Vec<String>>::new());
    assert_eq!(
        try_event_to_transport_message(&event),
        Err(EventError::MissingRecipient)
    );
}

#[test]
fn key_packages_are_no_messages() {
    let event = key_package_event(b"key package", &pad32(b"bob"), &SECRET);
    assert_eq!(event.kind, KIND_KEY_PACKAGE);
    assert_eq!(
        STANDARD.decode(&event.content).unwrap(),
        b"key package".to_vec()
    );
    assert_eq!(event.tags, tags(&[["p", &hex::encode(pad32(b"bob"))]]));
    assert!(to_nostr(&event).verify().is_ok());
    assert_eq!(
        try_event_to_transport_message(&event),
        Err(EventError::UnexpectedKind(KIND_KEY_PACKAGE))
    );
}

#[test]
fn filters_are_exact() {
    assert_eq!(
        event_filter(443, None, None),
        Ok(EventFilter {
            kind: 443,
            since: None,
            tag: None
        })
    );
    let key = hex::encode([0xab; 32]);
    for value in [key.clone(), key.to_uppercase()] {
        assert_eq!(
            event_filter(444, Some(("p", &value)), Some(7)),
            Ok(EventFilter {
                kind: 444,
                since: Some(7),
                tag: Some(TagFilter::PublicKey([0xab; 32]))
            })
        );
    }
    assert_eq!(
        event_filter(445, Some(("h", "any value")), None),
        Ok(EventFilter {
            kind: 445,
            since: None,
            tag: Some(TagFilter::Group("any value".to_string()))
        })
    );
    for name in ["e", "P", "", "pp"] {
        assert_eq!(
            event_filter(1, Some((name, "x")), Some(1)),
            Ok(EventFilter {
                kind: 1,
                since: Some(1),
                tag: None
            })
        );
    }
}

#[test]
fn public_keys_in_filters_are_32_bytes_of_hex() {
    let key = hex::encode([0xab; 32]);
    let bad_digit = format!("ab{}", key[2..].replace('a', "x"));
    let wide_digit = format!("é{}", &key[2..]);
    for (value, error) in [
        ("", "Invalid string length"),
        ("zz", "Invalid string length"),
        ("z", "Odd number of digits"),
        (&key[1..], "Odd number of digits"),
        (&key[2..], "Invalid string length"),
        (&format!("{key}ab"), "Invalid string length"),
        (&bad_digit, "Invalid character 'x' at position 2"),
        (&wide_digit, "Invalid character 'Ã' at position 0"),
    ] {
        assert_eq!(
            event_filter(444, Some(("p", value)), None),
            Err(FilterError::InvalidPublicKey(error.to_string()))
        );
        assert_eq!(PublicKey::from_hex(value).unwrap_err().to_string(), error);
    }
}

#[test]
fn filters_find_what_was_published() {
    let bob = hex::encode(pad32(b"bob"));
    let event = message_event(&welcome(pad32(b"bob"), b"x"), &SECRET);
    let filter = event_filter(KIND_WELCOME, Some(("p", &bob)), None).unwrap();
    assert_eq!(filter.kind, event.kind);
    match filter.tag {
        Some(TagFilter::PublicKey(key)) => {
            assert_eq!(event.tags, tags(&[["p", &hex::encode(key)]]))
        }
        other => panic!("unexpected condition: {other:?}"),
    }
    let event = message_event(&group_message(vec![0xcd], b"x"), &SECRET);
    let filter = event_filter(KIND_GROUP_MESSAGE, Some(("h", "cd")), None).unwrap();
    assert_eq!(filter.kind, event.kind);
    assert_eq!(filter.tag, Some(TagFilter::Group(event.tags[0][1].clone())));
}

fn event_at(created_at: u64, number: u8) -> RelayEvent {
    RelayEvent {
        id: [number; 32],
        pubkey: [0; 32],
        created_at,
        kind: 1,
        tags: vec![],
        content: String::new(),
        sig: [0; 64],
    }
}

fn numbers(events: &[RelayEvent]) -> Vec<(u64, u8)> {
    events.iter().map(|e| (e.created_at, e.id[0])).collect()
}

#[test]
fn events_are_sorted_by_time() {
    assert_eq!(sort_events(vec![]), vec![]);
    let sorted = sort_events(vec![event_at(3, 0), event_at(1, 1), event_at(2, 2)]);
    assert_eq!(numbers(&sorted), vec![(1, 1), (2, 2), (3, 0)]);
    let again = sort_events(sorted);
    assert_eq!(numbers(&again), vec![(1, 1), (2, 2), (3, 0)]);
}

#[test]
fn events_of_the_same_time_keep_their_order() {
    let sorted = sort_events(vec![
        event_at(5, 0),
        event_at(u64::MAX, 1),
        event_at(5, 2),
        event_at(0, 3),
        event_at(5, 4),
        event_at(0, 5),
    ]);
    assert_eq!(
        numbers(&sorted),
        vec![(0, 3), (0, 5), (5, 0), (5, 2), (5, 4), (u64::MAX, 1)]
    );
}

#[test]
fn sorting_agrees_with_std() {
    let mut state: u64 = 1;
    let mut events: Vec<RelayEvent> = Vec::new();
    for number in 0..200u8 {
        state = state.wrapping_mul(6364136223846793005).wrapping_add(1442695040888963407);
        events.push(event_at((state >> 33) % 17, number));
    }
    let mut expected = numbers(&events);
    expected.sort_by_key(|(time, _)| *time);
    assert_eq!(numbers(&sort_events(events)), expected);
}

#[test]
fn group_flow_without_a_relay() {
    let bob = pad32(b"bob");
    let group_id = vec![0xaa; 16];

    let key_package = key_package_event(b"bob kp", &bob, &SECRET);
    assert_eq!(
        STANDARD.decode(key_package.content.as_bytes()).unwrap(),
        b"bob kp".to_vec()
    );

    let invitation = EncryptedPayload {
        ciphertext: b"welcome to the group".to_vec(),
    };
    let welcome = RelayPeeler.wrap_welcome(&invitation, &MemberId::new(bob.clone()));
    let fetched = event_to_transport_message(&message_event(&welcome, &SECRET));
    assert_eq!(fetched.envelope, welcome.envelope);
    assert_eq!(
        RelayPeeler.peel_welcome(&fetched).content,
        PeeledContent::Welcome {
            bytes: b"welcome to the group".to_vec()
        }
    );

    let context = GroupContextSnapshot {
        transport_group_id: Some(group_id),
    };
    for text in ["hello from alice", "hello from bob"] {
        let payload = EncryptedPayload {
            ciphertext: text.as_bytes().to_vec(),
        };
        let sent = RelayPeeler.wrap_group_message(&payload, &context);
        let fetched = event_to_transport_message(&message_event(&sent, &SECRET));
        assert_eq!(fetched.envelope, sent.envelope);
        assert_eq!(
            RelayPeeler.peel_group_message(&fetched, &context).content,
            PeeledContent::MlsMessage {
                bytes: text.as_bytes().to_vec()
            }
        );
    }
}
