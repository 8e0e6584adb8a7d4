use mdk_e2e_test::event::{find_tag_value, try_event_to_transport_message, EventError, RelayEvent};
use mdk_e2e_test::transport::{
    MemberId, MessageId, Timestamp, TransportEnvelope, TransportSource,
};
use mdk_e2e_test::{
    event_to_transport_message, KIND_GROUP_MESSAGE, KIND_KEY_PACKAGE, KIND_WELCOME,
};

fn tag(parts: &[&str]) -> Vec<String> {
    parts.iter().map(|part| part.to_string()).collect()
}

fn event(kind: u16, content: &str, tags: Vec<Vec<String>>) -> RelayEvent {
    RelayEvent {
        id: [3; 32],
        pubkey: [4; 32],
        created_at: 1_700_000_000,
        kind,
        tags,
        content: content.to_string(),
        sig: [5; 64],
    }
}

#[test]
fn kinds_have_their_numbers() {
    assert_eq!(KIND_KEY_PACKAGE, 443);
    assert_eq!(KIND_WELCOME, 444);
    assert_eq!(KIND_GROUP_MESSAGE, 445);
}

#[test]
fn welcome_is_read_back() {
    let event = event(KIND_WELCOME, "aGVsbG8=", vec![tag(&["p", "00fF10"])]);
    let message = event_to_transport_message(&event);
    assert_eq!(message.id, MessageId(vec![3; 32]));
    assert_eq!(message.payload, b"hello".to_vec());
    assert_eq!(message.timestamp, Timestamp(1_700_000_000));
    assert_eq!(message.causal_deps, vec![]);
    assert_eq!(message.source, TransportSource("nostr".to_string()));
    assert_eq!(
        message.envelope,
        TransportEnvelope::Welcome {
            recipient: MemberId(vec![0x00, 0xff, 0x10])
        }
    );
}

#[test]
fn group_message_is_read_back() {
    let event = event(
        KIND_GROUP_MESSAGE,
        "",
        vec![tag(&["p", "zz"]), tag(&["h", "0a", "extra"])],
    );
    let message = try_event_to_transport_message(&event).unwrap();
    assert_eq!(message.payload, Vec::<u8>::new());
    assert_eq!(
        message.envelope,
        TransportEnvelope::GroupMessage {
            transport_group_id: vec![0x0a]
        }
    );
}

#[test]
fn first_tag_with_a_value_counts() {
    let tags = vec![
        tag(&[]),
        tag(&["p"]),
        tag(&["h", "aa"]),
        tag(&["P", "bb"]),
        tag(&["p", "cc"]),
        tag(&["p", "dd"]),
    ];
    assert_eq!(find_tag_value(&tags, "p"), Some("cc".to_string()));
    assert_eq!(find_tag_value(&tags, "h"), Some("aa".to_string()));
    assert_eq!(find_tag_value(&tags, "e"), None);
    let message = event_to_transport_message(&event(KIND_WELCOME, "", tags));
    assert_eq!(
        message.envelope,
        TransportEnvelope::Welcome {
            recipient: MemberId(vec![0xcc])
        }
    );
}

#[test]
fn content_has_to_be_canonical_base64() {
    for content in [
        "aGVsbG8", "aGVsbG9=", "aGVsbG8==", "aGVs bG8=", "aGVsbG8=\n", "a", "====", "-_-_", "é",
    ] {
        let event = event(KIND_WELCOME, content, vec![]);
        assert_eq!(
            try_event_to_transport_message(&event),
            Err(EventError::InvalidContent),
            "{content:?}"
        );
    }
}

#[test]
fn base64_is_decoded_exactly() {
    for (content, payload) in [
        ("", &b""[..]),
        ("AA==", &[0]),
        ("AAA=", &[0, 0]),
        ("AAAA", &[0, 0, 0]),
        ("+/+/", &[0xfb, 0xff, 0xbf]),
        ("Zm9vYmFy", b"foobar"),
        ("/w==", &[0xff]),
    ] {
        let event = event(KIND_GROUP_MESSAGE, content, vec![tag(&["h", ""])]);
        let message = try_event_to_transport_message(&event).unwrap();
        assert_eq!(message.payload, payload.to_vec());
    }
}

#[test]
fn other_kinds_are_unexpected() {
    for kind in [0, 1, KIND_KEY_PACKAGE, 446, u16::MAX] {
        let event = event(kind, "", vec![tag(&["p", "aa"]), tag(&["h", "aa"])]);
        assert_eq!(
            try_event_to_transport_message(&event),
            Err(EventError::UnexpectedKind(kind))
        );
    }
}

#[test]
fn welcome_needs_a_recipient_in_hex() {
    let missing = event(KIND_WELCOME, "", vec![tag(&["h", "aa"]), tag(&["p"])]);
    assert_eq!(
        try_event_to_transport_message(&missing),
        Err(EventError::MissingRecipient)
    );
    for value in ["a", "abc", "gg", "a ", "éé"] {
        let invalid = event(KIND_WELCOME, "", vec![tag(&["p", value]), tag(&["p", "aa"])]);
        assert_eq!(
            try_event_to_transport_message(&invalid),
            Err(EventError::InvalidRecipient)
        );
    }
}

#[test]
fn group_message_needs_a_group_in_hex() {
    let missing = event(KIND_GROUP_MESSAGE, "", vec![tag(&["p", "aa"])]);
    assert_eq!(
        try_event_to_transport_message(&missing),
        Err(EventError::MissingGroup)
    );
    let invalid = event(KIND_GROUP_MESSAGE, "", vec![tag(&["h", "xyz"])]);
    assert_eq!(
        try_event_to_transport_message(&invalid),
        Err(EventError::InvalidGroup)
    );
}

#[test]
fn content_is_looked_at_before_the_kind() {
    let event = event(1, "!", vec![]);
    assert_eq!(
        try_event_to_transport_message(&event),
        Err(EventError::InvalidContent)
    );
}
