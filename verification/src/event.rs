//! Relay events, and how a transport message is read back from one.

use crate::codec::{
    base64_bytes, base64_decode, base64_text, hex_bytes, hex_decode, law_base64_injective,
};
use crate::transport::{
    EnvelopeView, MemberId, MessageId, MessageView, Timestamp, TransportEnvelope, TransportMessage,
    TransportSource,
};
use vstd::prelude::*;
use vstd::slice::slice_to_vec;

verus! {

/// Event kind of a published key package.
pub const KIND_KEY_PACKAGE: u16 = 443;

/// Event kind of a welcome for one member.
pub const KIND_WELCOME: u16 = 444;

/// Event kind of a group message.
pub const KIND_GROUP_MESSAGE: u16 = 445;

/// A signed event as a relay stores it.
#[derive(Debug, PartialEq, Eq)]
pub struct RelayEvent {
    pub id: [u8; 32],
    pub pubkey: [u8; 32],
    pub created_at: u64,
    pub kind: u16,
    pub tags: Vec<Vec<String>>,
    pub content: String,
    pub sig: [u8; 64],
}

/// View of a [`RelayEvent`].
#[verifier::ext_equal]
pub struct EventView {
    pub id: Seq<u8>,
    pub pubkey: Seq<u8>,
    pub created_at: u64,
    pub kind: u16,
    pub tags: Seq<Seq<Seq<char>>>,
    pub content: Seq<char>,
    pub sig: Seq<u8>,
}

impl View for RelayEvent {
    type V = EventView;

    open spec fn view(&self) -> EventView {
        EventView {
            id: self.id@,
            pubkey: self.pubkey@,
            created_at: self.created_at,
            kind: self.kind,
            tags: self.tags.deep_view(),
            content: self.content@,
            sig: self.sig@,
        }
    }
}

/// Why an event does not hold a transport message.
#[derive(Debug, Clone, Copy, PartialEq, Eq)]
pub enum EventError {
    /// The content is not padded standard base64.
    InvalidContent,
    /// The kind is neither that of a welcome nor that of a group message.
    UnexpectedKind(u16),
    /// A welcome without a `p` tag.
    MissingRecipient,
    /// A welcome whose `p` tag is not hex.
    InvalidRecipient,
    /// A group message without an `h` tag.
    MissingGroup,
    /// A group message whose `h` tag is not hex.
    InvalidGroup,
}

// ---------------------------------------------------------------------------
// Model
// ---------------------------------------------------------------------------

/// Whether `tag` is called `name` and has a value.
pub open spec fn is_tag(tag: Seq<Seq<char>>, name: Seq<char>) -> bool {
    tag.len() >= 2 && tag[0] == name
}

/// The value of the first tag that is called `name` and has one.
pub open spec fn tag_value(tags: Seq<Seq<Seq<char>>>, name: Seq<char>) -> Option<Seq<char>>
    decreases tags.len(),
{
    if tags.len() == 0 {
        None
    } else if is_tag(tags[0], name) {
        Some(tags[0][1])
    } else {
        tag_value(tags.drop_first(), name)
    }
}

/// The routing that an event's kind and tags give.
pub open spec fn event_envelope(kind: u16, tags: Seq<Seq<Seq<char>>>) -> Result<
    EnvelopeView,
    EventError,
> {
    if kind == KIND_WELCOME {
        match tag_value(tags, "p"@) {
            None => Err(EventError::MissingRecipient),
            Some(value) => match hex_bytes(value) {
                None => Err(EventError::InvalidRecipient),
                Some(recipient) => Ok(EnvelopeView::Welcome { recipient }),
            },
        }
    } else if kind == KIND_GROUP_MESSAGE {
        match tag_value(tags, "h"@) {
            None => Err(EventError::MissingGroup),
            Some(value) => match hex_bytes(value) {
                None => Err(EventError::InvalidGroup),
                Some(transport_group_id) => Ok(EnvelopeView::GroupMessage { transport_group_id }),
            },
        }
    } else {
        Err(EventError::UnexpectedKind(kind))
    }
}

/// The transport message that an event holds: the payload is its content, the
/// routing its kind and tags, the identity and time its own.
pub open spec fn event_message(event: EventView) -> Result<MessageView, EventError> {
    match base64_bytes(event.content) {
        None => Err(EventError::InvalidContent),
        Some(payload) => match event_envelope(event.kind, event.tags) {
            Err(error) => Err(error),
            Ok(envelope) => Ok(
                MessageView {
                    id: event.id,
                    payload,
                    timestamp: event.created_at,
                    causal_deps: seq![],
                    source: "nostr"@,
                    envelope,
                },
            ),
        },
    }
}

// ---------------------------------------------------------------------------
// Reading
// ---------------------------------------------------------------------------

/// The value of the first tag that is called `name` and has one.
pub fn find_tag_value(tags: &Vec<Vec<String>>, name: &str) -> (value: Option<String>)
    ensures
        match value {
            Some(v) => tag_value(tags.deep_view(), name@) == Some(v@),
            None => tag_value(tags.deep_view(), name@) is None,
        },
{
    let wanted: String = name.to_owned();
    let ghost all = tags.deep_view();
    let mut i: usize = 0;
    assert(all.skip(0) =~= all);
    while i < tags.len()
        invariant
            i <= tags.len(),
            all == tags.deep_view(),
            wanted@ == name@,
            tag_value(all, name@) == tag_value(all.skip(i as int), name@),
        decreases tags.len() - i,
    {
        let tag = &tags[i];
        assert(all.skip(i as int)[0] == tag.deep_view());
        assert(all.skip(i as int).drop_first() =~= all.skip(i + 1));
        if tag.len() >= 2 && tag[0] == wanted {
            return Some(tag[1].clone());
        }
        i += 1;
    }
    None
}

/// The routing that an event's kind and tags give.
fn read_envelope(kind: u16, tags: &Vec<Vec<String>>) -> (r: Result<TransportEnvelope, EventError>)
    ensures
        match r {
            Ok(envelope) => event_envelope(kind, tags.deep_view()) == Ok::<EnvelopeView, EventError>(
                envelope@,
            ),
            Err(error) => event_envelope(kind, tags.deep_view()) == Err::<EnvelopeView, EventError>(
                error,
            ),
        },
{
    if kind == KIND_WELCOME {
        match find_tag_value(tags, "p") {
            None => Err(EventError::MissingRecipient),
            Some(value) => match hex_decode(value.as_str()) {
                Err(_) => Err(EventError::InvalidRecipient),
                Ok(bytes) => Ok(TransportEnvelope::Welcome { recipient: MemberId::new(bytes) }),
            },
        }
    } else if kind == KIND_GROUP_MESSAGE {
        match find_tag_value(tags, "h") {
            None => Err(EventError::MissingGroup),
            Some(value) => match hex_decode(value.as_str()) {
                Err(_) => Err(EventError::InvalidGroup),
                Ok(bytes) => Ok(TransportEnvelope::GroupMessage { transport_group_id: bytes }),
            },
        }
    } else {
        Err(EventError::UnexpectedKind(kind))
    }
}

/// Reads the transport message that an event holds, or says why it holds none.
pub fn try_event_to_transport_message(event: &RelayEvent) -> (r: Result<
    TransportMessage,
    EventError,
>)
    ensures
        match r {
            Ok(message) => event_message(event@) == Ok::<MessageView, EventError>(message@),
            Err(error) => event_message(event@) == Err::<MessageView, EventError>(error),
        },
        r matches Ok(message) ==> {
            &&& message.id.0@ == event.id@
            &&& base64_text(message.payload@) == event.content@
            &&& message.timestamp.0 == event.created_at
            &&& message.causal_deps@.len() == 0
            &&& message.source.0@ == "nostr"@
        },
        r matches Ok(message) ==> match message.envelope {
            TransportEnvelope::Welcome { recipient } => {
                &&& event.kind == 444
                &&& tag_value(event.tags.deep_view(), "p"@) matches Some(value)
                &&& hex_bytes(value) == Some(recipient.0@)
            },
            TransportEnvelope::GroupMessage { transport_group_id } => {
                &&& event.kind == 445
                &&& tag_value(event.tags.deep_view(), "h"@) matches Some(value)
                &&& hex_bytes(value) == Some(transport_group_id@)
            },
        },
{
    let payload = match base64_decode(event.content.as_str()) {
        Ok(payload) => payload,
        Err(_) => return Err(EventError::InvalidContent),
    };
    proof {
        law_base64_injective(base64_bytes(event.content@)->0, payload@);
    }
    match read_envelope(event.kind, &event.tags) {
        Err(error) => Err(error),
        Ok(envelope) => {
            let message = TransportMessage {
                id: MessageId::new(slice_to_vec(event.id.as_slice())),
                payload,
                timestamp: Timestamp(event.created_at),
                causal_deps: Vec::new(),
                source: TransportSource("nostr".to_owned()),
                envelope,
            };
            assert(message@.causal_deps =~= seq![]);
            Ok(message)
        },
    }
}

/// Reads the transport message that an event holds.
pub fn event_to_transport_message(event: &RelayEvent) -> (message: TransportMessage)
    requires
        event_message(event@) is Ok,
    ensures
        event_message(event@) == Ok::<MessageView, EventError>(message@),
{
    try_event_to_transport_message(event).unwrap()
}

// ---------------------------------------------------------------------------
// Laws
// ---------------------------------------------------------------------------

/// The view of an event holds each of its parts as it is.
pub proof fn law_event_view(event: RelayEvent)
    ensures
        event@.id == event.id@,
        event@.pubkey == event.pubkey@,
        event@.created_at == event.created_at,
        event@.kind == event.kind,
        event@.tags == event.tags.deep_view(),
        event@.content == event.content@,
        event@.sig == event.sig@,
{
}

/// The value of a tag name is that of a tag so called, and no earlier tag with a
/// value is so called. Only where no tag with a value is so called is there none.
pub proof fn law_tag_value(tags: Seq<Seq<Seq<char>>>, name: Seq<char>)
    ensures
        match tag_value(tags, name) {
            Some(value) => exists|i: int|
                {
                    &&& 0 <= i < tags.len()
                    &&& (#[trigger] tags[i]).len() >= 2
                    &&& tags[i][0] == name
                    &&& tags[i][1] == value
                    &&& forall|j: int|
                        0 <= j < i ==> (#[trigger] tags[j]).len() < 2 || tags[j][0] != name
                },
            None => forall|j: int|
                0 <= j < tags.len() ==> (#[trigger] tags[j]).len() < 2 || tags[j][0] != name,
        },
    decreases tags.len(),
{
    if tags.len() > 0 && !is_tag(tags[0], name) {
        let rest = tags.drop_first();
        law_tag_value(rest, name);
        assert forall|j: int| 1 <= j < tags.len() implies tags[j] == #[trigger] rest[j - 1] by {}
        match tag_value(rest, name) {
            Some(value) => {
                let k = choose|k: int|
                    {
                        &&& 0 <= k < rest.len()
                        &&& (#[trigger] rest[k]).len() >= 2
                        &&& rest[k][0] == name
                        &&& rest[k][1] == value
                        &&& forall|j: int|
                            0 <= j < k ==> (#[trigger] rest[j]).len() < 2 || rest[j][0] != name
                    };
                assert(tags[k + 1] == rest[k]);
                assert forall|j: int| 0 <= j < k + 1 implies (#[trigger] tags[j]).len() < 2
                    || tags[j][0] != name by {
                    if j > 0 {
                        assert(tags[j] == rest[j - 1]);
                    }
                }
            },
            None => {
                assert forall|j: int| 0 <= j < tags.len() implies (#[trigger] tags[j]).len() < 2
                    || tags[j][0] != name by {
                    if j > 0 {
                        assert(tags[j] == rest[j - 1]);
                    }
                }
            },
        }
    }
}

/// A message that is read from an event has the payload that the content decodes
/// to, the routing that the kind and the tag for that kind spell, the identity and
/// the time of the event, and no dependencies.
pub proof fn law_read_message(event: EventView, message: MessageView)
    requires
        event_message(event) == Ok::<MessageView, EventError>(message),
    ensures
        base64_bytes(event.content) == Some(message.payload),
        message.id == event.id,
        message.timestamp == event.created_at,
        message.causal_deps.len() == 0,
        message.source == "nostr"@,
        match message.envelope {
            EnvelopeView::Welcome { recipient } => {
                &&& event.kind == 444
                &&& tag_value(event.tags, "p"@) matches Some(value)
                &&& hex_bytes(value) == Some(recipient)
            },
            EnvelopeView::GroupMessage { transport_group_id } => {
                &&& event.kind == 445
                &&& tag_value(event.tags, "h"@) matches Some(value)
                &&& hex_bytes(value) == Some(transport_group_id)
            },
        },
{
}

/// Which events hold a message, and for which reason each other event holds none:
/// the content is looked at first, then the kind, then the tag for that kind.
pub proof fn law_event_refused(event: EventView)
    ensures
        match event_message(event) {
            Ok(_) => {
                &&& base64_bytes(event.content) is Some
                &&& event.kind == 444 || event.kind == 445
                &&& event.kind == 444 ==> (tag_value(event.tags, "p"@) matches Some(value)
                    && hex_bytes(value) is Some)
                &&& event.kind == 445 ==> (tag_value(event.tags, "h"@) matches Some(value)
                    && hex_bytes(value) is Some)
            },
            Err(EventError::InvalidContent) => base64_bytes(event.content) is None,
            Err(EventError::UnexpectedKind(kind)) => {
                &&& base64_bytes(event.content) is Some
                &&& kind == event.kind
                &&& kind != 444 && kind != 445
            },
            Err(EventError::MissingRecipient) => {
                &&& base64_bytes(event.content) is Some
                &&& event.kind == 444
                &&& tag_value(event.tags, "p"@) is None
            },
            Err(EventError::InvalidRecipient) => {
                &&& base64_bytes(event.content) is Some
                &&& event.kind == 444
                &&& tag_value(event.tags, "p"@) matches Some(value)
                &&& hex_bytes(value) is None
            },
            Err(EventError::MissingGroup) => {
                &&& base64_bytes(event.content) is Some
                &&& event.kind == 445
                &&& tag_value(event.tags, "h"@) is None
            },
            Err(EventError::InvalidGroup) => {
                &&& base64_bytes(event.content) is Some
                &&& event.kind == 445
                &&& tag_value(event.tags, "h"@) matches Some(value)
                &&& hex_bytes(value) is None
            },
        },
{
}

} // verus!
