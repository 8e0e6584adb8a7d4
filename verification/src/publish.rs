//! Events made from transport messages and key packages.

use crate::codec::{
    base64_bytes, base64_encode, base64_len, base64_text, hex_encode, hex_text,
    law_base64_round_trip, law_hex_round_trip,
};
use crate::event::{
    event_message, is_tag, tag_value, EventError, EventView, RelayEvent,
    KIND_GROUP_MESSAGE, KIND_KEY_PACKAGE, KIND_WELCOME,
};
use crate::identity::is_secret_scalar;
use crate::transport::{EnvelopeView, MessageView, TransportEnvelope, TransportMessage};
use nostr_sdk::secp256k1::schnorr::Signature;
use nostr_sdk::{
    Event, EventBuilder, EventId, Keys, Kind, PublicKey, SecretKey, Tag, Tags, Timestamp,
};
use vstd::prelude::*;

verus! {

/// An event before it is signed.
#[derive(Debug, PartialEq, Eq)]
pub struct EventDraft {
    pub kind: u16,
    pub content: String,
    pub tags: Vec<Vec<String>>,
}

/// View of an [`EventDraft`].
#[verifier::ext_equal]
pub struct DraftView {
    pub kind: u16,
    pub content: Seq<char>,
    pub tags: Seq<Seq<Seq<char>>>,
}

impl View for EventDraft {
    type V = DraftView;

    open spec fn view(&self) -> DraftView {
        DraftView { kind: self.kind, content: self.content@, tags: self.tags.deep_view() }
    }
}

// ---------------------------------------------------------------------------
// Model
// ---------------------------------------------------------------------------

/// A draft with one tag, whose value is `routing` in hex, and `payload` in
/// base64 as the content.
pub open spec fn routed_draft(
    kind: u16,
    payload: Seq<u8>,
    name: Seq<char>,
    routing: Seq<u8>,
) -> DraftView {
    DraftView { kind, content: base64_text(payload), tags: seq![seq![name, hex_text(routing)]] }
}

/// The draft that carries a transport message: a welcome names its recipient in
/// a `p` tag, a group message its group in an `h` tag.
pub open spec fn message_draft(message: MessageView) -> DraftView {
    match message.envelope {
        EnvelopeView::Welcome { recipient } => routed_draft(
            KIND_WELCOME,
            message.payload,
            "p"@,
            recipient,
        ),
        EnvelopeView::GroupMessage { transport_group_id } => routed_draft(
            KIND_GROUP_MESSAGE,
            message.payload,
            "h"@,
            transport_group_id,
        ),
    }
}

/// The draft that carries a key package and names its owner in a `p` tag.
pub open spec fn key_package_draft(key_package: Seq<u8>, owner: Seq<u8>) -> DraftView {
    routed_draft(KIND_KEY_PACKAGE, key_package, "p"@, owner)
}

/// Whether `tag` is a `p` tag for `author`.
pub open spec fn is_self_tag(tag: Seq<Seq<char>>, author: Seq<u8>) -> bool {
    is_tag(tag, "p"@) && tag[1] == hex_text(author)
}

/// The x-only public key that `nostr` derives from a secret scalar.
pub uninterp spec fn nostr_public_key(secret: Seq<u8>) -> Seq<u8>;

/// The event id that `nostr` computes from the other fields of an event.
pub uninterp spec fn nostr_event_id(
    pubkey: Seq<u8>,
    created_at: u64,
    kind: u16,
    tags: Seq<Seq<Seq<char>>>,
    content: Seq<char>,
) -> Seq<u8>;

/// Whether `nostr` accepts `sig` as a signature over `id` by the x-only public
/// key `pubkey`.
pub uninterp spec fn nostr_signature_verifies(
    pubkey: Seq<u8>,
    id: Seq<u8>,
    sig: Seq<u8>,
) -> bool;

/// Whether `event` is `draft` signed with `secret`, at whatever time. Tags that
/// name the author are gone, and the signature is one of the author over the id.
pub open spec fn is_signed(draft: DraftView, secret: Seq<u8>, event: EventView) -> bool {
    &&& event.pubkey == nostr_public_key(secret)
    &&& event.kind == draft.kind
    &&& event.content == draft.content
    &&& event.tags == draft.tags.filter(|tag: Seq<Seq<char>>| !is_self_tag(tag, event.pubkey))
    &&& event.id == nostr_event_id(
        event.pubkey,
        event.created_at,
        event.kind,
        event.tags,
        event.content,
    )
    &&& nostr_signature_verifies(event.pubkey, event.id, event.sig)
}

/// Whether `payload` in base64 and `routing` in hex fit in memory.
pub open spec fn fits(payload: Seq<u8>, routing: Seq<u8>) -> bool {
    &&& base64_len(payload.len()) <= isize::MAX
    &&& 2 * routing.len() <= isize::MAX
}

/// The bytes that a message is routed by.
pub open spec fn routing(envelope: EnvelopeView) -> Seq<u8> {
    match envelope {
        EnvelopeView::Welcome { recipient } => recipient,
        EnvelopeView::GroupMessage { transport_group_id } => transport_group_id,
    }
}

// ---------------------------------------------------------------------------
// Signing
// ---------------------------------------------------------------------------

/// `EventBuilder::sign_with_keys` of `nostr`, on a builder that holds the
/// draft's kind, content and tags: stamps the current time, drops `p` tags that
/// name the author, computes the id and signs it. The time is the machine's, so
/// nothing is said of it. The signature draws on the system's randomness, so it is
/// not said which it is; whichever it is, it verifies for the author over the id.
/// The call checks the id against itself and never fails; the conversion of the key
/// takes every scalar that `requires` admits, that of the tags every tag that has a
/// name.
#[verifier::external_body]
pub(crate) fn sign_with_keys(draft: &EventDraft, secret: &[u8]) -> (event: RelayEvent)
    requires
        is_secret_scalar(secret@),
        forall|i: int| 0 <= i < draft@.tags.len() ==> (#[trigger] draft@.tags[i]).len() > 0,
    ensures
        event@.pubkey == nostr_public_key(secret@),
        event@.kind == draft@.kind,
        event@.content == draft@.content,
        event@.tags == draft@.tags.filter(
            |tag: Seq<Seq<char>>| !is_self_tag(tag, event@.pubkey),
        ),
        event@.id == nostr_event_id(
            event@.pubkey,
            event@.created_at,
            event@.kind,
            event@.tags,
            event@.content,
        ),
        nostr_signature_verifies(event@.pubkey, event@.id, event@.sig),
{
    let keys = Keys::new(SecretKey::from_slice(secret).unwrap());
    let tags = Tags::parse(draft.tags.clone()).unwrap();
    let builder = EventBuilder::new(Kind::Custom(draft.kind), draft.content.clone()).tags(tags);
    let event = builder.sign_with_keys(&keys).unwrap();
    RelayEvent {
        id: event.id.to_bytes(),
        pubkey: event.pubkey.to_bytes(),
        created_at: event.created_at.as_secs(),
        kind: event.kind.as_u16(),
        tags: event.tags.into_iter().map(Tag::to_vec).collect(),
        content: event.content,
        sig: event.sig.serialize(),
    }
}

/// `Event::verify_signature` of `nostr`: whether the signature is one of the
/// event's author over the event's id. It reads no other field, so the event that
/// it is asked of holds no tags.
#[verifier::external_body]
pub(crate) fn verify_signature(event: &RelayEvent) -> (r: bool)
    ensures
        r == nostr_signature_verifies(event@.pubkey, event@.id, event@.sig),
{
    let id = EventId::from_byte_array(event.id);
    let pubkey = PublicKey::from_byte_array(event.pubkey);
    let created_at = Timestamp::from_secs(event.created_at);
    let kind = Kind::Custom(event.kind);
    let sig = Signature::from_slice(&event.sig).unwrap();
    Event::new(id, pubkey, created_at, kind, Tags::new(), event.content.clone(), sig)
        .verify_signature()
}

/// Whether the signature of an event is one of its author over its id.
pub fn has_valid_signature(event: &RelayEvent) -> (r: bool)
    ensures
        r == nostr_signature_verifies(event@.pubkey, event@.id, event@.sig),
        r == nostr_signature_verifies(event.pubkey@, event.id@, event.sig@),
{
    verify_signature(event)
}

// ---------------------------------------------------------------------------
// Drafting
// ---------------------------------------------------------------------------

/// Whether `payload` in base64 and `routing` in hex fit in memory.
pub fn can_encode(payload: &[u8], routing: &[u8]) -> (r: bool)
    ensures
        r == fits(payload@, routing@),
        r == (base64_text(payload@).len() <= isize::MAX && hex_text(routing@).len() <= isize::MAX),
{
    let max: usize = isize::MAX as usize;
    let groups: usize = payload.len() / 3 + (if payload.len() % 3 == 0 {
        0usize
    } else {
        1usize
    });
    groups <= max / 4 && routing.len() <= max / 2
}

/// A draft with one tag, whose value is `routing` in hex, and `payload` in
/// base64 as the content.
fn make_draft(kind: u16, payload: &[u8], name: &str, routing: &[u8]) -> (draft: EventDraft)
    requires
        fits(payload@, routing@),
    ensures
        draft@ == routed_draft(kind, payload@, name@, routing@),
{
    let mut tag: Vec<String> = Vec::new();
    tag.push(name.to_owned());
    tag.push(hex_encode(routing));
    let mut tags: Vec<Vec<String>> = Vec::new();
    tags.push(tag);
    let draft = EventDraft { kind, content: base64_encode(payload), tags };
    assert(tag.deep_view() =~= seq![name@, hex_text(routing@)]);
    assert(draft@.tags =~= seq![seq![name@, hex_text(routing@)]]);
    draft
}

/// The draft that carries a transport message.
pub fn draft_message(message: &TransportMessage) -> (draft: EventDraft)
    requires
        fits(message@.payload, routing(message@.envelope)),
    ensures
        draft@ == message_draft(message@),
        draft.content@ == base64_text(message.payload@),
        match message.envelope {
            TransportEnvelope::Welcome { recipient } => {
                &&& draft.kind == 444
                &&& draft.tags.deep_view() == seq![seq!["p"@, hex_text(recipient.0@)]]
            },
            TransportEnvelope::GroupMessage { transport_group_id } => {
                &&& draft.kind == 445
                &&& draft.tags.deep_view() == seq![seq!["h"@, hex_text(transport_group_id@)]]
            },
        },
{
    match &message.envelope {
        TransportEnvelope::Welcome { recipient } => make_draft(
            KIND_WELCOME,
            message.payload.as_slice(),
            "p",
            recipient.as_slice(),
        ),
        TransportEnvelope::GroupMessage { transport_group_id } => make_draft(
            KIND_GROUP_MESSAGE,
            message.payload.as_slice(),
            "h",
            transport_group_id.as_slice(),
        ),
    }
}

/// The draft that carries a key package of the given owner.
pub fn draft_key_package(key_package: &[u8], owner: &[u8]) -> (draft: EventDraft)
    requires
        fits(key_package@, owner@),
    ensures
        draft@ == key_package_draft(key_package@, owner@),
        draft.kind == 443,
        draft.content@ == base64_text(key_package@),
        draft.tags.deep_view() == seq![seq!["p"@, hex_text(owner@)]],
{
    make_draft(KIND_KEY_PACKAGE, key_package, "p", owner)
}

/// The signed event that publishes a transport message.
pub fn message_event(message: &TransportMessage, secret: &[u8]) -> (event: RelayEvent)
    requires
        is_secret_scalar(secret@),
        fits(message@.payload, routing(message@.envelope)),
    ensures
        is_signed(message_draft(message@), secret@, event@),
        event.pubkey@ == nostr_public_key(secret@),
        event.content@ == base64_text(message.payload@),
        match message.envelope {
            TransportEnvelope::Welcome { recipient } => {
                &&& event.kind == 444
                &&& event.tags.deep_view() == (if recipient.0@ == event.pubkey@ {
                    seq![]
                } else {
                    seq![seq!["p"@, hex_text(recipient.0@)]]
                })
            },
            TransportEnvelope::GroupMessage { transport_group_id } => {
                &&& event.kind == 445
                &&& event.tags.deep_view() == seq![seq!["h"@, hex_text(transport_group_id@)]]
            },
        },
        event.id@ == nostr_event_id(
            event.pubkey@,
            event.created_at,
            event.kind,
            event.tags.deep_view(),
            event.content@,
        ),
        nostr_signature_verifies(event.pubkey@, event.id@, event.sig@),
{
    let draft = draft_message(message);
    let event = sign_with_keys(&draft, secret);
    proof {
        law_message_event(message@, secret@, event@);
    }
    event
}

/// The signed event that publishes a key package of the given owner.
pub fn key_package_event(key_package: &[u8], owner: &[u8], secret: &[u8]) -> (event: RelayEvent)
    requires
        is_secret_scalar(secret@),
        fits(key_package@, owner@),
    ensures
        is_signed(key_package_draft(key_package@, owner@), secret@, event@),
        event.pubkey@ == nostr_public_key(secret@),
        event.kind == 443,
        event.content@ == base64_text(key_package@),
        event.tags.deep_view() == (if owner@ == event.pubkey@ {
            seq![]
        } else {
            seq![seq!["p"@, hex_text(owner@)]]
        }),
        event.id@ == nostr_event_id(
            event.pubkey@,
            event.created_at,
            event.kind,
            event.tags.deep_view(),
            event.content@,
        ),
        nostr_signature_verifies(event.pubkey@, event.id@, event.sig@),
{
    let draft = draft_key_package(key_package, owner);
    let event = sign_with_keys(&draft, secret);
    proof {
        law_key_package_event(key_package@, owner@, secret@, event@);
    }
    event
}

// ---------------------------------------------------------------------------
// Laws
// ---------------------------------------------------------------------------

/// The tags of a signed one-tag draft: the tag itself, unless it names the
/// author.
pub(crate) proof fn lemma_signed_tags(draft: DraftView, secret: Seq<u8>, event: EventView)
    requires
        is_signed(draft, secret, event),
        draft.tags.len() == 1,
    ensures
        event.tags == (if is_self_tag(draft.tags[0], event.pubkey) {
            seq![]
        } else {
            draft.tags
        }),
{
    let keep = |tag: Seq<Seq<char>>| !is_self_tag(tag, event.pubkey);
    reveal(Seq::filter);
    assert(draft.tags.drop_last() =~= seq![]);
    assert(draft.tags.drop_last().filter(keep) =~= seq![]);
    assert(draft.tags =~= seq![draft.tags[0]]);
    assert(event.tags =~= (if is_self_tag(draft.tags[0], event.pubkey) {
        seq![]
    } else {
        draft.tags
    }));
}

/// A payload and a routing can be encoded exactly where neither text is longer
/// than a `String` can be.
pub proof fn law_fits(payload: Seq<u8>, routing: Seq<u8>)
    ensures
        fits(payload, routing) <==> base64_text(payload).len() <= isize::MAX && hex_text(
            routing,
        ).len() <= isize::MAX,
{
}

/// A signed event is the draft in kind, content and tags, but for `p` tags that
/// name the author, under the author's key: the id is the one of what the event
/// holds, and the signature is valid for it.
pub proof fn law_signed_event(draft: DraftView, secret: Seq<u8>, event: EventView)
    requires
        is_signed(draft, secret, event),
    ensures
        event.pubkey == nostr_public_key(secret),
        event.kind == draft.kind,
        event.content == draft.content,
        event.tags == draft.tags.filter(
            |tag: Seq<Seq<char>>|
                !(tag.len() >= 2 && tag[0] == "p"@ && tag[1] == hex_text(event.pubkey)),
        ),
        event.id == nostr_event_id(
            event.pubkey,
            event.created_at,
            event.kind,
            event.tags,
            event.content,
        ),
        nostr_signature_verifies(event.pubkey, event.id, event.sig),
{
    let keep = |tag: Seq<Seq<char>>| !is_self_tag(tag, event.pubkey);
    let other = |tag: Seq<Seq<char>>|
        !(tag.len() >= 2 && tag[0] == "p"@ && tag[1] == hex_text(event.pubkey));
    assert(keep =~= other);
}

/// The content of a drafted message decodes to its payload, and its one tag
/// spells the bytes that the message is routed by: a recipient under `p`, a group
/// under `h`.
pub proof fn law_message_draft(message: MessageView)
    ensures
        base64_bytes(message_draft(message).content) == Some(message.payload),
        match message.envelope {
            EnvelopeView::Welcome { recipient } => {
                &&& message_draft(message).kind == 444
                &&& message_draft(message).tags == seq![seq!["p"@, hex_text(recipient)]]
                &&& routing(message.envelope) == recipient
            },
            EnvelopeView::GroupMessage { transport_group_id } => {
                &&& message_draft(message).kind == 445
                &&& message_draft(message).tags == seq![seq!["h"@, hex_text(transport_group_id)]]
                &&& routing(message.envelope) == transport_group_id
            },
        },
{
    law_base64_round_trip(message.payload);
}

/// The content of a drafted key package decodes to it, and its one tag names the
/// owner.
pub proof fn law_key_package_draft(key_package: Seq<u8>, owner: Seq<u8>)
    ensures
        base64_bytes(key_package_draft(key_package, owner).content) == Some(key_package),
        key_package_draft(key_package, owner).kind == 443,
        key_package_draft(key_package, owner).tags == seq![seq!["p"@, hex_text(owner)]],
{
    law_base64_round_trip(key_package);
}

/// Whoever reads the event of a published message finds the payload in its
/// content, and in its tag the recipient of a welcome or the group of a group
/// message. A welcome that its author addresses to themselves has no tag.
pub proof fn law_message_event(message: MessageView, secret: Seq<u8>, event: EventView)
    requires
        is_signed(message_draft(message), secret, event),
    ensures
        base64_bytes(event.content) == Some(message.payload),
        match message.envelope {
            EnvelopeView::Welcome { recipient } => {
                &&& event.kind == 444
                &&& event.tags == (if recipient == event.pubkey {
                    seq![]
                } else {
                    seq![seq!["p"@, hex_text(recipient)]]
                })
            },
            EnvelopeView::GroupMessage { transport_group_id } => {
                &&& event.kind == 445
                &&& event.tags == seq![seq!["h"@, hex_text(transport_group_id)]]
            },
        },
{
    reveal_strlit("p");
    reveal_strlit("h");
    assert("p"@[0] != "h"@[0]);
    lemma_signed_tags(message_draft(message), secret, event);
    law_base64_round_trip(message.payload);
    law_hex_round_trip(routing(message.envelope));
    law_hex_round_trip(event.pubkey);
}

/// What a relay event gives back of a published message is the payload and the
/// routing that went in. The identity and the time are the event's own, and the
/// source is the relay. The one exception is a welcome that its author
/// addresses to themselves: its `p` tag is dropped when it is signed.
pub proof fn law_publish_then_read(message: MessageView, secret: Seq<u8>, event: EventView)
    requires
        is_signed(message_draft(message), secret, event),
        message.envelope != (EnvelopeView::Welcome { recipient: event.pubkey }),
    ensures
        event_message(event) == Ok::<MessageView, EventError>(
            MessageView {
                id: event.id,
                payload: message.payload,
                timestamp: event.created_at,
                causal_deps: seq![],
                source: "nostr"@,
                envelope: message.envelope,
            },
        ),
{
    let draft = message_draft(message);
    let route = routing(message.envelope);
    reveal_strlit("p");
    reveal_strlit("h");
    assert("p"@[0] != "h"@[0]);
    lemma_signed_tags(draft, secret, event);
    law_base64_round_trip(message.payload);
    law_hex_round_trip(route);
    law_hex_round_trip(event.pubkey);
    assert(event.tags == draft.tags);
}

/// A welcome that its author addresses to themselves cannot be read back: the
/// event has no `p` tag.
pub proof fn law_self_welcome_unreadable(message: MessageView, secret: Seq<u8>, event: EventView)
    requires
        is_signed(message_draft(message), secret, event),
        message.envelope == (EnvelopeView::Welcome { recipient: event.pubkey }),
    ensures
        event_message(event) == Err::<MessageView, EventError>(EventError::MissingRecipient),
{
    lemma_signed_tags(message_draft(message), secret, event);
    law_base64_round_trip(message.payload);
}

/// A key package event holds the key package, and no transport message.
pub proof fn law_key_package_event(
    key_package: Seq<u8>,
    owner: Seq<u8>,
    secret: Seq<u8>,
    event: EventView,
)
    requires
        is_signed(key_package_draft(key_package, owner), secret, event),
    ensures
        base64_bytes(event.content) == Some(key_package),
        owner != event.pubkey ==> tag_value(event.tags, "p"@) == Some(hex_text(owner)),
        event.kind == 443,
        event.tags == (if owner == event.pubkey {
            seq![]
        } else {
            seq![seq!["p"@, hex_text(owner)]]
        }),
        event_message(event) == Err::<MessageView, EventError>(
            EventError::UnexpectedKind(KIND_KEY_PACKAGE),
        ),
{
    lemma_signed_tags(key_package_draft(key_package, owner), secret, event);
    law_base64_round_trip(key_package);
    law_hex_round_trip(owner);
    law_hex_round_trip(event.pubkey);
}

} // verus!
