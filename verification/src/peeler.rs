//! A peeler without an encryption layer: what the engine hands over travels as
//! it is.

use crate::bytes::{be_u64, be_value, law_be_u64_value, u64_to_be};
use crate::transport::{
    EnvelopeView, GroupId, MemberId, MessageId, MessageView, Timestamp, TransportEnvelope,
    TransportMessage, TransportSource,
};
use std::collections::hash_map::DefaultHasher;
use std::hash::{Hash, Hasher};
use vstd::prelude::*;
use vstd::std_specs::hash::DefaultHasherAdditionalSpecFns;

verus! {

/// A payload that the engine has encrypted.
#[derive(Debug)]
pub struct EncryptedPayload {
    pub ciphertext: Vec<u8>,
}

/// What the peeler reads of a group.
#[derive(Debug)]
pub struct GroupContextSnapshot {
    /// The id that the group is routed by, if it has one.
    pub transport_group_id: Option<Vec<u8>>,
}

/// What a transport message holds once it is peeled.
#[derive(Debug, PartialEq, Eq)]
pub enum PeeledContent {
    MlsMessage { bytes: Vec<u8> },
    Welcome { bytes: Vec<u8> },
}

/// A peeled transport message.
#[derive(Debug, PartialEq, Eq)]
pub struct PeeledMessage {
    pub id: MessageId,
    pub group_id: Option<GroupId>,
    pub sender: Option<MemberId>,
    pub content: PeeledContent,
    pub origin: TransportMessage,
}

/// View of a [`PeeledContent`].
#[verifier::ext_equal]
pub enum ContentView {
    MlsMessage { bytes: Seq<u8> },
    Welcome { bytes: Seq<u8> },
}

/// View of a [`PeeledMessage`].
#[verifier::ext_equal]
pub struct PeeledView {
    pub id: Seq<u8>,
    pub group_id: Option<Seq<u8>>,
    pub sender: Option<Seq<u8>>,
    pub content: ContentView,
    pub origin: MessageView,
}

impl View for GroupContextSnapshot {
    type V = Option<Seq<u8>>;

    open spec fn view(&self) -> Option<Seq<u8>> {
        match self.transport_group_id {
            Some(id) => Some(id@),
            None => None,
        }
    }
}

impl View for PeeledContent {
    type V = ContentView;

    open spec fn view(&self) -> ContentView {
        match self {
            PeeledContent::MlsMessage { bytes } => ContentView::MlsMessage { bytes: bytes@ },
            PeeledContent::Welcome { bytes } => ContentView::Welcome { bytes: bytes@ },
        }
    }
}

impl View for PeeledMessage {
    type V = PeeledView;

    open spec fn view(&self) -> PeeledView {
        PeeledView {
            id: self.id@,
            group_id: match self.group_id {
                Some(id) => Some(id@),
                None => None,
            },
            sender: match self.sender {
                Some(id) => Some(id@),
                None => None,
            },
            content: self.content@,
            origin: self.origin@,
        }
    }
}

// ---------------------------------------------------------------------------
// Model
// ---------------------------------------------------------------------------

/// Whether `writes` are what std's `Hash` for byte slices may feed a hasher for
/// `bytes`. Std leaves the writes open: they differ between platforms.
pub uninterp spec fn may_feed(bytes: Seq<u8>, writes: Seq<Seq<u8>>) -> bool;

/// Whether `id` is an id for `bytes`: the big-endian bytes of what std's default
/// hasher makes of them.
pub open spec fn is_hash_id(bytes: Seq<u8>, id: Seq<u8>) -> bool {
    exists|writes: Seq<Seq<u8>>| #[trigger]
        may_feed(bytes, writes) && id == be_u64(DefaultHasher::spec_finish(writes))
}

/// A message that the peeler wraps: the payload as it is, without time or
/// dependencies.
pub open spec fn wrapped(id: Seq<u8>, ciphertext: Seq<u8>, envelope: EnvelopeView) -> MessageView {
    MessageView {
        id,
        payload: ciphertext,
        timestamp: 0,
        causal_deps: seq![],
        source: "relay-test"@,
        envelope,
    }
}

/// The routing of a group message: the group's transport id, empty if the group
/// has none.
pub open spec fn group_envelope(transport_group_id: Option<Seq<u8>>) -> EnvelopeView {
    EnvelopeView::GroupMessage {
        transport_group_id: match transport_group_id {
            Some(id) => id,
            None => seq![],
        },
    }
}

/// A message that the peeler has peeled: same id, content as given, and nothing
/// known of group or sender.
pub open spec fn peeled(message: MessageView, content: ContentView) -> PeeledView {
    PeeledView { id: message.id, group_id: None, sender: None, content, origin: message }
}

// ---------------------------------------------------------------------------
// Ids
// ---------------------------------------------------------------------------

/// Std's `Hash::hash` for byte slices, on a default hasher: feeds the slice to
/// the hasher. By which writes is std's own affair and differs between
/// platforms, so nothing is said of them but that they are some such writes for
/// this slice.
#[verifier::external_body]
fn feed(bytes: &[u8], hasher: &mut DefaultHasher)
    ensures
        old(hasher)@.is_prefix_of(final(hasher)@),
        may_feed(bytes@, final(hasher)@.skip(old(hasher)@.len() as int)),
{
    bytes.hash(hasher);
}

/// The message id of a digest.
pub fn digest_id(digest: u64) -> (id: MessageId)
    ensures
        id@ == be_u64(digest),
{
    MessageId::new(u64_to_be(digest))
}

/// The message id of some bytes.
pub fn hash_id(bytes: &[u8]) -> (id: MessageId)
    ensures
        is_hash_id(bytes@, id@),
        id@.len() == 8,
{
    let mut hasher = DefaultHasher::new();
    feed(bytes, &mut hasher);
    assert(hasher@.skip(0) =~= hasher@);
    digest_id(hasher.finish())
}

// ---------------------------------------------------------------------------
// Peeler
// ---------------------------------------------------------------------------

/// The pass-through peeler.
pub struct RelayPeeler;

impl RelayPeeler {
    /// The payload of a group message, as the engine's message bytes.
    pub fn peel_group_message(&self, msg: &TransportMessage, _ctx: &GroupContextSnapshot) -> (r:
        PeeledMessage)
        ensures
            r@ == peeled(msg@, ContentView::MlsMessage { bytes: msg@.payload }),
            r.content matches PeeledContent::MlsMessage { bytes } && bytes@ == msg.payload@,
            r.id.0@ == msg.id.0@,
            r.group_id is None,
            r.sender is None,
            r.origin@ == msg@,
    {
        PeeledMessage {
            id: msg.id.clone(),
            group_id: None,
            sender: None,
            content: PeeledContent::MlsMessage { bytes: msg.payload.clone() },
            origin: msg.clone(),
        }
    }

    /// The payload of a welcome, as the engine's welcome bytes.
    pub fn peel_welcome(&self, msg: &TransportMessage) -> (r: PeeledMessage)
        ensures
            r@ == peeled(msg@, ContentView::Welcome { bytes: msg@.payload }),
            r.content matches PeeledContent::Welcome { bytes } && bytes@ == msg.payload@,
            r.id.0@ == msg.id.0@,
            r.group_id is None,
            r.sender is None,
            r.origin@ == msg@,
    {
        PeeledMessage {
            id: msg.id.clone(),
            group_id: None,
            sender: None,
            content: PeeledContent::Welcome { bytes: msg.payload.clone() },
            origin: msg.clone(),
        }
    }

    /// Routes an encrypted payload to a group.
    pub fn wrap_group_message(&self, payload: &EncryptedPayload, ctx: &GroupContextSnapshot) -> (r:
        TransportMessage)
        ensures
            is_hash_id(payload.ciphertext@, r@.id),
            r@ == wrapped(r@.id, payload.ciphertext@, group_envelope(ctx@)),
            r.payload@ == payload.ciphertext@,
            r.envelope matches TransportEnvelope::GroupMessage { transport_group_id } && (
            match ctx.transport_group_id {
                Some(id) => transport_group_id@ == id@,
                None => transport_group_id@.len() == 0,
            }),
    {
        let transport_group_id: Vec<u8> = match &ctx.transport_group_id {
            Some(id) => id.clone(),
            None => Vec::new(),
        };
        wrap(
            hash_id(payload.ciphertext.as_slice()),
            payload,
            TransportEnvelope::GroupMessage { transport_group_id },
        )
    }

    /// Routes an encrypted welcome to its recipient.
    pub fn wrap_welcome(&self, payload: &EncryptedPayload, recipient: &MemberId) -> (r:
        TransportMessage)
        ensures
            is_hash_id(payload.ciphertext@, r@.id),
            r@ == wrapped(
                r@.id,
                payload.ciphertext@,
                EnvelopeView::Welcome { recipient: recipient@ },
            ),
            r.payload@ == payload.ciphertext@,
            r.envelope matches TransportEnvelope::Welcome { recipient: to } && to.0@
                == recipient.0@,
    {
        wrap(
            hash_id(payload.ciphertext.as_slice()),
            payload,
            TransportEnvelope::Welcome { recipient: recipient.clone() },
        )
    }
}

/// Wraps a payload under the given id.
pub fn wrap(id: MessageId, payload: &EncryptedPayload, envelope: TransportEnvelope) -> (r:
    TransportMessage)
    ensures
        r@ == wrapped(id@, payload.ciphertext@, envelope@),
        r.id.0@ == id.0@,
        r.payload@ == payload.ciphertext@,
        r.timestamp.0 == 0,
        r.causal_deps@.len() == 0,
        r.source.0@ == "relay-test"@,
        r.envelope == envelope,
{
    let message = TransportMessage {
        id,
        payload: payload.ciphertext.clone(),
        timestamp: Timestamp(0),
        causal_deps: Vec::new(),
        source: TransportSource("relay-test".to_owned()),
        envelope,
    };
    assert(message@.causal_deps =~= seq![]);
    message
}

// ---------------------------------------------------------------------------
// Laws
// ---------------------------------------------------------------------------

/// A wrapped message carries the payload, the id and the routing that it was
/// wrapped with, at time zero, without dependencies, from the test relay.
pub proof fn law_wrapped_carries(id: Seq<u8>, ciphertext: Seq<u8>, envelope: EnvelopeView)
    ensures
        wrapped(id, ciphertext, envelope).payload == ciphertext,
        wrapped(id, ciphertext, envelope).id == id,
        wrapped(id, ciphertext, envelope).envelope == envelope,
        wrapped(id, ciphertext, envelope).timestamp == 0,
        wrapped(id, ciphertext, envelope).causal_deps.len() == 0,
        wrapped(id, ciphertext, envelope).source == "relay-test"@,
{
}

/// A message for a group that has a transport id is routed by just that id, and a
/// message for a group that has none by no bytes at all.
pub proof fn law_group_routing(transport_group_id: Option<Seq<u8>>)
    ensures
        group_envelope(transport_group_id) matches EnvelopeView::GroupMessage {
            transport_group_id: id,
        } && match transport_group_id {
            Some(own) => id == own,
            None => id.len() == 0,
        },
{
}

/// Messages for groups of different transport ids are routed differently.
pub proof fn law_group_routing_injective(one: Seq<u8>, other: Seq<u8>)
    requires
        group_envelope(Some(one)) == group_envelope(Some(other)),
    ensures
        one == other,
{
}

/// Peeling any message, wherever it came from, gives the content that it was
/// peeled to, under the message's own id, with the message beside it, and says
/// nothing of group or sender.
pub proof fn law_peeled_keeps(message: MessageView, content: ContentView)
    ensures
        peeled(message, content).content == content,
        peeled(message, content).id == message.id,
        peeled(message, content).origin == message,
        peeled(message, content).group_id is None,
        peeled(message, content).sender is None,
{
}

/// Peeling any group message gives its whole payload, as message bytes.
pub proof fn law_peeled_group_message(message: MessageView)
    ensures
        peeled(message, ContentView::MlsMessage { bytes: message.payload }).content
            matches ContentView::MlsMessage { bytes } && bytes == message.payload,
{
}

/// Peeling any welcome gives its whole payload, as welcome bytes.
pub proof fn law_peeled_welcome(message: MessageView)
    ensures
        peeled(message, ContentView::Welcome { bytes: message.payload }).content
            matches ContentView::Welcome { bytes } && bytes == message.payload,
{
}

/// An id of some bytes spells, in eight bytes, what std's default hasher makes of
/// writes for all of those bytes; and whatever it makes of such writes is an id of
/// them.
pub proof fn law_hash_id_spells_digest(bytes: Seq<u8>, id: Seq<u8>)
    ensures
        is_hash_id(bytes, id) ==> id.len() == 8 && exists|writes: Seq<Seq<u8>>| #[trigger]
            may_feed(bytes, writes) && be_value(id) == DefaultHasher::spec_finish(writes),
        forall|writes: Seq<Seq<u8>>| #[trigger]
            may_feed(bytes, writes) ==> is_hash_id(
                bytes,
                be_u64(DefaultHasher::spec_finish(writes)),
            ),
{
    if is_hash_id(bytes, id) {
        let writes = choose|writes: Seq<Seq<u8>>| #[trigger]
            may_feed(bytes, writes) && id == be_u64(DefaultHasher::spec_finish(writes));
        law_be_u64_value(DefaultHasher::spec_finish(writes));
    }
}

/// Nothing is added to a group message and nothing is taken away: peeling a
/// wrapped payload gives the payload, under the id that it was wrapped with.
pub proof fn law_group_message_passes_through(
    id: Seq<u8>,
    ciphertext: Seq<u8>,
    transport_group_id: Option<Seq<u8>>,
)
    ensures
        ({
            let message = wrapped(id, ciphertext, group_envelope(transport_group_id));
            let r = peeled(message, ContentView::MlsMessage { bytes: message.payload });
            &&& r.content == (ContentView::MlsMessage { bytes: ciphertext })
            &&& r.id == id
            &&& r.origin == message
        }),
{
}

/// Nothing is added to a welcome and nothing is taken away: peeling a wrapped
/// payload gives the payload, under the id that it was wrapped with.
pub proof fn law_welcome_passes_through(id: Seq<u8>, ciphertext: Seq<u8>, recipient: Seq<u8>)
    ensures
        ({
            let message = wrapped(id, ciphertext, EnvelopeView::Welcome { recipient });
            let r = peeled(message, ContentView::Welcome { bytes: message.payload });
            &&& r.content == (ContentView::Welcome { bytes: ciphertext })
            &&& r.id == id
            &&& r.origin == message
        }),
{
}

/// The id of any bytes is eight bytes long.
pub proof fn law_hash_id_len(bytes: Seq<u8>, id: Seq<u8>)
    requires
        is_hash_id(bytes, id),
    ensures
        id.len() == 8,
{
}

/// Messages that are wrapped from the same payload under the same id differ in
/// nothing but the envelope, be they for a member or for a group.
pub proof fn law_wrapped_differ_in_envelope(
    id: Seq<u8>,
    ciphertext: Seq<u8>,
    one: EnvelopeView,
    other: EnvelopeView,
)
    ensures
        wrapped(id, ciphertext, one) == (MessageView {
            envelope: one,
            ..wrapped(id, ciphertext, other)
        }),
{
}

/// Whether all that std may feed a hasher for `bytes` is one sequence of writes, as
/// on a single platform.
pub open spec fn feeds_one_way(bytes: Seq<u8>) -> bool {
    forall|v: Seq<Seq<u8>>, w: Seq<Seq<u8>>| #[trigger]
        may_feed(bytes, v) && #[trigger] may_feed(bytes, w) ==> v == w
}

/// Where std feeds a payload to a hasher in one way, the id of a message depends on
/// the payload alone: messages that are wrapped from it, for whomever and as
/// whatever, have the same id.
pub proof fn law_id_by_payload_where_fed_one_way(
    ciphertext: Seq<u8>,
    one: MessageView,
    other: MessageView,
)
    requires
        is_hash_id(ciphertext, one.id),
        is_hash_id(ciphertext, other.id),
        one == wrapped(one.id, ciphertext, one.envelope),
        other == wrapped(other.id, ciphertext, other.envelope),
    ensures
        feeds_one_way(ciphertext) ==> one == (MessageView { envelope: one.envelope, ..other }),
{
}

} // verus!
