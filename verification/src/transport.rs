//! Transport messages as they travel between a group engine and a relay.
//!
//! Every type has a mathematical view; contracts across the crate speak of the
//! views.

use vstd::prelude::*;

verus! {

/// Identifier of a transport message.
#[derive(Debug, PartialEq, Eq)]
pub struct MessageId(pub Vec<u8>);

/// Identifier of a group member: an x-only public key.
#[derive(Debug, PartialEq, Eq)]
pub struct MemberId(pub Vec<u8>);

/// Identifier of a group.
#[derive(Debug, PartialEq, Eq)]
pub struct GroupId(pub Vec<u8>);

/// Seconds since the Unix epoch.
#[derive(Debug, Clone, Copy, PartialEq, Eq)]
pub struct Timestamp(pub u64);

/// Name of the transport that a message came through.
#[derive(Debug, PartialEq, Eq)]
pub struct TransportSource(pub String);

/// Where a message is routed to.
#[derive(Debug, PartialEq, Eq)]
pub enum TransportEnvelope {
    /// An invitation for one member.
    Welcome { recipient: MemberId },
    /// A message for all of a group.
    GroupMessage { transport_group_id: Vec<u8> },
}

/// A message with its routing.
#[derive(Debug, PartialEq, Eq)]
pub struct TransportMessage {
    pub id: MessageId,
    pub payload: Vec<u8>,
    pub timestamp: Timestamp,
    pub causal_deps: Vec<MessageId>,
    pub source: TransportSource,
    pub envelope: TransportEnvelope,
}

/// View of a [`TransportEnvelope`].
#[verifier::ext_equal]
pub enum EnvelopeView {
    Welcome { recipient: Seq<u8> },
    GroupMessage { transport_group_id: Seq<u8> },
}

/// View of a [`TransportMessage`].
#[verifier::ext_equal]
pub struct MessageView {
    pub id: Seq<u8>,
    pub payload: Seq<u8>,
    pub timestamp: u64,
    pub causal_deps: Seq<Seq<u8>>,
    pub source: Seq<char>,
    pub envelope: EnvelopeView,
}

impl View for MessageId {
    type V = Seq<u8>;

    open spec fn view(&self) -> Seq<u8> {
        self.0@
    }
}

impl View for MemberId {
    type V = Seq<u8>;

    open spec fn view(&self) -> Seq<u8> {
        self.0@
    }
}

impl View for GroupId {
    type V = Seq<u8>;

    open spec fn view(&self) -> Seq<u8> {
        self.0@
    }
}

impl View for TransportEnvelope {
    type V = EnvelopeView;

    open spec fn view(&self) -> EnvelopeView {
        match self {
            TransportEnvelope::Welcome { recipient } => EnvelopeView::Welcome {
                recipient: recipient@,
            },
            TransportEnvelope::GroupMessage { transport_group_id } => EnvelopeView::GroupMessage {
                transport_group_id: transport_group_id@,
            },
        }
    }
}

impl View for TransportMessage {
    type V = MessageView;

    open spec fn view(&self) -> MessageView {
        MessageView {
            id: self.id@,
            payload: self.payload@,
            timestamp: self.timestamp.0,
            causal_deps: self.causal_deps@.map_values(|dep: MessageId| dep@),
            source: self.source.0@,
            envelope: self.envelope@,
        }
    }
}

impl MessageId {
    pub fn new(bytes: Vec<u8>) -> (id: Self)
        ensures
            id@ == bytes@,
            id.0@ == bytes@,
    {
        MessageId(bytes)
    }

    pub fn as_slice(&self) -> (bytes: &[u8])
        ensures
            bytes@ == self@,
            bytes@ == self.0@,
    {
        self.0.as_slice()
    }
}

impl MemberId {
    pub fn new(bytes: Vec<u8>) -> (id: Self)
        ensures
            id@ == bytes@,
            id.0@ == bytes@,
    {
        MemberId(bytes)
    }

    pub fn as_slice(&self) -> (bytes: &[u8])
        ensures
            bytes@ == self@,
            bytes@ == self.0@,
    {
        self.0.as_slice()
    }
}

impl Clone for MessageId {
    fn clone(&self) -> (copy: Self)
        ensures
            copy@ == self@,
            copy.0@ == self.0@,
    {
        MessageId(self.0.clone())
    }
}

impl Clone for MemberId {
    fn clone(&self) -> (copy: Self)
        ensures
            copy@ == self@,
            copy.0@ == self.0@,
    {
        MemberId(self.0.clone())
    }
}

impl Clone for TransportEnvelope {
    fn clone(&self) -> (copy: Self)
        ensures
            copy@ == self@,
            match self {
                TransportEnvelope::Welcome { recipient } => copy matches TransportEnvelope::Welcome {
                    recipient: to,
                } && to.0@ == recipient.0@,
                TransportEnvelope::GroupMessage {
                    transport_group_id,
                } => copy matches TransportEnvelope::GroupMessage { transport_group_id: id } && id@
                    == transport_group_id@,
            },
    {
        match self {
            TransportEnvelope::Welcome { recipient } => TransportEnvelope::Welcome {
                recipient: recipient.clone(),
            },
            TransportEnvelope::GroupMessage {
                transport_group_id,
            } => TransportEnvelope::GroupMessage { transport_group_id: transport_group_id.clone() },
        }
    }
}

impl Clone for TransportMessage {
    fn clone(&self) -> (copy: Self)
        ensures
            copy@ == self@,
            copy.id.0@ == self.id.0@,
            copy.payload@ == self.payload@,
            copy.timestamp == self.timestamp,
            copy.causal_deps@.len() == self.causal_deps@.len(),
            copy.source.0@ == self.source.0@,
    {
        let copy = TransportMessage {
            id: self.id.clone(),
            payload: self.payload.clone(),
            timestamp: self.timestamp,
            causal_deps: self.causal_deps.clone(),
            source: TransportSource(self.source.0.clone()),
            envelope: self.envelope.clone(),
        };
        assert(copy@.causal_deps =~= self@.causal_deps);
        copy
    }
}

// ---------------------------------------------------------------------------
// Laws
// ---------------------------------------------------------------------------

/// The view of a message holds each of its parts as it is.
pub proof fn law_message_view(message: TransportMessage)
    ensures
        message@.id == message.id.0@,
        message@.payload == message.payload@,
        message@.timestamp == message.timestamp.0,
        message@.causal_deps.len() == message.causal_deps@.len(),
        forall|i: int|
            0 <= i < message.causal_deps@.len() ==> #[trigger] message@.causal_deps[i]
                == message.causal_deps@[i].0@,
        message@.source == message.source.0@,
        match message.envelope {
            TransportEnvelope::Welcome { recipient } => message@.envelope == (
            EnvelopeView::Welcome { recipient: recipient.0@ }),
            TransportEnvelope::GroupMessage { transport_group_id } => message@.envelope == (
            EnvelopeView::GroupMessage { transport_group_id: transport_group_id@ }),
        },
{
}

} // verus!
