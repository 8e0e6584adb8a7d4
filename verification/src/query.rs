//! What is asked of a relay.

use crate::codec::{hex_bytes, hex_text, law_hex_round_trip};
use crate::event::{is_tag, EventView, KIND_GROUP_MESSAGE, KIND_KEY_PACKAGE, KIND_WELCOME};
use crate::publish::{is_signed, key_package_draft, lemma_signed_tags, message_draft};
use crate::transport::{EnvelopeView, MessageView};
use nostr_sdk::PublicKey;
use vstd::prelude::*;
use vstd::utf8::encode_utf8;

verus! {

/// A condition on the tags of an event.
#[derive(Debug, PartialEq, Eq)]
pub enum TagFilter {
    /// A `p` tag for this x-only public key.
    PublicKey([u8; 32]),
    /// An `h` tag with this value.
    Group(String),
}

/// Which events a relay is asked for.
#[derive(Debug, PartialEq, Eq)]
pub struct EventFilter {
    pub kind: u16,
    pub since: Option<u64>,
    pub tag: Option<TagFilter>,
}

/// Why a filter cannot be made.
#[derive(Debug, Clone, PartialEq, Eq)]
pub enum FilterError {
    /// The value for a `p` tag is not 32 bytes in hex. Holds what the key parser
    /// says of it.
    InvalidPublicKey(String),
}

/// View of a [`TagFilter`].
#[verifier::ext_equal]
pub enum TagFilterView {
    PublicKey(Seq<u8>),
    Group(Seq<char>),
}

/// View of an [`EventFilter`].
#[verifier::ext_equal]
pub struct FilterView {
    pub kind: u16,
    pub since: Option<u64>,
    pub tag: Option<TagFilterView>,
}

/// View of a [`FilterError`].
#[verifier::ext_equal]
pub enum FilterErrorView {
    InvalidPublicKey(Seq<char>),
}

impl View for FilterError {
    type V = FilterErrorView;

    open spec fn view(&self) -> FilterErrorView {
        match self {
            FilterError::InvalidPublicKey(text) => FilterErrorView::InvalidPublicKey(text@),
        }
    }
}

impl View for TagFilter {
    type V = TagFilterView;

    open spec fn view(&self) -> TagFilterView {
        match self {
            TagFilter::PublicKey(key) => TagFilterView::PublicKey(key@),
            TagFilter::Group(value) => TagFilterView::Group(value@),
        }
    }
}

impl View for EventFilter {
    type V = FilterView;

    open spec fn view(&self) -> FilterView {
        FilterView {
            kind: self.kind,
            since: self.since,
            tag: match self.tag {
                Some(tag) => Some(tag@),
                None => None,
            },
        }
    }
}

// ---------------------------------------------------------------------------
// Filters
// ---------------------------------------------------------------------------

/// The bytes of a public key written in hex, if `text` is one.
pub open spec fn public_key_bytes(text: Seq<char>) -> Option<Seq<u8>> {
    match hex_bytes(text) {
        Some(bytes) if bytes.len() == 32 => Some(bytes),
        _ => None,
    }
}

/// What the key parser of `nostr` says of a text of the right length that has a
/// character other than a hex digit in it.
pub uninterp spec fn nostr_invalid_digit(text: Seq<char>) -> Seq<char>;

/// What the key parser says of a text that is no public key. Lengths are those of
/// the text in UTF-8, and are looked at first.
pub open spec fn public_key_error(text: Seq<char>) -> Seq<char> {
    if encode_utf8(text).len() % 2 != 0 {
        "Odd number of digits"@
    } else if encode_utf8(text).len() != 64 {
        "Invalid string length"@
    } else {
        nostr_invalid_digit(text)
    }
}

/// The condition that a tag name and a value stand for. Names other than `p` and
/// `h` stand for none.
pub open spec fn tag_condition(tag: Option<(Seq<char>, Seq<char>)>) -> Result<
    Option<TagFilterView>,
    FilterErrorView,
> {
    match tag {
        None => Ok(None),
        Some((name, value)) => if name == "p"@ {
            match public_key_bytes(value) {
                Some(key) => Ok(Some(TagFilterView::PublicKey(key))),
                None => Err(FilterErrorView::InvalidPublicKey(public_key_error(value))),
            }
        } else if name == "h"@ {
            Ok(Some(TagFilterView::Group(value)))
        } else {
            Ok(None)
        },
    }
}

/// The filter for a kind, a tag and an earliest time.
pub open spec fn filter_for(
    kind: u16,
    tag: Option<(Seq<char>, Seq<char>)>,
    since: Option<u64>,
) -> Result<FilterView, FilterErrorView> {
    match tag_condition(tag) {
        Ok(tag) => Ok(FilterView { kind, since, tag }),
        Err(error) => Err(error),
    }
}

/// `PublicKey::from_hex` of `nostr`: takes exactly 64 hex digits of either case
/// and gives their bytes, without asking whether they are a point of the curve.
/// Of any other text it says, in this order, that its length is odd, that its
/// length is wrong, or which character is no digit; that last text is named here
/// and not spelled out.
#[verifier::external_body]
pub(crate) fn public_key_from_hex(text: &str) -> (r: Result<[u8; 32], String>)
    ensures
        match r {
            Ok(key) => public_key_bytes(text@) == Some(key@),
            Err(error) => public_key_bytes(text@) is None && error@ == (if encode_utf8(
                text@,
            ).len() % 2 != 0 {
                "Odd number of digits"@
            } else if encode_utf8(text@).len() != 64 {
                "Invalid string length"@
            } else {
                nostr_invalid_digit(text@)
            }),
        },
{
    PublicKey::from_hex(text).map(PublicKey::to_bytes).map_err(|e| e.to_string())
}

/// The filter for a kind, a tag (name and value) and an earliest time.
pub fn event_filter(kind: u16, tag_filter: Option<(&str, &str)>, since: Option<u64>) -> (r: Result<
    EventFilter,
    FilterError,
>)
    ensures
        ({
            let tag = match tag_filter {
                Some((name, value)) => Some((name@, value@)),
                None => None,
            };
            match r {
                Ok(filter) => filter_for(kind, tag, since) == Ok::<FilterView, FilterErrorView>(
                    filter@,
                ),
                Err(error) => filter_for(kind, tag, since) == Err::<FilterView, FilterErrorView>(
                    error@,
                ),
            }
        }),
        r matches Ok(filter) ==> {
            &&& filter.kind == kind
            &&& filter.since == since
        },
        r matches Ok(filter) ==> match filter.tag {
            Some(TagFilter::PublicKey(key)) => {
                &&& tag_filter matches Some((name, value))
                &&& name@ == "p"@
                &&& hex_bytes(value@) == Some(key@)
            },
            Some(TagFilter::Group(group)) => {
                &&& tag_filter matches Some((name, value))
                &&& name@ == "h"@
                &&& group@ == value@
            },
            None => tag_filter matches Some((name, _)) ==> name@ != "p"@ && name@ != "h"@,
        },
        r matches Err(FilterError::InvalidPublicKey(text)) ==> {
            &&& tag_filter matches Some((name, value))
            &&& name@ == "p"@
            &&& public_key_bytes(value@) is None
            &&& text@ == public_key_error(value@)
        },
{
    let (name, value) = match tag_filter {
        None => return Ok(EventFilter { kind, since, tag: None }),
        Some(pair) => pair,
    };
    let name: String = name.to_owned();
    if name == "p".to_owned() {
        match public_key_from_hex(value) {
            Ok(key) => Ok(EventFilter { kind, since, tag: Some(TagFilter::PublicKey(key)) }),
            Err(error) => Err(FilterError::InvalidPublicKey(error)),
        }
    } else if name == "h".to_owned() {
        Ok(EventFilter { kind, since, tag: Some(TagFilter::Group(value.to_owned())) })
    } else {
        Ok(EventFilter { kind, since, tag: None })
    }
}

// ---------------------------------------------------------------------------
// Laws
// ---------------------------------------------------------------------------

/// Whether `time` is not before the earliest time asked for.
pub open spec fn not_before(time: u64, since: Option<u64>) -> bool {
    match since {
        Some(since) => since <= time,
        None => true,
    }
}

/// Whether some tag is called `name` and has the value `value`.
pub open spec fn has_tag(tags: Seq<Seq<Seq<char>>>, name: Seq<char>, value: Seq<char>) -> bool {
    exists|i: int|
        0 <= i < tags.len() && is_tag(#[trigger] tags[i], name) && tags[i][1] == value
}

/// Whether an event is one that a relay is asked for.
pub open spec fn meets(event: EventView, filter: FilterView) -> bool {
    &&& event.kind == filter.kind
    &&& not_before(event.created_at, filter.since)
    &&& match filter.tag {
        Some(TagFilterView::PublicKey(key)) => has_tag(event.tags, "p"@, hex_text(key)),
        Some(TagFilterView::Group(value)) => has_tag(event.tags, "h"@, value),
        None => true,
    }
}

/// A filter says just what was asked for: the kind and the earliest time as they
/// were given, for a `p` tag the key that its value spells, for an `h` tag the
/// value itself, and for no tag or any other tag nothing. There is none only for a
/// `p` tag whose value does not spell 32 bytes, and the error says what is wrong
/// with it.
pub proof fn law_filter_as_asked(
    kind: u16,
    tag: Option<(Seq<char>, Seq<char>)>,
    since: Option<u64>,
)
    ensures
        match filter_for(kind, tag, since) {
            Ok(filter) => {
                &&& filter.kind == kind
                &&& filter.since == since
                &&& match filter.tag {
                    Some(TagFilterView::PublicKey(key)) => {
                        &&& tag matches Some((name, value))
                        &&& name == "p"@
                        &&& hex_bytes(value) == Some(key)
                        &&& key.len() == 32
                    },
                    Some(TagFilterView::Group(group)) => {
                        &&& tag matches Some((name, value))
                        &&& name == "h"@
                        &&& group == value
                    },
                    None => tag matches Some((name, _)) ==> name != "p"@ && name != "h"@,
                }
            },
            Err(FilterErrorView::InvalidPublicKey(text)) => {
                &&& tag matches Some((name, value))
                &&& name == "p"@
                &&& hex_bytes(value) matches Some(key) ==> key.len() != 32
                &&& text == (if encode_utf8(value).len() % 2 == 1 {
                    "Odd number of digits"@
                } else if encode_utf8(value).len() != 64 {
                    "Invalid string length"@
                } else {
                    nostr_invalid_digit(value)
                })
            },
        },
{
    reveal_strlit("p");
    reveal_strlit("h");
    assert("p"@[0] != "h"@[0]);
}

/// Whoever asks with a public key in hex asks for the events of the kind, from the
/// earliest time on, that name that key in a `p` tag, and for no others.
pub proof fn law_asks_for_public_key_only(
    kind: u16,
    key: Seq<u8>,
    since: Option<u64>,
    event: EventView,
)
    requires
        key.len() == 32,
    ensures
        filter_for(kind, Some(("p"@, hex_text(key))), since) matches Ok(filter) && (meets(
            event,
            filter,
        ) <==> {
            &&& event.kind == kind
            &&& since matches Some(earliest) ==> earliest <= event.created_at
            &&& exists|i: int|
                {
                    &&& 0 <= i < event.tags.len()
                    &&& (#[trigger] event.tags[i]).len() >= 2
                    &&& event.tags[i][0] == "p"@
                    &&& event.tags[i][1] == hex_text(key)
                }
        }),
{
    law_hex_round_trip(key);
}

/// Whoever asks with a group's value asks for the events of the kind, from the
/// earliest time on, that have that value in an `h` tag, and for no others.
pub proof fn law_asks_for_group_only(
    kind: u16,
    value: Seq<char>,
    since: Option<u64>,
    event: EventView,
)
    ensures
        filter_for(kind, Some(("h"@, value)), since) matches Ok(filter) && (meets(event, filter)
            <==> {
            &&& event.kind == kind
            &&& since matches Some(earliest) ==> earliest <= event.created_at
            &&& exists|i: int|
                {
                    &&& 0 <= i < event.tags.len()
                    &&& (#[trigger] event.tags[i]).len() >= 2
                    &&& event.tags[i][0] == "h"@
                    &&& event.tags[i][1] == value
                }
        }),
{
    reveal_strlit("p");
    reveal_strlit("h");
    assert("p"@[0] != "h"@[0]);
}

/// Whoever asks without a tag asks for all events of the kind from the earliest
/// time on, and for no others.
pub proof fn law_asks_for_kind_only(kind: u16, since: Option<u64>, event: EventView)
    ensures
        filter_for(kind, None, since) matches Ok(filter) && (meets(event, filter) <==> {
            &&& event.kind == kind
            &&& since matches Some(earliest) ==> earliest <= event.created_at
        }),
{
}

/// A member who asks for welcomes with their public key in hex asks for each
/// welcome that another author has published for them since the time asked for.
pub proof fn law_recipient_finds_welcome(
    message: MessageView,
    secret: Seq<u8>,
    event: EventView,
    since: Option<u64>,
)
    requires
        is_signed(message_draft(message), secret, event),
        message.envelope is Welcome,
        message.envelope->recipient.len() == 32,
        message.envelope->recipient != event.pubkey,
        not_before(event.created_at, since),
    ensures
        filter_for(
            KIND_WELCOME,
            Some(("p"@, hex_text(message.envelope->recipient))),
            since,
        ) matches Ok(filter) && meets(event, filter),
{
    lemma_signed_tags(message_draft(message), secret, event);
    law_hex_round_trip(message.envelope->recipient);
    law_hex_round_trip(event.pubkey);
    assert(is_tag(event.tags[0], "p"@));
}

/// Whoever asks for group messages with a group's transport id in hex asks for
/// each message that is published to the group since the time asked for.
pub proof fn law_group_finds_message(
    message: MessageView,
    secret: Seq<u8>,
    event: EventView,
    since: Option<u64>,
)
    requires
        is_signed(message_draft(message), secret, event),
        message.envelope is GroupMessage,
        not_before(event.created_at, since),
    ensures
        filter_for(
            KIND_GROUP_MESSAGE,
            Some(("h"@, hex_text(message.envelope->transport_group_id))),
            since,
        ) matches Ok(filter) && meets(event, filter),
{
    reveal_strlit("p");
    reveal_strlit("h");
    assert("p"@[0] != "h"@[0]);
    lemma_signed_tags(message_draft(message), secret, event);
    assert(is_tag(event.tags[0], "h"@));
}

/// Whoever asks for key packages with an owner's public key in hex asks for each
/// key package of that owner that another author has published since the time
/// asked for.
pub proof fn law_owner_finds_key_package(
    key_package: Seq<u8>,
    owner: Seq<u8>,
    secret: Seq<u8>,
    event: EventView,
    since: Option<u64>,
)
    requires
        is_signed(key_package_draft(key_package, owner), secret, event),
        owner.len() == 32,
        owner != event.pubkey,
        not_before(event.created_at, since),
    ensures
        filter_for(KIND_KEY_PACKAGE, Some(("p"@, hex_text(owner))), since) matches Ok(filter)
            && meets(event, filter),
{
    lemma_signed_tags(key_package_draft(key_package, owner), secret, event);
    law_hex_round_trip(owner);
    law_hex_round_trip(event.pubkey);
    assert(is_tag(event.tags[0], "p"@));
}

} // verus!
