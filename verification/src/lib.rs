//! Relay transport for end-to-end tests of encrypted group messaging over Nostr.
//!
//! - [`transport`]: the messages that a group engine sends and takes.
//! - [`peeler`]: a pass-through peeler, without an encryption layer.
//! - [`identity`]: deterministic secp256k1 identities from seeds.
//! - [`event`]: relay events, and the message that one holds.
//! - [`publish`]: the events that publish messages and key packages.
//! - [`query`]: what a relay is asked for.
//! - [`order`]: the order in which fetched events are handed out.
//! - [`codec`], [`bytes`]: hex, base64 and big-endian numbers.

pub mod bytes;
pub mod codec;
pub mod event;
pub mod identity;
pub mod order;
pub mod peeler;
pub mod publish;
pub mod query;
pub mod transport;

pub use event::{event_to_transport_message, KIND_GROUP_MESSAGE, KIND_KEY_PACKAGE, KIND_WELCOME};
pub use identity::{pad32, test_identity};
pub use peeler::RelayPeeler;
