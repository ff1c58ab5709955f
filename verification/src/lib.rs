//! A synchronous, batch-oriented bridge over an asynchronous, topic-filtered
//! message source.
//!
//! A [`SyncDomainSubscription`] owns (at most) one handle to an ordered
//! message source. Its single operation, `receive_messages`, runs one
//! non-blocking drain pass over the source, decodes every drained item in
//! arrival order, and hands the caller the decoded batch together with each
//! item's provenance. The reader distinguishes "nothing new was ready"
//! (an empty, successful batch) from "the source is permanently exhausted"
//! (a terminal error on every later call).

pub mod codec;
pub mod message;
pub mod stream;
pub mod subscriber;

pub use codec::{DecodeError, DecodeMessage, RawPayload};
pub use stream::{BufferedMessageStream, MessageStream, StreamEvent};
pub use subscriber::{DomainSubscriberError, SyncDomainSubscription};
pub use message::{CommsPublicKey, InboundMessage, MessageInfo, PeerNodeIdentity};
