//! Client-side synchronization core for a chat application.
//!
//! The crate keeps a locally cached snapshot of conversations, contacts,
//! messages and participants consistent with an authoritative remote
//! service, across an unreliable bidirectional event stream.  It holds
//! the connection lifecycle state machine with its heartbeat and
//! reconnection policy, the inbound envelope decoder and dispatcher, the
//! outbound write queue, and the delta reconciler that merges remote
//! snapshots into the local cache under tombstone protection.
//!
//! All I/O stays outside: callers feed the library decoded frames,
//! fetched snapshots and clock readings, and perform the actions the
//! library decides on.

pub mod api;
pub mod dispatch;
pub mod envelope;
pub mod ext;
pub mod kv;
pub mod model;
pub mod naming;
pub mod outbound;
pub mod payload;
pub mod reconcile;
pub mod store;
pub mod tombstone;
pub mod util;
pub mod session;
