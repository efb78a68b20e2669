//! Coordination core for a live graph of audio endpoints discovered from a
//! media-server runtime.
//!
//! The crate models and verifies the decision logic of a capture manager:
//! a proxy lifecycle store that owns bound graph-object handles, a registry
//! listener that turns object notifications into typed discovery events, two
//! first-in first-out queues that carry events and rebind commands between
//! threads, a stream session controller that applies queued rebind commands
//! at the start of each realtime process callback, and a per-channel peak
//! accumulator over interleaved little-endian sample blocks.
//!
//! The graph-server transport itself (connection, object binding, callback
//! registration, buffer exchange) is an external collaborator: an embedding
//! binary performs those calls and feeds the resulting plain values into the
//! functions of this crate.

pub mod events;
pub mod manager;
pub mod peaks;
pub mod proxies;
pub mod queue;
pub mod registry;
pub mod session;
