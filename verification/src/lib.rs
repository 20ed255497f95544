//! Core of a party-recruitment aggregation service.
//!
//! Clients submit short-lived recruitment listings; the library validates
//! them, keeps one timestamped record per listing key (upsert semantics),
//! and fans accepted listings out to any number of live viewer connections
//! through a bounded broadcast bus.  Each connection is driven by an actor
//! state machine that interprets a small subscribe/unsubscribe protocol,
//! supervises per-channel forwarding tasks, and funnels outbound frames
//! through one ordered queue.
//!
//! Everything here is a plain-value model: timestamps are unix seconds,
//! payload text is opaque bytes, and the wire protocol is a byte-level
//! codec.  The I/O shell (HTTP endpoints, the websocket transport, the
//! durable store) lives outside this crate and drives these state machines
//! with the events it observes.

pub mod actor;
pub mod bus;
pub mod codec;
pub mod config;
pub mod ffxiv;
pub mod gate;
pub mod listing;
pub mod page;
pub mod protocol;
pub mod readable;
pub mod registry;
pub mod stats;
pub mod store;
pub mod template;
