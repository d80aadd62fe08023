//! A minimal publish/subscribe broker core.
//!
//! Clients connect over a byte stream, send one newline-delimited JSON
//! handshake frame naming a method (`"publish"` or `"subscribe"`) and a topic,
//! and are then routed to publisher ingestion or subscriber fan-out. Topics
//! are held in a registry; each topic owns a bounded fan-out channel with an
//! independent read cursor per subscriber. This crate holds the verified
//! core: frame validation, the registry, and the channel; the surrounding
//! socket plumbing lives outside it.

pub mod broker;
pub mod channel;
pub mod protocol;
pub mod registry;
