//! Sans-I/O core of a minimal relay chain node.
//!
//! The node follows a relay chain through a remote procedure interface
//! instead of executing it locally. Everything in this crate is a decision:
//! which remote call an operation needs, what a reply means, which
//! notifications reach the peer network, and when the network loop stops.
//! The calls themselves are made by the embedding program.

pub mod primitives;
pub mod sequence;
pub mod startup;
pub mod driving_loop;
pub mod network;
pub mod error;
pub mod remote;
pub mod adapter;
pub mod info;
pub mod notifications;
pub mod runtime_api;
pub mod discovery;
pub mod trie_cache;
pub mod bridge;
