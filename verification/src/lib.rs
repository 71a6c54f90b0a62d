//! The packet layer of a lightweight inter-chain messaging fabric: validated
//! identifiers, provable paths and commitments, a client registry, and the
//! router that drives packets through send, receive, acknowledge and timeout.
//!
//! The library decides; it does not talk to a host. Every function takes
//! plain values and gives plain values back, and says in its contract what
//! it returns and how it changes the state it is given. What the light
//! client of a counterparty answered comes in as a value; the messages for
//! other contracts go out as values. The laws that hold across the
//! functions of the router are stated and proved in [`laws`].

pub mod apps;
pub mod callbacks;
pub mod clients;
pub mod directory;
pub mod encoding;
pub mod error;
pub mod events;
pub mod hash;
pub mod helpers;
pub mod host;
pub mod ibc;
pub mod identifiers;
pub mod laws;
pub mod paths;
pub mod registry;
pub mod router;
pub mod store;
pub mod tendermint;
pub mod timeout;
pub mod transfer;
pub mod wasm;
