//! Wire-encoding layer for a peer-to-peer request/response protocol.
//!
//! Peers negotiate one of two protocol versions per stream. The legacy V1
//! response schema can only express presence or absence of a payload, while
//! the current V2 schema carries a structured error code on failure. This
//! crate provides the version-aware translation between the two schemas,
//! enforces the configured maximum message sizes, and delegates payload
//! serialization to the postcard binary format.

pub mod bridge_laws;
pub mod codec;
pub mod handler;
pub mod messages;
pub mod payload;

use vstd::prelude::*;

verus! {

/// The stateless binary codec backing every handler in this crate.
#[derive(Clone, Copy, Default)]
pub struct PostcardCodec;

} // verus!
