//! Verified core of a wireless peripheral controller.
//!
//! The crate models the logic of a small firmware: a reliable-delivery
//! engine that keeps at most one in-flight radio message per peer and
//! retries up to a fixed ceiling, a peer admission policy over an
//! unauthenticated broadcast medium, a length-prefixed framing codec for
//! the wired link to the main board, and the request dispatcher that ties
//! them together.  Hardware access (UART, SPI, the radio driver) stays
//! outside; the functions here take the outcomes of those calls as plain
//! values and are verified for every outcome.

pub mod codec;
pub mod delivery;
pub mod dispatch;
pub mod errors;
pub mod framing;
pub mod peers;
pub mod proto;

use vstd::prelude::*;

verus! {

/// A peer's fixed six-byte link-layer address.
pub type Addr = [u8; 6];

/// How many negative acknowledgments a pending message survives before
/// the engine gives it up and records `Failed`.
pub const MAX_RETRIES: u8 = 15;

} // verus!
