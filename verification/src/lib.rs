//! Verified signing core for a private REST trading API.
//!
//! The crate builds authenticated request descriptors: it encodes a
//! parameter set into a canonical form body, derives a strictly
//! increasing nonce, computes the layered hash-then-HMAC signature over
//! the request path and body, and assembles the final request.

pub mod dec;
pub mod nonce;
pub mod order;
pub mod params;
pub mod request;
pub mod sign;

use vstd::prelude::*;

verus! {

/// Why building or signing a request failed. No failure here is
/// transient: each is a fatal configuration or environment error.
#[derive(Clone, Copy, Debug, PartialEq, Eq, Structural)]
pub enum BuildError {
    /// The credential's secret is not valid base64.
    Configuration,
    /// The system clock could not be read.
    Clock,
}

} // verus!
