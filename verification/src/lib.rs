//! A verified core for a multi-factor intent-attestation session.
//!
//! A user must satisfy three vectors in order — possession (link an external
//! signing identity), identity (a verification step), and deliberate intent
//! (a timed press-and-hold gesture) — before a signed, replay-protected
//! attestation record is appended to the session's audit log.

pub mod asset;
pub mod attestation;
pub mod canon;
pub mod crypto;
pub mod errors;
pub mod model;
pub mod phrase;
pub mod session;

use vstd::prelude::*;

verus! {

/// The nominal hold duration recorded in each attestation, in milliseconds.
/// This is the configured duration of a full ramp, not a measured wall-clock
/// time of the actual gesture.
pub const HOLD_DURATION_MS: u64 = 1500;

} // verus!
