//! The monotonic clock that paces the simulation.
//!
//! Nothing is claimed about what the clock reads: the game decides on the
//! number of milliseconds it is handed, whatever that number is.

use std::time::Duration;
use std::time::Instant;
use vstd::prelude::*;

verus! {

/// `Instant` is a reading of the monotonic clock. It is carried about and
/// never looked into.
#[verifier::external_type_specification]
#[verifier::external_body]
pub struct ExInstant(std::time::Instant);

/// `Instant::now` reads the monotonic clock. Its result is left unspecified.
pub assume_specification[ std::time::Instant::now ]() -> (now: Instant);

/// `Instant::elapsed` is the time since the instant was taken. Its result is
/// left unspecified.
pub assume_specification[ std::time::Instant::elapsed ](instant: &Instant) -> (elapsed: Duration);

/// `Duration::as_millis` is the duration in whole milliseconds. Its result is
/// left unspecified.
pub assume_specification[ std::time::Duration::as_millis ](duration: &Duration) -> (millis: u128);

} // verus!
