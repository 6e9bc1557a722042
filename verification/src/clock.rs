//! The wall clock, as far as the convergence ceiling needs it.
//!
//! What the clock shows is different at every call, so nothing is claimed
//! of the values that come back.

use vstd::prelude::*;

verus! {

/// Makes `std::time::Instant` known as a type whose inside is not looked into.
#[verifier::external_type_specification]
#[verifier::external_body]
pub struct ExInstant(std::time::Instant);

/// `Instant::now`: the present moment.
pub assume_specification[ std::time::Instant::now ]() -> (now: std::time::Instant);

/// `Instant::elapsed`: the time that has passed since the instant.
pub assume_specification[ std::time::Instant::elapsed ](start: &std::time::Instant) -> (elapsed:
    std::time::Duration);

/// `Duration::as_millis`: the duration in whole milliseconds.
pub assume_specification[ std::time::Duration::as_millis ](duration: &std::time::Duration) -> (millis:
    u128);

} // verus!
