use vstd::prelude::*;

verus! {

#[verifier::external_type_specification]
#[verifier::external_body]
pub struct ExInstant(std::time::Instant);

/// Relies on `Instant::now`: reads the monotonic clock. Nothing is known of the value.
pub assume_specification[ std::time::Instant::now ]() -> std::time::Instant;

/// Relies on `Instant::elapsed`: the time since the instant. Nothing is known of the value.
pub assume_specification[ std::time::Instant::elapsed ](instant: &std::time::Instant) -> std::time::Duration;

/// Relies on `Duration::as_secs`: the whole seconds of a duration. Nothing more is stated.
pub assume_specification[ std::time::Duration::as_secs ](duration: &std::time::Duration) -> u64;

} // verus!
