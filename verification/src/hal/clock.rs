//! Monotonic time for bounded polling, behind trusted wrappers.

use vstd::prelude::*;

verus! {

/// The standard library's opaque monotonic time point.
#[verifier::external_type_specification]
#[verifier::external_body]
pub struct ExInstant(std::time::Instant);

/// Relies on std::time::Instant::now: an opaque point on the monotonic clock.
/// Nothing is assumed of its value.
#[verifier::external_body]
pub(crate) fn instant_now() -> std::time::Instant {
    std::time::Instant::now()
}

/// Relies on std::time::Instant::elapsed: the milliseconds since `start`.
/// The value depends on the clock, so nothing is assumed of it.
#[verifier::external_body]
pub(crate) fn elapsed_millis(start: &std::time::Instant) -> u64 {
    start.elapsed().as_millis() as u64
}

/// Relies on std::hint::spin_loop: a CPU pause inside a polling loop, so the
/// wait does not starve other work.
#[verifier::external_body]
pub(crate) fn spin_hint() {
    std::hint::spin_loop()
}

/// Busy-waits until at least `ms` milliseconds of the monotonic clock have
/// passed, polling under an immense iteration budget so the loop provably
/// terminates.
pub(crate) fn delay_ms(ms: u64) {
    let start = instant_now();
    let mut polls_left: u64 = u64::MAX;
    while polls_left > 0
        invariant
            true,
        decreases polls_left,
    {
        if elapsed_millis(&start) >= ms {
            return ;
        }
        polls_left -= 1;
        spin_hint();
    }
}

} // verus!
