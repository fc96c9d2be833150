//! Input gating of the tachometer pipeline: engine-stop timeout and period
//! sanity checks, decided before any speed arithmetic.

use vstd::prelude::*;
use crate::elapsed_u32;

verus! {

/// Shortest plausible tachometer period (microseconds).
pub const MIN_PULSE_US: u32 = 3000;

/// Longest plausible tachometer period (microseconds).
pub const MAX_PULSE_US: u32 = 80_000;

/// What a tachometer reading means for the RPM filter.
#[derive(Debug, Clone, Copy, PartialEq, Eq, Structural)]
pub enum RpmInput {
    /// No pulse within the timeout: the engine is stopped.
    EngineStopped,
    /// The period is zero or outside the plausible range: keep the last value.
    InvalidPeriod,
    /// A usable period (microseconds).
    Period(u32),
}

/// Classification of a reading, as `classify_rpm_input` computes it.
pub open spec fn rpm_input_spec(period_us: u32, now_us: u32, timeout_ms: u32, last_pulse_ms: u32) -> RpmInput {
    if elapsed_u32((now_us / 1000) as u32, last_pulse_ms) > timeout_ms {
        RpmInput::EngineStopped
    } else if period_us == 0 || period_us < MIN_PULSE_US || period_us > MAX_PULSE_US {
        RpmInput::InvalidPeriod
    } else {
        RpmInput::Period(period_us)
    }
}

/// Classify a tachometer reading: the stop timeout is checked first (time since
/// the last pulse, in milliseconds, above `timeout_ms`), then the period range.
pub fn classify_rpm_input(period_us: u32, now_us: u32, timeout_ms: u32, last_pulse_ms: u32) -> (r: RpmInput)
    ensures
        r == rpm_input_spec(period_us, now_us, timeout_ms, last_pulse_ms),
        elapsed_u32((now_us / 1000) as u32, last_pulse_ms) > timeout_ms ==> r
            == RpmInput::EngineStopped,
        r == RpmInput::InvalidPeriod ==> elapsed_u32((now_us / 1000) as u32, last_pulse_ms)
            <= timeout_ms && (period_us < MIN_PULSE_US || period_us > MAX_PULSE_US),
        r matches RpmInput::Period(p) ==> p == period_us && MIN_PULSE_US <= p <= MAX_PULSE_US
            && elapsed_u32((now_us / 1000) as u32, last_pulse_ms) <= timeout_ms,
{
    let now_ms = now_us / 1000;
    if now_ms.wrapping_sub(last_pulse_ms) > timeout_ms {
        return RpmInput::EngineStopped;
    }
    if period_us == 0 || period_us < MIN_PULSE_US || period_us > MAX_PULSE_US {
        return RpmInput::InvalidPeriod;
    }
    RpmInput::Period(period_us)
}

/// The stop timeout wins over the period check: whenever more than
/// `timeout_ms` milliseconds passed since the last pulse (on the wrapping
/// clock) the engine is stopped, whatever the period; a period is rejected or
/// used only while the engine is within the timeout, and a usable period is the
/// given one and lies in the plausible range.
pub proof fn lemma_stop_timeout_first(period_us: u32, now_us: u32, timeout_ms: u32, last_pulse_ms: u32)
    ensures
        ({
            let gap = elapsed_u32((now_us / 1000) as u32, last_pulse_ms);
            let r = rpm_input_spec(period_us, now_us, timeout_ms, last_pulse_ms);
            &&& gap > timeout_ms ==> r == RpmInput::EngineStopped
            &&& r == RpmInput::EngineStopped ==> gap > timeout_ms
            &&& r == RpmInput::InvalidPeriod <==> (gap <= timeout_ms && (period_us < MIN_PULSE_US
                || period_us > MAX_PULSE_US))
            &&& r matches RpmInput::Period(p) ==> p == period_us && MIN_PULSE_US <= p
                <= MAX_PULSE_US && gap <= timeout_ms
        }),
{
}

} // verus!
