//! Pulse timing shared between the tachometer / speed-sensor interrupt
//! handlers and the main loop. The handlers update a `PulseTimes` value; the
//! main loop reads it through the getters.

use vstd::prelude::*;
use crate::elapsed_u32;

verus! {

/// Shortest accepted tachometer period (microseconds); shorter edges are noise.
pub const MIN_PULSE_PERIOD_US: u32 = 3000;

/// Microsecond timestamp derived from a millisecond clock, wrapping like the
/// 32-bit hardware counter.
pub open spec fn micros_of_millis(ms: u32) -> u32 {
    ((ms as nat * 1000) % 0x1_0000_0000) as u32
}

/// Convert a millisecond clock reading to microseconds (wrapping).
pub fn micros_from_millis(ms: u32) -> (r: u32)
    ensures
        r == micros_of_millis(ms),
{
    ms.wrapping_mul(1000)
}

/// Timestamps and period recorded by the pulse interrupts.
pub struct PulseTimes {
    tach_period_us: u32,
    tach_last_pulse_us: u32,
    vss_last_pulse_us: u32,
}

impl PulseTimes {
    /// Last accepted tachometer period (microseconds).
    pub closed spec fn tach_period(&self) -> u32 {
        self.tach_period_us
    }

    /// Timestamp of the last tachometer edge (microseconds).
    pub closed spec fn tach_last(&self) -> u32 {
        self.tach_last_pulse_us
    }

    /// Timestamp of the last speed-sensor edge (microseconds).
    pub closed spec fn vss_last(&self) -> u32 {
        self.vss_last_pulse_us
    }

    /// The recorded period is zero (none yet) or at least `MIN_PULSE_PERIOD_US`:
    /// noise never reaches the main loop.
    pub open spec fn period_plausible(&self) -> bool {
        self.tach_period() == 0 || self.tach_period() >= MIN_PULSE_PERIOD_US
    }

    /// No edge seen yet: everything zero.
    pub fn new() -> (r: Self)
        ensures
            r.tach_period() == 0,
            r.tach_last() == 0,
            r.vss_last() == 0,
            r.period_plausible(),
    {
        PulseTimes { tach_period_us: 0, tach_last_pulse_us: 0, vss_last_pulse_us: 0 }
    }

    /// Tachometer edge at `now_us`: the period since the previous edge is kept
    /// when there was a previous edge and the period is at least
    /// `MIN_PULSE_PERIOD_US`; the edge time is always recorded.
    pub fn on_tach_edge(&mut self, now_us: u32)
        ensures
            final(self).tach_last() == now_us,
            final(self).tach_period() == (if old(self).tach_last() > 0 && elapsed_u32(
                now_us,
                old(self).tach_last(),
            ) >= MIN_PULSE_PERIOD_US {
                elapsed_u32(now_us, old(self).tach_last()) as u32
            } else {
                old(self).tach_period()
            }),
            final(self).vss_last() == old(self).vss_last(),
            old(self).period_plausible() ==> final(self).period_plausible(),
    {
        let last_us = self.tach_last_pulse_us;
        if last_us > 0 {
            let period = now_us.wrapping_sub(last_us);
            if period >= MIN_PULSE_PERIOD_US {
                self.tach_period_us = period;
            }
        }
        self.tach_last_pulse_us = now_us;
    }

    /// Speed-sensor edge at `now_us`: the edge time is recorded.
    pub fn on_vss_edge(&mut self, now_us: u32)
        ensures
            final(self).vss_last() == now_us,
            final(self).tach_last() == old(self).tach_last(),
            final(self).tach_period() == old(self).tach_period(),
    {
        self.vss_last_pulse_us = now_us;
    }
}

/// Current tachometer pulse period (microseconds).
pub fn get_tach_period(times: &PulseTimes) -> (r: u32)
    ensures
        r == times.tach_period(),
{
    times.tach_period_us
}

/// Timestamp of the last tachometer edge, in milliseconds.
pub fn get_tach_last_pulse_ms(times: &PulseTimes) -> (r: u32)
    ensures
        r == times.tach_last() / 1000,
{
    times.tach_last_pulse_us / 1000
}

/// Timestamp of the last speed-sensor edge (microseconds).
pub fn get_vss_last_pulse(times: &PulseTimes) -> (r: u32)
    ensures
        r == times.vss_last(),
{
    times.vss_last_pulse_us
}

} // verus!
