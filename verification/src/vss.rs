//! Integer state machine of the vehicle-speed-sensor pipeline: debounced
//! pulse counting in fixed windows, the stop timeout, and motion lock-in
//! (motion is only reported after `START_GOOD_WINDOWS` consecutive good
//! windows). The speed arithmetic itself is done by the caller, which hands
//! the outcome of its comparisons back as booleans.

use vstd::prelude::*;
use crate::elapsed_u32;

verus! {

/// Length of a counting window (microseconds).
pub const WINDOW_US: u32 = 250_000;

/// No pulse for this long (microseconds) means the vehicle stopped.
pub const STOP_TIMEOUT_US: u32 = 2_500_000;

/// Longest gap between pulses (microseconds) that still counts as a continuous signal.
pub const CONTINUOUS_US: u32 = 300_000;

/// Consecutive good windows needed before motion is reported.
pub const START_GOOD_WINDOWS: u8 = 4;

/// Pulses closer together than this (microseconds) are rejected as noise.
pub const NOISE_REJECT_US: u32 = 800;

/// Fewest pulses in a window for it to count as motion.
pub const MIN_PULSES_TO_MOVE: u16 = 6;

/// Abstract state of the counter.
pub struct VssState {
    pub pulse_count: u16,
    pub window_start_us: u32,
    pub last_pulse_us: u32,
    pub moving: bool,
    pub start_good_windows: u8,
    pub ever_seen_pulse: bool,
    pub ema_initialized: bool,
}

/// What every reachable state satisfies: a moving vehicle has an initialised
/// speed filter, and a stopped one has fewer than `START_GOOD_WINDOWS` good windows.
pub open spec fn vss_inv(s: VssState) -> bool {
    &&& s.moving ==> s.ema_initialized
    &&& !s.moving ==> s.start_good_windows < START_GOOD_WINDOWS
}

/// The state after a stop: counting and motion cleared, pulse history kept.
pub open spec fn stopped_state(s: VssState) -> VssState {
    VssState {
        pulse_count: 0,
        window_start_us: 0,
        moving: false,
        start_good_windows: 0,
        ema_initialized: false,
        ..s
    }
}

/// One step of the lock-in counter: an accepted window extends the run
/// (saturating at 255), anything else restarts it.
pub open spec fn lock_step(count: u8, accepted: bool) -> u8 {
    if accepted {
        if count < 255 {
            (count + 1) as u8
        } else {
            255
        }
    } else {
        0
    }
}

/// The counter after a series of window outcomes.
pub open spec fn lock_count_after(count: u8, outcomes: Seq<bool>) -> u8
    decreases outcomes.len(),
{
    if outcomes.len() == 0 {
        count
    } else {
        lock_step(lock_count_after(count, outcomes.drop_last()), outcomes.last())
    }
}

/// Number of accepted windows at the end of a series.
pub open spec fn trailing_accepted(outcomes: Seq<bool>) -> nat
    decreases outcomes.len(),
{
    if outcomes.len() == 0 {
        0
    } else if outcomes.last() {
        trailing_accepted(outcomes.drop_last()) + 1
    } else {
        0
    }
}

/// State after a pulse at `now` (see `VssCounter::on_pulse`).
pub open spec fn on_pulse_spec(s: VssState, now: u32) -> VssState {
    if elapsed_u32(now, s.last_pulse_us) < NOISE_REJECT_US {
        s
    } else {
        VssState {
            pulse_count: (s.pulse_count + 1) as u16,
            window_start_us: if s.window_start_us == 0 {
                now
            } else {
                s.window_start_us
            },
            last_pulse_us: now,
            ever_seen_pulse: true,
            ..s
        }
    }
}

/// State and result of a window check at `now` (see `VssCounter::check_window`).
pub open spec fn check_window_spec(s: VssState, now: u32, slow: bool) -> (VssState, WindowCheck) {
    if !s.ever_seen_pulse {
        (s, WindowCheck::NoSignal)
    } else if elapsed_u32(now, s.last_pulse_us) > STOP_TIMEOUT_US {
        if !s.moving || slow {
            (stopped_state(s), WindowCheck::Stopped)
        } else {
            (s, WindowCheck::Holding)
        }
    } else if elapsed_u32(now, s.window_start_us) < WINDOW_US {
        (s, WindowCheck::Open)
    } else {
        (VssState { pulse_count: 0, window_start_us: now, ..s }, WindowCheck::Closed(s.pulse_count))
    }
}

/// Result of checking the counting window in `VssCounter::check_window`.
#[derive(Debug, Clone, Copy, PartialEq, Eq, Structural)]
pub enum WindowCheck {
    /// No pulse was ever seen: speed is zero.
    NoSignal,
    /// Stop timeout while slow or not moving: the state was cleared; speed is zero.
    Stopped,
    /// Stop timeout while cruising: hold the current speed.
    Holding,
    /// The window is still open: report the current speed if moving, else zero.
    Open,
    /// The window closed with this many pulses; a new window starts now.
    Closed(u16),
}

/// Integer state of a speed-sensor processor.
pub struct VssCounter {
    pulse_count: u16,
    window_start_us: u32,
    last_pulse_us: u32,
    moving: bool,
    start_good_windows: u8,
    ever_seen_pulse: bool,
    ema_initialized: bool,
}

impl View for VssCounter {
    type V = VssState;

    closed spec fn view(&self) -> VssState {
        VssState {
            pulse_count: self.pulse_count,
            window_start_us: self.window_start_us,
            last_pulse_us: self.last_pulse_us,
            moving: self.moving,
            start_good_windows: self.start_good_windows,
            ever_seen_pulse: self.ever_seen_pulse,
            ema_initialized: self.ema_initialized,
        }
    }
}

impl VssCounter {
    /// Fresh state: nothing seen, not moving.
    pub fn new() -> (r: Self)
        ensures
            r@ == (VssState {
                pulse_count: 0,
                window_start_us: 0,
                last_pulse_us: 0,
                moving: false,
                start_good_windows: 0,
                ever_seen_pulse: false,
                ema_initialized: false,
            }),
            vss_inv(r@),
    {
        VssCounter {
            pulse_count: 0,
            window_start_us: 0,
            last_pulse_us: 0,
            moving: false,
            start_good_windows: 0,
            ever_seen_pulse: false,
            ema_initialized: false,
        }
    }

    /// Record a pulse at `now_us`. A pulse within `NOISE_REJECT_US` of the last
    /// accepted one is ignored; otherwise it is counted, becomes the last pulse,
    /// and opens the first window if none is open.
    pub fn on_pulse(&mut self, now_us: u32)
        requires
            elapsed_u32(now_us, old(self)@.last_pulse_us) >= NOISE_REJECT_US ==> old(self)@.pulse_count < u16::MAX,
        ensures
            elapsed_u32(now_us, old(self)@.last_pulse_us) < NOISE_REJECT_US ==> final(self)@
                == old(self)@,
            elapsed_u32(now_us, old(self)@.last_pulse_us) >= NOISE_REJECT_US ==> final(self)@
                == (VssState {
                pulse_count: (old(self)@.pulse_count + 1) as u16,
                window_start_us: if old(self)@.window_start_us == 0 {
                    now_us
                } else {
                    old(self)@.window_start_us
                },
                last_pulse_us: now_us,
                ever_seen_pulse: true,
                ..old(self)@
            }),
            final(self)@ == on_pulse_spec(old(self)@, now_us),
            vss_inv(old(self)@) ==> vss_inv(final(self)@),
    {
        if now_us.wrapping_sub(self.last_pulse_us) < NOISE_REJECT_US {
            return;
        }
        if self.window_start_us == 0 {
            self.window_start_us = now_us;
        }
        self.pulse_count = self.pulse_count + 1;
        self.last_pulse_us = now_us;
        self.ever_seen_pulse = true;
    }

    /// Start of an update at `now_us`; `slow` tells whether the current filtered
    /// speed is below 5 km/h. Checks, in order: any pulse ever seen, the stop
    /// timeout, and whether the window has run its full length; a finished
    /// window hands over its pulse count and a new window starts at `now_us`.
    pub fn check_window(&mut self, now_us: u32, slow: bool) -> (r: WindowCheck)
        ensures
            !old(self)@.ever_seen_pulse ==> r == WindowCheck::NoSignal && final(self)@ == old(self)@,
            old(self)@.ever_seen_pulse && elapsed_u32(now_us, old(self)@.last_pulse_us)
                > STOP_TIMEOUT_US ==> if !old(self)@.moving || slow {
                r == WindowCheck::Stopped && final(self)@ == stopped_state(old(self)@)
            } else {
                r == WindowCheck::Holding && final(self)@ == old(self)@
            },
            old(self)@.ever_seen_pulse && elapsed_u32(now_us, old(self)@.last_pulse_us)
                <= STOP_TIMEOUT_US && elapsed_u32(now_us, old(self)@.window_start_us)
                < WINDOW_US ==> r == WindowCheck::Open && final(self)@ == old(self)@,
            old(self)@.ever_seen_pulse && elapsed_u32(now_us, old(self)@.last_pulse_us)
                <= STOP_TIMEOUT_US && elapsed_u32(now_us, old(self)@.window_start_us)
                >= WINDOW_US ==> r == WindowCheck::Closed(old(self)@.pulse_count) && final(self)@ == (VssState { pulse_count: 0, window_start_us: now_us, ..old(self)@ }),
            (final(self)@, r) == check_window_spec(old(self)@, now_us, slow),
            r == WindowCheck::Stopped ==> final(self)@.window_start_us == 0 && final(self)@.pulse_count
                == 0 && !final(self)@.moving && final(self)@.start_good_windows == 0,
            vss_inv(old(self)@) ==> vss_inv(final(self)@),
    {
        if !self.ever_seen_pulse {
            return WindowCheck::NoSignal;
        }
        if now_us.wrapping_sub(self.last_pulse_us) > STOP_TIMEOUT_US {
            if !self.moving || slow {
                self.reset();
                return WindowCheck::Stopped;
            } else {
                return WindowCheck::Holding;
            }
        }
        if now_us.wrapping_sub(self.window_start_us) < WINDOW_US {
            return WindowCheck::Open;
        }
        let pulses = self.pulse_count;
        self.pulse_count = 0;
        self.window_start_us = now_us;
        WindowCheck::Closed(pulses)
    }

    /// Whether a closed window while stopped counts towards lock-in: engine not
    /// at idle (`idle` false), pulses continuous up to `now_us`, at least
    /// `MIN_PULSES_TO_MOVE` pulses and a raw speed of at least 5 km/h (`fast_enough`).
    pub open spec fn window_accepted(
        s: VssState,
        now_us: u32,
        idle: bool,
        pulses: u16,
        fast_enough: bool,
    ) -> bool {
        &&& !idle
        &&& elapsed_u32(now_us, s.last_pulse_us) <= CONTINUOUS_US
        &&& pulses >= MIN_PULSES_TO_MOVE
        &&& fast_enough
    }

    /// Lock-in step for a closed window while not moving. Returns whether motion
    /// is now unlocked; the filtered speed is then to start at the raw speed.
    pub fn start_window(&mut self, now_us: u32, idle: bool, pulses: u16, fast_enough: bool) -> (unlocked: bool)
        requires
            !old(self)@.moving,
        ensures
            final(self)@.start_good_windows == lock_step(
                old(self)@.start_good_windows,
                Self::window_accepted(old(self)@, now_us, idle, pulses, fast_enough),
            ),
            unlocked == (final(self)@.start_good_windows >= START_GOOD_WINDOWS),
            final(self)@ == (VssState {
                start_good_windows: final(self)@.start_good_windows,
                moving: unlocked,
                ema_initialized: old(self)@.ema_initialized || unlocked,
                ..old(self)@
            }),
            (idle || !fast_enough || pulses < MIN_PULSES_TO_MOVE || elapsed_u32(
                now_us,
                old(self)@.last_pulse_us,
            ) > CONTINUOUS_US) ==> final(self)@.start_good_windows == 0 && !unlocked,
            unlocked ==> !idle && fast_enough && pulses >= MIN_PULSES_TO_MOVE && elapsed_u32(
                now_us,
                old(self)@.last_pulse_us,
            ) <= CONTINUOUS_US && old(self)@.start_good_windows + 1 >= START_GOOD_WINDOWS,
            vss_inv(final(self)@),
    {
        if idle {
            self.start_good_windows = 0;
            return false;
        }
        if now_us.wrapping_sub(self.last_pulse_us) > CONTINUOUS_US {
            self.start_good_windows = 0;
            return false;
        }
        if pulses >= MIN_PULSES_TO_MOVE && fast_enough {
            if self.start_good_windows < 255 {
                self.start_good_windows = self.start_good_windows + 1;
            }
        } else {
            self.start_good_windows = 0;
        }
        if self.start_good_windows < START_GOOD_WINDOWS {
            return false;
        }
        self.moving = true;
        self.ema_initialized = true;
        true
    }

    /// Whether a pulse at `now_us` would be counted (not within the debounce time).
    pub fn accepts_pulse(&self, now_us: u32) -> (r: bool)
        ensures
            r == (elapsed_u32(now_us, self@.last_pulse_us) >= NOISE_REJECT_US),
    {
        now_us.wrapping_sub(self.last_pulse_us) >= NOISE_REJECT_US
    }

    /// Whether a closed window has too few pulses to sustain motion.
    pub fn is_sparse(pulses: u16) -> (r: bool)
        ensures
            r == (pulses < MIN_PULSES_TO_MOVE),
    {
        pulses < MIN_PULSES_TO_MOVE
    }

    /// The filtered speed decayed to (near) zero: motion ends and lock-in restarts.
    pub fn stop_motion(&mut self)
        ensures
            final(self)@ == (VssState { moving: false, start_good_windows: 0, ..old(self)@ }),
            vss_inv(final(self)@),
    {
        self.moving = false;
        self.start_good_windows = 0;
    }

    /// The speed filter has been seeded.
    pub fn start_ema(&mut self)
        ensures
            final(self)@ == (VssState { ema_initialized: true, ..old(self)@ }),
            vss_inv(old(self)@) ==> vss_inv(final(self)@),
    {
        self.ema_initialized = true;
    }

    /// Clear counting and motion state (vehicle stopped); pulse history is kept.
    fn reset(&mut self)
        ensures
            final(self)@ == stopped_state(old(self)@),
    {
        self.pulse_count = 0;
        self.window_start_us = 0;
        self.moving = false;
        self.start_good_windows = 0;
        self.ema_initialized = false;
    }

    /// Whether motion is currently reported.
    pub fn is_moving(&self) -> (r: bool)
        ensures
            r == self@.moving,
    {
        self.moving
    }

    /// Whether the speed filter has been seeded.
    pub fn ema_initialized(&self) -> (r: bool)
        ensures
            r == self@.ema_initialized,
    {
        self.ema_initialized
    }

    /// Pulses counted in the current window.
    pub fn pulse_count(&self) -> (r: u16)
        ensures
            r == self@.pulse_count,
    {
        self.pulse_count
    }
}

/// A stop clears the counting window: no window is open, no pulse is counted,
/// motion and lock-in are cleared, and the pulse history is kept. A stop only
/// happens after the stop timeout, when not moving or slow.
pub proof fn lemma_stop_clears_window(s: VssState, now: u32, slow: bool)
    ensures
        ({
            let (t, r) = check_window_spec(s, now, slow);
            r == WindowCheck::Stopped ==> {
                &&& t.window_start_us == 0
                &&& t.pulse_count == 0
                &&& !t.moving
                &&& t.start_good_windows == 0
                &&& !t.ema_initialized
                &&& t.last_pulse_us == s.last_pulse_us
                &&& t.ever_seen_pulse == s.ever_seen_pulse
                &&& elapsed_u32(now, s.last_pulse_us) > STOP_TIMEOUT_US
                &&& (!s.moving || slow)
            }
        }),
{
}

/// After a stop, the next accepted pulse at `t` opens a fresh window at `t`
/// holding that one pulse, and a check before `t + WINDOW_US` finds it open.
pub proof fn lemma_first_window_after_stop(
    s: VssState,
    now: u32,
    slow: bool,
    t: u32,
    t2: u32,
    slow2: bool,
)
    requires
        check_window_spec(s, now, slow).1 == WindowCheck::Stopped,
        elapsed_u32(t, s.last_pulse_us) >= NOISE_REJECT_US,
        elapsed_u32(t2, t) < WINDOW_US,
    ensures
        ({
            let after_pulse = on_pulse_spec(check_window_spec(s, now, slow).0, t);
            &&& after_pulse.window_start_us == t
            &&& after_pulse.pulse_count == 1
            &&& check_window_spec(after_pulse, t2, slow2).1 == WindowCheck::Open
        }),
{
}

/// A closed window counts towards lock-in only when the engine is off idle,
/// the pulses are continuous, there are enough of them and the raw speed is
/// at least 5 km/h; any other window restarts the run and does not unlock.
pub proof fn lemma_window_conditions(s: VssState, now: u32, idle: bool, pulses: u16, fast_enough: bool)
    ensures
        ({
            let c = lock_step(
                s.start_good_windows,
                VssCounter::window_accepted(s, now, idle, pulses, fast_enough),
            );
            &&& (idle || !fast_enough || pulses < MIN_PULSES_TO_MOVE || elapsed_u32(now, s.last_pulse_us)
                > CONTINUOUS_US) ==> c == 0
            &&& (!idle && fast_enough && pulses >= MIN_PULSES_TO_MOVE && elapsed_u32(now, s.last_pulse_us)
                <= CONTINUOUS_US) ==> c == (if s.start_good_windows < 255 {
                s.start_good_windows + 1
            } else {
                255
            })
        }),
{
}

/// Lock-in counts exactly the current run of accepted windows (capped at 255):
/// starting from zero, the counter after a series of windows is the number of
/// accepted windows at its end.
pub proof fn lemma_lock_count_is_trailing_run(outcomes: Seq<bool>)
    ensures
        lock_count_after(0, outcomes) == (if trailing_accepted(outcomes) < 255 {
            trailing_accepted(outcomes)
        } else {
            255
        }),
    decreases outcomes.len(),
{
    if outcomes.len() > 0 {
        lemma_lock_count_is_trailing_run(outcomes.drop_last());
    }
}

/// Motion unlocks exactly when the last `START_GOOD_WINDOWS` windows were all
/// accepted.
pub proof fn lemma_unlock_needs_consecutive_good_windows(outcomes: Seq<bool>)
    ensures
        (lock_count_after(0, outcomes) >= START_GOOD_WINDOWS) <==> (trailing_accepted(outcomes)
            >= START_GOOD_WINDOWS),
        (lock_count_after(0, outcomes) >= START_GOOD_WINDOWS) <==> (outcomes.len()
            >= START_GOOD_WINDOWS && forall|i: int|
            outcomes.len() - START_GOOD_WINDOWS <= i < outcomes.len() ==> #[trigger] outcomes[i]),
{
    lemma_lock_count_is_trailing_run(outcomes);
    lemma_trailing_run_covers(outcomes, START_GOOD_WINDOWS as nat);
}

/// The trailing run is at least `k` exactly when the last `k` entries are all true.
proof fn lemma_trailing_run_covers(outcomes: Seq<bool>, k: nat)
    ensures
        (trailing_accepted(outcomes) >= k) <==> (outcomes.len() >= k && forall|i: int|
            outcomes.len() - k <= i < outcomes.len() ==> #[trigger] outcomes[i]),
    decreases outcomes.len(),
{
    if outcomes.len() > 0 && k > 0 {
        let prefix = outcomes.drop_last();
        lemma_trailing_run_covers(prefix, (k - 1) as nat);
        if outcomes.last() {
            if trailing_accepted(outcomes) >= k {
                assert forall|i: int| outcomes.len() - k <= i < outcomes.len() implies #[trigger] outcomes[i] by {
                    if i < outcomes.len() - 1 {
                        assert(prefix[i] == outcomes[i]);
                    }
                }
            } else {
                if outcomes.len() >= k && forall|i: int|
                    outcomes.len() - k <= i < outcomes.len() ==> #[trigger] outcomes[i] {
                    assert forall|i: int| prefix.len() - (k - 1) <= i < prefix.len() implies #[trigger] prefix[i] by {
                        assert(outcomes[i] == prefix[i]);
                    }
                }
            }
        } else {
            assert(!outcomes[outcomes.len() - 1]);
        }
    }
}

} // verus!
