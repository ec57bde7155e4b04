//! The day/night coordinator: a two-state machine, re-evaluated on a
//! fixed two-minute cadence, that suppresses the animation during
//! daylight.
//!
//! Naming is deliberately inverted: daytime turns the light *off*. The
//! machine is edge-triggered: a power-off command is issued only on the
//! crossing into daylight, and the crossing back into night is a bare
//! state flip (the next animation tick resumes the color frames by
//! itself); re-evaluating an unchanged gate does nothing.

use crate::frames::{power_off_frame, power_off_frame_bytes};
use crate::gate::{daytime, is_daytime};
use vstd::prelude::*;

verus! {

/// Seconds between two gate evaluations.
pub const CHECK_PERIOD_SECS: i64 = 120;

/// Whether the light is animating (`Lit`) or gated off for the day
/// (`Suppressed`).
#[derive(Clone, Copy, Debug, PartialEq, Eq, Structural)]
pub enum LightState {
    Lit,
    Suppressed,
}

/// The state after one gate evaluation: daylight suppresses, night lights.
pub open spec fn next_state(s: LightState, day: bool) -> LightState {
    if day {
        LightState::Suppressed
    } else {
        LightState::Lit
    }
}

/// An evaluation issues a power-off command exactly on the edge into
/// daylight: daytime while still `Lit`.
pub open spec fn emits_power_off(s: LightState, day: bool) -> bool {
    day && s is Lit
}

/// The state after `n` consecutive gate evaluations that all saw the
/// same gate value `day`.
pub open spec fn state_after_evals(s: LightState, day: bool, n: nat) -> LightState
    decreases n,
{
    if n == 0 {
        s
    } else {
        next_state(state_after_evals(s, day, (n - 1) as nat), day)
    }
}

/// However many times the timer fires while the day/night value is unchanged,
/// at most one power-off is emitted: only the very first of the
/// evaluations can emit, and the state settles after it.
pub proof fn lemma_at_most_one_power_off(s: LightState, day: bool, n: nat)
    requires
        n >= 1,
    ensures
        state_after_evals(s, day, n) == next_state(s, day),
        !emits_power_off(state_after_evals(s, day, n), day),
    decreases n,
{
    if n > 1 {
        lemma_at_most_one_power_off(s, day, (n - 1) as nat);
    }
}

/// The crossing back into night is silent: from `Suppressed`, a nighttime
/// evaluation flips the state to `Lit` and emits no command at all.
pub proof fn lemma_resume_is_silent()
    ensures
        next_state(LightState::Suppressed, false) is Lit,
        !emits_power_off(LightState::Suppressed, false),
{
}

/// The coordinator: the shared on/off state plus the instant its next
/// gate evaluation is due.
pub struct Coordinator {
    /// The shared flag the control loop reads; starts `Lit`.
    pub state: LightState,
    /// Absolute timestamp (seconds) of the next due evaluation.
    pub next_check: i64,
}

impl Coordinator {
    /// A fresh coordinator starts `Lit` whatever the actual time of day;
    /// the first evaluation is due one full period after start.
    pub fn new(now: i64) -> (c: Coordinator)
        requires
            now + CHECK_PERIOD_SECS <= i64::MAX,
        ensures
            c.state is Lit,
            c.next_check == now + CHECK_PERIOD_SECS,
    {
        Coordinator { state: LightState::Lit, next_check: now + CHECK_PERIOD_SECS }
    }

    /// One unconditional gate evaluation: applies the edge-triggered
    /// transition for gate value `day` and returns the power-off frame
    /// exactly on the edge into daylight.
    pub fn evaluate(&mut self, day: bool) -> (cmd: Option<Vec<u8>>)
        ensures
            final(self).state == next_state(old(self).state, day),
            final(self).next_check == old(self).next_check,
            cmd is Some <==> emits_power_off(old(self).state, day),
            cmd matches Some(f) ==> f@ == power_off_frame_bytes(),
    {
        if day {
            if self.state == LightState::Lit {
                self.state = LightState::Suppressed;
                return Some(power_off_frame());
            }
        } else {
            if self.state == LightState::Suppressed {
                self.state = LightState::Lit;
            }
        }
        None
    }

    /// The timer-driven check: a no-op before `next_check` is due; once
    /// due, re-evaluates day/night for `now` and schedules the next check one
    /// full period after this (late) evaluation, with no catch-up.
    pub fn check_due(&mut self, now: i64, sunrise: i64, sunset: i64) -> (cmd: Option<Vec<u8>>)
        requires
            now + CHECK_PERIOD_SECS <= i64::MAX,
        ensures
            now < old(self).next_check ==> *final(self) == *old(self) && cmd is None,
            now >= old(self).next_check ==> {
                &&& final(self).state == next_state(
                    old(self).state,
                    daytime(sunrise as int, sunset as int, now as int),
                )
                &&& final(self).next_check == now + CHECK_PERIOD_SECS
                &&& (cmd is Some <==> emits_power_off(
                    old(self).state,
                    daytime(sunrise as int, sunset as int, now as int),
                ))
            },
            cmd matches Some(f) ==> f@ == power_off_frame_bytes(),
    {
        if now < self.next_check {
            return None;
        }
        let day = is_daytime(sunrise, sunset, now);
        let cmd = self.evaluate(day);
        self.next_check = now + CHECK_PERIOD_SECS;
        cmd
    }
}

} // verus!
