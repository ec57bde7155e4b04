//! One iteration of the control loop, as a pure decision.
//!
//! Each iteration first lets the coordinator run its due check — so a
//! state flip and its power-off command are fully applied before the flag
//! is read — then either advances the animator and emits a color frame at
//! the fast animation cadence, or idles for the long backoff while
//! suppressed. The caller performs the plan in order: send the power-off
//! frame (if any), then the color frame (if any), then sleep.

use crate::color::{blue_of, green_of, next_hue, red_of, Animator, INITIAL_HUE};
use crate::gate::daytime;
use crate::coordinator::{
    emits_power_off, next_state, Coordinator, CHECK_PERIOD_SECS,
};
use crate::frames::{color_frame, color_frame_bytes, power_off_frame_bytes};
use vstd::prelude::*;

verus! {

/// Milliseconds between two animation ticks while lit.
pub const CYCLE_TIME_MS: u64 = 10;

/// Milliseconds to idle between wake-ups while suppressed.
pub const IDLE_TIME_MS: u64 = 60_000;

/// What one loop iteration decided: frames to send, in order, and how
/// long to suspend afterwards.
pub struct StepPlan {
    /// Power-off frame to send first, present only on the edge into
    /// daylight.
    pub power_off: Option<Vec<u8>>,
    /// Color frame of the freshly advanced hue, present only while lit.
    pub color: Option<Vec<u8>>,
    /// How long to suspend before the next iteration.
    pub sleep_ms: u64,
}

/// The whole runtime state of the loop: coordinator plus animator.
pub struct Controller {
    pub coordinator: Coordinator,
    pub animator: Animator,
}

impl Controller {
    pub open spec fn well_formed(self) -> bool {
        self.animator.well_formed()
    }

    /// A fresh controller: lit, hue cursor at the initial degree, first
    /// gate check due one period from `now`.
    pub fn new(now: i64) -> (c: Controller)
        requires
            now + CHECK_PERIOD_SECS <= i64::MAX,
        ensures
            c.well_formed(),
            c.coordinator.state is Lit,
            c.coordinator.next_check == now + CHECK_PERIOD_SECS,
            c.animator.hue == INITIAL_HUE,
    {
        Controller { coordinator: Coordinator::new(now), animator: Animator::new() }
    }

    /// One loop iteration at instant `now`, against the day whose sunrise
    /// and sunset are given.
    pub fn step(&mut self, now: i64, sunrise: i64, sunset: i64) -> (plan: StepPlan)
        requires
            old(self).well_formed(),
            now + CHECK_PERIOD_SECS <= i64::MAX,
        ensures
            final(self).well_formed(),
            // The coordinator's due check runs first, exactly as its own
            // contract says.
            now < old(self).coordinator.next_check ==> final(self).coordinator == old(
                self,
            ).coordinator && plan.power_off is None,
            now >= old(self).coordinator.next_check ==> {
                &&& final(self).coordinator.state == next_state(
                    old(self).coordinator.state,
                    daytime(sunrise as int, sunset as int, now as int),
                )
                &&& final(self).coordinator.next_check == now + CHECK_PERIOD_SECS
                &&& (plan.power_off is Some <==> emits_power_off(
                    old(self).coordinator.state,
                    daytime(sunrise as int, sunset as int, now as int),
                ))
            },
            plan.power_off matches Some(f) ==> f@ == power_off_frame_bytes(),
            // Only then is the flag read, so the iteration animates or
            // idles against the freshly applied state.
            final(self).coordinator.state is Lit ==> {
                &&& final(self).animator.hue == next_hue(old(self).animator.hue as int)
                &&& plan.color matches Some(f) && f@ == color_frame_bytes(
                    red_of(final(self).animator.hue as int) as u8,
                    green_of(final(self).animator.hue as int) as u8,
                    blue_of(final(self).animator.hue as int) as u8,
                )
                &&& plan.sleep_ms == CYCLE_TIME_MS
            },
            final(self).coordinator.state is Suppressed ==> {
                &&& final(self).animator == old(self).animator
                &&& plan.color is None
                &&& plan.sleep_ms == IDLE_TIME_MS
            },
    {
        let power_off = self.coordinator.check_due(now, sunrise, sunset);
        if self.coordinator.state == crate::coordinator::LightState::Lit {
            let (r, g, b) = self.animator.tick();
            StepPlan { power_off, color: Some(color_frame(r, g, b)), sleep_ms: CYCLE_TIME_MS }
        } else {
            StepPlan { power_off, color: None, sleep_ms: IDLE_TIME_MS }
        }
    }
}

} // verus!
