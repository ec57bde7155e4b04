//! The color animator: an integer hue cursor in `[0, 360)` degrees that
//! advances one degree per tick and is rendered to an 8-bit RGB triple.
//!
//! The rendering is the standard hue-to-RGB mapping at full saturation and
//! value. The hue circle splits into six 60-degree segments; within a
//! segment one channel is full, one is zero, and one ramps linearly. Each
//! channel value in `[0, 1]` is scaled by 255 and truncated (not rounded)
//! to an integer. Because the cursor only ever holds whole degrees (it
//! starts at 1 and moves in steps of 1), the whole animation is exact
//! integer arithmetic.

use vstd::arithmetic::div_mod::{
    lemma_add_mod_noop, lemma_mod_bound, lemma_mod_equivalence, lemma_mod_self_0,
    lemma_small_mod,
};
use vstd::prelude::*;

verus! {

/// Number of degrees in the full hue circle.
pub const HUE_DEGREES: u16 = 360;

/// Hue the animator starts from: 1 degree, not 0, so the first frame ever
/// sent is not the degenerate segment boundary.
pub const INITIAL_HUE: u16 = 1;

/// The hue one tick after `h`: one degree further, wrapping 359 -> 0.
pub open spec fn next_hue(h: int) -> int {
    if h + 1 < 360 {
        h + 1
    } else {
        0
    }
}

/// The hue `n` ticks after `h`.
pub open spec fn hue_after(h: int, n: nat) -> int
    decreases n,
{
    if n == 0 {
        h
    } else {
        next_hue(hue_after(h, (n - 1) as nat))
    }
}

/// A linearly rising channel: `(f / 60) * 255`, truncated. `f` is the
/// offset within a 60-degree segment.
pub open spec fn ramp_up(f: int) -> int {
    f * 255 / 60
}

/// A linearly falling channel: `((60 - f) / 60) * 255`, truncated.
pub open spec fn ramp_down(f: int) -> int {
    (60 - f) * 255 / 60
}

/// Red channel of hue `h` (full saturation and value).
pub open spec fn red_of(h: int) -> int {
    if h < 60 {
        255
    } else if h < 120 {
        ramp_down(h % 60)
    } else if h < 240 {
        0
    } else if h < 300 {
        ramp_up(h % 60)
    } else {
        255
    }
}

/// Green channel of hue `h` (full saturation and value).
pub open spec fn green_of(h: int) -> int {
    if h < 60 {
        ramp_up(h % 60)
    } else if h < 180 {
        255
    } else if h < 240 {
        ramp_down(h % 60)
    } else {
        0
    }
}

/// Blue channel of hue `h` (full saturation and value).
pub open spec fn blue_of(h: int) -> int {
    if h < 120 {
        0
    } else if h < 180 {
        ramp_up(h % 60)
    } else if h < 300 {
        255
    } else {
        ramp_down(h % 60)
    }
}

/// Renders a whole-degree hue to its 8-bit RGB triple.
pub fn hue_to_rgb(h: u16) -> (rgb: (u8, u8, u8))
    requires
        h < 360,
    ensures
        rgb.0 == red_of(h as int),
        rgb.1 == green_of(h as int),
        rgb.2 == blue_of(h as int),
{
    let f: u16 = h % 60;
    let up: u16 = f * 255 / 60;
    let down: u16 = (60 - f) * 255 / 60;
    proof {
        assert(up <= 255) by (nonlinear_arith)
            requires
                f < 60,
                up == f * 255 / 60,
        ;
        assert(down <= 255) by (nonlinear_arith)
            requires
                f < 60,
                down == (60 - f) * 255 / 60,
        ;
    }
    let (r, g, b): (u16, u16, u16) = if h < 60 {
        (255, up, 0)
    } else if h < 120 {
        (down, 255, 0)
    } else if h < 180 {
        (0, 255, up)
    } else if h < 240 {
        (0, down, 255)
    } else if h < 300 {
        (up, 0, 255)
    } else {
        (255, 0, down)
    };
    (r as u8, g as u8, b as u8)
}

/// The hue cursor: the animation phase of the light.
pub struct Animator {
    pub hue: u16,
}

impl Animator {
    /// The cursor always holds a whole degree on the hue circle.
    pub open spec fn well_formed(self) -> bool {
        self.hue < 360
    }

    /// A fresh animator starts at the fixed initial hue.
    pub fn new() -> (a: Animator)
        ensures
            a.well_formed(),
            a.hue == INITIAL_HUE,
    {
        Animator { hue: INITIAL_HUE }
    }

    /// Advances the cursor one degree (wrapping 359 -> 0) and returns the
    /// RGB triple of the new hue.
    pub fn tick(&mut self) -> (rgb: (u8, u8, u8))
        requires
            old(self).well_formed(),
        ensures
            final(self).well_formed(),
            final(self).hue == next_hue(old(self).hue as int),
            rgb.0 == red_of(final(self).hue as int),
            rgb.1 == green_of(final(self).hue as int),
            rgb.2 == blue_of(final(self).hue as int),
    {
        let stepped: u16 = self.hue + 1;
        self.hue = if stepped < 360 {
            stepped
        } else {
            0
        };
        hue_to_rgb(self.hue)
    }
}

/// Closed form of the iterated cursor: `n` ticks after `h` the hue is
/// `(h + n) % 360`, and in particular stays on the circle. Together with
/// the definition of `hue_after` this says the cursor climbs by exactly
/// one degree per tick and wraps exactly at 360 back to 0.
pub proof fn lemma_hue_after_closed_form(h: int, n: nat)
    requires
        0 <= h < 360,
    ensures
        hue_after(h, n) == (h + n) % 360,
        0 <= hue_after(h, n) < 360,
    decreases n,
{
    if n == 0 {
        lemma_small_mod(h as nat, 360);
    } else {
        let m = (n - 1) as nat;
        lemma_hue_after_closed_form(h, m);
        let b = (h + m) % 360;
        lemma_add_mod_noop(h + m, 1, 360);
        lemma_small_mod(1, 360);
        assert((h + n) % 360 == (b + 1) % 360);
        if b + 1 < 360 {
            lemma_small_mod((b + 1) as nat, 360);
        } else {
            lemma_mod_self_0(360);
        }
    }
}

/// Over one full 360-tick period no integer degree is visited twice:
/// distinct tick counts below 360 land on distinct hues.
pub proof fn lemma_hue_cycle_no_duplicates(h: int, i: nat, j: nat)
    requires
        0 <= h < 360,
        i < 360,
        j < 360,
        i != j,
    ensures
        hue_after(h, i) != hue_after(h, j),
{
    lemma_hue_after_closed_form(h, i);
    lemma_hue_after_closed_form(h, j);
    if hue_after(h, i) == hue_after(h, j) {
        lemma_mod_equivalence(h + i, h + j, 360);
        assert((i - j) % 360 == 0) by {
            if i > j {
                lemma_small_mod((i - j) as nat, 360);
            } else {
                assert(((h + i) - (h + j)) % 360 == 0);
                assert((h + i) - (h + j) == -((j - i) as int));
                lemma_mod_equivalence(i as int, j as int, 360);
                lemma_small_mod((j - i) as nat, 360);
            }
        }
        lemma_small_mod((if i > j { i - j } else { j - i }) as nat, 360);
        assert(false);
    }
}

/// Over one full 360-tick period no integer degree is skipped: every
/// degree of the circle is reached from any start within 360 ticks.
pub proof fn lemma_hue_cycle_covers(h: int, d: int)
    requires
        0 <= h < 360,
        0 <= d < 360,
    ensures
        exists|n: nat| n < 360 && hue_after(h, n) == d,
{
    lemma_mod_bound(d - h, 360);
    let n = ((d - h) % 360) as nat;
    lemma_hue_after_closed_form(h, n);
    lemma_small_mod(h as nat, 360);
    lemma_add_mod_noop(h, d - h, 360);
    lemma_small_mod(d as nat, 360);
    assert(hue_after(h, n) == d);
    assert(n < 360 && hue_after(h, n) == d);
}

} // verus!
