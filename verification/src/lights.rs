//! Per-side fading light: a base color plus a tick counter since the last
//! trigger, decayed to black over a fixed number of ticks, and the fixed map
//! from each keyboard side to its physical light zones.
//!
//! The decayed color is exact integer arithmetic: a channel at tick `t` with
//! fade rate `n` shows `floor(channel * (n - t) / n)`, and black from tick `n`
//! on. Opacity is thus the rational `(n - t) / n`, clamped to `[0, 1]`.

use vstd::prelude::*;
use vstd::arithmetic::div_mod::{
    lemma_basic_div, lemma_div_is_ordered, lemma_div_multiples_vanish,
    lemma_div_multiples_vanish_quotient, lemma_div_pos_is_pos,
};
use vstd::arithmetic::mul::{lemma_mul_inequality, lemma_mul_is_commutative};
use crate::ws::JudgementChange;

verus! {

/// One half of the keyboard.
#[derive(Debug, Clone, Copy, PartialEq, Eq, Structural)]
pub enum LightSide {
    Left,
    Right,
}

/// The seven physical zone coordinates of the left side, in write order.
pub open spec fn spec_left_zones() -> Seq<(u8, u8)> {
    seq![(0u8, 2u8), (0u8, 0u8), (1u8, 0u8), (2u8, 0u8), (3u8, 0u8), (4u8, 1u8), (4u8, 2u8)]
}

/// The seven physical zone coordinates of the right side, in write order.
pub open spec fn spec_right_zones() -> Seq<(u8, u8)> {
    seq![(0u8, 4u8), (0u8, 6u8), (1u8, 6u8), (2u8, 6u8), (3u8, 6u8), (4u8, 5u8), (4u8, 4u8)]
}

/// The zone coordinates that belong to a side.
pub open spec fn spec_zones(side: LightSide) -> Seq<(u8, u8)> {
    match side {
        LightSide::Left => spec_left_zones(),
        LightSide::Right => spec_right_zones(),
    }
}

/// The ordered physical zone coordinates of one side, seven per side.
pub fn get_lights_from_side(side: LightSide) -> (lights: Vec<(u8, u8)>)
    ensures
        lights@ == spec_zones(side),
{
    match side {
        LightSide::Left => {
            let lights = vec![(0u8, 2u8), (0u8, 0u8), (1u8, 0u8), (2u8, 0u8), (3u8, 0u8),
                (4u8, 1u8), (4u8, 2u8)];
            proof {
                assert(lights@ =~= spec_left_zones());
            }
            lights
        },
        LightSide::Right => {
            let lights = vec![(0u8, 4u8), (0u8, 6u8), (1u8, 6u8), (2u8, 6u8), (3u8, 6u8),
                (4u8, 5u8), (4u8, 4u8)];
            proof {
                assert(lights@ =~= spec_right_zones());
            }
            lights
        },
    }
}

/// The fixed color of each judgement; no-change and reset paint black.
pub open spec fn spec_judgement_color(judgement: JudgementChange) -> (u8, u8, u8) {
    match judgement {
        JudgementChange::Great => (80u8, 80u8, 120u8),
        JudgementChange::Good => (0u8, 200u8, 0u8),
        JudgementChange::Meh => (150u8, 150u8, 0u8),
        JudgementChange::Miss => (200u8, 0u8, 0u8),
        JudgementChange::NoChange => (0u8, 0u8, 0u8),
        JudgementChange::Reset => (0u8, 0u8, 0u8),
    }
}

/// How much of the fade interval is left at tick `time`: `rate - time`,
/// clamped to zero once the fade has run out.
pub open spec fn spec_remaining(time: u64, rate: u64) -> int {
    if time >= rate {
        0
    } else {
        rate - time
    }
}

/// One decayed channel: the base channel scaled by the remaining fraction of
/// the fade interval, truncated.
pub open spec fn spec_faded_channel(c: u8, time: u64, rate: u64) -> int
    recommends
        1 <= rate,
{
    (c * spec_remaining(time, rate)) / (rate as int)
}

/// Animation state of one side: a base color and the ticks elapsed since it
/// was last triggered.
#[derive(Debug, Clone, Copy)]
pub struct FadingLight {
    pub side: LightSide,
    pub time: u64,
    pub color: (u8, u8, u8),
    pub fade_rate: u64,
}

impl FadingLight {
    /// The fade rate is a positive tick count, small enough that scaling a
    /// channel by the remaining ticks stays within machine bounds.
    pub open spec fn wf(self) -> bool {
        1 <= self.fade_rate <= 0xFFFF_FFFFu64
    }

    /// The color this light shows at its current tick.
    pub open spec fn spec_color(self) -> (u8, u8, u8) {
        (
            spec_faded_channel(self.color.0, self.time, self.fade_rate) as u8,
            spec_faded_channel(self.color.1, self.time, self.fade_rate) as u8,
            spec_faded_channel(self.color.2, self.time, self.fade_rate) as u8,
        )
    }

    /// The fixed color of each judgement.
    pub fn get_judgement_color(judgement: JudgementChange) -> (color: (u8, u8, u8))
        ensures
            color == spec_judgement_color(judgement),
    {
        match judgement {
            JudgementChange::Great => (80, 80, 120),
            JudgementChange::Good => (0, 200, 0),
            JudgementChange::Meh => (150, 150, 0),
            JudgementChange::Miss => (200, 0, 0),
            _ => (0, 0, 0),
        }
    }

    /// A light that starts fully decayed: the initial tick count is far past
    /// any permitted fade rate.
    pub fn new(side: LightSide, color: (u8, u8, u8), fade_rate: u64) -> (light: Self)
        requires
            1 <= fade_rate <= 0xFFFF_FFFFu64,
        ensures
            light == (FadingLight { side, time: 0xFFFFu64, color, fade_rate }),
            light.wf(),
    {
        FadingLight { side, time: 0xFFFF, color, fade_rate }
    }

    /// Restarts the fade: the tick count returns to zero whatever it was.
    pub fn reset(&mut self)
        ensures
            *final(self) == (FadingLight { time: 0u64, ..*old(self) }),
    {
        self.time = 0;
    }

    /// Repaints the base color without restarting the fade.
    pub fn set_color(&mut self, color: (u8, u8, u8))
        ensures
            *final(self) == (FadingLight { color, ..*old(self) }),
    {
        self.color = color;
    }

    /// Advances the fade by one tick, saturating instead of wrapping.
    pub fn update(&mut self)
        ensures
            *final(self) == (FadingLight {
                time: if old(self).time < u64::MAX { (old(self).time + 1) as u64 } else { u64::MAX },
                ..*old(self)
            }),
    {
        if self.time < u64::MAX {
            self.time = self.time + 1;
        }
    }

    /// The color this light shows now: each base channel scaled by the
    /// remaining fraction of the fade interval.
    pub fn get_color(&self) -> (color: (u8, u8, u8))
        requires
            self.wf(),
        ensures
            color == self.spec_color(),
            color.0 == spec_faded_channel(self.color.0, self.time, self.fade_rate),
            color.1 == spec_faded_channel(self.color.1, self.time, self.fade_rate),
            color.2 == spec_faded_channel(self.color.2, self.time, self.fade_rate),
    {
        (
            faded_channel(self.color.0, self.time, self.fade_rate),
            faded_channel(self.color.1, self.time, self.fade_rate),
            faded_channel(self.color.2, self.time, self.fade_rate),
        )
    }
}

/// One decayed channel, computed exactly as `spec_faded_channel` states it.
fn faded_channel(c: u8, time: u64, rate: u64) -> (r: u8)
    requires
        1 <= rate <= 0xFFFF_FFFFu64,
    ensures
        r == spec_faded_channel(c, time, rate),
{
    let rem: u64 = if time >= rate { 0 } else { rate - time };
    proof {
        assert(rem == spec_remaining(time, rate));
        lemma_mul_inequality(c as int, 255, rem as int);
        lemma_mul_inequality(rem as int, 0xFFFF_FFFF, 255);
        lemma_mul_is_commutative(255, rem as int);
        lemma_faded_channel_bounds(c, time, rate);
    }
    ((c as u64) * rem / rate) as u8
}

/// A decayed channel never goes below zero nor above its base channel.
pub proof fn lemma_faded_channel_bounds(c: u8, time: u64, rate: u64)
    requires
        1 <= rate,
    ensures
        0 <= spec_faded_channel(c, time, rate) <= c,
{
    let rem = spec_remaining(time, rate);
    lemma_div_pos_is_pos(c * rem, rate as int);
    lemma_mul_inequality(rem, rate as int, c as int);
    lemma_mul_is_commutative(rem, c as int);
    lemma_mul_is_commutative(rate as int, c as int);
    lemma_div_is_ordered(c * rem, c * (rate as int), rate as int);
    lemma_div_multiples_vanish(c as int, rate as int);
    lemma_mul_is_commutative(c as int, rate as int);
}

/// Between triggers the shown color only decays: a later tick never shows a
/// brighter channel than an earlier one, whatever the base color.
pub proof fn lemma_fade_monotone(c: u8, t1: u64, t2: u64, rate: u64)
    requires
        1 <= rate,
        t1 <= t2,
    ensures
        spec_faded_channel(c, t2, rate) <= spec_faded_channel(c, t1, rate),
{
    let rem1 = spec_remaining(t1, rate);
    let rem2 = spec_remaining(t2, rate);
    assert(rem2 <= rem1);
    lemma_mul_inequality(rem2, rem1, c as int);
    lemma_mul_is_commutative(rem2, c as int);
    lemma_mul_is_commutative(rem1, c as int);
    lemma_div_is_ordered(c * rem2, c * rem1, rate as int);
}

/// At tick zero the shown color is the base color (opacity one); from tick
/// `rate` on it is black (opacity zero), whatever the base color.
pub proof fn lemma_fade_endpoints(c: u8, time: u64, rate: u64)
    requires
        1 <= rate,
    ensures
        spec_faded_channel(c, 0, rate) == c,
        time >= rate ==> spec_faded_channel(c, time, rate) == 0,
{
    lemma_div_multiples_vanish(c as int, rate as int);
    lemma_mul_is_commutative(c as int, rate as int);
    if time >= rate {
        lemma_basic_div(0, rate as int);
    }
}

/// Halfway through a fade of ten ticks each channel shows half its base value
/// (opacity one half), truncated, whatever the base color.
pub proof fn lemma_fade_half_at_rate_ten(c: u8)
    ensures
        spec_faded_channel(c, 5, 10) == c as int / 2,
{
    lemma_div_multiples_vanish_quotient(5, c as int, 2);
    lemma_mul_is_commutative(c as int, 5);
}

} // verus!
