//! The controller: owns the two fading lights, the pressed state of the two
//! analog keys and the most recently pressed side, applies press samples and
//! judgement events to them, and materializes the per-zone color writes that
//! the hardware sink receives each tick.
//!
//! Analog intensity arrives as thousandths of the full scale, so a reading of
//! one tenth of the scale is the value 100; a key counts as pressed above
//! that threshold. The hardware itself (the analog source and the RGB sink)
//! stays outside this crate.

use vstd::prelude::*;
use crate::lights::{
    get_lights_from_side, spec_judgement_color, spec_zones, FadingLight, LightSide,
};
use crate::ws::JudgementChange;

verus! {

/// Which analog key most recently went from unpressed to pressed.
#[derive(Debug, Clone, Copy, PartialEq, Eq, Structural)]
pub enum PressedKey {
    Left,
    Right,
    Neither,
}

/// Analog readings above this many thousandths of the full scale count as
/// pressed.
pub const PRESS_THRESHOLD: u32 = 100;

/// How many ticks a triggered light takes to fade out.
pub const FADE_RATE: u64 = 10;

/// The controller state: per-side lights, per-side pressed flags, and the
/// side pressed last.
pub struct Keyboard {
    pub keys_pressed: (bool, bool),
    pub lights: (FadingLight, FadingLight),
    pub last_pressed: PressedKey,
}

/// The controller state a session starts from: nothing pressed, both lights
/// white and fully decayed.
pub open spec fn spec_initial_keyboard() -> Keyboard {
    Keyboard {
        keys_pressed: (false, false),
        last_pressed: PressedKey::Neither,
        lights: (
            FadingLight {
                side: LightSide::Left,
                time: 0xFFFFu64,
                color: (255u8, 255u8, 255u8),
                fade_rate: FADE_RATE,
            },
            FadingLight {
                side: LightSide::Right,
                time: 0xFFFFu64,
                color: (255u8, 255u8, 255u8),
                fade_rate: FADE_RATE,
            },
        ),
    }
}

/// The state after one press sample. Each side whose key went from unpressed
/// to pressed has its fade restarted; the side pressed last is recorded, the
/// right side winning when both transition in the same sample.
pub open spec fn spec_check_presses(kb: Keyboard, left: bool, right: bool) -> Keyboard {
    let left_edge = left && !kb.keys_pressed.0;
    let right_edge = right && !kb.keys_pressed.1;
    Keyboard {
        keys_pressed: (left, right),
        last_pressed: if right_edge {
            PressedKey::Right
        } else if left_edge {
            PressedKey::Left
        } else {
            kb.last_pressed
        },
        lights: (
            if left_edge {
                FadingLight { time: 0u64, ..kb.lights.0 }
            } else {
                kb.lights.0
            },
            if right_edge {
                FadingLight { time: 0u64, ..kb.lights.1 }
            } else {
                kb.lights.1
            },
        ),
    }
}

/// The state after one judgement event. No change leaves everything alone; a
/// reset or a miss repaints both sides with its color and restarts both
/// fades; a great, good or meh repaints only the side pressed last, without
/// restarting its fade, and is dropped when no side was pressed yet.
pub open spec fn spec_apply_judgement(kb: Keyboard, judgement: JudgementChange) -> Keyboard {
    let color = spec_judgement_color(judgement);
    match judgement {
        JudgementChange::NoChange => kb,
        JudgementChange::Reset | JudgementChange::Miss => Keyboard {
            lights: (
                FadingLight { color, time: 0u64, ..kb.lights.0 },
                FadingLight { color, time: 0u64, ..kb.lights.1 },
            ),
            ..kb
        },
        _ => match kb.last_pressed {
            PressedKey::Left => Keyboard {
                lights: (FadingLight { color, ..kb.lights.0 }, kb.lights.1),
                ..kb
            },
            PressedKey::Right => Keyboard {
                lights: (kb.lights.0, FadingLight { color, ..kb.lights.1 }),
                ..kb
            },
            PressedKey::Neither => kb,
        },
    }
}

/// The state after one animation tick: both fades one tick older, saturating.
pub open spec fn spec_tick(kb: Keyboard) -> Keyboard {
    Keyboard {
        lights: (
            FadingLight {
                time: if kb.lights.0.time < u64::MAX {
                    (kb.lights.0.time + 1) as u64
                } else {
                    u64::MAX
                },
                ..kb.lights.0
            },
            FadingLight {
                time: if kb.lights.1.time < u64::MAX {
                    (kb.lights.1.time + 1) as u64
                } else {
                    u64::MAX
                },
                ..kb.lights.1
            },
        ),
        ..kb
    }
}

/// The write set one tick materializes: every left zone paired with the left
/// light's current color, then every right zone with the right light's.
pub open spec fn spec_write_set(kb: Keyboard) -> Seq<((u8, u8), (u8, u8, u8))> {
    spec_zones(LightSide::Left).map_values(|zone: (u8, u8)| (zone, kb.lights.0.spec_color()))
        + spec_zones(LightSide::Right).map_values(|zone: (u8, u8)| (zone, kb.lights.1.spec_color()))
}

impl Keyboard {
    /// Both lights keep a fade rate the color computation can live with, and
    /// each sits on its own side of the keyboard.
    pub open spec fn wf(self) -> bool {
        &&& self.lights.0.wf()
        &&& self.lights.1.wf()
        &&& self.lights.0.side == LightSide::Left
        &&& self.lights.1.side == LightSide::Right
    }

    /// A controller in its starting state.
    pub fn new() -> (kb: Self)
        ensures
            kb == spec_initial_keyboard(),
            kb.wf(),
    {
        Keyboard {
            keys_pressed: (false, false),
            last_pressed: PressedKey::Neither,
            lights: (
                FadingLight::new(LightSide::Left, (255, 255, 255), FADE_RATE),
                FadingLight::new(LightSide::Right, (255, 255, 255), FADE_RATE),
            ),
        }
    }

    /// Applies one pair of analog readings, in thousandths of the full
    /// scale: records which keys are pressed, restarts the fade of each side
    /// whose key just went down, and remembers the side pressed last.
    pub fn check_presses(&mut self, left_value: u32, right_value: u32)
        ensures
            *final(self) == spec_check_presses(
                *old(self),
                left_value > PRESS_THRESHOLD,
                right_value > PRESS_THRESHOLD,
            ),
            old(self).wf() ==> final(self).wf(),
    {
        let left_pressed = left_value > PRESS_THRESHOLD;
        let right_pressed = right_value > PRESS_THRESHOLD;

        if left_pressed && !self.keys_pressed.0 {
            self.last_pressed = PressedKey::Left;
            self.lights.0.reset();
        }
        self.keys_pressed.0 = left_pressed;

        if right_pressed && !self.keys_pressed.1 {
            self.last_pressed = PressedKey::Right;
            self.lights.1.reset();
        }
        self.keys_pressed.1 = right_pressed;
    }

    /// Consumes one press sample and one judgement event: first the press
    /// sample as `check_presses` does, then the judgement as
    /// `spec_apply_judgement` states it.
    pub fn read(&mut self, judgement: JudgementChange, left_value: u32, right_value: u32)
        ensures
            *final(self) == spec_apply_judgement(
                spec_check_presses(
                    *old(self),
                    left_value > PRESS_THRESHOLD,
                    right_value > PRESS_THRESHOLD,
                ),
                judgement,
            ),
            old(self).wf() ==> final(self).wf(),
    {
        self.check_presses(left_value, right_value);
        let color = FadingLight::get_judgement_color(judgement);
        match judgement {
            JudgementChange::NoChange => (),
            JudgementChange::Reset | JudgementChange::Miss => {
                self.lights.0.set_color(color);
                self.lights.1.set_color(color);
                self.lights.0.reset();
                self.lights.1.reset();
            },
            _ => {
                match self.last_pressed {
                    PressedKey::Left => self.lights.0.set_color(color),
                    PressedKey::Right => self.lights.1.set_color(color),
                    PressedKey::Neither => (),
                }
            },
        }
    }

    /// Advances both fades by one tick and materializes the write set for
    /// this tick: one entry per physical zone, left side first.
    pub fn update(&mut self) -> (writes: Vec<((u8, u8), (u8, u8, u8))>)
        requires
            old(self).wf(),
        ensures
            *final(self) == spec_tick(*old(self)),
            final(self).wf(),
            writes@ == spec_write_set(*final(self)),
    {
        self.lights.0.update();
        self.lights.1.update();
        let mut writes = write_light(&self.lights.0);
        let mut right_writes = write_light(&self.lights.1);
        proof {
            let left_part = spec_zones(LightSide::Left).map_values(
                |zone: (u8, u8)| (zone, self.lights.0.spec_color()),
            );
            let right_part = spec_zones(LightSide::Right).map_values(
                |zone: (u8, u8)| (zone, self.lights.1.spec_color()),
            );
            assert(writes@ =~= left_part);
            assert(right_writes@ =~= right_part);
        }
        writes.append(&mut right_writes);
        proof {
            assert(writes@ =~= spec_write_set(*self));
        }
        writes
    }
}

/// The writes one light asks for this tick: each of its side's zones paired
/// with its current color.
pub fn write_light(light: &FadingLight) -> (writes: Vec<((u8, u8), (u8, u8, u8))>)
    requires
        light.wf(),
    ensures
        writes@ == spec_zones(light.side).map_values(
            |zone: (u8, u8)| (zone, light.spec_color()),
        ),
{
    let color = light.get_color();
    let zones = get_lights_from_side(light.side);
    let mut writes: Vec<((u8, u8), (u8, u8, u8))> = Vec::new();
    let mut i: usize = 0;
    while i < zones.len()
        invariant
            i <= zones.len(),
            zones@ == spec_zones(light.side),
            color == light.spec_color(),
            writes@ == spec_zones(light.side).take(i as int).map_values(
                |zone: (u8, u8)| (zone, light.spec_color()),
            ),
        decreases zones.len() - i,
    {
        writes.push((zones[i], color));
        proof {
            assert(spec_zones(light.side).take(i + 1) =~= spec_zones(light.side).take(
                i as int,
            ).push(spec_zones(light.side)[i as int]));
            assert(writes@ =~= spec_zones(light.side).take(i + 1).map_values(
                |zone: (u8, u8)| (zone, light.spec_color()),
            ));
        }
        i = i + 1;
    }
    proof {
        assert(spec_zones(light.side).take(zones@.len() as int) =~= spec_zones(light.side));
    }
    writes
}

} // verus!
