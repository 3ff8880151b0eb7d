use vstd::prelude::*;
use vstd::arithmetic::div_mod::{
    lemma_fundamental_div_mod, lemma_fundamental_div_mod_converse_mod, lemma_mod_add_multiples_vanish,
    lemma_mod_bound, lemma_sub_mod_noop_right,
};

verus! {

/// The camera's angular unit is one tenth of a degree: raw pointer-motion
/// units are scaled by a fixed sensitivity of 0.1 degrees per raw unit, so
/// one raw unit of motion is exactly one stored unit of angle.
pub const YAW_UNITS_PER_TURN: u16 = 3600;

/// Pitch is clamped to +/- 89 degrees, i.e. 890 tenths of a degree, to keep
/// the view away from the poles (the camera never rolls, so this is the only
/// gimbal defence needed).
pub const PITCH_LIMIT_UNITS: i16 = 890;

/// Yaw angles are kept wrapped into [0, 3600) tenths of a degree.
pub open spec fn wrap_yaw(y: int) -> int {
    y % (YAW_UNITS_PER_TURN as int)
}

/// Pitch angles are clamped to [-890, 890] tenths of a degree; an update that
/// would overshoot a bound snaps exactly to that bound.
pub open spec fn clamp_pitch(p: int) -> int {
    if p < -(PITCH_LIMIT_UNITS as int) {
        -(PITCH_LIMIT_UNITS as int)
    } else if p > PITCH_LIMIT_UNITS as int {
        PITCH_LIMIT_UNITS as int
    } else {
        p
    }
}

/// One look-input step applied to an unbounded-integer orientation: both
/// deltas are subtracted, then yaw is wrapped and pitch is clamped.
pub open spec fn rotate_step(yaw: int, pitch: int, dx: int, dy: int) -> (int, int) {
    (wrap_yaw(yaw - dx), clamp_pitch(pitch - dy))
}

/// The orientation reached from `(yaw, pitch)` after a whole sequence of
/// look-input steps, applied first to last.
pub open spec fn rotate_trace(yaw: int, pitch: int, deltas: Seq<(int, int)>) -> (int, int)
    decreases deltas.len(),
{
    if deltas.len() == 0 {
        (yaw, pitch)
    } else {
        let s = rotate_step(yaw, pitch, deltas[0].0, deltas[0].1);
        rotate_trace(s.0, s.1, deltas.drop_first())
    }
}

/// A free-flying camera's orientation: yaw (left-right) and pitch (up-down),
/// both in tenths of a degree. Yaw is always wrapped into [0, 3600) and pitch
/// clamped to [-890, 890]. The world-space position and the view matrix are
/// derived outside the core, from this orientation, in floating point.
#[derive(Clone, Copy, Debug, PartialEq, Eq, Structural)]
pub struct Camera3D {
    pub yaw: u16,
    pub pitch: i16,
}

impl Camera3D {
    /// Both angles within their invariant ranges.
    pub open spec fn wf(&self) -> bool {
        &&& self.yaw < YAW_UNITS_PER_TURN
        &&& -PITCH_LIMIT_UNITS <= self.pitch <= PITCH_LIMIT_UNITS
    }

    /// A camera looking straight ahead along the canonical forward axis.
    pub fn new() -> (c: Camera3D)
        ensures
            c.yaw == 0,
            c.pitch == 0,
            c.wf(),
    {
        Camera3D { yaw: 0, pitch: 0 }
    }

    /// Consume one raw 2D pointer-motion delta: yaw decreases by `delta_x`
    /// units and wraps modulo a full turn; pitch decreases by `delta_y` units
    /// and snaps exactly to the nearer bound when the update would overshoot.
    pub fn rotate_xy(&mut self, delta_x: i64, delta_y: i64)
        requires
            old(self).wf(),
        ensures
            final(self).yaw == wrap_yaw(old(self).yaw - delta_x),
            final(self).pitch == clamp_pitch(old(self).pitch - delta_y),
            final(self).wf(),
    {
        // Reduce the yaw delta to [0, 3600) without signed division.
        let dxm: u64 = if delta_x >= 0 {
            (delta_x as u64) % 3600
        } else {
            let n: u64 = (-(delta_x as i128)) as u64;
            let m: u64 = n % 3600;
            proof {
                lemma_fundamental_div_mod(n as int, 3600);
                if m == 0 {
                    lemma_fundamental_div_mod_converse_mod(
                        delta_x as int, 3600, -((n as int) / 3600), 0);
                } else {
                    lemma_fundamental_div_mod_converse_mod(
                        delta_x as int, 3600, -((n as int) / 3600) - 1, 3600 - m);
                }
            }
            if m == 0 {
                0
            } else {
                3600 - m
            }
        };
        assert(dxm == wrap_yaw(delta_x as int));
        let wrapped: u64 = ((self.yaw as u64) + 3600 - dxm) % 3600;
        proof {
            lemma_mod_bound(delta_x as int, 3600);
            lemma_sub_mod_noop_right(old(self).yaw as int, delta_x as int, 3600);
            lemma_mod_add_multiples_vanish(old(self).yaw - dxm, 3600);
        }
        assert(wrapped == wrap_yaw(old(self).yaw - delta_x));
        self.yaw = wrapped as u16;

        let shifted: i128 = (self.pitch as i128) - (delta_y as i128);
        self.pitch = if shifted < -890 {
            -890
        } else if shifted > 890 {
            890
        } else {
            shifted as i16
        };
    }
}

/// Law: starting from any well-formed orientation, after any sequence of
/// look-input steps the yaw still lies in [0, 3600) tenths of a degree and
/// the pitch in [-890, 890].
pub proof fn lemma_rotation_stays_in_range(yaw: int, pitch: int, deltas: Seq<(int, int)>)
    requires
        0 <= yaw < 3600,
        -890 <= pitch <= 890,
    ensures
        0 <= rotate_trace(yaw, pitch, deltas).0 < 3600,
        -890 <= rotate_trace(yaw, pitch, deltas).1 <= 890,
    decreases deltas.len(),
{
    if deltas.len() > 0 {
        let s = rotate_step(yaw, pitch, deltas[0].0, deltas[0].1);
        lemma_mod_bound(yaw - deltas[0].0, 3600);
        lemma_rotation_stays_in_range(s.0, s.1, deltas.drop_first());
    }
}

} // verus!
