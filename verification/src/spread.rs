//! Deterministic "spread" emission state: instead of sampling the volume
//! at random, a per-axis index sweeps it in fixed steps, cascading like an
//! odometer from the innermost axis outward.

use vstd::prelude::*;

use crate::fixed::SCALE;

verus! {

/// What happens when a spread index leaves `[0, SCALE]`.
#[derive(Clone, Copy, Debug, PartialEq, Eq, Structural)]
pub enum SpreadLoopMode {
    /// Wrap back into the interval.
    Loop,
    /// Reverse direction and walk back.
    PingPong,
}

/// Spread parameters for one axis.
#[derive(Clone, Copy, Debug, PartialEq, Eq, Structural)]
pub struct AxisSpread {
    /// Step between consecutive samples, in `[0, SCALE]`; zero disables
    /// the axis.
    pub amount: i64,
    /// Looping mode of the axis.
    pub loop_mode: SpreadLoopMode,
    /// Whether samples are placed exactly at the index (instead of being
    /// drawn between the previous and the current index).
    pub uniform: bool,
}

/// The axis step is a fraction of the interval.
pub open spec fn axis_spread_wf(a: AxisSpread) -> bool {
    0 <= a.amount <= SCALE
}

/// Full spread state: parameters, current index and sweep direction of
/// each axis.
#[derive(Clone, Copy, Debug, PartialEq, Eq)]
pub struct EmissionSpread {
    /// Per-axis parameters.
    pub spreads: [AxisSpread; 3],
    /// Per-axis current index, each in `[0, SCALE]`.
    pub current_index: [i64; 3],
    /// Per-axis sweep direction; true means the index grows.
    pub upwards: [bool; 3],
}

/// All axes have valid parameters and indices inside `[0, SCALE]`.
pub open spec fn spread_wf(s: EmissionSpread) -> bool {
    &&& axis_spread_wf(s.spreads[0])
    &&& axis_spread_wf(s.spreads[1])
    &&& axis_spread_wf(s.spreads[2])
    &&& 0 <= s.current_index[0] <= SCALE
    &&& 0 <= s.current_index[1] <= SCALE
    &&& 0 <= s.current_index[2] <= SCALE
}

/// One axis step: `(new index, new direction, carry)`. A zero step resets
/// the axis and carries. A step that stays inside `[0, SCALE]` just moves.
/// One that leaves the interval carries, and either wraps (`Loop`) or
/// reverses, holding its position (`PingPong`).
pub open spec fn axis_step_spec(a: AxisSpread, index: i64, upwards: bool) -> (i64, bool, bool) {
    if a.amount == 0 {
        (0i64, upwards, true)
    } else {
        let moved = if upwards {
            index + a.amount
        } else {
            index - a.amount
        };
        if moved < 0 || moved > SCALE {
            match a.loop_mode {
                SpreadLoopMode::Loop => {
                    let wrapped = SCALE - moved;
                    let clamped = if wrapped < 0 {
                        0int
                    } else if wrapped > SCALE {
                        SCALE as int
                    } else {
                        wrapped
                    };
                    (clamped as i64, upwards, true)
                },
                SpreadLoopMode::PingPong => (index, !upwards, true),
            }
        } else {
            (moved as i64, upwards, false)
        }
    }
}

/// One axis step, executable.
fn axis_step(a: AxisSpread, index: i64, upwards: bool) -> (r: (i64, bool, bool))
    requires
        axis_spread_wf(a),
        0 <= index <= SCALE,
    ensures
        r == axis_step_spec(a, index, upwards),
        0 <= r.0 <= SCALE,
{
    if a.amount == 0 {
        (0, upwards, true)
    } else {
        let moved = if upwards {
            index + a.amount
        } else {
            index - a.amount
        };
        if moved < 0 || moved > SCALE {
            match a.loop_mode {
                SpreadLoopMode::Loop => {
                    let wrapped = SCALE - moved;
                    let clamped = if wrapped < 0 {
                        0
                    } else if wrapped > SCALE {
                        SCALE
                    } else {
                        wrapped
                    };
                    (clamped, upwards, true)
                },
                SpreadLoopMode::PingPong => (index, !upwards, true),
            }
        } else {
            (moved, upwards, false)
        }
    }
}

/// The whole odometer advance, as a function: axis 2 always steps; a carry
/// steps axis 1; a carry there steps axis 0.
pub open spec fn spread_step_spec(s: EmissionSpread) -> EmissionSpread {
    let (i2, u2, c2) = axis_step_spec(s.spreads[2], s.current_index[2], s.upwards[2]);
    let (i1, u1, c1) = if c2 {
        axis_step_spec(s.spreads[1], s.current_index[1], s.upwards[1])
    } else {
        (s.current_index[1], s.upwards[1], false)
    };
    let (i0, u0, _c0) = if c1 {
        axis_step_spec(s.spreads[0], s.current_index[0], s.upwards[0])
    } else {
        (s.current_index[0], s.upwards[0], false)
    };
    EmissionSpread {
        spreads: s.spreads,
        current_index: [i0, i1, i2],
        upwards: [u0, u1, u2],
    }
}

/// The index an axis held one step ago, reconstructed from the current
/// index and the sweep direction; may lie outside `[0, SCALE]`.
pub open spec fn previous_at_spec(s: EmissionSpread, axis: int) -> i64 {
    if s.upwards[axis] {
        (s.current_index[axis] - s.spreads[axis].amount) as i64
    } else {
        (s.current_index[axis] + s.spreads[axis].amount) as i64
    }
}

impl Default for SpreadLoopMode {
    /// Wrap at the ends.
    fn default() -> (m: SpreadLoopMode)
        ensures
            m == SpreadLoopMode::Loop,
    {
        SpreadLoopMode::Loop
    }
}

impl Default for AxisSpread {
    /// Ten percent steps, wrapping, non-uniform.
    fn default() -> (a: AxisSpread)
        ensures
            a == (AxisSpread { amount: (SCALE / 10) as i64, loop_mode: SpreadLoopMode::Loop, uniform: false }),
            axis_spread_wf(a),
    {
        AxisSpread { amount: SCALE / 10, loop_mode: SpreadLoopMode::Loop, uniform: false }
    }
}

impl Default for EmissionSpread {
    /// Default axes, at the start of their sweep.
    fn default() -> (s: EmissionSpread)
        ensures
            spread_wf(s),
            s.current_index == [0i64, 0i64, 0i64],
            s.upwards == [true, true, true],
    {
        let axis = AxisSpread { amount: SCALE / 10, loop_mode: SpreadLoopMode::Loop, uniform: false };
        EmissionSpread { spreads: [axis, axis, axis], current_index: [0, 0, 0], upwards: [true, true, true] }
    }
}

impl EmissionSpread {
    /// Spread state at the start of a sweep: every axis at zero, growing.
    pub fn start(spreads: [AxisSpread; 3]) -> (s: EmissionSpread)
        requires
            axis_spread_wf(spreads[0]),
            axis_spread_wf(spreads[1]),
            axis_spread_wf(spreads[2]),
        ensures
            spread_wf(s),
            s.spreads == spreads,
            s.current_index == [0i64, 0i64, 0i64],
            s.upwards == [true, true, true],
    {
        EmissionSpread { spreads, current_index: [0, 0, 0], upwards: [true, true, true] }
    }

    /// The index `axis` held one step ago.
    pub fn previous_at(&self, axis: usize) -> (r: i64)
        requires
            axis < 3,
            spread_wf(*self),
        ensures
            r == previous_at_spec(*self, axis as int),
            -SCALE <= r <= 2 * SCALE,
    {
        if self.upwards[axis] {
            self.current_index[axis] - self.spreads[axis].amount
        } else {
            self.current_index[axis] + self.spreads[axis].amount
        }
    }

    /// Advances the odometer by one sample and returns the previous and
    /// current index of each axis (the previous values reconstructed after
    /// the carry, exactly as sampled positions consume them).
    pub fn update_index(&mut self) -> (r: ([i64; 3], [i64; 3]))
        requires
            spread_wf(*old(self)),
        ensures
            spread_wf(*final(self)),
            *final(self) == spread_step_spec(*old(self)),
            r.1 == final(self).current_index,
            r.0[2] == old(self).current_index[2],
            r.0[1] == previous_at_spec(*final(self), 1),
            r.0[0] == previous_at_spec(*final(self), 0),
    {
        let prev2 = self.current_index[2];
        let (i2, u2, c2) = axis_step(self.spreads[2], self.current_index[2], self.upwards[2]);
        let (i1, u1, c1) = if c2 {
            axis_step(self.spreads[1], self.current_index[1], self.upwards[1])
        } else {
            (self.current_index[1], self.upwards[1], false)
        };
        let (i0, u0, _c0) = if c1 {
            axis_step(self.spreads[0], self.current_index[0], self.upwards[0])
        } else {
            (self.current_index[0], self.upwards[0], false)
        };
        self.current_index = [i0, i1, i2];
        self.upwards = [u0, u1, u2];
        let prev1 = self.previous_at(1);
        let prev0 = self.previous_at(0);
        (([prev0, prev1, prev2], [i0, i1, i2]))
    }
}

} // verus!
