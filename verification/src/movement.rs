//! The per-tick movement decisions of the simulation loop.
//!
//! The library decides exactly which axes the directional flags demand, the
//! speed they integrate at, and whether a mouse delta falls under the
//! discretized-device rule.  The floating-point integration itself —
//! normalizing the direction, scaling by the elapsed time, rotating the
//! transform — happens outside the library on these decisions.

use vstd::prelude::*;
use crate::player::PlayerInput;

verus! {

/// Running speed, in milli-units per second.
pub const PLAYER_MOVE_SPEED: u64 = 7000;

/// Walking speed, in milli-units per second.
pub const PLAYER_SLOW_MOVE_SPEED: u64 = 3500;

/// Continuous mouse sensitivity, in thousandths.
pub const MOUSE_SENSIBILITY: u64 = 300;

/// Intensity of the outer flashlight cone.
pub const FLASHLIGHT_INTENSITY: u64 = 4000;

/// Uniform scale of a player's model, in whole units.
pub const PLAYER_SCALE: u64 = 3;

/// The body-frame axes one tick's directional flags demand, before
/// normalization: the first component counts `+1` toward the entity's left
/// and `-1` toward its right, the second `+1` forward and `-1` back.
/// Opposite flags cancel.
pub fn movement_axes(input: &PlayerInput) -> (r: (i8, i8))
    ensures
        r.0 as int == (if input.left {
            1int
        } else {
            0int
        }) - (if input.right {
            1int
        } else {
            0int
        }),
        r.1 as int == (if input.up {
            1int
        } else {
            0int
        }) - (if input.down {
            1int
        } else {
            0int
        }),
{
    let lateral: i8 = if input.left && !input.right {
        1
    } else if input.right && !input.left {
        -1
    } else {
        0
    };
    let longitudinal: i8 = if input.up && !input.down {
        1
    } else if input.down && !input.up {
        -1
    } else {
        0
    };
    (lateral, longitudinal)
}

/// The speed the movement vector integrates at, in milli-units per second:
/// the walking speed while the walk key is held, the running speed otherwise.
pub fn movement_speed(is_walking: bool) -> (s: u64)
    ensures
        s == if is_walking {
            PLAYER_SLOW_MOVE_SPEED as int
        } else {
            PLAYER_MOVE_SPEED as int
        },
{
    if is_walking {
        PLAYER_SLOW_MOVE_SPEED
    } else {
        PLAYER_MOVE_SPEED
    }
}

/// The discretized-device rule: a mouse delta of exactly one unit (a deadzoned
/// or discretized device) turns the view by a small fixed angle per tick;
/// any other delta is scaled continuously by the sensitivity and the elapsed
/// time.
pub fn is_micro_motion(delta_milli: i64) -> (r: bool)
    ensures
        r == (delta_milli == 1000 || delta_milli == -1000),
{
    delta_milli == 1000 || delta_milli == -1000
}

} // verus!
