//! Static body-region hitboxes and their damage multipliers.
//!
//! A hitbox is purely descriptive: it belongs to one body region of one entity
//! and never changes after creation.  Multipliers are in tenths, so the head's
//! `3.5` is stored as `35`.

use vstd::prelude::*;

verus! {

/// The damage multiplier of one body-region zone, in tenths.
#[derive(Clone, Copy, PartialEq, Eq, Structural, Debug)]
pub struct Hitbox(pub u32);

/// Multiplier of a head hit, in tenths: head shots deal 3.5 times the damage.
pub const HEAD_MULTIPLIER: u32 = 35;

/// Multiplier of a torso hit, in tenths: exactly the weapon's damage.
pub const TORSO_MULTIPLIER: u32 = 10;

/// Multiplier of a leg hit, in tenths: half the weapon's damage.
pub const LEGS_MULTIPLIER: u32 = 5;

impl Hitbox {
    pub fn head() -> (r: Hitbox)
        ensures
            r.0 == HEAD_MULTIPLIER,
    {
        Hitbox(HEAD_MULTIPLIER)
    }

    pub fn body() -> (r: Hitbox)
        ensures
            r.0 == TORSO_MULTIPLIER,
    {
        Hitbox(TORSO_MULTIPLIER)
    }

    pub fn legs() -> (r: Hitbox)
        ensures
            r.0 == LEGS_MULTIPLIER,
    {
        Hitbox(LEGS_MULTIPLIER)
    }
}

} // verus!
