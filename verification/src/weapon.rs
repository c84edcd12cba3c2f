//! Firing configuration and mutable firing state of one weapon.
//!
//! Times are in milliseconds; damage is in whole hit points; recoil offsets
//! are in milli-units (thousandths of a world unit).

use vstd::prelude::*;

verus! {

/// How the trigger authorizes a shot: held continuously for `Auto`,
/// rising edge only for `SemiAuto` and `Burst`.
#[derive(Clone, Copy, PartialEq, Eq, Structural, Debug)]
pub enum FireMode {
    SemiAuto,
    Auto,
    Burst,
}

/// One entry of the spray pattern: the recoil offset, in milli-units, that is
/// added to the aim direction for the shot with the matching consecutive-shot
/// index.
#[derive(Clone, Copy, PartialEq, Eq, Structural, Debug)]
pub struct SprayOffset {
    pub x: i64,
    pub y: i64,
}

/// Timestamp, in milliseconds, of the most recent shot.
#[derive(Clone, Copy, PartialEq, Eq, Structural, Debug)]
pub struct LastShot(pub u64);

/// Per-entity firing configuration plus mutable firing state.
///
/// `ammos` here is the magazine size; the live round count of a player is
/// carried in the player's logical state.
#[derive(Debug)]
pub struct Weapon {
    /// Damage of one hit, in whole hit points.
    pub damage: u32,
    /// Dispersion, in tenths of a unit.
    pub dispersion: u32,
    /// Minimum interval between two shots, in milliseconds.
    pub rate_of_fire: u64,
    /// Timestamp of the last shot, in milliseconds.
    pub last_shot: u64,
    /// Magazine size.
    pub ammos: u8,
    pub fire_mode: FireMode,
    /// Duration of one reload, in milliseconds.
    pub reload_duration: u64,
    /// A gap longer than this between two shots resets the recoil, in
    /// milliseconds.
    pub recoil_reset: u64,
    /// Number of shots fired without a recoil reset in between.
    pub consecutive_shots: u64,
    /// Recoil offsets indexed by the consecutive-shot counter.
    pub spray_pattern: Vec<SprayOffset>,
}

/// Bound on the magnitude of a spray-pattern offset, in milli-units.
pub const SPRAY_OFFSET_BOUND: i64 = 1_000_000;

/// Bound on a weapon's damage, in whole hit points.
pub const DAMAGE_BOUND: u32 = 1_000_000;

impl Weapon {
    /// A weapon is well formed when its spray pattern has at least one entry
    /// (so a recoil lookup always has a row to read), its offsets and damage
    /// are bounded (so direction and damage arithmetic cannot overflow), and
    /// one extra round still fits in the magazine counter.
    pub open spec fn wf(&self) -> bool {
        &&& self.spray_pattern@.len() >= 1
        &&& forall|i: int|
            0 <= i < self.spray_pattern@.len() ==> #[trigger] bounded_offset(
                self.spray_pattern@[i],
            )
        &&& self.damage <= DAMAGE_BOUND
        &&& self.ammos < u8::MAX
    }

    pub fn pistol(now: u64) -> (w: Weapon)
        ensures
            w.wf(),
            w.damage == 150,
            w.dispersion == 10,
            w.rate_of_fire == 500,
            w.last_shot == now,
            w.ammos == 12,
            w.fire_mode == FireMode::SemiAuto,
            w.reload_duration == 2000,
            w.recoil_reset == 800,
            w.consecutive_shots == 0,
            w.spray_pattern@ == simple_spray_pattern_spec(),
    {
        Weapon {
            damage: 150,
            dispersion: 10,
            rate_of_fire: 500,
            last_shot: now,
            ammos: 12,
            fire_mode: FireMode::SemiAuto,
            reload_duration: 2000,
            recoil_reset: 800,
            consecutive_shots: 0,
            spray_pattern: simple_spray_pattern(),
        }
    }

    pub fn shotgun(now: u64) -> (w: Weapon)
        ensures
            w.wf(),
            w.damage == 80,
            w.dispersion == 100,
            w.rate_of_fire == 1200,
            w.last_shot == now,
            w.ammos == 7,
            w.fire_mode == FireMode::SemiAuto,
            w.reload_duration == 2000,
            w.recoil_reset == 800,
            w.consecutive_shots == 0,
            w.spray_pattern@ == simple_spray_pattern_spec(),
    {
        Weapon {
            damage: 80,
            dispersion: 100,
            rate_of_fire: 1200,
            last_shot: now,
            ammos: 7,
            fire_mode: FireMode::SemiAuto,
            reload_duration: 2000,
            recoil_reset: 800,
            consecutive_shots: 0,
            spray_pattern: simple_spray_pattern(),
        }
    }

    pub fn rifle(now: u64) -> (w: Weapon)
        ensures
            w.wf(),
            w.damage == 33,
            w.dispersion == 30,
            w.rate_of_fire == 100,
            w.last_shot == now,
            w.ammos == RIFLE_MAGAZINE,
            w.fire_mode == FireMode::Auto,
            w.reload_duration == 2000,
            w.recoil_reset == 800,
            w.consecutive_shots == 0,
            w.spray_pattern@ == simple_spray_pattern_spec(),
    {
        Weapon {
            damage: 33,
            dispersion: 30,
            rate_of_fire: 100,
            last_shot: now,
            ammos: RIFLE_MAGAZINE,
            fire_mode: FireMode::Auto,
            reload_duration: 2000,
            recoil_reset: 800,
            consecutive_shots: 0,
            spray_pattern: simple_spray_pattern(),
        }
    }
}

/// Magazine size of the rifle, the weapon every entity spawns with.
pub const RIFLE_MAGAZINE: u8 = 30;

pub open spec fn bounded_offset(o: SprayOffset) -> bool {
    -SPRAY_OFFSET_BOUND <= o.x <= SPRAY_OFFSET_BOUND && -SPRAY_OFFSET_BOUND <= o.y
        <= SPRAY_OFFSET_BOUND
}

/// The placeholder pattern: no horizontal kick, vertical kick of one
/// world unit more for each consecutive shot.
pub open spec fn simple_spray_pattern_spec() -> Seq<SprayOffset> {
    Seq::new(31, |i: int| SprayOffset { x: 0, y: (1000 * i) as i64 })
}

fn simple_spray_pattern() -> (r: Vec<SprayOffset>)
    ensures
        r@ == simple_spray_pattern_spec(),
        r@.len() == 31,
        forall|i: int| 0 <= i < r@.len() ==> #[trigger] bounded_offset(r@[i]),
{
    let mut res: Vec<SprayOffset> = Vec::new();
    let mut i: u64 = 0;
    while i < 31
        invariant
            i <= 31,
            res@.len() == i,
            forall|j: int| 0 <= j < i ==> res@[j] == simple_spray_pattern_spec()[j],
        decreases 31 - i,
    {
        res.push(SprayOffset { x: 0, y: 1000 * (i as i64) });
        i = i + 1;
    }
    assert(res@ =~= simple_spray_pattern_spec());
    res
}

} // verus!
