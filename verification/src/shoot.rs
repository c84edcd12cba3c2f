//! Combat resolution: fire gating, recoil, shot emission and damage
//! application.

use vstd::prelude::*;
use crate::hitbox::Hitbox;
use crate::player::{Player, PlayerInput, Vec3Milli};
use crate::weapon::{FireMode, Weapon};

verus! {

/// Speed of a simulated projectile, in world units per second.
pub const BULLET_VELOCITY: u64 = 200;

/// An ephemeral projectile: its damage payload, in whole hit points, and its
/// direction in milli-units.  Only its effect (the hp change) is replicated.
#[derive(Clone, Copy, PartialEq, Eq, Structural, Debug)]
pub struct Bullet {
    pub damage: u32,
    pub direction: Vec3Milli,
}

impl Bullet {
    pub fn new(damage: u32, direction: Vec3Milli) -> (b: Bullet)
        ensures
            b == (Bullet { damage, direction }),
    {
        Bullet { damage, direction }
    }
}

/// Whether the trigger state authorizes this fire mode: a fully-automatic
/// weapon fires while the trigger is held, the other modes only on the tick
/// the trigger was pressed.
pub open spec fn trigger_matches(input: PlayerInput, mode: FireMode) -> bool {
    match mode {
        FireMode::Auto => input.left_click,
        FireMode::SemiAuto => input.left_click_just_pressed,
        FireMode::Burst => input.left_click_just_pressed,
    }
}

/// The fire gate: a shot at time `now` is authorized exactly when the trigger
/// matches the fire mode, the minimum inter-shot interval has elapsed, a round
/// is left, and no reload is in progress.
pub open spec fn fire_gate(
    input: PlayerInput,
    weapon: Weapon,
    ammos: u8,
    is_reloading: bool,
    now: u64,
) -> bool {
    &&& trigger_matches(input, weapon.fire_mode)
    &&& now - weapon.last_shot >= weapon.rate_of_fire
    &&& ammos > 0
    &&& !is_reloading
}

/// Evaluates the fire gate.
pub fn can_shoot(
    input: &PlayerInput,
    weapon: &Weapon,
    ammos: u8,
    is_reloading: bool,
    now: u64,
) -> (r: bool)
    requires
        now >= weapon.last_shot,
    ensures
        r == fire_gate(*input, *weapon, ammos, is_reloading, now),
{
    let input_ok = match weapon.fire_mode {
        FireMode::Auto => input.left_click,
        FireMode::SemiAuto => input.left_click_just_pressed,
        FireMode::Burst => input.left_click_just_pressed,
    };
    input_ok && now - weapon.last_shot >= weapon.rate_of_fire && ammos > 0 && !is_reloading
}

/// A shot is authorized if and only if all four gating conditions hold at
/// once; making any single one false prevents the shot.
pub proof fn lemma_fire_gate_all_four(
    input: PlayerInput,
    weapon: Weapon,
    ammos: u8,
    is_reloading: bool,
    now: u64,
)
    requires
        now >= weapon.last_shot,
    ensures
        fire_gate(input, weapon, ammos, is_reloading, now) <==> (trigger_matches(
            input,
            weapon.fire_mode,
        ) && now - weapon.last_shot >= weapon.rate_of_fire && ammos > 0 && !is_reloading),
        !trigger_matches(input, weapon.fire_mode) ==> !fire_gate(
            input,
            weapon,
            ammos,
            is_reloading,
            now,
        ),
        now - weapon.last_shot < weapon.rate_of_fire ==> !fire_gate(
            input,
            weapon,
            ammos,
            is_reloading,
            now,
        ),
        ammos == 0 ==> !fire_gate(input, weapon, ammos, is_reloading, now),
        is_reloading ==> !fire_gate(input, weapon, ammos, is_reloading, now),
{
}

/// The consecutive-shot counter after a shot whose gap to the previous shot
/// was `gap` milliseconds: a gap longer than the reset interval starts the
/// spray over, any other gap advances the counter by one.
pub open spec fn recoil_counter_step(c: nat, gap: u64, recoil_reset: u64) -> nat {
    if gap > recoil_reset {
        0
    } else {
        c + 1
    }
}

/// The counter after a run of shots with the given gaps.
pub open spec fn recoil_counter_after(c0: nat, gaps: Seq<u64>, recoil_reset: u64) -> nat
    decreases gaps.len(),
{
    if gaps.len() == 0 {
        c0
    } else {
        recoil_counter_step(
            recoil_counter_after(c0, gaps.drop_last(), recoil_reset),
            gaps.last(),
            recoil_reset,
        )
    }
}

/// Over any run of shots whose gaps all stay within the recoil-reset
/// interval, the counter climbs by exactly one per shot; and any shot whose
/// gap exceeds the interval restarts the counter at zero.
pub proof fn lemma_consecutive_shots(c0: nat, gaps: Seq<u64>, recoil_reset: u64)
    ensures
        (forall|i: int| 0 <= i < gaps.len() ==> #[trigger] gaps[i] <= recoil_reset)
            ==> recoil_counter_after(c0, gaps, recoil_reset) == c0 + gaps.len(),
        gaps.len() > 0 && gaps.last() > recoil_reset ==> recoil_counter_after(
            c0,
            gaps,
            recoil_reset,
        ) == 0,
    decreases gaps.len(),
{
    if gaps.len() > 0 {
        lemma_consecutive_shots(c0, gaps.drop_last(), recoil_reset);
        if forall|i: int| 0 <= i < gaps.len() ==> #[trigger] gaps[i] <= recoil_reset {
            assert(forall|i: int|
                0 <= i < gaps.len() - 1 ==> #[trigger] gaps.drop_last()[i] <= recoil_reset);
            assert(gaps.last() <= recoil_reset);
        }
    }
}

/// The executable counter, which lives in a `u64`, advances as
/// [`recoil_counter_step`] says and can only saturate at the very top of its
/// range.
pub open spec fn next_counter(c: u64, gap: u64, recoil_reset: u64) -> u64 {
    if gap > recoil_reset {
        0
    } else if c < u64::MAX {
        (c + 1) as u64
    } else {
        c
    }
}

/// Until the counter reaches the top of its range, the executable counter
/// advances exactly as the abstract step does; only at `u64::MAX`, which no
/// session reaches, does it saturate instead of climbing.
pub proof fn lemma_next_counter_matches_step(c: u64, gap: u64, recoil_reset: u64)
    ensures
        c < u64::MAX ==> next_counter(c, gap, recoil_reset) == recoil_counter_step(
            c as nat,
            gap,
            recoil_reset,
        ),
{
}

/// Height of the muzzle above the ground, in milli-units: shots leave from
/// the camera's eye height, whatever the body's pose.
pub const EYE_HEIGHT: i64 = 2134;

/// Bound on an aim direction's components, in milli-units; camera directions
/// are unit vectors, so they stay far inside it.
pub const AIM_BOUND: i64 = 1_000_000_000;

pub open spec fn bounded_aim(aim: Vec3Milli) -> bool {
    &&& -AIM_BOUND <= aim.x <= AIM_BOUND
    &&& -AIM_BOUND <= aim.y <= AIM_BOUND
    &&& -AIM_BOUND <= aim.z <= AIM_BOUND
}

/// The spray-pattern row a shot reads: the consecutive-shot counter, clamped
/// to the last row.  The counter itself is unbounded while the table is not;
/// sustained automatic fire past the table's end keeps reading the last row
/// rather than running off the table.
pub open spec fn spray_index(c: u64, len: nat) -> int
    recommends
        len >= 1,
{
    if c < len {
        c as int
    } else {
        len - 1
    }
}

/// Everything the authority does to one entity's weapon state on a tick on
/// which it may shoot.  When the fire gate refuses, only the transient
/// shooting flag is cleared.  When it authorizes: the recoil counter steps
/// ([`next_counter`]), the spray offset at the (clamped) counter index is
/// added to the aim to finalize the shot direction, one round is spent, the
/// shot is timestamped, the shooting flag is set, and the bullet is returned
/// for simulation.
pub fn shoot(
    input: &PlayerInput,
    weapon: &mut Weapon,
    player: &mut Player,
    aim: Vec3Milli,
    now: u64,
) -> (bullet: Option<Bullet>)
    requires
        old(weapon).wf(),
        now >= old(weapon).last_shot,
        bounded_aim(aim),
    ensures
        final(weapon).wf(),
        !fire_gate(*input, *old(weapon), old(player).ammos, old(player).is_reloading, now) ==> ({
            &&& bullet is None
            &&& *final(weapon) == *old(weapon)
            &&& *final(player) == (Player { is_shooting: false, ..*old(player) })
        }),
        fire_gate(*input, *old(weapon), old(player).ammos, old(player).is_reloading, now) ==> ({
            let gap = (now - old(weapon).last_shot) as u64;
            let c = next_counter(old(weapon).consecutive_shots, gap, old(weapon).recoil_reset);
            let off = old(weapon).spray_pattern@[spray_index(
                c,
                old(weapon).spray_pattern@.len(),
            )];
            &&& bullet == Some(
                Bullet {
                    damage: old(weapon).damage,
                    direction: Vec3Milli {
                        x: (aim.x + off.x) as i64,
                        y: (aim.y + off.y) as i64,
                        z: aim.z,
                    },
                },
            )
            &&& *final(weapon) == (Weapon {
                last_shot: now,
                consecutive_shots: c,
                ..*old(weapon)
            })
            &&& *final(player) == (Player {
                ammos: (old(player).ammos - 1) as u8,
                is_shooting: true,
                ..*old(player)
            })
        }),
{
    if !can_shoot(input, weapon, player.ammos, player.is_reloading, now) {
        player.is_shooting = false;
        return None;
    }
    // recoil: a long pause resets the spray, otherwise the counter climbs
    if now - weapon.last_shot > weapon.recoil_reset {
        weapon.consecutive_shots = 0;
    } else {
        weapon.consecutive_shots = weapon.consecutive_shots.saturating_add(1);
    }

    let idx = if weapon.consecutive_shots < weapon.spray_pattern.len() as u64 {
        weapon.consecutive_shots as usize
    } else {
        weapon.spray_pattern.len() - 1
    };
    let off = weapon.spray_pattern[idx];
    assert(crate::weapon::bounded_offset(weapon.spray_pattern@[idx as int]));

    weapon.last_shot = now;
    player.ammos = player.ammos - 1;
    player.is_shooting = true;

    Some(
        Bullet {
            damage: weapon.damage,
            direction: Vec3Milli { x: aim.x + off.x, y: aim.y + off.y, z: aim.z },
        },
    )
}

/// The hp a target is left with after a hit: the weapon's damage, in whole
/// points, scaled by the region multiplier, in tenths, comes straight off the
/// target's tenths-of-a-point hp, with no clamping.
pub open spec fn hp_after_hit(hp: int, damage: u32, multiplier: u32) -> int {
    hp - damage * multiplier
}

/// Applies one resolved hit to the player the struck hitbox belongs to.
/// Nothing but the hp changes; the result may be negative, and downstream
/// logic treats `hp <= 0` as dead.
pub fn apply_hit(target: &mut Player, damage: u32, hitbox: &Hitbox)
    requires
        damage * hitbox.0 <= i64::MAX,
        i64::MIN <= hp_after_hit(old(target).hp as int, damage, hitbox.0),
    ensures
        *final(target) == (Player {
            hp: hp_after_hit(old(target).hp as int, damage, hitbox.0) as i64,
            ..*old(target)
        }),
{
    let delta = (damage as i64) * (hitbox.0 as i64);
    target.hp = target.hp - delta;
}

/// Damage application is exact for every body region: in tenths of a point, a
/// head hit removes 35 per point of weapon damage (a 3.5 multiplier), a torso
/// hit 10 (1.0), a leg hit 5 (0.5); hp is allowed to go negative.
pub proof fn lemma_region_damage(hp: int, damage: u32)
    ensures
        hp_after_hit(hp, damage, crate::hitbox::HEAD_MULTIPLIER) == hp - 35 * damage,
        hp_after_hit(hp, damage, crate::hitbox::TORSO_MULTIPLIER) == hp - 10 * damage,
        hp_after_hit(hp, damage, crate::hitbox::LEGS_MULTIPLIER) == hp - 5 * damage,
        damage > 0 ==> hp_after_hit(hp, damage, crate::hitbox::HEAD_MULTIPLIER) < hp,
{
}

} // verus!
