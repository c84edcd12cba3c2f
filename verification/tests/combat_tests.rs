use shooter_core::hitbox::Hitbox;
use shooter_core::player::{Player, PlayerInput, Vec3Milli};
use shooter_core::shoot::{apply_hit, can_shoot, shoot, BULLET_VELOCITY};
use shooter_core::weapon::Weapon;

fn held_trigger() -> PlayerInput {
    PlayerInput { left_click: true, ..Default::default() }
}

fn pressed_trigger() -> PlayerInput {
    PlayerInput { left_click: true, left_click_just_pressed: true, ..Default::default() }
}

#[test]
fn gate_authorizes_when_all_four_hold() {
    let w = Weapon::rifle(0);
    // trigger held (auto), 100 ms elapsed = rate of fire, ammo, not reloading
    assert!(can_shoot(&held_trigger(), &w, 30, false, 100));
}

#[test]
fn gate_refused_without_trigger() {
    let w = Weapon::rifle(0);
    assert!(!can_shoot(&PlayerInput::default(), &w, 30, false, 100));
}

#[test]
fn gate_refused_inside_rate_of_fire() {
    let w = Weapon::rifle(0);
    assert!(!can_shoot(&held_trigger(), &w, 30, false, 99));
}

#[test]
fn gate_refused_without_ammo() {
    let w = Weapon::rifle(0);
    assert!(!can_shoot(&held_trigger(), &w, 0, false, 100));
}

#[test]
fn gate_refused_while_reloading() {
    let w = Weapon::rifle(0);
    assert!(!can_shoot(&held_trigger(), &w, 30, true, 100));
}

#[test]
fn semi_auto_needs_rising_edge() {
    let w = Weapon::pistol(0);
    // holding the trigger is not enough for a single-action weapon
    assert!(!can_shoot(&held_trigger(), &w, 12, false, 500));
    assert!(can_shoot(&pressed_trigger(), &w, 12, false, 500));
}

#[test]
fn counter_increments_while_gaps_stay_short() {
    let mut w = Weapon::rifle(0);
    let mut p = Player::default();
    let aim = Vec3Milli { x: 0, y: 0, z: 1000 };
    let input = held_trigger();
    // gaps of 100 ms, all below the 800 ms recoil reset
    let mut now = 1000;
    // the first shot comes after a long pause, so the counter starts at 0
    shoot(&input, &mut w, &mut p, aim, now).unwrap();
    assert_eq!(w.consecutive_shots, 0);
    for expected in 1..=5 {
        now += 100;
        shoot(&input, &mut w, &mut p, aim, now).unwrap();
        assert_eq!(w.consecutive_shots, expected);
    }
}

#[test]
fn counter_resets_after_long_gap() {
    let mut w = Weapon::rifle(0);
    let mut p = Player::default();
    let aim = Vec3Milli { x: 0, y: 0, z: 1000 };
    let input = held_trigger();
    shoot(&input, &mut w, &mut p, aim, 1000).unwrap();
    shoot(&input, &mut w, &mut p, aim, 1100).unwrap();
    assert_eq!(w.consecutive_shots, 1);
    // a gap over the 800 ms reset interval starts the spray over
    shoot(&input, &mut w, &mut p, aim, 2000).unwrap();
    assert_eq!(w.consecutive_shots, 0);
}

#[test]
fn shot_spends_ammo_and_timestamps() {
    let mut w = Weapon::rifle(0);
    let mut p = Player::default();
    let aim = Vec3Milli { x: 0, y: 0, z: 1000 };
    let b = shoot(&held_trigger(), &mut w, &mut p, aim, 250).unwrap();
    assert_eq!(p.ammos, 29);
    assert!(p.is_shooting);
    assert_eq!(w.last_shot, 250);
    assert_eq!(b.damage, 33);
}

#[test]
fn refused_shot_clears_shooting_flag_only() {
    let mut w = Weapon::rifle(0);
    let mut p = Player { is_shooting: true, ..Player::default() };
    let aim = Vec3Milli { x: 0, y: 0, z: 1000 };
    assert!(shoot(&PlayerInput::default(), &mut w, &mut p, aim, 250).is_none());
    assert!(!p.is_shooting);
    assert_eq!(p.ammos, 30);
    assert_eq!(w.last_shot, 0);
}

#[test]
fn bullet_direction_carries_spray_offset() {
    let mut w = Weapon::rifle(0);
    let mut p = Player::default();
    let aim = Vec3Milli { x: 100, y: 200, z: 1000 };
    let input = held_trigger();
    shoot(&input, &mut w, &mut p, aim, 1000).unwrap();
    // second consecutive shot reads spray row 1: offset (0, 1000) milli-units
    let b = shoot(&input, &mut w, &mut p, aim, 1100).unwrap();
    assert_eq!(b.direction, Vec3Milli { x: 100, y: 1200, z: 1000 });
}

#[test]
fn spray_index_clamps_at_table_end() {
    let mut w = Weapon::rifle(0);
    w.consecutive_shots = 400; // far past the 31-row table
    let mut p = Player::default();
    let aim = Vec3Milli { x: 0, y: 0, z: 1000 };
    let b = shoot(&held_trigger(), &mut w, &mut p, aim, 100).unwrap();
    // the counter keeps climbing but the lookup stays on the last row (0, 30000)
    assert_eq!(w.consecutive_shots, 401);
    assert_eq!(b.direction.y, 30_000);
}

#[test]
fn head_shot_multiplies_three_and_a_half() {
    // 100.0 hp, 33 damage, head: 100 - 33 * 3.5 = -15.5, stored in tenths
    let mut target = Player::default();
    assert_eq!(target.hp, 1000);
    apply_hit(&mut target, 33, &Hitbox::head());
    assert_eq!(target.hp, -155);
}

#[test]
fn torso_shot_multiplies_one() {
    let mut target = Player::default();
    apply_hit(&mut target, 33, &Hitbox::body());
    assert_eq!(target.hp, 1000 - 330);
}

#[test]
fn leg_shot_multiplies_half() {
    let mut target = Player::default();
    apply_hit(&mut target, 33, &Hitbox::legs());
    assert_eq!(target.hp, 1000 - 165);
}

#[test]
fn hp_is_not_clamped_below_zero() {
    let mut target = Player { hp: -155, ..Player::default() };
    apply_hit(&mut target, 33, &Hitbox::head());
    assert_eq!(target.hp, -155 - 1155);
}

#[test]
fn weapon_constructors_match_configuration() {
    let r = Weapon::rifle(5);
    assert_eq!((r.damage, r.rate_of_fire, r.ammos, r.reload_duration), (33, 100, 30, 2000));
    assert_eq!((r.recoil_reset, r.last_shot, r.consecutive_shots), (800, 5, 0));
    assert_eq!(r.spray_pattern.len(), 31);
    assert_eq!(r.spray_pattern[30].y, 30_000);
    let p = Weapon::pistol(0);
    assert_eq!((p.damage, p.rate_of_fire, p.ammos), (150, 500, 12));
    let s = Weapon::shotgun(0);
    assert_eq!((s.damage, s.rate_of_fire, s.ammos), (80, 1200, 7));
    assert_eq!(BULLET_VELOCITY, 200);
}
