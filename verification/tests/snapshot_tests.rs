use shooter_core::player::{Player, QuatMilli, Vec3Milli};
use shooter_core::snapshot::{server_sync_players, ClientWorld, PlayerState, SnapshotEntry, SnapshotMap};

fn state_with_hp(hp: i64, x: i64) -> PlayerState {
    PlayerState {
        translation: Vec3Milli { x, y: 1500, z: 0 },
        rotation: QuatMilli { x: 0, y: 0, z: 0, w: 1000 },
        cam_vertical_motion: 0,
        look_to: Vec3Milli { x: 0, y: 0, z: 1000 },
        state: Player { hp, ..Player::default() },
    }
}

#[test]
fn snapshot_map_insert_and_get() {
    let mut snap = SnapshotMap::new();
    snap.insert(100, state_with_hp(1000, 1));
    snap.insert(200, state_with_hp(700, 2));
    assert_eq!(snap.len(), 2);
    assert_eq!(snap.get(100).unwrap().state.hp, 1000);
    assert_eq!(snap.get(200).unwrap().state.hp, 700);
    assert!(snap.get(300).is_none());
}

#[test]
fn snapshot_map_insert_overwrites() {
    let mut snap = SnapshotMap::new();
    snap.insert(100, state_with_hp(1000, 1));
    snap.insert(100, state_with_hp(400, 9));
    assert_eq!(snap.len(), 1);
    assert_eq!(snap.get(100).unwrap().state.hp, 400);
    assert_eq!(snap.get(100).unwrap().translation.x, 9);
}

#[test]
fn apply_overwrites_every_registered_entity() {
    let mut world = ClientWorld::new();
    world.lobby.register(100, 1).unwrap();
    world.lobby.register(200, 2).unwrap();
    world.locals.insert(100, state_with_hp(1000, 0));
    world.locals.insert(200, state_with_hp(1000, 0));

    let mut snap = SnapshotMap::new();
    snap.insert(100, state_with_hp(850, 42));
    snap.insert(200, state_with_hp(-155, 7));
    let died = world.apply_snapshot(&snap, 100);
    assert!(!died);
    // the hard correction overwrites both, the controlled entity included
    assert_eq!(world.locals.get(100).unwrap().translation.x, 42);
    assert_eq!(world.locals.get(100).unwrap().state.hp, 850);
    assert_eq!(world.locals.get(200).unwrap().state.hp, -155);
}

#[test]
fn apply_twice_equals_apply_once() {
    let mut world = ClientWorld::new();
    world.lobby.register(100, 1).unwrap();
    world.locals.insert(100, state_with_hp(1000, 0));
    let mut snap = SnapshotMap::new();
    snap.insert(100, state_with_hp(850, 42));

    world.apply_snapshot(&snap, 100);
    let once = *world.locals.get(100).unwrap();
    world.apply_snapshot(&snap, 100);
    let twice = *world.locals.get(100).unwrap();
    // no double integration of position or anything else
    assert_eq!(once, twice);
}

#[test]
fn unregistered_identity_is_dropped() {
    let mut world = ClientWorld::new();
    world.lobby.register(100, 1).unwrap();
    let mut snap = SnapshotMap::new();
    snap.insert(999, state_with_hp(500, 3));
    let died = world.apply_snapshot(&snap, 100);
    assert!(!died);
    assert!(world.locals.get(999).is_none());
}

#[test]
fn dead_current_player_triggers_death() {
    let mut world = ClientWorld::new();
    world.lobby.register(100, 1).unwrap();
    let mut snap = SnapshotMap::new();
    snap.insert(100, state_with_hp(0, 0)); // hp <= 0 means dead
    assert!(world.apply_snapshot(&snap, 100));
    // death does not unregister the entity
    assert_eq!(world.lobby.resolve(100), Some(1));
}

#[test]
fn dead_other_player_does_not_trigger_death() {
    let mut world = ClientWorld::new();
    world.lobby.register(100, 1).unwrap();
    world.lobby.register(200, 2).unwrap();
    let mut snap = SnapshotMap::new();
    snap.insert(200, state_with_hp(-155, 0));
    assert!(!world.apply_snapshot(&snap, 100));
}

#[test]
fn server_builds_one_entry_per_identity() {
    let snap = server_sync_players(&vec![
        SnapshotEntry { id: 100, state: state_with_hp(1000, 1) },
        SnapshotEntry { id: 200, state: state_with_hp(700, 2) },
        SnapshotEntry { id: 100, state: state_with_hp(850, 3) },
    ]);
    assert_eq!(snap.len(), 2);
    // the later state of a repeated identity wins
    assert_eq!(snap.get(100).unwrap().state.hp, 850);
    assert_eq!(snap.get(200).unwrap().state.hp, 700);
}
