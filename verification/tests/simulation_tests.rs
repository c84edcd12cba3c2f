use shooter_core::game::{toggle_game_menu, AppState};
use shooter_core::movement::{
    is_micro_motion, movement_axes, movement_speed, PLAYER_MOVE_SPEED, PLAYER_SLOW_MOVE_SPEED,
};
use shooter_core::player::{
    get_spawn, player_input, toggle_flashlight, InputSample, Player, PlayerInput, SoundTag, HP,
};
use shooter_core::sound::{footstep_action, handle_sound_emmission, FootstepAction};

#[test]
fn movement_axes_combine_and_cancel() {
    let idle = PlayerInput::default();
    assert_eq!(movement_axes(&idle), (0, 0));
    let left = PlayerInput { left: true, ..Default::default() };
    assert_eq!(movement_axes(&left), (1, 0));
    let right_back = PlayerInput { right: true, down: true, ..Default::default() };
    assert_eq!(movement_axes(&right_back), (-1, -1));
    let opposed = PlayerInput { left: true, right: true, up: true, ..Default::default() };
    assert_eq!(movement_axes(&opposed), (0, 1));
}

#[test]
fn walking_halves_the_speed() {
    assert_eq!(movement_speed(false), PLAYER_MOVE_SPEED);
    assert_eq!(movement_speed(true), PLAYER_SLOW_MOVE_SPEED);
    assert_eq!(PLAYER_MOVE_SPEED, 7000);
    assert_eq!(PLAYER_SLOW_MOVE_SPEED, 3500);
}

#[test]
fn one_unit_delta_is_a_micro_step() {
    assert!(is_micro_motion(1000));
    assert!(is_micro_motion(-1000));
    assert!(!is_micro_motion(0));
    assert!(!is_micro_motion(999));
    assert!(!is_micro_motion(2500));
}

#[test]
fn spawns_take_the_four_corners() {
    // a maze of 32 columns by 16 rows
    assert_eq!(get_spawn(0, 32, 16), (1, 1));
    assert_eq!(get_spawn(1, 32, 16), (30, 1));
    assert_eq!(get_spawn(2, 32, 16), (1, 14));
    assert_eq!(get_spawn(3, 32, 16), (30, 14));
    assert_eq!(get_spawn(9, 32, 16), (30, 14));
}

#[test]
fn shooting_emits_the_gunshot() {
    let mut p = Player { is_shooting: true, ..Player::default() };
    handle_sound_emmission(&mut p, &PlayerInput::default());
    assert_eq!(p.emmited_sound, Some(SoundTag::Gunshot));
}

#[test]
fn fresh_reload_emits_the_cue() {
    let mut p = Player { just_reloaded: true, ..Player::default() };
    handle_sound_emmission(&mut p, &PlayerInput::default());
    assert_eq!(p.emmited_sound, Some(SoundTag::Reload));
}

#[test]
fn quiet_player_recomputes_running() {
    let mut p = Player { is_running: false, ..Player::default() };
    let moving = PlayerInput { up: true, ..Default::default() };
    handle_sound_emmission(&mut p, &moving);
    assert_eq!(p.emmited_sound, None);
    assert!(p.is_running);
    let walking = PlayerInput { up: true, is_walking: true, ..Default::default() };
    handle_sound_emmission(&mut p, &walking);
    assert!(!p.is_running);
}

#[test]
fn footstep_loop_starts_and_stops_once() {
    assert_eq!(footstep_action(true, false), FootstepAction::Start);
    assert_eq!(footstep_action(true, true), FootstepAction::Keep);
    assert_eq!(footstep_action(false, true), FootstepAction::Stop);
    assert_eq!(footstep_action(false, false), FootstepAction::Keep);
}

#[test]
fn flashlight_follows_input_and_mute_toggles() {
    let mut p = Player::default();
    let on = PlayerInput { toggle_flashlight: true, ..Default::default() };
    toggle_flashlight(&on, &mut p);
    assert!(p.flashlight_on);
    let mute = PlayerInput { mute: true, ..Default::default() };
    toggle_flashlight(&mute, &mut p);
    assert!(!p.flashlight_on);
    assert!(p.is_muted);
    toggle_flashlight(&mute, &mut p);
    assert!(!p.is_muted);
}

#[test]
fn escape_toggles_menu_and_cursor() {
    assert_eq!(
        toggle_game_menu(&AppState::InGame, true),
        Some((AppState::GameMenu, true))
    );
    assert_eq!(
        toggle_game_menu(&AppState::GameMenu, true),
        Some((AppState::InGame, false))
    );
    assert_eq!(toggle_game_menu(&AppState::DeathScreen, true), None);
    assert_eq!(toggle_game_menu(&AppState::InGame, false), None);
    assert_eq!(AppState::default(), AppState::InGame);
}

fn idle_sample() -> InputSample {
    InputSample {
        key_left: false,
        key_right: false,
        key_up: false,
        key_down: false,
        key_reload: false,
        key_walk: false,
        key_mute_just_pressed: false,
        key_flashlight_just_pressed: false,
        key_map_just_pressed: false,
        mouse_motion: None,
        left_click: false,
        left_click_just_pressed: false,
    }
}

#[test]
fn input_carries_keys_and_negated_mouse() {
    let mut input = PlayerInput::default();
    let sample = InputSample {
        key_left: true,
        key_walk: true,
        mouse_motion: Some((250, -125)),
        left_click: true,
        ..idle_sample()
    };
    player_input(&mut input, &sample);
    assert!(input.left && input.is_walking && input.left_click);
    assert!(!input.right && !input.reload);
    // screen motion is opposite to view motion
    assert_eq!((input.mouse_x, input.mouse_y), (-250, 125));

    // a resting mouse zeroes the delta
    player_input(&mut input, &idle_sample());
    assert_eq!((input.mouse_x, input.mouse_y), (0, 0));
}

#[test]
fn flashlight_and_map_flags_flip_on_edges() {
    let mut input = PlayerInput::default();
    let press = InputSample {
        key_flashlight_just_pressed: true,
        key_map_just_pressed: true,
        ..idle_sample()
    };
    player_input(&mut input, &press);
    assert!(input.toggle_flashlight && input.show_map);
    // holding without a new edge does not flip back
    player_input(&mut input, &idle_sample());
    assert!(input.toggle_flashlight && input.show_map);
    player_input(&mut input, &press);
    assert!(!input.toggle_flashlight && !input.show_map);
}

#[test]
fn fresh_player_spawns_full() {
    let p = Player::default();
    assert_eq!(p.hp, 1000); // 100.0 hit points in tenths
    assert_eq!(p.hp, HP::default().0);
    assert_eq!(p.ammos, 30);
    assert!(!p.is_reloading && !p.is_shooting && !p.flashlight_on);
    assert_eq!(p.emmited_sound, None);
}
