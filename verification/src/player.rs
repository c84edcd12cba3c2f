//! Per-tick input commands and the replicated logical state of one player.

use vstd::prelude::*;

verus! {

/// One tick's command from the controlling side: movement flags, trigger
/// flags, reload and utility toggles, and the mouse delta in milli-units.
#[derive(Clone, PartialEq, Eq, Structural, Debug)]
pub struct PlayerInput {
    pub up: bool,
    pub down: bool,
    pub left: bool,
    pub right: bool,
    pub toggle_flashlight: bool,
    pub reload: bool,
    /// Mouse delta, horizontal component, in milli-units.
    pub mouse_x: i64,
    /// Mouse delta, vertical component, in milli-units.
    pub mouse_y: i64,
    pub left_click_just_pressed: bool,
    pub left_click: bool,
    pub is_walking: bool,
    pub mute: bool,
    pub show_map: bool,
}

impl Default for PlayerInput {
    /// The idle command: no key held, no click, no mouse motion.
    fn default() -> (r: Self)
        ensures
            r == PlayerInput::idle(),
    {
        PlayerInput {
            up: false,
            down: false,
            left: false,
            right: false,
            toggle_flashlight: false,
            reload: false,
            mouse_x: 0,
            mouse_y: 0,
            left_click_just_pressed: false,
            left_click: false,
            is_walking: false,
            mute: false,
            show_map: false,
        }
    }
}

impl PlayerInput {
    /// The command in which every flag is off and the mouse did not move.
    pub open spec fn idle() -> PlayerInput {
        PlayerInput {
            up: false,
            down: false,
            left: false,
            right: false,
            toggle_flashlight: false,
            reload: false,
            mouse_x: 0,
            mouse_y: 0,
            left_click_just_pressed: false,
            left_click: false,
            is_walking: false,
            mute: false,
            show_map: false,
        }
    }
}

/// A point or direction in milli-units (thousandths of a world unit).
#[derive(Clone, Copy, PartialEq, Eq, Structural, Debug)]
pub struct Vec3Milli {
    pub x: i64,
    pub y: i64,
    pub z: i64,
}

/// A rotation quaternion with each component in milli-units.
#[derive(Clone, Copy, PartialEq, Eq, Structural, Debug)]
pub struct QuatMilli {
    pub x: i64,
    pub y: i64,
    pub z: i64,
    pub w: i64,
}

/// Tag of the sound one player is currently emitting; the presentation layer
/// maps each tag to an audio asset.
#[derive(Clone, Copy, PartialEq, Eq, Structural, Debug)]
pub enum SoundTag {
    Gunshot,
    Reload,
}

/// Replicated gameplay state of one player.  Owned by the authority; clients
/// receive read-only copies inside snapshots.
///
/// `hp` is in tenths of a hit point and may go negative: the resolution step
/// never clamps, and downstream logic treats `hp <= 0` as dead.
/// `reload_timer` is the remaining reload time in milliseconds.
#[derive(Clone, Copy, PartialEq, Eq, Structural, Debug)]
pub struct Player {
    pub flashlight_on: bool,
    /// Hit points, in tenths of a point; `<= 0` means dead.
    pub hp: i64,
    /// Rounds left in the magazine.
    pub ammos: u8,
    pub is_reloading: bool,
    /// True exactly on the tick a reload was requested and accepted.
    pub just_reloaded: bool,
    /// Remaining reload time, in milliseconds.
    pub reload_timer: u64,
    /// True exactly on the tick a shot was resolved.
    pub is_shooting: bool,
    pub is_walking: bool,
    pub is_running: bool,
    pub emmited_sound: Option<SoundTag>,
    pub is_muted: bool,
}

/// Hit points, in tenths of a point.
#[derive(Clone, Copy, PartialEq, Eq, Structural, Debug)]
pub struct HP(pub i64);

impl Default for HP {
    /// A fresh player has 100 hit points.
    fn default() -> (r: Self)
        ensures
            r.0 == 1000,
    {
        HP(1000)
    }
}

impl Player {
    /// The state a player spawns with: full health, a full rifle magazine,
    /// nothing toggled and no transient flag set.
    pub open spec fn spawn_state() -> Player {
        Player {
            flashlight_on: false,
            hp: 1000,
            ammos: crate::weapon::RIFLE_MAGAZINE,
            is_reloading: false,
            just_reloaded: false,
            reload_timer: 0,
            is_shooting: false,
            is_walking: false,
            is_running: false,
            emmited_sound: None,
            is_muted: false,
        }
    }
}

impl Default for Player {
    fn default() -> (r: Self)
        ensures
            r == Player::spawn_state(),
    {
        Player {
            flashlight_on: false,
            hp: 1000,
            ammos: crate::weapon::RIFLE_MAGAZINE,
            is_reloading: false,
            just_reloaded: false,
            reload_timer: 0,
            is_shooting: false,
            is_walking: false,
            is_running: false,
            emmited_sound: None,
            is_muted: false,
        }
    }
}

/// Identity of the connected participant that controls an entity.
#[derive(Clone, Copy, PartialEq, Eq, Structural, Debug)]
pub struct PlayerId {
    pub id: u64,
}

/// Marks the entity controlled by this process, with its identity.
#[derive(Clone, Copy, PartialEq, Eq, Structural, Debug)]
pub struct CurrentPlayer(pub u64);

/// Carries the per-tick utility toggles of the input into the replicated
/// state: the flashlight follows the input's toggle flag, and a mute edge
/// flips the muted flag.  Nothing else changes.
pub fn toggle_flashlight(input: &PlayerInput, player: &mut Player)
    ensures
        *final(player) == (Player {
            flashlight_on: input.toggle_flashlight,
            is_muted: if input.mute {
                !old(player).is_muted
            } else {
                old(player).is_muted
            },
            ..*old(player)
        }),
{
    player.flashlight_on = input.toggle_flashlight;
    if input.mute {
        player.is_muted = !player.is_muted;
    }
}

/// One tick's raw device sample, as the windowing layer reports it: which
/// movement and utility keys are held or were just pressed, the last mouse
/// motion of the tick in milli-units (none when the mouse rested), and the
/// trigger button's state.
#[derive(Clone, Copy, PartialEq, Debug)]
pub struct InputSample {
    pub key_left: bool,
    pub key_right: bool,
    pub key_up: bool,
    pub key_down: bool,
    pub key_reload: bool,
    pub key_walk: bool,
    pub key_mute_just_pressed: bool,
    pub key_flashlight_just_pressed: bool,
    pub key_map_just_pressed: bool,
    pub mouse_motion: Option<(i64, i64)>,
    pub left_click: bool,
    pub left_click_just_pressed: bool,
}

/// Assembles the tick's command from the raw device sample: the held keys map
/// straight onto their flags, the flashlight and map flags flip on their
/// keys' edges, and the mouse delta is carried negated — screen motion is
/// opposite to view motion — or zeroed when the mouse rested.
#[verifier::rlimit(50)]
pub fn player_input(input: &mut PlayerInput, sample: &InputSample)
    requires
        sample.mouse_motion matches Some(d) ==> d.0 > i64::MIN && d.1 > i64::MIN,
    ensures
        *final(input) == (PlayerInput {
            left: sample.key_left,
            right: sample.key_right,
            up: sample.key_up,
            down: sample.key_down,
            reload: sample.key_reload,
            is_walking: sample.key_walk,
            mute: sample.key_mute_just_pressed,
            toggle_flashlight: if sample.key_flashlight_just_pressed {
                !old(input).toggle_flashlight
            } else {
                old(input).toggle_flashlight
            },
            show_map: if sample.key_map_just_pressed {
                !old(input).show_map
            } else {
                old(input).show_map
            },
            mouse_x: match sample.mouse_motion {
                Some(d) => (-d.0) as i64,
                None => 0,
            },
            mouse_y: match sample.mouse_motion {
                Some(d) => (-d.1) as i64,
                None => 0,
            },
            left_click: sample.left_click,
            left_click_just_pressed: sample.left_click_just_pressed,
        }),
{
    input.left = sample.key_left;
    input.right = sample.key_right;
    input.up = sample.key_up;
    input.down = sample.key_down;
    input.reload = sample.key_reload;
    input.is_walking = sample.key_walk;
    input.mute = sample.key_mute_just_pressed;
    if sample.key_flashlight_just_pressed {
        input.toggle_flashlight = !input.toggle_flashlight;
    }
    if sample.key_map_just_pressed {
        input.show_map = !input.show_map;
    }
    match sample.mouse_motion {
        Some(delta) => {
            input.mouse_x = -delta.0;
            input.mouse_y = -delta.1;
        },
        None => {
            input.mouse_x = 0;
            input.mouse_y = 0;
        },
    }
    input.left_click = sample.left_click;
    input.left_click_just_pressed = sample.left_click_just_pressed;
}

/// Whether this replicated state counts as dead: hit points at or below zero.
pub open spec fn player_is_dead(p: Player) -> bool {
    p.hp <= 0
}

/// The spawn tile of a newly connected player, in tile units: players take
/// the maze's corners in joining order — top-left for the first, top-right
/// for the second, bottom-left for the third, bottom-right for everyone
/// later.  The world position is the tile scaled by the maze's tile size.
pub fn get_spawn(players_already_connected: usize, maze_cols: usize, maze_rows: usize) -> (r: (
    usize,
    usize,
))
    requires
        maze_cols >= 2,
        maze_rows >= 2,
    ensures
        r == match players_already_connected {
            0usize => (1usize, 1usize),
            1usize => ((maze_cols - 2) as usize, 1usize),
            2usize => (1usize, (maze_rows - 2) as usize),
            _ => ((maze_cols - 2) as usize, (maze_rows - 2) as usize),
        },
{
    match players_already_connected {
        0 => (1, 1),
        1 => (maze_cols - 2, 1),
        2 => (1, maze_rows - 2),
        _ => (maze_cols - 2, maze_rows - 2),
    }
}

} // verus!
