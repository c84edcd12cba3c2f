//! The sound-emission step of the replicated state, and the footstep-loop
//! decision the presentation follows.

use vstd::prelude::*;
use crate::player::{Player, PlayerInput, SoundTag};

verus! {

/// The state the sound-emission step leaves behind: a shooting player emits
/// the gunshot, otherwise one that just started reloading emits the reload
/// cue, otherwise nothing; and only when nothing is emitted is the running
/// flag recomputed from the tick's movement flags.
pub open spec fn sound_emission_step(p: Player, input: PlayerInput) -> Player {
    let tag = if p.is_shooting {
        Some(SoundTag::Gunshot)
    } else if p.just_reloaded {
        Some(SoundTag::Reload)
    } else {
        None
    };
    if tag is Some {
        Player { emmited_sound: tag, ..p }
    } else {
        Player {
            emmited_sound: tag,
            is_running: !input.is_walking && (input.left || input.right || input.up
                || input.down),
            ..p
        }
    }
}

/// Runs the sound-emission step for one entity.
pub fn handle_sound_emmission(player: &mut Player, input: &PlayerInput)
    ensures
        *final(player) == sound_emission_step(*old(player), *input),
{
    if player.is_shooting {
        player.emmited_sound = Some(SoundTag::Gunshot);
    } else if player.just_reloaded {
        player.emmited_sound = Some(SoundTag::Reload);
    } else {
        player.emmited_sound = None;
        player.is_running = !input.is_walking && (input.left || input.right || input.up
            || input.down);
    }
}

/// What the presentation must do with one player's footstep loop this tick.
#[derive(Clone, Copy, PartialEq, Eq, Structural, Debug)]
pub enum FootstepAction {
    /// The player runs and has no loop yet: start one.
    Start,
    /// The player stopped running: despawn its loop.
    Stop,
    /// Leave the loop as it is, so one player never runs two at once.
    Keep,
}

/// Decides the footstep action from whether the player is running and whether
/// a footstep loop of that player is already playing.
pub fn footstep_action(is_running: bool, has_footstep_sound: bool) -> (r: FootstepAction)
    ensures
        r == if is_running && !has_footstep_sound {
            FootstepAction::Start
        } else if !is_running && has_footstep_sound {
            FootstepAction::Stop
        } else {
            FootstepAction::Keep
        },
{
    if is_running && !has_footstep_sound {
        FootstepAction::Start
    } else if !is_running && has_footstep_sound {
        FootstepAction::Stop
    } else {
        FootstepAction::Keep
    }
}

} // verus!
