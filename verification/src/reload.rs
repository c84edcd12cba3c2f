//! The two-state reload machine of one entity, advanced once per tick.
//!
//! Not reloading goes to reloading on a request (a request while already
//! reloading is a no-op); reloading goes back when the timer runs out,
//! refilling the magazine — to exactly the magazine size when the magazine ran
//! fully empty before the reload, and to one extra round otherwise.

use vstd::prelude::*;
use crate::player::Player;
use crate::weapon::Weapon;

verus! {

/// The player state one reload tick leaves behind, in the order the tick
/// works: the running timer counts down (clearing the just-started cue), an
/// expired timer finishes the reload and refills the magazine, and finally a
/// request while not reloading starts a new reload.
pub open spec fn reload_step(p: Player, w: Weapon, reload_requested: bool, delta: u64) -> Player
    recommends
        w.wf(),
{
    let p1 = if p.reload_timer > 0 {
        Player {
            reload_timer: if p.reload_timer >= delta {
                (p.reload_timer - delta) as u64
            } else {
                0
            },
            just_reloaded: false,
            ..p
        }
    } else {
        p
    };
    let p2 = if p1.is_reloading && p1.reload_timer == 0 {
        Player {
            is_reloading: false,
            ammos: if p1.ammos == 0 {
                w.ammos
            } else {
                (w.ammos + 1) as u8
            },
            ..p1
        }
    } else {
        p1
    };
    if !p2.is_reloading && reload_requested {
        Player { is_reloading: true, just_reloaded: true, reload_timer: w.reload_duration, ..p2 }
    } else {
        p2
    }
}

/// Advances the reload machine of one entity by one tick of `delta`
/// milliseconds, with `reload_requested` taken from the tick's input.
pub fn reload_system(player: &mut Player, weapon: &Weapon, reload_requested: bool, delta: u64)
    requires
        weapon.wf(),
    ensures
        *final(player) == reload_step(*old(player), *weapon, reload_requested, delta),
{
    // a running timer counts down; while it runs the reload did not just start
    if player.reload_timer > 0 {
        player.reload_timer = player.reload_timer.saturating_sub(delta);
        player.just_reloaded = false;
    }
    // an expired timer finishes the reload and refills the magazine
    if player.is_reloading && player.reload_timer == 0 {
        player.is_reloading = false;
        if player.ammos == 0 {
            player.ammos = weapon.ammos;
        } else {
            player.ammos = weapon.ammos + 1;
        }
    }
    // a request while not reloading starts a reload and cues the presentation
    if !player.is_reloading && reload_requested {
        player.is_reloading = true;
        player.just_reloaded = true;
        player.reload_timer = weapon.reload_duration;
    }
}

/// The full reload cycle.  From a quiet state, a request starts a reload for
/// the weapon's full duration without touching the magazine; a second request
/// while the reload runs is a no-op; and once the duration has elapsed the
/// magazine holds exactly the magazine size when it was empty at the start of
/// the reload, and exactly one round more when it was not.
pub proof fn lemma_reload_cycle(p: Player, w: Weapon, d_request: u64, delta: u64)
    requires
        w.wf(),
        !p.is_reloading,
        p.reload_timer == 0,
        delta >= w.reload_duration,
    ensures
        ({
            let started = reload_step(p, w, true, d_request);
            let finished = reload_step(started, w, false, delta);
            &&& started.is_reloading
            &&& started.just_reloaded
            &&& started.reload_timer == w.reload_duration
            &&& started.ammos == p.ammos
            &&& w.reload_duration > 0 ==> reload_step(started, w, true, 0) == (Player {
                just_reloaded: false,
                ..started
            })
            &&& !finished.is_reloading
            &&& finished.ammos == if p.ammos == 0 {
                w.ammos
            } else {
                (w.ammos + 1) as u8
            }
        }),
{
}

} // verus!
