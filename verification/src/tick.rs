//! One full simulation tick in the host's fixed order: targeting first,
//! then motion integration, then the spawn policy — strictly sequential,
//! each running to completion over the whole arena.

use vstd::prelude::*;

use crate::entity::{Entity, Kind, MAX_DT};
use crate::motion::{motion_tick, moved_entity};
use crate::rng::GameRng;
use crate::spawn::{is_spawned_ball, spawn_balls};
use crate::targeting::{
    neutral_points, spec_enemy_choice, spec_player_retarget, targeting_tick, KeyInput,
};
use crate::world::World;

verus! {

/// Runs one simulation tick: targeting, then motion, then spawning. Every
/// prior entity ends the tick as its old self with the tick's direction,
/// advanced by exactly one integration step — directions are set before
/// motion runs and never touched after, so the direction it ends the tick
/// with is the one it moved by, and balls stay exactly where they are. At
/// most one ball is appended. The player's direction follows the tick's
/// input; the enemy's direction is its old one unless its re-targeting fired
/// toward the nearest neutral cube, and with no neutral cubes it always
/// keeps it.
pub fn game_tick(w: &mut World, keys: KeyInput, dt: i64, rng: &mut GameRng)
    requires
        old(w).wf(),
        0 <= dt <= MAX_DT,
        old(w).entities@.len() < usize::MAX,
    ensures
        final(w).wf(),
        final(w).width == old(w).width,
        final(w).height == old(w).height,
        final(w).entities@.len() == old(w).entities@.len() || final(w).entities@.len() == old(
            w,
        ).entities@.len() + 1,
        forall|i: int|
            0 <= i < old(w).entities@.len() ==> #[trigger] final(w).entities@[i] == moved_entity(
                (Entity { dir: final(w).entities@[i].dir, ..old(w).entities@[i] }),
                old(w).width as int,
                old(w).height as int,
                dt as int,
            ),
        forall|i: int|
            0 <= i < old(w).entities@.len() && (#[trigger] old(w).entities@[i]).kind
                == Kind::Player ==> final(w).entities@[i].dir == (
            match spec_player_retarget(keys) {
                Some(d) => d,
                None => old(w).entities@[i].dir,
            }),
        forall|i: int|
            0 <= i < old(w).entities@.len() && (#[trigger] old(w).entities@[i]).kind == Kind::Enemy
                ==> final(w).entities@[i].dir == old(w).entities@[i].dir || (neutral_points(
                old(w).entities@,
            ).len() > 0 && final(w).entities@[i].dir == spec_enemy_choice(
                old(w).entities@[i].x as int,
                old(w).entities@[i].y as int,
                neutral_points(old(w).entities@),
            )),
        neutral_points(old(w).entities@).len() == 0 ==> forall|i: int|
            0 <= i < old(w).entities@.len() && (#[trigger] old(w).entities@[i]).kind == Kind::Enemy
                ==> final(w).entities@[i].dir == old(w).entities@[i].dir,
        final(w).entities@.len() == old(w).entities@.len() + 1 ==> is_spawned_ball(
            final(w).entities@[old(w).entities@.len() as int],
            final(w).width as int,
            final(w).height as int,
        ),
{
    targeting_tick(w, keys, rng);
    motion_tick(w, dt);
    spawn_balls(w, rng);
}

} // verus!
