//! Spawn policy: once per tick, with a fixed low probability, one new ball
//! appears — its kind uniform among the four, its magnitude factor uniform
//! over `[1.1, 2.0)` in thousandths, its position uniform over the arena,
//! stationary at the ball draw layer.

use vstd::prelude::*;

use crate::entity::{
    ball_at, spec_starting_size, BallKind, Entity, Kind, BALL_LAYER, MAG_MILLI_HI, MAG_MILLI_LO,
};
use crate::rng::GameRng;
use crate::targeting::TRIAL_DEN;
use crate::world::World;

verus! {

/// Chance, out of [`TRIAL_DEN`], that a ball spawns on a tick.
pub const SPAWN_NUM: u32 = 1;

/// The ball kind for a draw in `[0, 4)`; each draw value names one kind, so
/// a uniform draw picks uniformly among the four.
pub open spec fn spec_ball_kind_of_draw(k: int) -> BallKind {
    if k == 0 {
        BallKind::SpeedBoost
    } else if k == 1 {
        BallKind::SizeBoost
    } else if k == 2 {
        BallKind::SpeedDecrease
    } else {
        BallKind::SizeDecrease
    }
}

/// Maps a uniform draw in `[0, 4)` to a ball kind, as executable code.
pub fn ball_kind_of_draw(k: u32) -> (r: BallKind)
    requires
        k < 4,
    ensures
        r == spec_ball_kind_of_draw(k as int),
{
    if k == 0 {
        BallKind::SpeedBoost
    } else if k == 1 {
        BallKind::SizeBoost
    } else if k == 2 {
        BallKind::SpeedDecrease
    } else {
        BallKind::SizeDecrease
    }
}

/// A ball as the spawn policy creates it: some kind with a magnitude factor
/// in `[1.1, 2.0)`, stationary, at the ball layer and size, inside the
/// arena.
pub open spec fn is_spawned_ball(e: Entity, width: int, height: int) -> bool {
    &&& e.kind is Ball
    &&& e.wf(width, height)
    &&& e.speed == 0
    &&& e.layer == BALL_LAYER
    &&& e.size == spec_starting_size(e.kind, width, height)
}

/// Spawn policy for one tick: with chance [`SPAWN_NUM`] out of
/// [`TRIAL_DEN`], appends exactly one new ball — kind uniform among the
/// four, magnitude factor uniform over `[1.1, 2.0)`, position uniform over
/// the arena — and otherwise changes nothing. Existing entities are never
/// touched.
pub fn spawn_balls(w: &mut World, rng: &mut GameRng)
    requires
        old(w).wf(),
        old(w).entities@.len() < usize::MAX,
    ensures
        final(w).wf(),
        final(w).width == old(w).width,
        final(w).height == old(w).height,
        final(w).entities@.len() == old(w).entities@.len() || final(w).entities@.len() == old(
            w,
        ).entities@.len() + 1,
        forall|i: int|
            0 <= i < old(w).entities@.len() ==> #[trigger] final(w).entities@[i] == old(
                w,
            ).entities@[i],
        final(w).entities@.len() == old(w).entities@.len() + 1 ==> is_spawned_ball(
            final(w).entities@[old(w).entities@.len() as int],
            final(w).width as int,
            final(w).height as int,
        ),
{
    if rng.trial(SPAWN_NUM, TRIAL_DEN) {
        let k: u32 = rng.range_u32(0, 4);
        let ball = ball_kind_of_draw(k);
        let magnitude_milli: u32 = rng.range_u32(MAG_MILLI_LO, MAG_MILLI_HI);
        let half_w: i64 = w.width / 2;
        let half_h: i64 = w.height / 2;
        let x: i64 = rng.range_i64(-half_w, half_w);
        let y: i64 = rng.range_i64(-half_h, half_h);
        let e = ball_at(ball, magnitude_milli, x, y, w.width, w.height);
        w.entities.push(e);
    }
}

} // verus!
