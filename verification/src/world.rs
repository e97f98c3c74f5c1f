//! The entity arena: every game object in one vector, addressed by index,
//! together with the arena dimensions. Startup fills it with exactly one
//! player, one enemy and a number of neutral cubes at random positions.

use vstd::prelude::*;

use crate::entity::{
    arena_ok, cube_at, pos_in_bounds, spec_starting_layer, spec_starting_size, spec_starting_speed,
    Direction, Entity, Kind,
};
use crate::rng::GameRng;

verus! {

/// The game state the tick policies read and write: the arena bounds and all
/// live entities.
pub struct World {
    /// Arena width; the x axis spans `[-width/2, width/2)`.
    pub width: i64,
    /// Arena height; the y axis spans `[-height/2, height/2)`.
    pub height: i64,
    /// Every live entity. Startup puts the player at index 0 and the enemy
    /// at index 1; spawned balls are appended.
    pub entities: Vec<Entity>,
}

impl World {
    /// The arena dimensions are admissible and every entity is well-formed
    /// inside them. Every tick policy preserves this.
    pub open spec fn wf(self) -> bool {
        &&& arena_ok(self.width as int, self.height as int)
        &&& forall|i: int|
            0 <= i < self.entities@.len() ==> (#[trigger] self.entities@[i]).wf(
                self.width as int,
                self.height as int,
            )
    }

    /// Appends `number_of_cubes` neutral cubes, each at a position drawn
    /// uniformly over the arena, each with the neutral starting attributes.
    /// Existing entities are untouched.
    pub fn spawn_neutral_cubes(&mut self, number_of_cubes: usize, rng: &mut GameRng)
        requires
            old(self).wf(),
            old(self).entities@.len() + number_of_cubes <= usize::MAX,
        ensures
            final(self).wf(),
            final(self).width == old(self).width,
            final(self).height == old(self).height,
            final(self).entities@.len() == old(self).entities@.len() + number_of_cubes,
            forall|i: int|
                0 <= i < old(self).entities@.len() ==> final(self).entities@[i] == old(
                    self,
                ).entities@[i],
            forall|i: int|
                old(self).entities@.len() <= i < final(self).entities@.len()
                    ==> is_starting_neutral(
                    #[trigger] final(self).entities@[i],
                    final(self).width as int,
                    final(self).height as int,
                ),
    {
        let base: usize = self.entities.len();
        let half_w: i64 = self.width / 2;
        let half_h: i64 = self.height / 2;
        let mut k: usize = 0;
        while k < number_of_cubes
            invariant
                self.wf(),
                self.width == old(self).width,
                self.height == old(self).height,
                half_w == self.width / 2,
                half_h == self.height / 2,
                base == old(self).entities@.len(),
                base + number_of_cubes <= usize::MAX,
                k <= number_of_cubes,
                self.entities@.len() == base + k,
                forall|i: int| 0 <= i < base ==> self.entities@[i] == old(self).entities@[i],
                forall|i: int|
                    base <= i < self.entities@.len() ==> is_starting_neutral(
                        #[trigger] self.entities@[i],
                        self.width as int,
                        self.height as int,
                    ),
            decreases number_of_cubes - k,
        {
            let x: i64 = rng.range_i64(-half_w, half_w);
            let y: i64 = rng.range_i64(-half_h, half_h);
            let e = cube_at(Kind::Neutral, x, y, self.width, self.height);
            self.entities.push(e);
            k = k + 1;
        }
    }
}

/// A neutral cube as startup creates it: neutral starting attributes, upward
/// direction, somewhere inside the arena.
pub open spec fn is_starting_neutral(e: Entity, width: int, height: int) -> bool {
    &&& e.kind == Kind::Neutral
    &&& e.wf(width, height)
    &&& e.speed == spec_starting_speed(Kind::Neutral)
    &&& e.layer == spec_starting_layer(Kind::Neutral)
    &&& e.size == spec_starting_size(Kind::Neutral, width, height)
    &&& e.dir == Direction::PosY
}

/// Builds the starting world: the player cube a third of the arena height
/// below center, the enemy cube a third above, and `n_neutrals` neutral
/// cubes at random positions — exactly one player and one enemy.
pub fn spawn_startup_entities(width: i64, height: i64, n_neutrals: usize, rng: &mut GameRng) -> (w:
    World)
    requires
        arena_ok(width as int, height as int),
        n_neutrals + 2 <= usize::MAX,
    ensures
        w.wf(),
        w.width == width,
        w.height == height,
        w.entities@.len() == 2 + n_neutrals,
        w.entities@[0].kind == Kind::Player,
        w.entities@[0].x == 0,
        w.entities@[0].y == -(height as int / 3),
        w.entities@[0].speed == spec_starting_speed(Kind::Player),
        w.entities@[0].layer == spec_starting_layer(Kind::Player),
        w.entities@[0].size == spec_starting_size(Kind::Player, width as int, height as int),
        w.entities@[0].dir == Direction::PosY,
        w.entities@[1].kind == Kind::Enemy,
        w.entities@[1].x == 0,
        w.entities@[1].y == height as int / 3,
        w.entities@[1].speed == spec_starting_speed(Kind::Enemy),
        w.entities@[1].layer == spec_starting_layer(Kind::Enemy),
        w.entities@[1].size == spec_starting_size(Kind::Enemy, width as int, height as int),
        w.entities@[1].dir == Direction::PosY,
        forall|i: int|
            2 <= i < w.entities@.len() ==> is_starting_neutral(
                #[trigger] w.entities@[i],
                width as int,
                height as int,
            ),
        forall|i: int|
            0 <= i < w.entities@.len() ==> (((#[trigger] w.entities@[i]).kind == Kind::Player)
                <==> i == 0),
        forall|i: int|
            0 <= i < w.entities@.len() ==> (((#[trigger] w.entities@[i]).kind == Kind::Enemy)
                <==> i == 1),
{
    proof {
        lemma_third_inside_half(height as int);
    }
    let third: i64 = height / 3;
    let player = cube_at(Kind::Player, 0, -third, width, height);
    let enemy = cube_at(Kind::Enemy, 0, third, width, height);
    let mut w = World { width, height, entities: Vec::new() };
    w.entities.push(player);
    w.entities.push(enemy);
    w.spawn_neutral_cubes(n_neutrals, rng);
    w
}

/// For an admissible arena height, a third of it lies strictly inside the
/// half-extent, so the starting rows of the player and the enemy are in
/// bounds.
proof fn lemma_third_inside_half(height: int)
    requires
        2 <= height,
        height % 2 == 0,
    ensures
        0 <= height / 3 < height / 2,
{
    vstd::arithmetic::div_mod::lemma_fundamental_div_mod(height, 2);
    vstd::arithmetic::div_mod::lemma_fundamental_div_mod(height, 3);
}

} // verus!
