//! Targeting policy: once per tick each cube either keeps its direction or
//! picks a new one.
//!
//! The player follows the directional key pressed this tick, resolving
//! several keys by a fixed priority (left, right, up, down). The enemy, with
//! a fixed per-tick probability, turns toward the nearest neutral cube along
//! the axis of larger absolute coordinate difference. A neutral cube, with a
//! fixed per-tick probability, picks one of the four directions uniformly.

use vstd::prelude::*;

use crate::entity::{Direction, Entity, Kind, MAX_DIM};
use crate::rng::GameRng;
use crate::world::World;

verus! {

/// Chance, out of [`TRIAL_DEN`], that the enemy re-targets on a tick.
pub const ENEMY_RETARGET_NUM: u32 = 5;

/// Chance, out of [`TRIAL_DEN`], that a neutral cube re-targets on a tick.
pub const NEUTRAL_RETARGET_NUM: u32 = 3;

/// Denominator of every per-tick probability the policies use.
pub const TRIAL_DEN: u32 = 100;

/// The four directional controls, as edge-triggered "just pressed this tick"
/// flags; held keys do not count.
#[derive(Clone, Copy, Debug, PartialEq, Eq, Structural)]
pub struct KeyInput {
    /// Left arrow or A was just pressed.
    pub left: bool,
    /// Right arrow or D was just pressed.
    pub right: bool,
    /// Up arrow or W was just pressed.
    pub up: bool,
    /// Down arrow or S was just pressed.
    pub down: bool,
}

/// The player's new direction for a tick of input: the first pressed control
/// in the priority order left, right, up, down; no change when none is
/// pressed.
pub open spec fn spec_player_retarget(keys: KeyInput) -> Option<Direction> {
    if keys.left {
        Some(Direction::NegX)
    } else if keys.right {
        Some(Direction::PosX)
    } else if keys.up {
        Some(Direction::PosY)
    } else if keys.down {
        Some(Direction::NegY)
    } else {
        None
    }
}

/// Player targeting: maps the tick's just-pressed controls to a direction,
/// first match in the order left, right, up, down winning.
pub fn player_retarget(keys: KeyInput) -> (r: Option<Direction>)
    ensures
        r == spec_player_retarget(keys),
{
    if keys.left {
        Some(Direction::NegX)
    } else if keys.right {
        Some(Direction::PosX)
    } else if keys.up {
        Some(Direction::PosY)
    } else if keys.down {
        Some(Direction::NegY)
    } else {
        None
    }
}

/// Absolute value.
pub open spec fn iabs(v: int) -> int {
    if v < 0 {
        -v
    } else {
        v
    }
}

/// Squared Euclidean distance between two points. Distances are only ever
/// compared, so the square root is never taken.
pub open spec fn dist2(ax: int, ay: int, bx: int, by: int) -> int {
    (ax - bx) * (ax - bx) + (ay - by) * (ay - by)
}

/// Index of the point nearest to `(ex, ey)` among the first `n` points,
/// the earliest such index on ties.
pub open spec fn nearest_among(ex: int, ey: int, pts: Seq<(i64, i64)>, n: int) -> int
    decreases n,
{
    if n <= 1 {
        0
    } else {
        let b = nearest_among(ex, ey, pts, n - 1);
        if dist2(pts[n - 1].0 as int, pts[n - 1].1 as int, ex, ey) < dist2(
            pts[b].0 as int,
            pts[b].1 as int,
            ex,
            ey,
        ) {
            n - 1
        } else {
            b
        }
    }
}

/// Index of the point nearest to `(ex, ey)`, the earliest on ties.
pub open spec fn nearest_index(ex: int, ey: int, pts: Seq<(i64, i64)>) -> int {
    nearest_among(ex, ey, pts, pts.len() as int)
}

/// The axis-aligned direction from `(ex, ey)` toward `(tx, ty)`: the axis
/// with the larger absolute coordinate difference (the y axis on ties), with
/// the sign that closes the difference.
pub open spec fn axis_toward(ex: int, ey: int, tx: int, ty: int) -> Direction {
    let dx = ex - tx;
    let dy = ey - ty;
    if iabs(dx) > iabs(dy) {
        if dx < 0 {
            Direction::PosX
        } else {
            Direction::NegX
        }
    } else {
        if dy < 0 {
            Direction::PosY
        } else {
            Direction::NegY
        }
    }
}

/// The direction an enemy at `(ex, ey)` turns to when it re-targets: toward
/// the nearest of the given neutral positions.
pub open spec fn spec_enemy_choice(ex: int, ey: int, pts: Seq<(i64, i64)>) -> Direction
    recommends
        pts.len() > 0,
{
    let i = nearest_index(ex, ey, pts);
    axis_toward(ex, ey, pts[i].0 as int, pts[i].1 as int)
}

/// Squared distance, as executable code.
fn dist2_exec(ax: i64, ay: i64, bx: i64, by: i64) -> (r: i64)
    requires
        -MAX_DIM <= ax <= MAX_DIM,
        -MAX_DIM <= ay <= MAX_DIM,
        -MAX_DIM <= bx <= MAX_DIM,
        -MAX_DIM <= by <= MAX_DIM,
    ensures
        r == dist2(ax as int, ay as int, bx as int, by as int),
{
    let dx: i64 = ax - bx;
    let dy: i64 = ay - by;
    proof {
        assert(0 <= dx * dx <= (2 * MAX_DIM) * (2 * MAX_DIM)) by (nonlinear_arith)
            requires
                -(2 * MAX_DIM) <= dx <= 2 * MAX_DIM,
        ;
        assert(0 <= dy * dy <= (2 * MAX_DIM) * (2 * MAX_DIM)) by (nonlinear_arith)
            requires
                -(2 * MAX_DIM) <= dy <= 2 * MAX_DIM,
        ;
    }
    dx * dx + dy * dy
}

/// All coordinates small enough that squared distances cannot overflow.
pub open spec fn points_bounded(pts: Seq<(i64, i64)>) -> bool {
    forall|j: int|
        0 <= j < pts.len() ==> -MAX_DIM <= (#[trigger] pts[j]).0 <= MAX_DIM && -MAX_DIM <= pts[j].1
            <= MAX_DIM
}

/// The direction toward the neutral cube nearest to `(ex, ey)`: the scan of
/// the enemy's re-targeting, keeping the first-seen of equally near cubes.
pub fn nearest_neutral_direction(ex: i64, ey: i64, neutrals: &Vec<(i64, i64)>) -> (r: Direction)
    requires
        neutrals@.len() > 0,
        -MAX_DIM <= ex <= MAX_DIM,
        -MAX_DIM <= ey <= MAX_DIM,
        points_bounded(neutrals@),
    ensures
        r == spec_enemy_choice(ex as int, ey as int, neutrals@),
{
    let mut best: usize = 0;
    let mut best_d: i64 = dist2_exec(neutrals[0].0, neutrals[0].1, ex, ey);
    let n: usize = neutrals.len();
    let mut i: usize = 1;
    while i < n
        invariant
            1 <= i <= n,
            n == neutrals@.len(),
            0 < n,
            -MAX_DIM <= ex <= MAX_DIM,
            -MAX_DIM <= ey <= MAX_DIM,
            points_bounded(neutrals@),
            0 <= best < i,
            best == nearest_among(ex as int, ey as int, neutrals@, i as int),
            best_d == dist2(neutrals@[best as int].0 as int, neutrals@[best as int].1 as int, ex as int, ey as int),
        decreases n - i,
    {
        let d: i64 = dist2_exec(neutrals[i].0, neutrals[i].1, ex, ey);
        if d < best_d {
            best = i;
            best_d = d;
        }
        i = i + 1;
    }
    let tx: i64 = neutrals[best].0;
    let ty: i64 = neutrals[best].1;
    proof {
        lemma_nearest_among_in_range(ex as int, ey as int, neutrals@, n as int);
    }
    let dx: i64 = ex - tx;
    let dy: i64 = ey - ty;
    let adx: i64 = if dx < 0 {
        -dx
    } else {
        dx
    };
    let ady: i64 = if dy < 0 {
        -dy
    } else {
        dy
    };
    if adx > ady {
        if dx < 0 {
            Direction::PosX
        } else {
            Direction::NegX
        }
    } else {
        if dy < 0 {
            Direction::PosY
        } else {
            Direction::NegY
        }
    }
}

/// The nearest index lies in range.
proof fn lemma_nearest_among_in_range(ex: int, ey: int, pts: Seq<(i64, i64)>, n: int)
    requires
        1 <= n,
    ensures
        0 <= nearest_among(ex, ey, pts, n) < n,
    decreases n,
{
    if n > 1 {
        lemma_nearest_among_in_range(ex, ey, pts, n - 1);
    }
}

/// The nearest index points at a minimum of the squared distance over the
/// first `n` points, and at the first such minimum: every earlier point is
/// strictly farther.
proof fn lemma_nearest_among_min(ex: int, ey: int, pts: Seq<(i64, i64)>, n: int)
    requires
        1 <= n <= pts.len(),
    ensures
        0 <= nearest_among(ex, ey, pts, n) < n,
        forall|j: int|
            0 <= j < n ==> dist2(
                pts[nearest_among(ex, ey, pts, n)].0 as int,
                pts[nearest_among(ex, ey, pts, n)].1 as int,
                ex,
                ey,
            ) <= dist2((#[trigger] pts[j]).0 as int, pts[j].1 as int, ex, ey),
        forall|j: int|
            0 <= j < nearest_among(ex, ey, pts, n) ==> dist2(
                pts[nearest_among(ex, ey, pts, n)].0 as int,
                pts[nearest_among(ex, ey, pts, n)].1 as int,
                ex,
                ey,
            ) < dist2((#[trigger] pts[j]).0 as int, pts[j].1 as int, ex, ey),
    decreases n,
{
    if n > 1 {
        lemma_nearest_among_min(ex, ey, pts, n - 1);
    }
}

/// The law of the enemy's re-targeting: whenever it triggers, the chosen
/// target is a nearest neutral cube — the first-seen of the nearest — the
/// chosen axis carries the larger absolute coordinate difference to it (the
/// y axis on ties), and one unit step along the chosen direction strictly
/// shrinks that difference whenever the enemy does not already sit on the
/// target.
pub proof fn lemma_enemy_choice_closes_gap(ex: int, ey: int, pts: Seq<(i64, i64)>)
    requires
        pts.len() > 0,
    ensures
        ({
            let i = nearest_index(ex, ey, pts);
            let tx = pts[i].0 as int;
            let ty = pts[i].1 as int;
            let d = spec_enemy_choice(ex, ey, pts);
            &&& 0 <= i < pts.len()
            &&& forall|j: int|
                0 <= j < pts.len() ==> dist2(tx, ty, ex, ey) <= dist2(
                    (#[trigger] pts[j]).0 as int,
                    pts[j].1 as int,
                    ex,
                    ey,
                )
            &&& forall|j: int|
                0 <= j < i ==> dist2(tx, ty, ex, ey) < dist2(
                    (#[trigger] pts[j]).0 as int,
                    pts[j].1 as int,
                    ex,
                    ey,
                )
            &&& ((d == Direction::PosX || d == Direction::NegX) ==> iabs(ex - tx) > iabs(ey - ty))
            &&& ((d == Direction::PosY || d == Direction::NegY) ==> iabs(ey - ty) >= iabs(ex - tx))
            &&& ((d == Direction::PosX || d == Direction::NegX) ==> iabs(ex + d.dx() - tx) < iabs(
                ex - tx,
            ))
            &&& ((d == Direction::PosY || d == Direction::NegY) && !(ex == tx && ey == ty)
                ==> iabs(ey + d.dy() - ty) < iabs(ey - ty))
        }),
{
    lemma_nearest_among_min(ex, ey, pts, pts.len() as int);
}

/// Enemy targeting for one tick: with chance [`ENEMY_RETARGET_NUM`] out of
/// [`TRIAL_DEN`], turn toward the nearest neutral cube; otherwise, and
/// always when no neutral cube exists, keep the current direction (`None`).
pub fn enemy_new_direction(
    ex: i64,
    ey: i64,
    neutrals: &Vec<(i64, i64)>,
    rng: &mut GameRng,
) -> (r: Option<Direction>)
    requires
        -MAX_DIM <= ex <= MAX_DIM,
        -MAX_DIM <= ey <= MAX_DIM,
        points_bounded(neutrals@),
    ensures
        neutrals@.len() == 0 ==> r is None,
        r is Some ==> neutrals@.len() > 0 && r == Some(
            spec_enemy_choice(ex as int, ey as int, neutrals@),
        ),
{
    if rng.trial(ENEMY_RETARGET_NUM, TRIAL_DEN) && neutrals.len() > 0 {
        Some(nearest_neutral_direction(ex, ey, neutrals))
    } else {
        None
    }
}

/// The direction a neutral cube turns to for a draw in `[0, 4)`; each draw
/// value names one of the four axis-aligned directions.
pub open spec fn spec_dir_of_draw(k: int) -> Direction {
    if k == 0 {
        Direction::PosX
    } else if k == 1 {
        Direction::NegX
    } else if k == 2 {
        Direction::PosY
    } else {
        Direction::NegY
    }
}

/// Maps a uniform draw in `[0, 4)` to a direction, as executable code.
pub fn dir_of_draw(k: u32) -> (r: Direction)
    requires
        k < 4,
    ensures
        r == spec_dir_of_draw(k as int),
{
    if k == 0 {
        Direction::PosX
    } else if k == 1 {
        Direction::NegX
    } else if k == 2 {
        Direction::PosY
    } else {
        Direction::NegY
    }
}

/// Neutral targeting for one tick: with chance [`NEUTRAL_RETARGET_NUM`] out
/// of [`TRIAL_DEN`], pick one of the four directions uniformly — possibly
/// the current one — and otherwise keep the current direction (`None`).
pub fn neutral_new_direction(rng: &mut GameRng) -> (r: Option<Direction>) {
    if rng.trial(NEUTRAL_RETARGET_NUM, TRIAL_DEN) {
        let k: u32 = rng.range_u32(0, 4);
        Some(dir_of_draw(k))
    } else {
        None
    }
}

/// The positions of the neutral cubes of an entity sequence, in entity
/// order; the enemy scans these when it re-targets.
pub open spec fn neutral_points(s: Seq<Entity>) -> Seq<(i64, i64)>
    decreases s.len(),
{
    if s.len() == 0 {
        Seq::empty()
    } else {
        let front = neutral_points(s.drop_last());
        let e = s.last();
        if e.kind == Kind::Neutral {
            front.push((e.x, e.y))
        } else {
            front
        }
    }
}

/// Positions of in-bounds entities are bounded, so the neutral positions of
/// a well-formed world are safe distance operands.
proof fn lemma_neutral_points_bounded(s: Seq<Entity>, width: int, height: int)
    requires
        arena_dims_small(width, height),
        forall|i: int| 0 <= i < s.len() ==> (#[trigger] s[i]).wf(width, height),
    ensures
        points_bounded(neutral_points(s)),
    decreases s.len(),
{
    if s.len() > 0 {
        lemma_neutral_points_bounded(s.drop_last(), width, height);
    }
}

/// Arena dimensions within the model bound.
pub open spec fn arena_dims_small(width: int, height: int) -> bool {
    0 < width <= MAX_DIM && 0 < height <= MAX_DIM
}

/// Collects the neutral cube positions of the arena, in entity order.
fn collect_neutral_points(entities: &Vec<Entity>) -> (r: Vec<(i64, i64)>)
    ensures
        r@ == neutral_points(entities@),
{
    let mut pts: Vec<(i64, i64)> = Vec::new();
    let n: usize = entities.len();
    let mut i: usize = 0;
    while i < n
        invariant
            0 <= i <= n,
            n == entities@.len(),
            pts@ == neutral_points(entities@.take(i as int)),
        decreases n - i,
    {
        let e = entities[i];
        proof {
            assert(entities@.take(i + 1 as int).drop_last() =~= entities@.take(i as int));
            assert(entities@.take(i + 1 as int).last() == entities@[i as int]);
        }
        if matches!(e.kind, Kind::Neutral) {
            pts.push((e.x, e.y));
        }
        i = i + 1;
    }
    proof {
        assert(entities@.take(n as int) =~= entities@);
    }
    pts
}

/// Two entities equal in everything but possibly the movement direction.
pub open spec fn same_except_direction(a: Entity, b: Entity) -> bool {
    &&& b.kind == a.kind
    &&& b.x == a.x
    &&& b.y == a.y
    &&& b.layer == a.layer
    &&& b.size == a.size
    &&& b.speed == a.speed
}

/// Targeting for one tick over the whole arena. Only directions change:
/// the player's to the direction of the tick's input when there is one; the
/// enemy's, when its re-targeting triggers and a neutral cube exists, toward
/// the nearest neutral cube; a neutral's to a uniformly drawn direction when
/// its re-targeting triggers. With no neutral cubes the enemy keeps its
/// direction; balls are untouched.
pub fn targeting_tick(w: &mut World, keys: KeyInput, rng: &mut GameRng)
    requires
        old(w).wf(),
    ensures
        final(w).wf(),
        final(w).width == old(w).width,
        final(w).height == old(w).height,
        final(w).entities@.len() == old(w).entities@.len(),
        forall|i: int|
            0 <= i < old(w).entities@.len() ==> same_except_direction(
                old(w).entities@[i],
                #[trigger] final(w).entities@[i],
            ),
        forall|i: int|
            0 <= i < old(w).entities@.len() && (#[trigger] old(w).entities@[i]).kind
                == Kind::Player ==> final(w).entities@[i].dir == (
            match spec_player_retarget(keys) {
                Some(d) => d,
                None => old(w).entities@[i].dir,
            }),
        forall|i: int|
            0 <= i < old(w).entities@.len() && (#[trigger] old(w).entities@[i]).kind == Kind::Enemy
                ==> final(w).entities@[i].dir == old(w).entities@[i].dir || (neutral_points(
                old(w).entities@,
            ).len() > 0 && final(w).entities@[i].dir == spec_enemy_choice(
                old(w).entities@[i].x as int,
                old(w).entities@[i].y as int,
                neutral_points(old(w).entities@),
            )),
        neutral_points(old(w).entities@).len() == 0 ==> forall|i: int|
            0 <= i < old(w).entities@.len() && (#[trigger] old(w).entities@[i]).kind == Kind::Enemy
                ==> final(w).entities@[i] == old(w).entities@[i],
        forall|i: int|
            0 <= i < old(w).entities@.len() && (#[trigger] old(w).entities@[i]).kind is Ball
                ==> final(w).entities@[i] == old(w).entities@[i],
{
    let pts = collect_neutral_points(&w.entities);
    proof {
        lemma_neutral_points_bounded(w.entities@, w.width as int, w.height as int);
    }
    let n: usize = w.entities.len();
    let mut i: usize = 0;
    while i < n
        invariant
            0 <= i <= n,
            w.wf(),
            n == w.entities@.len(),
            w.width == old(w).width,
            w.height == old(w).height,
            w.entities@.len() == old(w).entities@.len(),
            pts@ == neutral_points(old(w).entities@),
            points_bounded(pts@),
            forall|j: int| i <= j < n ==> w.entities@[j] == old(w).entities@[j],
            forall|j: int|
                0 <= j < i ==> same_except_direction(
                    old(w).entities@[j],
                    #[trigger] w.entities@[j],
                ),
            forall|j: int|
                0 <= j < i && (#[trigger] old(w).entities@[j]).kind == Kind::Player
                    ==> w.entities@[j].dir == (
                match spec_player_retarget(keys) {
                    Some(d) => d,
                    None => old(w).entities@[j].dir,
                }),
            forall|j: int|
                0 <= j < i && (#[trigger] old(w).entities@[j]).kind == Kind::Enemy
                    ==> w.entities@[j].dir == old(w).entities@[j].dir || (neutral_points(
                    old(w).entities@,
                ).len() > 0 && w.entities@[j].dir == spec_enemy_choice(
                    old(w).entities@[j].x as int,
                    old(w).entities@[j].y as int,
                    neutral_points(old(w).entities@),
                )),
            forall|j: int|
                0 <= j < i && (#[trigger] old(w).entities@[j]).kind is Ball ==> w.entities@[j]
                    == old(w).entities@[j],
        decreases n - i,
    {
        let e = w.entities[i];
        match e.kind {
            Kind::Player => {
                match player_retarget(keys) {
                    Some(d) => {
                        let ne = Entity { dir: d, ..e };
                        w.entities.set(i, ne);
                    },
                    None => {},
                }
            },
            Kind::Enemy => {
                match enemy_new_direction(e.x, e.y, &pts, rng) {
                    Some(d) => {
                        let ne = Entity { dir: d, ..e };
                        w.entities.set(i, ne);
                    },
                    None => {},
                }
            },
            Kind::Neutral => {
                match neutral_new_direction(rng) {
                    Some(d) => {
                        let ne = Entity { dir: d, ..e };
                        w.entities.set(i, ne);
                    },
                    None => {},
                }
            },
            Kind::Ball { .. } => {},
        }
        i = i + 1;
    }
}

} // verus!
