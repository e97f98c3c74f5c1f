//! Motion integration: once per tick every cube advances by its direction
//! times its speed times the elapsed time, then the position wraps at the
//! arena boundary.
//!
//! The wrap is a chain of mutually exclusive checks — x past the right edge,
//! x past the left edge, y past the top edge, y past the bottom edge — so at
//! most one axis is corrected per tick, and the corrected coordinate lands
//! `WRAP_MARGIN` inside the opposite edge.

use vstd::prelude::*;

use crate::entity::{arena_ok, pos_in_bounds, Direction, Entity, Kind, MAX_DT, MAX_SPEED, WRAP_MARGIN};
use crate::world::World;

verus! {

/// X coordinate after displacement, before any wrap.
pub open spec fn displaced_x(e: Entity, dt: int) -> int {
    e.x + e.dir.dx() * e.speed * dt
}

/// Y coordinate after displacement, before any wrap.
pub open spec fn displaced_y(e: Entity, dt: int) -> int {
    e.y + e.dir.dy() * e.speed * dt
}

/// Whether a displaced x coordinate lies outside the arena.
pub open spec fn x_out(nx: int, width: int) -> bool {
    nx >= width / 2 || nx < -(width / 2)
}

/// X coordinate after the wrap chain: corrected to just inside the opposite
/// edge if out of bounds, kept otherwise.
pub open spec fn move_x(e: Entity, width: int, dt: int) -> int {
    let nx = displaced_x(e, dt);
    if nx >= width / 2 {
        -(width / 2) + WRAP_MARGIN
    } else if nx < -(width / 2) {
        width / 2 - WRAP_MARGIN
    } else {
        nx
    }
}

/// Y coordinate after the wrap chain. The y checks run only when the x
/// coordinate needed no correction: only one axis is corrected per tick.
pub open spec fn move_y(e: Entity, width: int, height: int, dt: int) -> int {
    let nx = displaced_x(e, dt);
    let ny = displaced_y(e, dt);
    if x_out(nx, width) {
        ny
    } else if ny >= height / 2 {
        -(height / 2) + WRAP_MARGIN
    } else if ny < -(height / 2) {
        height / 2 - WRAP_MARGIN
    } else {
        ny
    }
}

/// The entity after one integration step: cubes move and wrap, balls stay
/// exactly where they are. Only the position changes.
pub open spec fn moved_entity(e: Entity, width: int, height: int, dt: int) -> Entity {
    if e.kind is Ball {
        e
    } else {
        Entity { x: move_x(e, width, dt) as i64, y: move_y(e, width, height, dt) as i64, ..e }
    }
}

/// Advances one entity by one tick of duration `dt`: displacement by
/// direction times speed times `dt`, then the boundary wrap. Balls do not
/// move. The result is in bounds whenever the input was.
pub fn integrate(e: &Entity, width: i64, height: i64, dt: i64) -> (r: Entity)
    requires
        arena_ok(width as int, height as int),
        e.wf(width as int, height as int),
        0 <= dt <= MAX_DT,
    ensures
        r == moved_entity(*e, width as int, height as int, dt as int),
        r.wf(width as int, height as int),
{
    if matches!(e.kind, Kind::Ball { .. }) {
        return *e;
    }
    proof {
        assert(0 <= e.speed * dt <= MAX_SPEED * MAX_DT) by (nonlinear_arith)
            requires
                0 <= e.speed <= MAX_SPEED,
                0 <= dt <= MAX_DT,
        ;
    }
    let step: i64 = e.speed * dt;
    let half_w: i64 = width / 2;
    let half_h: i64 = height / 2;
    let nx: i64;
    let ny: i64;
    match e.dir {
        Direction::PosX => {
            nx = e.x + step;
            ny = e.y;
        },
        Direction::NegX => {
            nx = e.x - step;
            ny = e.y;
        },
        Direction::PosY => {
            nx = e.x;
            ny = e.y + step;
        },
        Direction::NegY => {
            nx = e.x;
            ny = e.y - step;
        },
    }
    proof {
        let s = e.speed as int;
        let d = dt as int;
        assert(1 * s * d == s * d) by (nonlinear_arith);
        assert((-1) * s * d == -(s * d)) by (nonlinear_arith);
        assert(0 * s * d == 0) by (nonlinear_arith);
        assert(nx == displaced_x(*e, d));
        assert(ny == displaced_y(*e, d));
    }
    let (rx, ry): (i64, i64) = if nx >= half_w {
        (-half_w + WRAP_MARGIN, ny)
    } else if nx < -half_w {
        (half_w - WRAP_MARGIN, ny)
    } else if ny >= half_h {
        (nx, -half_h + WRAP_MARGIN)
    } else if ny < -half_h {
        (nx, half_h - WRAP_MARGIN)
    } else {
        (nx, ny)
    };
    Entity { x: rx, y: ry, ..*e }
}

/// Motion integration for one tick over the whole arena: every cube advances
/// by its direction times its speed times `dt` and wraps at the boundary;
/// balls stay put. Nothing but positions changes, and every position is back
/// inside the arena afterwards.
pub fn motion_tick(w: &mut World, dt: i64)
    requires
        old(w).wf(),
        0 <= dt <= MAX_DT,
    ensures
        final(w).wf(),
        final(w).width == old(w).width,
        final(w).height == old(w).height,
        final(w).entities@.len() == old(w).entities@.len(),
        forall|i: int|
            0 <= i < old(w).entities@.len() ==> #[trigger] final(w).entities@[i] == moved_entity(
                old(w).entities@[i],
                old(w).width as int,
                old(w).height as int,
                dt as int,
            ),
{
    let width: i64 = w.width;
    let height: i64 = w.height;
    let n: usize = w.entities.len();
    let mut i: usize = 0;
    while i < n
        invariant
            0 <= i <= n,
            w.wf(),
            n == w.entities@.len(),
            w.width == old(w).width,
            w.height == old(w).height,
            width == w.width,
            height == w.height,
            0 <= dt <= MAX_DT,
            forall|j: int| i <= j < n ==> w.entities@[j] == old(w).entities@[j],
            forall|j: int|
                0 <= j < i ==> #[trigger] w.entities@[j] == moved_entity(
                    old(w).entities@[j],
                    width as int,
                    height as int,
                    dt as int,
                ),
        decreases n - i,
    {
        let e = w.entities[i];
        let ne = integrate(&e, width, height, dt);
        w.entities.set(i, ne);
        i = i + 1;
    }
}

/// A cube whose displacement is zero — speed zero or no elapsed time — and
/// whose position is inside the arena keeps its position through an
/// integration step.
pub proof fn lemma_zero_displacement_keeps_position(e: Entity, width: int, height: int, dt: int)
    requires
        arena_ok(width, height),
        e.wf(width, height),
        0 <= dt,
        e.speed * dt == 0,
    ensures
        moved_entity(e, width, height, dt) == e,
{
    assert(e.dir.dx() * e.speed * dt == 0) by (nonlinear_arith)
        requires
            e.speed * dt == 0,
    ;
    assert(e.dir.dy() * e.speed * dt == 0) by (nonlinear_arith)
        requires
            e.speed * dt == 0,
    ;
    assert(moved_entity(e, width, height, dt) =~= e);
}

/// The wrap invariant: one integration step takes a well-formed entity —
/// in particular, one inside the arena — to an entity inside the arena.
/// Because a cube's direction is axis-aligned, only one coordinate can leave
/// the arena in a tick, and the wrap chain corrects exactly that one.
pub proof fn lemma_integrate_stays_in_bounds(e: Entity, width: int, height: int, dt: int)
    requires
        arena_ok(width, height),
        e.wf(width, height),
        0 <= dt,
    ensures
        pos_in_bounds(
            moved_entity(e, width, height, dt).x as int,
            moved_entity(e, width, height, dt).y as int,
            width,
            height,
        ),
{
    if !(e.kind is Ball) {
        if e.dir.dx() == 0 {
            assert(displaced_x(e, dt) == e.x) by (nonlinear_arith)
                requires
                    e.dir.dx() == 0,
                    displaced_x(e, dt) == e.x + e.dir.dx() * e.speed * dt,
            ;
        }
        if e.dir.dy() == 0 {
            assert(displaced_y(e, dt) == e.y) by (nonlinear_arith)
                requires
                    e.dir.dy() == 0,
                    displaced_y(e, dt) == e.y + e.dir.dy() * e.speed * dt,
            ;
        }
    }
}

} // verus!
