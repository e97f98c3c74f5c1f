use cube_arena::entity::{Direction, Entity, Kind};
use cube_arena::motion::motion_tick;
use cube_arena::world::World;

fn cube(kind: Kind, x: i64, y: i64, speed: i64, dir: Direction) -> Entity {
    Entity { kind, x, y, layer: 100, size: 40, speed, dir }
}

fn arena_800x600(entities: Vec<Entity>) -> World {
    World { width: 800, height: 600, entities }
}

#[test]
fn zero_speed_keeps_position() {
    let mut w = arena_800x600(vec![cube(Kind::Player, 10, 20, 0, Direction::PosX)]);
    motion_tick(&mut w, 1);
    assert_eq!(w.entities[0].x, 10);
    assert_eq!(w.entities[0].y, 20);
}

#[test]
fn zero_dt_keeps_position() {
    let mut w = arena_800x600(vec![cube(Kind::Enemy, -133, 255, 90, Direction::NegY)]);
    motion_tick(&mut w, 0);
    assert_eq!(w.entities[0].x, -133);
    assert_eq!(w.entities[0].y, 255);
}

#[test]
fn plain_move_right() {
    let mut w = arena_800x600(vec![cube(Kind::Player, 0, 0, 5, Direction::PosX)]);
    motion_tick(&mut w, 1);
    assert_eq!(w.entities[0].x, 5);
    assert_eq!(w.entities[0].y, 0);
}

#[test]
fn wrap_at_right_edge() {
    // 398 + 5 = 403 >= 400, so x wraps to -400 + 1 = -399; y is untouched.
    let mut w = arena_800x600(vec![cube(Kind::Player, 398, 0, 5, Direction::PosX)]);
    motion_tick(&mut w, 1);
    assert_eq!(w.entities[0].x, -399);
    assert_eq!(w.entities[0].y, 0);
}

#[test]
fn wrap_at_right_edge_from_399() {
    // 399 + 5 = 404 >= 400 wraps the same way.
    let mut w = arena_800x600(vec![cube(Kind::Player, 399, 0, 5, Direction::PosX)]);
    motion_tick(&mut w, 1);
    assert_eq!(w.entities[0].x, -399);
    assert_eq!(w.entities[0].y, 0);
}

#[test]
fn wrap_at_left_edge() {
    // -398 - 5 = -403 < -400, so x wraps to 400 - 1 = 399.
    let mut w = arena_800x600(vec![cube(Kind::Enemy, -398, 7, 5, Direction::NegX)]);
    motion_tick(&mut w, 1);
    assert_eq!(w.entities[0].x, 399);
    assert_eq!(w.entities[0].y, 7);
}

#[test]
fn wrap_at_top_edge() {
    // 297 + 5 = 302 >= 300, so y wraps to -300 + 1 = -299.
    let mut w = arena_800x600(vec![cube(Kind::Neutral, 12, 297, 5, Direction::PosY)]);
    motion_tick(&mut w, 1);
    assert_eq!(w.entities[0].x, 12);
    assert_eq!(w.entities[0].y, -299);
}

#[test]
fn wrap_at_bottom_edge() {
    // -299 - 5 = -304 < -300, so y wraps to 300 - 1 = 299.
    let mut w = arena_800x600(vec![cube(Kind::Neutral, -12, -299, 5, Direction::NegY)]);
    motion_tick(&mut w, 1);
    assert_eq!(w.entities[0].x, -12);
    assert_eq!(w.entities[0].y, 299);
}

#[test]
fn time_scaled_displacement() {
    // Displacement is speed times elapsed time: 3 * 7 = 21.
    let mut w = arena_800x600(vec![cube(Kind::Player, 100, -50, 3, Direction::PosY)]);
    motion_tick(&mut w, 7);
    assert_eq!(w.entities[0].x, 100);
    assert_eq!(w.entities[0].y, -29);
}

#[test]
fn balls_never_move() {
    let ball = Entity {
        kind: Kind::Ball { ball: cube_arena::entity::BallKind::SpeedBoost, magnitude_milli: 1500 },
        x: 42,
        y: -17,
        layer: 98,
        size: 11,
        speed: 0,
        dir: Direction::PosY,
    };
    let mut w = arena_800x600(vec![ball]);
    motion_tick(&mut w, 1);
    assert_eq!(w.entities[0].x, 42);
    assert_eq!(w.entities[0].y, -17);
}

#[test]
fn positions_stay_in_bounds_over_many_ticks() {
    // The wrap invariant, exercised: whatever the directions do, every
    // position stays inside [-400, 400) x [-300, 300).
    let mut w = arena_800x600(vec![
        cube(Kind::Player, 399, 299, 100, Direction::PosX),
        cube(Kind::Enemy, -400, -300, 90, Direction::NegY),
        cube(Kind::Neutral, 0, 0, 90, Direction::PosY),
    ]);
    let dirs = [Direction::PosX, Direction::NegY, Direction::PosY, Direction::NegX];
    for t in 0..500 {
        for (k, e) in w.entities.iter_mut().enumerate() {
            e.dir = dirs[(t + k) % 4];
        }
        motion_tick(&mut w, 1);
        for e in &w.entities {
            assert!(-400 <= e.x && e.x < 400);
            assert!(-300 <= e.y && e.y < 300);
        }
    }
}

#[test]
fn only_one_axis_wraps_per_tick() {
    // An entity leaving on x keeps its (in-bounds) y untouched even when y
    // sits right at the edge; the wrap corrects one axis per tick.
    let mut w = arena_800x600(vec![cube(Kind::Player, 399, 299, 10, Direction::PosX)]);
    motion_tick(&mut w, 1);
    assert_eq!(w.entities[0].x, -399);
    assert_eq!(w.entities[0].y, 299);
}
