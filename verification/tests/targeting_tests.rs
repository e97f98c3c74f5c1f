use cube_arena::entity::{Direction, Entity, Kind};
use cube_arena::rng::GameRng;
use cube_arena::targeting::{
    enemy_new_direction, nearest_neutral_direction, player_retarget, targeting_tick, KeyInput,
};
use cube_arena::world::World;

fn no_keys() -> KeyInput {
    KeyInput { left: false, right: false, up: false, down: false }
}

#[test]
fn right_just_pressed_gives_pos_x() {
    let keys = KeyInput { right: true, ..no_keys() };
    assert_eq!(player_retarget(keys), Some(Direction::PosX));
}

#[test]
fn no_keys_gives_no_change() {
    assert_eq!(player_retarget(no_keys()), None);
}

#[test]
fn left_wins_over_right() {
    let keys = KeyInput { left: true, right: true, ..no_keys() };
    assert_eq!(player_retarget(keys), Some(Direction::NegX));
}

#[test]
fn up_and_down_mappings() {
    assert_eq!(player_retarget(KeyInput { up: true, ..no_keys() }), Some(Direction::PosY));
    assert_eq!(player_retarget(KeyInput { down: true, ..no_keys() }), Some(Direction::NegY));
    // Priority runs left, right, up, down.
    assert_eq!(
        player_retarget(KeyInput { up: true, down: true, ..no_keys() }),
        Some(Direction::PosY)
    );
    assert_eq!(
        player_retarget(KeyInput { right: true, down: true, ..no_keys() }),
        Some(Direction::PosX)
    );
}

#[test]
fn enemy_moves_toward_neutral_on_larger_axis() {
    // Neutral to the right and slightly up: |dx| = 10 > |dy| = 3, enemy is
    // left of it, so the enemy moves +X.
    assert_eq!(nearest_neutral_direction(0, 0, &vec![(10, 3)]), Direction::PosX);
    // Mirrored: neutral to the left, -X.
    assert_eq!(nearest_neutral_direction(0, 0, &vec![(-10, 3)]), Direction::NegX);
    // Larger difference on y, neutral above: +Y.
    assert_eq!(nearest_neutral_direction(0, 0, &vec![(3, 10)]), Direction::PosY);
    // Larger difference on y, neutral below: -Y.
    assert_eq!(nearest_neutral_direction(0, 0, &vec![(3, -10)]), Direction::NegY);
    // Equal absolute differences fall to the y axis.
    assert_eq!(nearest_neutral_direction(0, 0, &vec![(5, 5)]), Direction::PosY);
}

#[test]
fn enemy_picks_the_nearest_neutral() {
    // (5, 0) is nearer than (100, 0) and (0, -90): the enemy chases it.
    let neutrals = vec![(100, 0), (5, 0), (0, -90)];
    assert_eq!(nearest_neutral_direction(0, 0, &neutrals), Direction::PosX);
    // From the far side of the nearest, the sign flips.
    assert_eq!(nearest_neutral_direction(20, 0, &neutrals), Direction::NegX);
    // Standing near (100, 0) makes that one the nearest instead.
    assert_eq!(nearest_neutral_direction(80, 0, &neutrals), Direction::PosX);
}

#[test]
fn enemy_with_no_neutrals_is_a_no_op() {
    // Whatever the trial draws, with no neutral positions there is nothing
    // to chase and the direction is left alone.
    let mut rng = GameRng::from_seed(7);
    for _ in 0..1000 {
        assert_eq!(enemy_new_direction(10, 10, &vec![], &mut rng), None);
    }
}

#[test]
fn enemy_keeps_direction_in_world_without_neutrals() {
    let enemy = Entity {
        kind: Kind::Enemy,
        x: 0,
        y: 200,
        layer: 99,
        size: 53,
        speed: 90,
        dir: Direction::PosY,
    };
    let mut w = World { width: 800, height: 600, entities: vec![enemy] };
    let mut rng = GameRng::from_seed(3);
    for _ in 0..1000 {
        targeting_tick(&mut w, no_keys(), &mut rng);
        assert_eq!(w.entities[0].dir, Direction::PosY);
        assert_eq!(w.entities[0].x, 0);
        assert_eq!(w.entities[0].y, 200);
    }
}

#[test]
fn enemy_retarget_always_chases_nearest() {
    // Over many ticks with an enemy and one neutral, the enemy's direction
    // is only ever its old one or the axis choice toward that neutral — here
    // always +X once a re-target fires, and never -X, +Y or -Y.
    let enemy = Entity {
        kind: Kind::Enemy,
        x: -100,
        y: 6,
        layer: 99,
        size: 53,
        speed: 0,
        dir: Direction::PosY,
    };
    let neutral = Entity {
        kind: Kind::Neutral,
        x: 60,
        y: 9,
        layer: 98,
        size: 16,
        speed: 0,
        dir: Direction::PosY,
    };
    let mut w = World { width: 800, height: 600, entities: vec![enemy, neutral] };
    let mut rng = GameRng::from_seed(11);
    let mut retargeted = false;
    for _ in 0..2000 {
        targeting_tick(&mut w, no_keys(), &mut rng);
        let d = w.entities[0].dir;
        assert!(d == Direction::PosY || d == Direction::PosX);
        if d == Direction::PosX {
            retargeted = true;
        }
    }
    // With p = 0.05 per tick, 2000 ticks fire with overwhelming odds.
    assert!(retargeted);
}

#[test]
fn player_direction_changes_only_on_input() {
    let player = Entity {
        kind: Kind::Player,
        x: 0,
        y: -200,
        layer: 100,
        size: 40,
        speed: 100,
        dir: Direction::PosY,
    };
    let mut w = World { width: 800, height: 600, entities: vec![player] };
    let mut rng = GameRng::from_seed(5);
    targeting_tick(&mut w, no_keys(), &mut rng);
    assert_eq!(w.entities[0].dir, Direction::PosY);
    targeting_tick(&mut w, KeyInput { down: true, ..no_keys() }, &mut rng);
    assert_eq!(w.entities[0].dir, Direction::NegY);
    targeting_tick(&mut w, no_keys(), &mut rng);
    assert_eq!(w.entities[0].dir, Direction::NegY);
}

#[test]
fn targeting_never_moves_anything() {
    let mut rng = GameRng::from_seed(99);
    let mut w = cube_arena::world::spawn_startup_entities(800, 600, 15, &mut rng);
    let before: Vec<(i64, i64)> = w.entities.iter().map(|e| (e.x, e.y)).collect();
    for _ in 0..200 {
        targeting_tick(&mut w, no_keys(), &mut rng);
    }
    let after: Vec<(i64, i64)> = w.entities.iter().map(|e| (e.x, e.y)).collect();
    assert_eq!(before, after);
}
