//! Entity data model: kinds, directions, colors, and the per-kind starting
//! attributes (position, size, speed, color, draw layer).
//!
//! Coordinates are integers. The arena spans `[-width/2, width/2)` on the x
//! axis and `[-height/2, height/2)` on the y axis, with the origin at its
//! center. A ball's magnitude factor is carried in thousandths, so a factor
//! drawn from `[1.1, 2.0)` is an integer in `[1100, 2000)`.

use vstd::prelude::*;

verus! {

/// Largest arena width or height the model admits; keeps all position
/// arithmetic far from `i64` overflow.
pub const MAX_DIM: i64 = 1048576;

/// Largest per-tick elapsed time the model admits, in time units.
pub const MAX_DT: i64 = 1048576;

/// Largest movement speed the model admits, in distance units per time unit.
pub const MAX_SPEED: i64 = 1048576;

/// Distance from the boundary at which a wrapped entity re-enters, so it
/// never lands exactly on the opposite edge.
pub const WRAP_MARGIN: i64 = 1;

/// Movement speed of the player cube.
pub const PLAYER_SPEED: i64 = 100;

/// Movement speed of the enemy cube.
pub const ENEMY_SPEED: i64 = 90;

/// Movement speed of a neutral cube.
pub const NEUTRAL_SPEED: i64 = 90;

/// Draw layer of the player cube.
pub const PLAYER_LAYER: i64 = 100;

/// Draw layer of the enemy cube.
pub const ENEMY_LAYER: i64 = 99;

/// Draw layer of a neutral cube.
pub const NEUTRAL_LAYER: i64 = 98;

/// Draw layer of a spawned ball.
pub const BALL_LAYER: i64 = 98;

/// Smallest ball magnitude factor, in thousandths (factor 1.1).
pub const MAG_MILLI_LO: u32 = 1100;

/// One past the largest ball magnitude factor, in thousandths (factor 2.0).
pub const MAG_MILLI_HI: u32 = 2000;

/// Axis-aligned movement direction of a cube. Cubes never move diagonally;
/// balls are stationary and carry no meaningful direction.
#[derive(Clone, Copy, Debug, PartialEq, Eq, Structural)]
pub enum Direction {
    PosX,
    NegX,
    PosY,
    NegY,
}

impl Direction {
    /// X component of the unit vector for this direction.
    pub open spec fn dx(self) -> int {
        match self {
            Direction::PosX => 1,
            Direction::NegX => -1,
            Direction::PosY => 0,
            Direction::NegY => 0,
        }
    }

    /// Y component of the unit vector for this direction.
    pub open spec fn dy(self) -> int {
        match self {
            Direction::PosX => 0,
            Direction::NegX => 0,
            Direction::PosY => 1,
            Direction::NegY => -1,
        }
    }

}

/// The effect a spawned ball has on the cube that touches it.
#[derive(Clone, Copy, Debug, PartialEq, Eq, Structural)]
pub enum BallKind {
    SpeedBoost,
    SizeBoost,
    SpeedDecrease,
    SizeDecrease,
}

/// What an entity is. Cubes move; balls sit still and carry a magnitude
/// factor, fixed at creation, in thousandths.
#[derive(Clone, Copy, Debug, PartialEq, Eq, Structural)]
pub enum Kind {
    Player,
    Enemy,
    Neutral,
    Ball { ball: BallKind, magnitude_milli: u32 },
}

impl Kind {
    /// A cube is a moving entity: the player, the enemy, or a neutral.
    pub open spec fn is_cube(self) -> bool {
        self is Player || self is Enemy || self is Neutral
    }

    /// A ball's magnitude factor lies in `[1.1, 2.0)`, held in thousandths.
    pub open spec fn wf(self) -> bool {
        match self {
            Kind::Ball { ball: _, magnitude_milli } => MAG_MILLI_LO <= magnitude_milli
                < MAG_MILLI_HI,
            _ => true,
        }
    }
}

/// Render color of an entity, one per kind family: boosts share one color,
/// penalties another.
#[derive(Clone, Copy, Debug, PartialEq, Eq, Structural)]
pub enum GameColor {
    Purple,
    Gold,
    DarkGray,
    LimeGreen,
    Red,
}

/// One game object: a cube or a ball, with its spatial state.
#[derive(Clone, Copy, Debug, PartialEq, Eq, Structural)]
pub struct Entity {
    /// What the entity is; for balls this carries the magnitude factor.
    pub kind: Kind,
    /// X coordinate, in `[-width/2, width/2)`.
    pub x: i64,
    /// Y coordinate, in `[-height/2, height/2)`.
    pub y: i64,
    /// Draw-order depth, fixed per kind at spawn; never part of physics.
    pub layer: i64,
    /// Side length (cubes) or diameter (balls).
    pub size: i64,
    /// Distance per time unit; zero for balls.
    pub speed: i64,
    /// Per-tick movement direction; meaningful for cubes only.
    pub dir: Direction,
}

/// The arena dimensions the model admits: positive, even (so the half-extent
/// is exact), and small enough that position arithmetic cannot overflow.
pub open spec fn arena_ok(width: int, height: int) -> bool {
    &&& 2 <= width <= MAX_DIM
    &&& 2 <= height <= MAX_DIM
    &&& width % 2 == 0
    &&& height % 2 == 0
}

/// A position is inside the arena: `x` in `[-width/2, width/2)` and `y` in
/// `[-height/2, height/2)`.
pub open spec fn pos_in_bounds(x: int, y: int, width: int, height: int) -> bool {
    &&& -(width / 2) <= x < width / 2
    &&& -(height / 2) <= y < height / 2
}

impl Entity {
    /// Well-formed within the given arena: in bounds, speed in range, a
    /// ball's magnitude in range and a ball stationary.
    pub open spec fn wf(self, width: int, height: int) -> bool {
        &&& pos_in_bounds(self.x as int, self.y as int, width, height)
        &&& 0 <= self.speed <= MAX_SPEED
        &&& self.kind.wf()
        &&& (self.kind is Ball ==> self.speed == 0)
    }
}

/// The starting movement speed of each kind: player fastest, enemy and
/// neutrals slower, balls stationary.
pub open spec fn spec_starting_speed(kind: Kind) -> int {
    match kind {
        Kind::Player => PLAYER_SPEED as int,
        Kind::Enemy => ENEMY_SPEED as int,
        Kind::Neutral => NEUTRAL_SPEED as int,
        Kind::Ball { .. } => 0,
    }
}

/// Starting movement speed, as executable code.
pub fn starting_speed(kind: Kind) -> (r: i64)
    ensures
        r == spec_starting_speed(kind),
{
    match kind {
        Kind::Player => PLAYER_SPEED,
        Kind::Enemy => ENEMY_SPEED,
        Kind::Neutral => NEUTRAL_SPEED,
        Kind::Ball { .. } => 0,
    }
}

/// The draw layer of each kind: player in front, enemy behind it, neutrals
/// and balls behind both.
pub open spec fn spec_starting_layer(kind: Kind) -> int {
    match kind {
        Kind::Player => PLAYER_LAYER as int,
        Kind::Enemy => ENEMY_LAYER as int,
        Kind::Neutral => NEUTRAL_LAYER as int,
        Kind::Ball { .. } => BALL_LAYER as int,
    }
}

/// Starting draw layer, as executable code.
pub fn starting_layer(kind: Kind) -> (r: i64)
    ensures
        r == spec_starting_layer(kind),
{
    match kind {
        Kind::Player => PLAYER_LAYER,
        Kind::Enemy => ENEMY_LAYER,
        Kind::Neutral => NEUTRAL_LAYER,
        Kind::Ball { .. } => BALL_LAYER,
    }
}

/// The render color of each kind; boost balls share one color and penalty
/// balls another.
pub open spec fn spec_starting_color(kind: Kind) -> GameColor {
    match kind {
        Kind::Player => GameColor::Purple,
        Kind::Enemy => GameColor::Gold,
        Kind::Neutral => GameColor::DarkGray,
        Kind::Ball { ball, .. } => match ball {
            BallKind::SpeedBoost => GameColor::LimeGreen,
            BallKind::SizeBoost => GameColor::LimeGreen,
            BallKind::SpeedDecrease => GameColor::Red,
            BallKind::SizeDecrease => GameColor::Red,
        },
    }
}

/// Starting color, as executable code.
pub fn starting_color(kind: Kind) -> (r: GameColor)
    ensures
        r == spec_starting_color(kind),
{
    match kind {
        Kind::Player => GameColor::Purple,
        Kind::Enemy => GameColor::Gold,
        Kind::Neutral => GameColor::DarkGray,
        Kind::Ball { ball: BallKind::SpeedBoost, .. } => GameColor::LimeGreen,
        Kind::Ball { ball: BallKind::SizeBoost, .. } => GameColor::LimeGreen,
        Kind::Ball { ball: BallKind::SpeedDecrease, .. } => GameColor::Red,
        Kind::Ball { ball: BallKind::SizeDecrease, .. } => GameColor::Red,
    }
}

/// The larger of the two arena dimensions; every starting size is a fixed
/// fraction of it.
pub open spec fn larger_dim(width: int, height: int) -> int {
    if width >= height {
        width
    } else {
        height
    }
}

/// The divisor turning the larger arena dimension into a starting size:
/// player largest, then enemy, then neutrals, balls smallest.
pub open spec fn spec_size_divisor(kind: Kind) -> int {
    match kind {
        Kind::Player => 20,
        Kind::Enemy => 15,
        Kind::Neutral => 50,
        Kind::Ball { .. } => 70,
    }
}

/// The starting size of each kind: the larger arena dimension over a fixed
/// per-kind divisor.
pub open spec fn spec_starting_size(kind: Kind, width: int, height: int) -> int {
    larger_dim(width, height) / spec_size_divisor(kind)
}

/// Starting size, as executable code.
pub fn starting_size(kind: Kind, width: i64, height: i64) -> (r: i64)
    requires
        arena_ok(width as int, height as int),
    ensures
        r == spec_starting_size(kind, width as int, height as int),
{
    let larger: i64 = if width >= height {
        width
    } else {
        height
    };
    let divisor: i64 = match kind {
        Kind::Player => 20,
        Kind::Enemy => 15,
        Kind::Neutral => 50,
        Kind::Ball { .. } => 70,
    };
    larger / divisor
}

/// Builds a cube of the given kind at the given position, with the starting
/// speed, size, color layer and direction of its kind. Every cube starts out
/// moving upward.
pub fn cube_at(kind: Kind, x: i64, y: i64, width: i64, height: i64) -> (e: Entity)
    requires
        kind.is_cube(),
        arena_ok(width as int, height as int),
        pos_in_bounds(x as int, y as int, width as int, height as int),
    ensures
        e.kind == kind,
        e.x == x,
        e.y == y,
        e.layer == spec_starting_layer(kind),
        e.size == spec_starting_size(kind, width as int, height as int),
        e.speed == spec_starting_speed(kind),
        e.dir == Direction::PosY,
        e.wf(width as int, height as int),
{
    Entity {
        kind,
        x,
        y,
        layer: starting_layer(kind),
        size: starting_size(kind, width, height),
        speed: starting_speed(kind),
        dir: Direction::PosY,
    }
}

/// Builds a stationary ball of the given kind and magnitude at the given
/// position, with the ball layer and size.
pub fn ball_at(ball: BallKind, magnitude_milli: u32, x: i64, y: i64, width: i64, height: i64) -> (e:
    Entity)
    requires
        arena_ok(width as int, height as int),
        pos_in_bounds(x as int, y as int, width as int, height as int),
        MAG_MILLI_LO <= magnitude_milli < MAG_MILLI_HI,
    ensures
        e.kind == (Kind::Ball { ball, magnitude_milli }),
        e.x == x,
        e.y == y,
        e.layer == BALL_LAYER,
        e.size == spec_starting_size(e.kind, width as int, height as int),
        e.speed == 0,
        e.wf(width as int, height as int),
{
    let kind = Kind::Ball { ball, magnitude_milli };
    Entity {
        kind,
        x,
        y,
        layer: starting_layer(kind),
        size: starting_size(kind, width, height),
        speed: 0,
        dir: Direction::PosY,
    }
}

} // verus!
