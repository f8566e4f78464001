//! The practice course: an arena whose walls are named by the side on which
//! they stand, and the queue of levels that leads to it.

use vstd::prelude::*;
use crate::aiming::normalize;
use crate::components::{rects, Collider, GolfHole, Rect};
use crate::levels::{ball_size, hole_at, start_direction, whole, LevelDescriptor, LevelView};
use crate::physics::capture_radius;
use crate::units::SCALE;
use crate::vector::{Vec2, Vector};

verus! {

/// Thickness of the arena's walls, in world units.
pub const WALL_THICKNESS: i32 = 10;

/// Abscissa of the left wall.
pub const LEFT_WALL: i32 = -450;

/// Abscissa of the right wall.
pub const RIGHT_WALL: i32 = 450;

/// Ordinate of the bottom wall.
pub const BOTTOM_WALL: i32 = -300;

/// Ordinate of the top wall.
pub const TOP_WALL: i32 = 300;

/// The side of the arena on which a wall stands.
#[derive(Clone, Copy, Debug, PartialEq, Eq)]
pub enum WallLocation {
    Left,
    Right,
    Bottom,
    Top,
}

impl WallLocation {
    /// Centre of the wall on this side.
    pub open spec fn place(self) -> Vec2 {
        match self {
            WallLocation::Left => whole(LEFT_WALL as int, 0),
            WallLocation::Right => whole(RIGHT_WALL as int, 0),
            WallLocation::Bottom => whole(0, BOTTOM_WALL as int),
            WallLocation::Top => whole(0, TOP_WALL as int),
        }
    }

    /// Extents of the wall on this side: as long as the arena and one
    /// thickness more, so that the corners close.
    pub open spec fn extents(self) -> Vec2 {
        match self {
            WallLocation::Left | WallLocation::Right => whole(
                WALL_THICKNESS as int,
                TOP_WALL - BOTTOM_WALL + WALL_THICKNESS,
            ),
            WallLocation::Bottom | WallLocation::Top => whole(
                RIGHT_WALL - LEFT_WALL + WALL_THICKNESS,
                WALL_THICKNESS as int,
            ),
        }
    }

    /// The wall on this side.
    pub open spec fn rect(self) -> Rect {
        Rect { position: self.place(), size: self.extents() }
    }

    /// Centre of the wall on this side.
    pub fn position(&self) -> (p: Vector)
        ensures
            p@ == self.place(),
            p.wf(),
    {
        match self {
            WallLocation::Left => Vector::from_units(LEFT_WALL, 0),
            WallLocation::Right => Vector::from_units(RIGHT_WALL, 0),
            WallLocation::Bottom => Vector::from_units(0, BOTTOM_WALL),
            WallLocation::Top => Vector::from_units(0, TOP_WALL),
        }
    }

    /// Extents of the wall on this side.
    pub fn size(&self) -> (s: Vector)
        ensures
            s@ == self.extents(),
            s.wf(),
    {
        let arena_height: i32 = TOP_WALL - BOTTOM_WALL;
        let arena_width: i32 = RIGHT_WALL - LEFT_WALL;
        match self {
            WallLocation::Left | WallLocation::Right => Vector::from_units(
                WALL_THICKNESS,
                arena_height + WALL_THICKNESS,
            ),
            WallLocation::Bottom | WallLocation::Top => Vector::from_units(
                arena_width + WALL_THICKNESS,
                WALL_THICKNESS,
            ),
        }
    }

    /// The wall on this side.
    pub fn collider(&self) -> (c: Collider)
        ensures
            c@ == self.rect(),
            c.wf(),
    {
        Collider { position: self.position(), size: self.size() }
    }
}

/// The levels that a queue can hold.
#[derive(Clone, Copy, Debug, PartialEq, Eq)]
pub enum LevelState {
    Level1,
    Level2,
}

/// The levels that are still to be played, the next one last.
#[derive(Clone, Debug, PartialEq, Eq)]
pub struct LevelsQueue(pub Vec<LevelState>);

/// The queue at the start: the practice course alone.
pub fn create_levels_queue() -> (queue: LevelsQueue)
    ensures
        queue.0@ == seq![LevelState::Level2],
{
    let mut levels: Vec<LevelState> = Vec::new();
    levels.push(LevelState::Level2);
    assert(levels@ =~= seq![LevelState::Level2]);
    LevelsQueue(levels)
}

/// The practice course: the hole in the centre, the ball below it, and an
/// arena that is open at the top.
pub open spec fn practice_course() -> LevelView {
    LevelView {
        hole: hole_at(0, 0),
        ball_start: whole(0, -100),
        ball_direction: start_direction(),
        ball_size: ball_size(),
        walls: seq![
            WallLocation::Left.rect(),
            WallLocation::Right.rect(),
            WallLocation::Bottom.rect(),
        ],
    }
}

/// The practice course.
pub fn load_level_2() -> (d: LevelDescriptor)
    ensures
        d@ == practice_course(),
        d.wf(),
{
    let mut walls: Vec<Collider> = Vec::new();
    walls.push(WallLocation::Left.collider());
    walls.push(WallLocation::Right.collider());
    walls.push(WallLocation::Bottom.collider());
    assert(rects(walls@) =~= practice_course().walls);
    let d = LevelDescriptor {
        hole: GolfHole {
            position: Vector::from_units(0, 0),
            radius: capture_radius(Vector::from_units(25, 25), 5),
        },
        ball_start: Vector::from_units(0, -100),
        ball_direction: normalize(Vector { x: SCALE / 2, y: -(SCALE / 2) }),
        ball_size: Vector::from_units(15, 15),
        walls,
    };
    d
}

} // verus!
