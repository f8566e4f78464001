//! The things on the course: the ball, the hole and the walls, each with the
//! mathematical model that the contracts speak of.

use vstd::prelude::*;
use crate::units::{in_range, LIMIT};
use crate::vector::{Vec2, Vector};

verus! {

/// An axis-aligned rectangle, given by its centre and its full extents.
pub struct Rect {
    pub position: Vec2,
    pub size: Vec2,
}

impl Rect {
    /// Centre and extents are representable.
    pub open spec fn wf(self) -> bool {
        self.position.wf() && self.size.wf()
    }

    /// Twice the abscissa of the left edge.
    pub open spec fn left2(self) -> int {
        2 * self.position.x - self.size.x
    }

    /// Twice the abscissa of the right edge.
    pub open spec fn right2(self) -> int {
        2 * self.position.x + self.size.x
    }

    /// Twice the ordinate of the bottom edge.
    pub open spec fn bottom2(self) -> int {
        2 * self.position.y - self.size.y
    }

    /// Twice the ordinate of the top edge.
    pub open spec fn top2(self) -> int {
        2 * self.position.y + self.size.y
    }
}

/// Model of a [`Ball`].
pub struct BallView {
    pub position: Vec2,
    pub velocity: Vec2,
    pub size: Vec2,
}

impl BallView {
    /// Position, velocity and extents are representable.
    pub open spec fn wf(self) -> bool {
        self.position.wf() && self.velocity.wf() && self.size.wf()
    }

    /// The ball's bounding box.
    pub open spec fn bounds(self) -> Rect {
        Rect { position: self.position, size: self.size }
    }
}

/// Model of a [`GolfHole`].
pub struct HoleView {
    pub position: Vec2,
    pub radius: int,
}

impl HoleView {
    /// Position and capture radius are representable.
    pub open spec fn wf(self) -> bool {
        self.position.wf() && in_range(self.radius)
    }
}

/// The velocity of the ball, in fixed-point steps per second.
#[derive(Clone, Copy, Debug, PartialEq, Eq)]
pub struct Velocity(pub Vector);

impl View for Velocity {
    type V = Vec2;

    open spec fn view(&self) -> Vec2 {
        self.0@
    }
}

impl Velocity {
    /// Both components are representable.
    pub open spec fn wf(self) -> bool {
        self@.wf()
    }

    /// The velocity of a ball at rest.
    pub fn zero() -> (v: Velocity)
        ensures
            v@ == Vec2::zero(),
            v.wf(),
    {
        Velocity(Vector { x: 0, y: 0 })
    }
}

/// The ball: where it is, how it moves and how large its bounding box is.
#[derive(Clone, Copy, Debug, PartialEq, Eq)]
pub struct Ball {
    pub position: Vector,
    pub velocity: Velocity,
    pub size: Vector,
}

impl View for Ball {
    type V = BallView;

    open spec fn view(&self) -> BallView {
        BallView { position: self.position@, velocity: self.velocity@, size: self.size@ }
    }
}

impl Ball {
    /// Position, velocity and extents are representable.
    pub open spec fn wf(self) -> bool {
        self@.wf()
    }

    /// A ball at rest at `position`.
    pub fn new(position: Vector, size: Vector) -> (ball: Ball)
        ensures
            ball@ == (BallView { position: position@, velocity: Vec2::zero(), size: size@ }),
    {
        Ball { position, velocity: Velocity::zero(), size }
    }

    /// Tells whether the ball is representable.
    pub fn is_valid(&self) -> (ok: bool)
        ensures
            ok == self.wf(),
    {
        self.position.is_valid() && self.velocity.0.is_valid() && self.size.is_valid()
    }
}

/// The hole: its centre and the distance within which the ball is captured.
#[derive(Clone, Copy, Debug, PartialEq, Eq)]
pub struct GolfHole {
    pub position: Vector,
    pub radius: i64,
}

impl View for GolfHole {
    type V = HoleView;

    open spec fn view(&self) -> HoleView {
        HoleView { position: self.position@, radius: self.radius as int }
    }
}

impl GolfHole {
    /// Position and capture radius are representable.
    pub open spec fn wf(self) -> bool {
        self@.wf()
    }

    /// Tells whether the hole is representable.
    pub fn is_valid(&self) -> (ok: bool)
        ensures
            ok == self.wf(),
    {
        self.position.is_valid() && -LIMIT <= self.radius && self.radius <= LIMIT
    }
}

/// A wall: a static rectangle that the ball bounces off.
#[derive(Clone, Copy, Debug, PartialEq, Eq)]
pub struct Collider {
    pub position: Vector,
    pub size: Vector,
}

impl View for Collider {
    type V = Rect;

    open spec fn view(&self) -> Rect {
        Rect { position: self.position@, size: self.size@ }
    }
}

impl Collider {
    /// Centre and extents are representable.
    pub open spec fn wf(self) -> bool {
        self@.wf()
    }

    /// The wall centred at `position` with the full extents `size`.
    pub fn new(position: Vector, size: Vector) -> (wall: Collider)
        ensures
            wall@ == (Rect { position: position@, size: size@ }),
    {
        Collider { position, size }
    }

    /// Tells whether the wall is representable.
    pub fn is_valid(&self) -> (ok: bool)
        ensures
            ok == self.wf(),
    {
        self.position.is_valid() && self.size.is_valid()
    }
}

/// Notice that the ball struck at least one wall during a tick.
#[derive(Clone, Copy, Debug, PartialEq, Eq)]
pub struct CollisionEvent;

/// Models of a list of walls, in the same order.
pub open spec fn rects(walls: Seq<Collider>) -> Seq<Rect> {
    walls.map_values(|c: Collider| c@)
}

/// Every wall of the list is representable.
pub open spec fn all_wf(walls: Seq<Rect>) -> bool {
    forall|i: int| 0 <= i < walls.len() ==> (#[trigger] walls[i]).wf()
}

/// Tells whether every wall of the list is representable.
pub fn walls_valid(walls: &Vec<Collider>) -> (ok: bool)
    ensures
        ok == all_wf(rects(walls@)),
{
    let mut i: usize = 0;
    while i < walls.len()
        invariant
            i <= walls.len(),
            forall|j: int| 0 <= j < i ==> (#[trigger] rects(walls@)[j]).wf(),
        decreases walls.len() - i,
    {
        if !walls[i].is_valid() {
            assert(!rects(walls@)[i as int].wf());
            return false;
        }
        i += 1;
    }
    true
}

} // verus!
