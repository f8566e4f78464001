//! The courses: for each level the hole, the ball's start and the walls.

use vstd::prelude::*;
use crate::aiming::{normalize, unit};
use crate::components::{all_wf, rects, Collider, GolfHole, HoleView, Rect};
use crate::physics::{capture_radius, diagonal_fraction};
use crate::units::SCALE;
use crate::vector::{Vec2, Vector};

verus! {

/// Number of levels of the game.
pub const LEVEL_COUNT: i32 = 3;

/// The number of the level that is played; the first level is level 1.
#[derive(Clone, Copy, Debug, PartialEq, Eq)]
pub struct Level(pub i32);

impl View for Level {
    type V = int;

    open spec fn view(&self) -> int {
        self.0 as int
    }
}

/// Model of a [`LevelDescriptor`].
pub struct LevelView {
    pub hole: HoleView,
    pub ball_start: Vec2,
    pub ball_direction: Vec2,
    pub ball_size: Vec2,
    pub walls: Seq<Rect>,
}

impl LevelView {
    /// Everything on the course is representable.
    pub open spec fn wf(self) -> bool {
        &&& self.hole.wf()
        &&& self.ball_start.wf()
        &&& self.ball_direction.wf()
        &&& self.ball_size.wf()
        &&& all_wf(self.walls)
    }
}

/// The course of one level.
#[derive(Clone, Debug, PartialEq, Eq)]
pub struct LevelDescriptor {
    pub hole: GolfHole,
    pub ball_start: Vector,
    /// Direction in which the ball faces at the start, of unit length.
    pub ball_direction: Vector,
    pub ball_size: Vector,
    pub walls: Vec<Collider>,
}

impl View for LevelDescriptor {
    type V = LevelView;

    open spec fn view(&self) -> LevelView {
        LevelView {
            hole: self.hole@,
            ball_start: self.ball_start@,
            ball_direction: self.ball_direction@,
            ball_size: self.ball_size@,
            walls: rects(self.walls@),
        }
    }
}

impl LevelDescriptor {
    /// Everything on the course is representable.
    pub open spec fn wf(self) -> bool {
        self@.wf()
    }
}

/// The vector of whole world units `(x, y)`.
pub open spec fn whole(x: int, y: int) -> Vec2 {
    Vec2 { x: x * SCALE, y: y * SCALE }
}

/// The rectangle centred at `(x, y)` of the extents `(w, h)`, in whole world
/// units.
pub open spec fn rect(x: int, y: int, w: int, h: int) -> Rect {
    Rect { position: whole(x, y), size: whole(w, h) }
}

/// The extents of the ball on every course.
pub open spec fn ball_size() -> Vec2 {
    whole(15, 15)
}

/// The hole of every course, centred at `(x, y)`: 25 units wide and high,
/// capturing within a fifth of its diagonal.
pub open spec fn hole_at(x: int, y: int) -> HoleView {
    HoleView { position: whole(x, y), radius: diagonal_fraction(whole(25, 25), 5) }
}

/// The direction in which the ball faces at the start of every course: down
/// and to the right.
pub open spec fn start_direction() -> Vec2 {
    unit(Vec2 { x: SCALE / 2, y: -(SCALE / 2) })
}

/// The first course: a closed field with a bar across the middle.
pub open spec fn level_1() -> LevelView {
    LevelView {
        hole: hole_at(650, 300),
        ball_start: whole(-670, -330),
        ball_direction: start_direction(),
        ball_size: ball_size(),
        walls: seq![
            rect(-700, 0, 10, 710),
            rect(700, 0, 10, 710),
            rect(0, 0, 1110, 10),
            rect(0, -350, 1410, 10),
            rect(0, 350, 1410, 10),
        ],
    }
}

/// The second course: a corridor that winds around two long bars.
pub open spec fn level_2() -> LevelView {
    LevelView {
        hole: hole_at(-350, 250),
        ball_start: whole(-350, -250),
        ball_direction: start_direction(),
        ball_size: ball_size(),
        walls: seq![
            rect(-400, -200, 30, 200),
            rect(-400, 200, 30, 200),
            rect(400, 0, 30, 630),
            rect(250, 0, 30, 200),
            rect(0, -300, 830, 30),
            rect(-75, -100, 680, 30),
            rect(0, 300, 830, 30),
            rect(-75, 100, 680, 30),
        ],
    }
}

/// The third course: nested bars that narrow toward the hole in the centre.
pub open spec fn level_3() -> LevelView {
    LevelView {
        hole: hole_at(0, 0),
        ball_start: whole(0, -250),
        ball_direction: start_direction(),
        ball_size: ball_size(),
        walls: seq![
            rect(0, -300, 900, 30),
            rect(0, 300, 900, 30),
            rect(0, -200, 700, 30),
            rect(0, 200, 700, 30),
            rect(0, -100, 500, 30),
            rect(0, 100, 500, 30),
            rect(0, -35, 300, 15),
            rect(0, 35, 300, 15),
            rect(-450, 0, 30, 630),
            rect(450, 0, 30, 630),
        ],
    }
}

/// The course of each level: levels 1 to [`LEVEL_COUNT`] have one, no other
/// number has.
pub open spec fn catalog(level: int) -> Option<LevelView> {
    if level == 1 {
        Some(level_1())
    } else if level == 2 {
        Some(level_2())
    } else if level == 3 {
        Some(level_3())
    } else {
        None
    }
}

/// The wall centred at `(x, y)` of the extents `(w, h)`, in whole world units.
fn wall(x: i32, y: i32, w: i32, h: i32) -> (c: Collider)
    requires
        -2000 <= x <= 2000,
        -2000 <= y <= 2000,
        -2000 <= w <= 2000,
        -2000 <= h <= 2000,
    ensures
        c@ == rect(x as int, y as int, w as int, h as int),
        c.wf(),
{
    Collider { position: Vector::from_units(x, y), size: Vector::from_units(w, h) }
}

/// The hole of every course, centred at `(x, y)`.
fn hole(x: i32, y: i32) -> (h: GolfHole)
    requires
        -2000 <= x <= 2000,
        -2000 <= y <= 2000,
    ensures
        h@ == hole_at(x as int, y as int),
        h.wf(),
{
    GolfHole { position: Vector::from_units(x, y), radius: capture_radius(Vector::from_units(25, 25), 5) }
}

/// The course without walls yet.
fn course(hole_x: i32, hole_y: i32, ball_x: i32, ball_y: i32) -> (d: LevelDescriptor)
    requires
        -2000 <= hole_x <= 2000,
        -2000 <= hole_y <= 2000,
        -2000 <= ball_x <= 2000,
        -2000 <= ball_y <= 2000,
    ensures
        d@ == (LevelView {
            hole: hole_at(hole_x as int, hole_y as int),
            ball_start: whole(ball_x as int, ball_y as int),
            ball_direction: start_direction(),
            ball_size: ball_size(),
            walls: Seq::empty(),
        }),
        d.wf(),
{
    let d = LevelDescriptor {
        hole: hole(hole_x, hole_y),
        ball_start: Vector::from_units(ball_x, ball_y),
        ball_direction: normalize(Vector { x: SCALE / 2, y: -(SCALE / 2) }),
        ball_size: Vector::from_units(15, 15),
        walls: Vec::new(),
    };
    assert(rects(d.walls@) =~= Seq::<Rect>::empty());
    d
}

/// Adds a wall to a course.
fn add_wall(d: &mut LevelDescriptor, x: i32, y: i32, w: i32, h: i32)
    requires
        old(d).wf(),
        -2000 <= x <= 2000,
        -2000 <= y <= 2000,
        -2000 <= w <= 2000,
        -2000 <= h <= 2000,
    ensures
        final(d)@ == (LevelView {
            walls: old(d)@.walls.push(rect(x as int, y as int, w as int, h as int)),
            ..old(d)@
        }),
        final(d).wf(),
{
    let c = wall(x, y, w, h);
    d.walls.push(c);
    assert(rects(d.walls@) =~= rects(old(d).walls@).push(c@));
}

/// The course of the first level.
pub fn load_level_1() -> (d: LevelDescriptor)
    ensures
        d@ == level_1(),
        d.wf(),
{
    let mut d = course(650, 300, -670, -330);
    add_wall(&mut d, -700, 0, 10, 710);
    add_wall(&mut d, 700, 0, 10, 710);
    add_wall(&mut d, 0, 0, 1110, 10);
    add_wall(&mut d, 0, -350, 1410, 10);
    add_wall(&mut d, 0, 350, 1410, 10);
    assert(d@.walls =~= level_1().walls);
    d
}

/// The course of the second level.
pub fn load_level_2() -> (d: LevelDescriptor)
    ensures
        d@ == level_2(),
        d.wf(),
{
    let mut d = course(-350, 250, -350, -250);
    add_wall(&mut d, -400, -200, 30, 200);
    add_wall(&mut d, -400, 200, 30, 200);
    add_wall(&mut d, 400, 0, 30, 630);
    add_wall(&mut d, 250, 0, 30, 200);
    add_wall(&mut d, 0, -300, 830, 30);
    add_wall(&mut d, -75, -100, 680, 30);
    add_wall(&mut d, 0, 300, 830, 30);
    add_wall(&mut d, -75, 100, 680, 30);
    assert(d@.walls =~= level_2().walls);
    d
}

/// The course of the third level.
pub fn load_level_3() -> (d: LevelDescriptor)
    ensures
        d@ == level_3(),
        d.wf(),
{
    let mut d = course(0, 0, 0, -250);
    add_wall(&mut d, 0, -300, 900, 30);
    add_wall(&mut d, 0, 300, 900, 30);
    add_wall(&mut d, 0, -200, 700, 30);
    add_wall(&mut d, 0, 200, 700, 30);
    add_wall(&mut d, 0, -100, 500, 30);
    add_wall(&mut d, 0, 100, 500, 30);
    add_wall(&mut d, 0, -35, 300, 15);
    add_wall(&mut d, 0, 35, 300, 15);
    add_wall(&mut d, -450, 0, 30, 630);
    add_wall(&mut d, 450, 0, 30, 630);
    assert(d@.walls =~= level_3().walls);
    d
}

/// Looks a level up in the catalog: its course if the game has such a level,
/// nothing if it has not.
pub fn load_level(level: &Level) -> (r: Option<LevelDescriptor>)
    ensures
        r is Some <==> 1 <= level@ <= LEVEL_COUNT,
        match r {
            Some(d) => catalog(level@) == Some(d@) && d.wf(),
            None => catalog(level@) is None,
        },
{
    if level.0 == 1 {
        Some(load_level_1())
    } else if level.0 == 2 {
        Some(load_level_2())
    } else if level.0 == 3 {
        Some(load_level_3())
    } else {
        None
    }
}

/// Every course of the catalog is representable.
pub proof fn lemma_catalog_wf(level: int)
    ensures
        catalog(level) matches Some(d) ==> d.wf(),
{
    crate::units::lemma_int_sqrt(whole(25, 25).norm2() as nat);
    lemma_course_parts_wf();
    if level == 1 {
        let w = level_1().walls;
        assert forall|i: int| 0 <= i < w.len() implies (#[trigger] w[i]).wf() by {}
    } else if level == 2 {
        let w = level_2().walls;
        assert forall|i: int| 0 <= i < w.len() implies (#[trigger] w[i]).wf() by {}
    } else if level == 3 {
        let w = level_3().walls;
        assert forall|i: int| 0 <= i < w.len() implies (#[trigger] w[i]).wf() by {}
    }
}

/// The hole's capture radius and the ball's start direction are
/// representable.
proof fn lemma_course_parts_wf()
    ensures
        0 <= diagonal_fraction(whole(25, 25), 5) <= 50 * SCALE,
        start_direction().wf(),
{
    let n: nat = whole(25, 25).norm2() as nat;
    crate::units::lemma_int_sqrt(n);
    let r: nat = crate::units::int_sqrt(n);
    assert(r <= 25 * SCALE + 25 * SCALE) by (nonlinear_arith)
        requires
            r * r <= n,
            n == (25 * SCALE) * (25 * SCALE) + (25 * SCALE) * (25 * SCALE),
    ;
    let v = Vec2 { x: SCALE / 2, y: -(SCALE / 2) };
    let m: int = v.norm2();
    assert(m == 524288) by (nonlinear_arith)
        requires
            m == 512 * 512 + (-512) * (-512),
    ;
    let k: int = (SCALE * SCALE * (v.x * v.x)) / m;
    let l: int = (SCALE * SCALE * (v.y * v.y)) / m;
    assert(SCALE * SCALE * (v.x * v.x) == 274877906944 && SCALE * SCALE * (v.y * v.y)
        == 274877906944) by (nonlinear_arith)
        requires
            v.x == 512,
            v.y == -512,
            SCALE == 1024,
    ;
    assert(k == 524288 && l == 524288);
    crate::units::lemma_int_sqrt(524288);
    let s: nat = crate::units::int_sqrt(524288);
    assert(s <= 1024) by (nonlinear_arith)
        requires
            s * s <= 524288,
    ;
}

} // verus!
