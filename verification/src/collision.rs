//! Ball against walls: the overlap test, the side of impact and the
//! reflection of the velocity.

use vstd::prelude::*;
use crate::components::{all_wf, rects, Ball, Collider, CollisionEvent, Rect, Velocity};
use crate::units::magnitude;
use crate::vector::{Vec2, Vector};

verus! {

/// The side of a wall that the ball struck.
#[derive(Clone, Copy, Debug, PartialEq, Eq)]
pub enum Collision {
    Left,
    Right,
    Top,
    Bottom,
    /// The boxes overlap without a clear edge: nothing is reflected.
    Inside,
}

/// Two boxes overlap when, on both axes, their centres are closer than the
/// sum of their half extents.
pub open spec fn overlap(a: Rect, b: Rect) -> bool {
    &&& 2 * magnitude(a.position.x - b.position.x) < a.size.x + b.size.x
    &&& 2 * magnitude(a.position.y - b.position.y) < a.size.y + b.size.y
}

/// The vertical edge of `b` that `a` straddles, with twice the depth by which
/// `a` reaches beyond it; `None` where `a` straddles none or both.
pub open spec fn horizontal_edge(a: Rect, b: Rect) -> Option<(Collision, int)> {
    if a.left2() < b.left2() && a.right2() > b.left2() && a.right2() < b.right2() {
        Some((Collision::Left, a.right2() - b.left2()))
    } else if a.left2() > b.left2() && a.left2() < b.right2() && a.right2() > b.right2() {
        Some((Collision::Right, b.right2() - a.left2()))
    } else {
        None
    }
}

/// The horizontal edge of `b` that `a` straddles, with twice the depth by
/// which `a` reaches beyond it; `None` where `a` straddles none or both.
pub open spec fn vertical_edge(a: Rect, b: Rect) -> Option<(Collision, int)> {
    if a.bottom2() < b.bottom2() && a.top2() > b.bottom2() && a.top2() < b.top2() {
        Some((Collision::Bottom, a.top2() - b.bottom2()))
    } else if a.bottom2() > b.bottom2() && a.bottom2() < b.top2() && a.top2() > b.top2() {
        Some((Collision::Top, b.top2() - a.bottom2()))
    } else {
        None
    }
}

/// The side of `b` that `a` struck: of the edges that `a` straddles, the one
/// with the smaller depth, the vertical edge on a tie; `Inside` where `a`
/// straddles no single edge; `None` where the boxes do not overlap.
pub open spec fn impact(a: Rect, b: Rect) -> Option<Collision> {
    if !overlap(a, b) {
        None
    } else {
        match (horizontal_edge(a, b), vertical_edge(a, b)) {
            (Some(h), Some(v)) => if v.1 < h.1 {
                Some(v.0)
            } else {
                Some(h.0)
            },
            (Some(h), None) => Some(h.0),
            (None, Some(v)) => Some(v.0),
            (None, None) => Some(Collision::Inside),
        }
    }
}

/// A velocity after a hit on `side`: the component that points into the wall
/// changes sign, everything else stays.
pub open spec fn reflected(v: Vec2, side: Collision) -> Vec2 {
    match side {
        Collision::Left => if v.x > 0 {
            Vec2 { x: -v.x, y: v.y }
        } else {
            v
        },
        Collision::Right => if v.x < 0 {
            Vec2 { x: -v.x, y: v.y }
        } else {
            v
        },
        Collision::Top => if v.y < 0 {
            Vec2 { x: v.x, y: -v.y }
        } else {
            v
        },
        Collision::Bottom => if v.y > 0 {
            Vec2 { x: v.x, y: -v.y }
        } else {
            v
        },
        Collision::Inside => v,
    }
}

/// A velocity after the ball met one wall.
pub open spec fn deflected(ball: Rect, v: Vec2, wall: Rect) -> Vec2 {
    match impact(ball, wall) {
        Some(side) => reflected(v, side),
        None => v,
    }
}

/// A velocity after the ball met each wall of the list in turn.
pub open spec fn bounced(ball: Rect, v: Vec2, walls: Seq<Rect>) -> Vec2
    decreases walls.len(),
{
    if walls.len() == 0 {
        v
    } else {
        deflected(ball, bounced(ball, v, walls.drop_last()), walls.last())
    }
}

/// The ball overlaps at least one wall of the list.
pub open spec fn struck(ball: Rect, walls: Seq<Rect>) -> bool {
    exists|i: int| 0 <= i < walls.len() && impact(ball, #[trigger] walls[i]) is Some
}

/// Tests box `a` against box `b`, each given by its centre and full extents,
/// and names the side of `b` that `a` struck.
pub fn collide(a_pos: Vector, a_size: Vector, b_pos: Vector, b_size: Vector) -> (hit: Option<
    Collision,
>)
    requires
        a_pos.wf(),
        a_size.wf(),
        b_pos.wf(),
        b_size.wf(),
    ensures
        hit == impact(
            Rect { position: a_pos@, size: a_size@ },
            Rect { position: b_pos@, size: b_size@ },
        ),
{
    let a_left: i64 = 2 * a_pos.x - a_size.x;
    let a_right: i64 = 2 * a_pos.x + a_size.x;
    let a_bottom: i64 = 2 * a_pos.y - a_size.y;
    let a_top: i64 = 2 * a_pos.y + a_size.y;
    let b_left: i64 = 2 * b_pos.x - b_size.x;
    let b_right: i64 = 2 * b_pos.x + b_size.x;
    let b_bottom: i64 = 2 * b_pos.y - b_size.y;
    let b_top: i64 = 2 * b_pos.y + b_size.y;
    if !(a_left < b_right && a_right > b_left && a_bottom < b_top && a_top > b_bottom) {
        return None;
    }
    let mut side: Collision = Collision::Inside;
    let mut depth: Option<i64> = None;
    if a_left < b_left && a_right < b_right {
        side = Collision::Left;
        depth = Some(a_right - b_left);
    } else if a_left > b_left && a_right > b_right {
        side = Collision::Right;
        depth = Some(b_right - a_left);
    }
    if a_bottom < b_bottom && a_top < b_top {
        let d: i64 = a_top - b_bottom;
        match depth {
            Some(h) => {
                if d < h {
                    side = Collision::Bottom;
                }
            },
            None => {
                side = Collision::Bottom;
            },
        }
    } else if a_bottom > b_bottom && a_top > b_top {
        let d: i64 = b_top - a_bottom;
        match depth {
            Some(h) => {
                if d < h {
                    side = Collision::Top;
                }
            },
            None => {
                side = Collision::Top;
            },
        }
    }
    Some(side)
}

/// Reflects a velocity off the side that was struck.
pub fn reflect(v: Velocity, side: Collision) -> (r: Velocity)
    requires
        v.wf(),
    ensures
        r@ == reflected(v@, side),
        r.wf(),
{
    let Velocity(w) = v;
    match side {
        Collision::Left => if w.x > 0 {
            Velocity(Vector { x: -w.x, y: w.y })
        } else {
            v
        },
        Collision::Right => if w.x < 0 {
            Velocity(Vector { x: -w.x, y: w.y })
        } else {
            v
        },
        Collision::Top => if w.y < 0 {
            Velocity(Vector { x: w.x, y: -w.y })
        } else {
            v
        },
        Collision::Bottom => if w.y > 0 {
            Velocity(Vector { x: w.x, y: -w.y })
        } else {
            v
        },
        Collision::Inside => v,
    }
}

/// Tests the ball against every wall in turn and reflects its velocity off
/// each one it struck; reports once if it struck any.
pub fn bounce(ball: &Ball, walls: &Vec<Collider>) -> (r: (Velocity, Option<CollisionEvent>))
    requires
        ball.wf(),
        all_wf(rects(walls@)),
    ensures
        r.0@ == bounced(ball@.bounds(), ball@.velocity, rects(walls@)),
        r.0.wf(),
        r.1 is Some <==> struck(ball@.bounds(), rects(walls@)),
{
    let ghost all: Seq<Rect> = rects(walls@);
    let ghost bounds: Rect = ball@.bounds();
    let mut velocity: Velocity = ball.velocity;
    let mut event: Option<CollisionEvent> = None;
    let mut i: usize = 0;
    assert(all.take(0) =~= Seq::<Rect>::empty());
    while i < walls.len()
        invariant
            i <= walls.len(),
            ball.wf(),
            all == rects(walls@),
            all_wf(all),
            bounds == ball@.bounds(),
            velocity.wf(),
            velocity@ == bounced(bounds, ball@.velocity, all.take(i as int)),
            event is Some <==> struck(bounds, all.take(i as int)),
        decreases walls.len() - i,
    {
        let wall: Collider = walls[i];
        proof {
            let next: Seq<Rect> = all.take(i + 1);
            assert(all[i as int] == wall@);
            assert(all[i as int].wf());
            assert(next.drop_last() =~= all.take(i as int));
            assert(next.last() == wall@);
            if struck(bounds, all.take(i as int)) {
                let k: int = choose|k: int|
                    0 <= k < all.take(i as int).len() && impact(
                        bounds,
                        #[trigger] all.take(i as int)[k],
                    ) is Some;
                assert(next[k] == all.take(i as int)[k]);
            }
            if struck(bounds, next) {
                let k: int = choose|k: int|
                    0 <= k < next.len() && impact(bounds, #[trigger] next[k]) is Some;
                if k < i {
                    assert(all.take(i as int)[k] == next[k]);
                }
            }
        }
        match collide(ball.position, ball.size, wall.position, wall.size) {
            Some(side) => {
                velocity = reflect(velocity, side);
                event = Some(CollisionEvent);
                assert(impact(bounds, all.take(i + 1)[i as int]) is Some);
            },
            None => {},
        }
        i += 1;
    }
    assert(all.take(i as int) =~= all);
    (velocity, event)
}

/// The overlap test agrees with the test on the boxes' edges.
pub proof fn lemma_overlap_by_edges(a: Rect, b: Rect)
    ensures
        overlap(a, b) <==> a.left2() < b.right2() && a.right2() > b.left2() && a.bottom2()
            < b.top2() && a.top2() > b.bottom2(),
{
}

/// Boxes that do not overlap never collide, and overlapping boxes always do.
pub proof fn lemma_impact_iff_overlap(a: Rect, b: Rect)
    ensures
        impact(a, b) is Some <==> overlap(a, b),
{
}

/// A ball moving rightward that strikes a wall's left side has its horizontal
/// velocity negated; a ball moving leftward keeps it. The vertical velocity
/// stays in both cases.
pub proof fn lemma_left_hit(v: Vec2)
    ensures
        v.x > 0 ==> reflected(v, Collision::Left) == (Vec2 { x: -v.x, y: v.y }),
        v.x <= 0 ==> reflected(v, Collision::Left) == v,
{
}

/// On every side, a hit negates the component that points into the wall and
/// no other; a hit without a clear edge changes nothing.
pub proof fn lemma_reflection_is_one_sided(v: Vec2, side: Collision)
    ensures
        reflected(v, side).x == v.x || reflected(v, side).x == -v.x,
        reflected(v, side).y == v.y || reflected(v, side).y == -v.y,
        reflected(v, side).x != v.x ==> (side == Collision::Left && v.x > 0) || (side
            == Collision::Right && v.x < 0),
        reflected(v, side).y != v.y ==> (side == Collision::Top && v.y < 0) || (side
            == Collision::Bottom && v.y > 0),
        side == Collision::Inside ==> reflected(v, side) == v,
{
}

/// A reflection keeps the speed on each axis.
pub proof fn lemma_reflection_keeps_speed(v: Vec2, side: Collision)
    ensures
        magnitude(reflected(v, side).x) == magnitude(v.x),
        magnitude(reflected(v, side).y) == magnitude(v.y),
{
}

/// Bouncing off any list of walls keeps the speed on each axis, and with it
/// keeps a representable velocity representable.
pub proof fn lemma_bounce_keeps_speed(ball: Rect, v: Vec2, walls: Seq<Rect>)
    ensures
        magnitude(bounced(ball, v, walls).x) == magnitude(v.x),
        magnitude(bounced(ball, v, walls).y) == magnitude(v.y),
        v.wf() ==> bounced(ball, v, walls).wf(),
    decreases walls.len(),
{
    if walls.len() > 0 {
        lemma_bounce_keeps_speed(ball, v, walls.drop_last());
        let before = bounced(ball, v, walls.drop_last());
        match impact(ball, walls.last()) {
            Some(side) => lemma_reflection_keeps_speed(before, side),
            None => {},
        }
    }
}

/// A ball moving down and to the left that strikes, in the same tick, the
/// right side of one wall and the top side of another leaves with both
/// components negated, whichever wall comes first.
pub proof fn lemma_corner_bounce(ball: Rect, v: Vec2, first: Rect, second: Rect)
    requires
        v.x < 0,
        v.y < 0,
        (impact(ball, first) == Some(Collision::Right) && impact(ball, second) == Some(
            Collision::Top,
        )) || (impact(ball, first) == Some(Collision::Top) && impact(ball, second) == Some(
            Collision::Right,
        )),
    ensures
        bounced(ball, v, seq![first, second]) == (Vec2 { x: -v.x, y: -v.y }),
{
    let walls: Seq<Rect> = seq![first, second];
    assert(walls.drop_last() =~= seq![first]);
    assert(seq![first].drop_last() =~= Seq::<Rect>::empty());
    assert(walls.last() == second);
    assert(seq![first].last() == first);
    reveal_with_fuel(bounced, 3);
}

/// Two walls that each turn the same component back cancel: the ball leaves
/// as it came.
pub proof fn lemma_double_hit_cancels(ball: Rect, v: Vec2, first: Rect, second: Rect)
    requires
        v.x > 0,
        impact(ball, first) == Some(Collision::Left),
        impact(ball, second) == Some(Collision::Right),
    ensures
        bounced(ball, v, seq![first, second]) == v,
{
    let walls: Seq<Rect> = seq![first, second];
    assert(walls.drop_last() =~= seq![first]);
    assert(seq![first].drop_last() =~= Seq::<Rect>::empty());
    assert(walls.last() == second);
    assert(seq![first].last() == first);
    reveal_with_fuel(bounced, 3);
}

} // verus!
