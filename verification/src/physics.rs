//! One tick of flight: the ball moves, bounces, slows down, comes to rest,
//! and may drop into the hole.

use vstd::prelude::*;
use crate::collision::{bounce, bounced, struck};
use crate::components::{
    all_wf, rects, Ball, BallView, Collider, CollisionEvent, GolfHole, HoleView, Rect, Velocity,
};
use crate::tuning::{Tuning, TuningView};
use crate::units::{
    abs_value, clamped, in_range, int_sqrt, isqrt, magnitude, rounded_up, scale, scaled, LIMIT,
};
use crate::vector::{Vec2, Vector};

verus! {

/// A coordinate after moving at speed `v` for `dt`, kept on the field.
pub open spec fn moved_axis(p: int, v: int, dt: int) -> int {
    clamped(p + scaled(v, dt))
}

/// The ball after moving at its velocity for `dt`: only its position changes.
pub open spec fn moved(ball: BallView, dt: int) -> BallView {
    BallView {
        position: Vec2 {
            x: moved_axis(ball.position.x, ball.velocity.x, dt),
            y: moved_axis(ball.position.y, ball.velocity.y, dt),
        },
        velocity: ball.velocity,
        size: ball.size,
    }
}

/// The part of the decay that one axis bears: `rate` times the axis' share of
/// the total speed, rounded up.
pub open spec fn decay_share(rate: int, axis: int, total: int) -> int {
    rounded_up(rate * magnitude(axis), total)
}

/// One component after the decay: its share is taken off its magnitude.
pub open spec fn decayed_axis(axis: int, rate: int, total: int) -> int {
    if axis > 0 {
        axis - decay_share(rate, axis, total)
    } else if axis < 0 {
        axis + decay_share(rate, axis, total)
    } else {
        0
    }
}

/// A velocity after one decay step; a ball without speed keeps its velocity.
pub open spec fn decayed(v: Vec2, rate: int) -> Vec2 {
    if v.speed() > 0 {
        Vec2 {
            x: decayed_axis(v.x, rate, v.speed()),
            y: decayed_axis(v.y, rate, v.speed()),
        }
    } else {
        v
    }
}

/// The ball is at rest when its speed on each axis is at most `epsilon`.
pub open spec fn at_rest(v: Vec2, epsilon: int) -> bool {
    magnitude(v.x) <= epsilon && magnitude(v.y) <= epsilon
}

/// A velocity after rest detection: exactly null at rest, unchanged otherwise.
pub open spec fn settled(v: Vec2, epsilon: int) -> Vec2 {
    if at_rest(v, epsilon) {
        Vec2::zero()
    } else {
        v
    }
}

/// The ball is captured when its distance to the hole's centre is at most the
/// hole's radius.
pub open spec fn captured(ball: Vec2, hole: HoleView) -> bool {
    hole.radius >= 0 && ball.minus(hole.position).norm2() <= hole.radius * hole.radius
}

/// The capture radius of a hole of the given extents: its diagonal divided by
/// `divisor`.
pub open spec fn diagonal_fraction(size: Vec2, divisor: int) -> int {
    int_sqrt(size.norm2() as nat) as int / divisor
}

/// The velocity of a flying ball at the end of a tick: bounced off the walls,
/// then slowed down, then brought to rest if slow enough.
pub open spec fn updated_velocity(ball: BallView, walls: Seq<Rect>, tuning: TuningView) -> Vec2 {
    settled(
        decayed(bounced(ball.bounds(), ball.velocity, walls), tuning.decay_rate),
        tuning.rest_epsilon,
    )
}

/// The ball came to rest at the end of a tick.
pub open spec fn stopped(ball: BallView, walls: Seq<Rect>, tuning: TuningView) -> bool {
    at_rest(
        decayed(bounced(ball.bounds(), ball.velocity, walls), tuning.decay_rate),
        tuning.rest_epsilon,
    )
}

/// What happened to a flying ball's velocity during a tick.
#[derive(Clone, Copy, Debug, PartialEq, Eq)]
pub struct BallUpdate {
    /// Present when the ball struck at least one wall.
    pub collision: Option<CollisionEvent>,
    /// The ball came to rest.
    pub stopped: bool,
}

/// The share of one axis is between nothing and the whole rate.
pub proof fn lemma_share_bounds(rate: int, axis: int, total: int)
    requires
        0 <= rate,
        0 < total,
        magnitude(axis) <= total,
    ensures
        0 <= decay_share(rate, axis, total) <= rate,
        decay_share(rate, axis, total) * total >= rate * magnitude(axis),
        decay_share(rate, axis, total) * total < rate * magnitude(axis) + total,
        rate <= total ==> decay_share(rate, axis, total) <= magnitude(axis),
        rate >= total ==> decay_share(rate, axis, total) >= magnitude(axis),
        axis == 0 ==> decay_share(rate, axis, total) == 0,
{
    let a: int = magnitude(axis);
    let n: int = rate * a;
    let q: int = (n + total - 1) / total;
    assert(n >= 0) by (nonlinear_arith)
        requires
            n == rate * a,
            rate >= 0,
            a >= 0,
    ;
    assert(n <= rate * total) by (nonlinear_arith)
        requires
            n == rate * a,
            rate >= 0,
            0 <= a <= total,
    ;
    assert(q * total <= n + total - 1 && n + total - 1 < q * total + total) by (nonlinear_arith)
        requires
            q == (n + total - 1) / total,
            total > 0,
    ;
    assert(0 <= q <= rate) by (nonlinear_arith)
        requires
            q * total <= n + total - 1,
            n + total - 1 < q * total + total,
            0 <= n <= rate * total,
            total > 0,
    ;
    if rate <= total {
        assert(q <= a) by (nonlinear_arith)
            requires
                q * total <= n + total - 1,
                n == rate * a,
                0 <= rate <= total,
                a >= 0,
                total > 0,
        ;
    }
    if axis == 0 {
        assert(q == 0) by (nonlinear_arith)
            requires
                q * total <= n + total - 1,
                n == rate * a,
                a == 0,
                q >= 0,
                total > 0,
        ;
    }
    if rate >= total {
        assert(q >= a) by (nonlinear_arith)
            requires
                n + total - 1 < q * total + total,
                n == rate * a,
                rate >= total,
                a >= 0,
                total > 0,
        ;
    }
}

/// Moves the ball at its velocity for `dt`; a ball that would leave the
/// representable field stops at its edge.
pub fn apply_velocity(ball: &mut Ball, dt: i64)
    requires
        old(ball).wf(),
        in_range(dt as int),
    ensures
        final(ball)@ == moved(old(ball)@, dt as int),
        final(ball).wf(),
{
    let step_x: i64 = scale(ball.velocity.0.x, dt);
    let step_y: i64 = scale(ball.velocity.0.y, dt);
    proof {
        crate::units::lemma_scaled_bound(ball.velocity.0.x as int, dt as int, LIMIT as int);
        crate::units::lemma_scaled_bound(ball.velocity.0.y as int, dt as int, LIMIT as int);
        assert(LIMIT * magnitude(dt as int) <= LIMIT * LIMIT) by (nonlinear_arith)
            requires
                0 <= magnitude(dt as int) <= LIMIT,
        ;
    }
    let x: i64 = clamp(ball.position.x + step_x);
    let y: i64 = clamp(ball.position.y + step_y);
    ball.position = Vector { x, y };
}

/// The representable scalar nearest to `v`.
fn clamp(v: i64) -> (r: i64)
    ensures
        r == clamped(v as int),
{
    if v < -LIMIT {
        -LIMIT
    } else if v > LIMIT {
        LIMIT
    } else {
        v
    }
}

/// One component after the decay.
fn decay_axis(axis: i64, rate: i64, total: i64) -> (r: i64)
    requires
        in_range(axis as int),
        0 <= rate <= LIMIT,
        0 < total <= 2 * LIMIT,
        magnitude(axis as int) <= total,
    ensures
        r == decayed_axis(axis as int, rate as int, total as int),
        in_range(r as int),
{
    let a: i64 = abs_value(axis);
    proof {
        lemma_share_bounds(rate as int, axis as int, total as int);
        assert(0 <= rate * a <= 0x4000_0000_0000_0000) by (nonlinear_arith)
            requires
                0 <= rate <= 0x8000_0000,
                0 <= a <= 0x8000_0000,
        ;
    }
    let share: i64 = (rate * a + total - 1) / total;
    if axis > 0 {
        axis - share
    } else if axis < 0 {
        axis + share
    } else {
        0
    }
}

/// Slows the ball down by `rate`, each axis bearing the part of it that
/// matches its share of the total speed.
pub fn decay(v: Velocity, rate: i64) -> (r: Velocity)
    requires
        v.wf(),
        0 <= rate <= LIMIT,
    ensures
        r@ == decayed(v@, rate as int),
        r.wf(),
{
    let total: i64 = abs_value(v.0.x) + abs_value(v.0.y);
    if total > 0 {
        Velocity(
            Vector { x: decay_axis(v.0.x, rate, total), y: decay_axis(v.0.y, rate, total) },
        )
    } else {
        v
    }
}

/// Brings a slow ball to rest: a velocity within `epsilon` on both axes
/// becomes exactly null. Tells whether it did.
pub fn settle(v: Velocity, epsilon: i64) -> (r: (Velocity, bool))
    requires
        v.wf(),
    ensures
        r.1 == at_rest(v@, epsilon as int),
        r.0@ == settled(v@, epsilon as int),
        r.0.wf(),
{
    if abs_value(v.0.x) <= epsilon && abs_value(v.0.y) <= epsilon {
        (Velocity::zero(), true)
    } else {
        (v, false)
    }
}

/// Updates the velocity of a flying ball at the end of a tick: reflects it
/// off the walls it struck, slows it down, and brings it to rest if it is
/// slow enough.
pub fn uptade_ball_velocity(ball: &mut Ball, walls: &Vec<Collider>, tuning: &Tuning) -> (update:
    BallUpdate)
    requires
        old(ball).wf(),
        all_wf(rects(walls@)),
        tuning.wf(),
    ensures
        final(ball)@ == (BallView {
            velocity: updated_velocity(old(ball)@, rects(walls@), tuning@),
            ..old(ball)@
        }),
        final(ball).wf(),
        update.collision is Some <==> struck(old(ball)@.bounds(), rects(walls@)),
        update.stopped == stopped(old(ball)@, rects(walls@), tuning@),
        update.stopped ==> final(ball)@.velocity == Vec2::zero(),
{
    let (turned, collision) = bounce(ball, walls);
    let slowed: Velocity = decay(turned, tuning.decay_rate);
    let (velocity, stopped) = settle(slowed, tuning.rest_epsilon);
    ball.velocity = velocity;
    BallUpdate { collision, stopped }
}

/// Tells whether the ball has reached the hole: whether the distance between
/// their centres is at most the hole's capture radius.
pub fn check_ball_inside_hole(ball: &Ball, hole: &GolfHole) -> (won: bool)
    requires
        ball.wf(),
        hole.wf(),
    ensures
        won == captured(ball@.position, hole@),
{
    if hole.radius < 0 {
        return false;
    }
    let dx: i128 = (ball.position.x - hole.position.x) as i128;
    let dy: i128 = (ball.position.y - hole.position.y) as i128;
    let r: i128 = hole.radius as i128;
    assert(0 <= dx * dx <= 0x1_0000_0000_0000_0000) by (nonlinear_arith)
        requires
            -0x1_0000_0000 <= dx <= 0x1_0000_0000,
    ;
    assert(0 <= dy * dy <= 0x1_0000_0000_0000_0000) by (nonlinear_arith)
        requires
            -0x1_0000_0000 <= dy <= 0x1_0000_0000,
    ;
    assert(0 <= r * r <= 0x4000_0000_0000_0000) by (nonlinear_arith)
        requires
            0 <= r <= 0x8000_0000,
    ;
    dx * dx + dy * dy <= r * r
}

/// The capture radius of a hole of the extents `size`: the length of its
/// diagonal divided by `divisor`.
pub fn capture_radius(size: Vector, divisor: i64) -> (radius: i64)
    requires
        size.wf(),
        0 < divisor,
    ensures
        radius == diagonal_fraction(size@, divisor as int),
        0 <= radius <= magnitude(size@.x) + magnitude(size@.y),
{
    let w: u64 = abs_value(size.x) as u64;
    let h: u64 = abs_value(size.y) as u64;
    assert(w * w <= 0x4000_0000_0000_0000) by (nonlinear_arith)
        requires
            0 <= w <= 0x8000_0000,
    ;
    assert(h * h <= 0x4000_0000_0000_0000) by (nonlinear_arith)
        requires
            0 <= h <= 0x8000_0000,
    ;
    assert(w * w == size@.x * size@.x && h * h == size@.y * size@.y) by (nonlinear_arith)
        requires
            w == magnitude(size@.x),
            h == magnitude(size@.y),
    ;
    let diagonal: u64 = isqrt(w * w + h * h);
    proof {
        crate::units::lemma_int_sqrt(size@.norm2() as nat);
        assert(diagonal <= w + h) by (nonlinear_arith)
            requires
                diagonal * diagonal <= w * w + h * h,
                0 <= w,
                0 <= h,
                0 <= diagonal,
        ;
    }
    let d: i64 = diagonal as i64;
    assert(0 <= d / divisor <= d) by (nonlinear_arith)
        requires
            d >= 0,
            divisor > 0,
    ;
    d / divisor
}

/// One decay step at a rate that is positive and no greater than the ball's
/// speed takes the whole rate, or one step less, off the speed: the speed
/// strictly decreases, and a ball whose speed equals the rate stops dead.
pub proof fn lemma_decay_slows(v: Vec2, rate: int)
    requires
        0 < rate <= v.speed(),
    ensures
        decayed(v, rate).speed() < v.speed(),
        v.speed() - rate - 1 <= decayed(v, rate).speed() <= v.speed() - rate,
        rate == v.speed() ==> decayed(v, rate) == Vec2::zero(),
{
    let s: int = v.speed();
    let sx: int = decay_share(rate, v.x, s);
    let sy: int = decay_share(rate, v.y, s);
    lemma_share_bounds(rate, v.x, s);
    lemma_share_bounds(rate, v.y, s);
    assert((sx + sy) * s >= rate * s && (sx + sy) * s < rate * s + 2 * s) by (nonlinear_arith)
        requires
            sx * s >= rate * magnitude(v.x),
            sy * s >= rate * magnitude(v.y),
            sx * s < rate * magnitude(v.x) + s,
            sy * s < rate * magnitude(v.y) + s,
            s == magnitude(v.x) + magnitude(v.y),
    ;
    assert(rate <= sx + sy <= rate + 1) by (nonlinear_arith)
        requires
            (sx + sy) * s >= rate * s,
            (sx + sy) * s < rate * s + 2 * s,
            s > 0,
    ;
}

/// One decay step at a positive rate slows a moving ball down exactly when
/// the two axes together lose less than twice the ball's speed; beyond that
/// the ball is thrown back faster than it came.
pub proof fn lemma_decay_slows_exactly(v: Vec2, rate: int)
    requires
        0 < rate,
        0 < v.speed(),
    ensures
        decayed(v, rate).speed() < v.speed() <==> decay_share(rate, v.x, v.speed())
            + decay_share(rate, v.y, v.speed()) < 2 * v.speed(),
{
    let s: int = v.speed();
    let sx: int = decay_share(rate, v.x, s);
    let sy: int = decay_share(rate, v.y, s);
    lemma_share_bounds(rate, v.x, s);
    lemma_share_bounds(rate, v.y, s);
    if rate <= s {
        lemma_decay_slows(v, rate);
        assert(sx + sy <= s);
    } else {
        assert(sx >= magnitude(v.x) && sy >= magnitude(v.y));
        assert(magnitude(decayed_axis(v.x, rate, s)) == sx - magnitude(v.x));
        assert(magnitude(decayed_axis(v.y, rate, s)) == sy - magnitude(v.y));
        assert(decayed(v, rate).speed() == sx + sy - s);
    }
}

/// The decay keeps a representable velocity representable.
pub proof fn lemma_decay_keeps_range(v: Vec2, rate: int)
    requires
        v.wf(),
        0 <= rate <= LIMIT,
    ensures
        decayed(v, rate).wf(),
{
    if v.speed() > 0 {
        lemma_share_bounds(rate, v.x, v.speed());
        lemma_share_bounds(rate, v.y, v.speed());
    }
}

/// A tick of flight keeps a representable ball representable.
pub proof fn lemma_flight_keeps_range(ball: BallView, dt: int, walls: Seq<Rect>, tuning: TuningView)
    requires
        ball.wf(),
        tuning.wf(),
    ensures
        moved(ball, dt).wf(),
        updated_velocity(moved(ball, dt), walls, tuning).wf(),
{
    let after = moved(ball, dt);
    crate::collision::lemma_bounce_keeps_speed(after.bounds(), after.velocity, walls);
    lemma_decay_keeps_range(bounced(after.bounds(), after.velocity, walls), tuning.decay_rate);
}

/// A ball without speed is left alone by the decay, whatever the rate.
pub proof fn lemma_decay_skips_still_ball(rate: int)
    ensures
        decayed(Vec2::zero(), rate) == Vec2::zero(),
{
}

/// Once both components are within `epsilon`, the velocity is exactly null.
pub proof fn lemma_rest_is_exact(v: Vec2, epsilon: int)
    ensures
        at_rest(v, epsilon) ==> settled(v, epsilon) == Vec2::zero(),
        !at_rest(v, epsilon) ==> settled(v, epsilon) == v,
{
}

/// The hole's edge belongs to the hole: a ball at exactly the capture radius
/// is captured, and one any farther away is not.
pub proof fn lemma_capture_boundary(ball: Vec2, hole: HoleView)
    requires
        hole.radius >= 0,
    ensures
        ball.minus(hole.position).norm2() == hole.radius * hole.radius ==> captured(ball, hole),
        ball.minus(hole.position).norm2() > hole.radius * hole.radius ==> !captured(ball, hole),
{
}

} // verus!
