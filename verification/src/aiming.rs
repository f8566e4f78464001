//! The swing: from the pointer to the aim vector, and from the aim vector to
//! the velocity with which the ball leaves.

use vstd::prelude::*;
use crate::components::{Ball, BallView, Velocity};
use crate::swings_count::Scoreboard;
use crate::tuning::{Tuning, TuningView};
use crate::units::{
    abs_value, int_sqrt, isqrt, lemma_int_sqrt, lemma_int_sqrt_monotonic, lemma_int_sqrt_square,
    lemma_scaled_bound, magnitude, scale, scaled, LIMIT, SCALE,
};
use crate::vector::{Vec2, Vector};

verus! {

/// The vector from the ball to the pointer, both given in the pointer's
/// space, whose vertical axis points down; the result points up.
pub open spec fn raw_aim(ball: Vec2, pointer: Vec2) -> Vec2 {
    pointer.minus(ball).flipped()
}

/// The vector is longer than `cap`.
pub open spec fn exceeds(v: Vec2, cap: int) -> bool {
    v.norm2() > cap * cap
}

/// One component of a vector of squared length `norm2` after the vector was
/// shortened to the length `cap`: `cap * axis / sqrt(norm2)`, rounded toward
/// zero.
pub open spec fn rescaled_axis(axis: int, norm2: int, cap: int) -> int {
    let r = int_sqrt(((cap * cap * (axis * axis)) / norm2) as nat) as int;
    if axis >= 0 {
        r
    } else {
        -r
    }
}

/// The vector itself if it is no longer than `cap`; else the vector of the
/// same direction shortened to `cap`.
pub open spec fn capped(v: Vec2, cap: int) -> Vec2 {
    if exceeds(v, cap) {
        Vec2 {
            x: rescaled_axis(v.x, v.norm2(), cap),
            y: rescaled_axis(v.y, v.norm2(), cap),
        }
    } else {
        v
    }
}

/// The vector of the same direction and of length [`SCALE`]: one world unit.
/// The null vector has no direction and stays as it is.
pub open spec fn unit(v: Vec2) -> Vec2 {
    if v.norm2() > 0 {
        Vec2 {
            x: rescaled_axis(v.x, v.norm2(), SCALE as int),
            y: rescaled_axis(v.y, v.norm2(), SCALE as int),
        }
    } else {
        v
    }
}

/// The aim vector for a ball and a pointer, both in the pointer's space.
pub open spec fn candidate(ball: Vec2, pointer: Vec2, cap: int) -> Vec2 {
    capped(raw_aim(ball, pointer), cap)
}

/// The velocity with which a ball leaves for a given aim vector.
pub open spec fn launch_velocity(aim: Vec2, power: int) -> Vec2 {
    Vec2 { x: scaled(aim.x, power), y: scaled(aim.y, power) }
}

/// The ball after a tick of aiming: launched if the swing was confirmed,
/// untouched if not.
pub open spec fn swung(ball: BallView, aim: Vec2, power: int, pressed: bool) -> BallView {
    if pressed {
        BallView { velocity: launch_velocity(aim, power), ..ball }
    } else {
        ball
    }
}

/// A shortened component is the exact one, `cap * axis / sqrt(norm2)`,
/// rounded toward zero: it has the sign of `axis`, its square times `norm2`
/// is at most `cap^2 * axis^2`, and one step more would be too much.
pub proof fn lemma_rescaled_axis_is_exact(axis: int, norm2: int, cap: int)
    requires
        0 < norm2,
    ensures
        ({
            let r = rescaled_axis(axis, norm2, cap);
            &&& (axis >= 0 ==> r >= 0)
            &&& (axis <= 0 ==> r <= 0)
            &&& r * r * norm2 <= cap * cap * (axis * axis)
            &&& cap * cap * (axis * axis) < (magnitude(r) + 1) * (magnitude(r) + 1) * norm2
        }),
{
    let n: int = cap * cap * (axis * axis);
    assert(n >= 0) by (nonlinear_arith)
        requires
            n == cap * cap * (axis * axis),
    ;
    let q: int = n / norm2;
    assert(0 <= q && q * norm2 <= n && n < (q + 1) * norm2) by (nonlinear_arith)
        requires
            q == n / norm2,
            norm2 > 0,
            n >= 0,
    ;
    lemma_int_sqrt(q as nat);
    let root: int = int_sqrt(q as nat) as int;
    let r: int = rescaled_axis(axis, norm2, cap);
    assert(r * r == root * root && magnitude(r) == root) by (nonlinear_arith)
        requires
            r == root || r == -root,
            root >= 0,
    ;
    assert(r * r * norm2 <= n) by (nonlinear_arith)
        requires
            r * r == root * root,
            root * root <= q,
            q * norm2 <= n,
            norm2 > 0,
    ;
    assert(n < (root + 1) * (root + 1) * norm2) by (nonlinear_arith)
        requires
            q + 1 <= (root + 1) * (root + 1),
            n < (q + 1) * norm2,
            norm2 > 0,
    ;
    if axis == 0 {
        assert(n == 0) by (nonlinear_arith)
            requires
                n == cap * cap * (axis * axis),
                axis == 0,
        ;
        assert(root == 0) by (nonlinear_arith)
            requires
                root * root <= q,
                q * norm2 <= 0,
                norm2 > 0,
                root >= 0,
        ;
    }
}

/// A vector cut to a cap is never longer than the cap.
pub proof fn lemma_capped_within_cap(v: Vec2, cap: int)
    requires
        0 <= cap,
    ensures
        capped(v, cap).norm2() <= cap * cap,
        magnitude(capped(v, cap).x) <= cap,
        magnitude(capped(v, cap).y) <= cap,
{
    let c: Vec2 = capped(v, cap);
    if exceeds(v, cap) {
        let m: int = v.norm2();
        let k: int = cap * cap;
        assert(k >= 0) by (nonlinear_arith)
            requires
                k == cap * cap,
        ;
        let xx: int = v.x * v.x;
        let yy: int = v.y * v.y;
        assert(xx >= 0 && yy >= 0) by (nonlinear_arith)
            requires
                xx == v.x * v.x,
                yy == v.y * v.y,
        ;
        let qx: int = (k * xx) / m;
        let qy: int = (k * yy) / m;
        assert(0 <= qx && qx * m <= k * xx) by (nonlinear_arith)
            requires
                qx == (k * xx) / m,
                m > 0,
                k >= 0,
                xx >= 0,
        ;
        assert(0 <= qy && qy * m <= k * yy) by (nonlinear_arith)
            requires
                qy == (k * yy) / m,
                m > 0,
                k >= 0,
                yy >= 0,
        ;
        lemma_int_sqrt(qx as nat);
        lemma_int_sqrt(qy as nat);
        let rx: int = int_sqrt(qx as nat) as int;
        let ry: int = int_sqrt(qy as nat) as int;
        assert(c.x * c.x == rx * rx && c.y * c.y == ry * ry) by (nonlinear_arith)
            requires
                c.x == rx || c.x == -rx,
                c.y == ry || c.y == -ry,
        ;
        assert(rx * rx + ry * ry <= k) by (nonlinear_arith)
            requires
                rx * rx <= qx,
                ry * ry <= qy,
                qx * m <= k * xx,
                qy * m <= k * yy,
                m == xx + yy,
                m > 0,
        ;
    }
    assert(magnitude(c.x) <= cap && magnitude(c.y) <= cap) by (nonlinear_arith)
        requires
            c.x * c.x + c.y * c.y <= cap * cap,
            0 <= cap,
    ;
}

/// Wherever the pointer is, the aim vector is never longer than the cap.
pub proof fn lemma_aim_within_cap(ball: Vec2, pointer: Vec2, cap: int)
    requires
        0 <= cap,
    ensures
        candidate(ball, pointer, cap).norm2() <= cap * cap,
{
    lemma_capped_within_cap(raw_aim(ball, pointer), cap);
}

/// A swing keeps a representable ball representable: the launch velocity is
/// at most `max_swing * power` on each axis.
pub proof fn lemma_swing_keeps_range(ball: BallView, pointer: Vec2, tuning: TuningView, pressed: bool)
    requires
        ball.wf(),
        tuning.wf(),
    ensures
        swung(
            ball,
            candidate(ball.position.flipped(), pointer, tuning.max_swing),
            tuning.power,
            pressed,
        ).wf(),
{
    let aim = candidate(ball.position.flipped(), pointer, tuning.max_swing);
    lemma_capped_within_cap(raw_aim(ball.position.flipped(), pointer), tuning.max_swing);
    lemma_scaled_bound(aim.x, tuning.power, tuning.max_swing);
    lemma_scaled_bound(aim.y, tuning.power, tuning.max_swing);
    assert(tuning.max_swing * magnitude(tuning.power) == magnitude(
        tuning.max_swing * tuning.power,
    )) by (nonlinear_arith)
        requires
            tuning.max_swing >= 0,
    ;
}

/// A pointer on the ball gives a null aim and a null launch: a valid swing
/// that goes nowhere.
pub proof fn lemma_degenerate_aim(ball: Vec2, cap: int, power: int)
    requires
        0 <= cap,
    ensures
        candidate(ball, ball, cap) == Vec2::zero(),
        launch_velocity(Vec2::zero(), power) == Vec2::zero(),
{
    assert(cap * cap >= 0) by (nonlinear_arith);
    assert(raw_aim(ball, ball).norm2() == 0) by (nonlinear_arith)
        requires
            raw_aim(ball, ball).x == 0,
            raw_aim(ball, ball).y == 0,
    ;
    assert(0 * power == 0) by (nonlinear_arith);
}

/// One component of a vector shortened to the length `cap`.
fn rescale_axis(axis: i64, norm2: u128, cap: i64) -> (r: i64)
    requires
        -2 * LIMIT <= axis <= 2 * LIMIT,
        0 <= cap <= LIMIT,
        0 < norm2,
        axis * axis <= norm2,
    ensures
        r == rescaled_axis(axis as int, norm2 as int, cap as int),
        magnitude(r as int) <= cap,
{
    let a: u128 = abs_value(axis) as u128;
    let k: u128 = cap as u128;
    assert(k * k <= 0x4000_0000_0000_0000) by (nonlinear_arith)
        requires
            0 <= k <= 0x8000_0000,
    ;
    assert(a * a <= 0x1_0000_0000_0000_0000 && a * a == axis * axis) by (nonlinear_arith)
        requires
            0 <= a <= 0x1_0000_0000,
            a == magnitude(axis as int),
    ;
    let k2: u128 = k * k;
    let a2: u128 = a * a;
    assert(k2 * a2 <= 0x4000_0000_0000_0000 * 0x1_0000_0000_0000_0000) by (nonlinear_arith)
        requires
            0 <= k2 <= 0x4000_0000_0000_0000,
            0 <= a2 <= 0x1_0000_0000_0000_0000,
    ;
    let q: u128 = (k2 * a2) / norm2;
    assert(q <= k2) by (nonlinear_arith)
        requires
            q == (k2 * a2) / (norm2 as int),
            0 <= a2 <= norm2,
            0 < norm2,
            0 <= k2,
    ;
    let root: u64 = isqrt(q as u64);
    proof {
        lemma_int_sqrt_monotonic(q as nat, k2 as nat);
        lemma_int_sqrt_square(k as nat);
        assert(cap * cap * (axis * axis) == k2 * a2) by (nonlinear_arith)
            requires
                k2 == cap * cap,
                a2 == axis * axis,
        ;
    }
    if axis >= 0 {
        root as i64
    } else {
        -(root as i64)
    }
}

/// The direction of a vector: the vector of the same direction whose length
/// is one world unit.
pub fn normalize(v: Vector) -> (u: Vector)
    requires
        v.wf(),
    ensures
        u@ == unit(v@),
        magnitude(u@.x) <= SCALE,
        magnitude(u@.y) <= SCALE,
        u.wf(),
{
    let ax: u128 = abs_value(v.x) as u128;
    let ay: u128 = abs_value(v.y) as u128;
    assert(ax * ax <= 0x1_0000_0000_0000_0000 && ax * ax == v.x * v.x) by (nonlinear_arith)
        requires
            0 <= ax <= 0x1_0000_0000,
            ax == magnitude(v.x as int),
    ;
    assert(ay * ay <= 0x1_0000_0000_0000_0000 && ay * ay == v.y * v.y) by (nonlinear_arith)
        requires
            0 <= ay <= 0x1_0000_0000,
            ay == magnitude(v.y as int),
    ;
    let norm2: u128 = ax * ax + ay * ay;
    if norm2 > 0 {
        Vector { x: rescale_axis(v.x, norm2, SCALE), y: rescale_axis(v.y, norm2, SCALE) }
    } else {
        assert(v.x == 0 && v.y == 0) by (nonlinear_arith)
            requires
                v.x * v.x + v.y * v.y == 0,
        ;
        v
    }
}

/// The aim vector for a ball and a pointer given in the same space, whose
/// vertical axis points down: the vector from the ball to the pointer, turned
/// to point up, and shortened to `max_swing` if it is longer.
pub fn aim_vector(ball: Vector, pointer: Vector, max_swing: i64) -> (aim: Vector)
    requires
        ball.wf(),
        pointer.wf(),
        0 <= max_swing <= LIMIT,
    ensures
        aim@ == candidate(ball@, pointer@, max_swing as int),
        aim@.norm2() <= max_swing * max_swing,
        magnitude(aim@.x) <= max_swing,
        magnitude(aim@.y) <= max_swing,
        aim.wf(),
{
    let x: i64 = pointer.x - ball.x;
    let y: i64 = -(pointer.y - ball.y);
    let ax: u128 = abs_value(x) as u128;
    let ay: u128 = abs_value(y) as u128;
    let k: u128 = max_swing as u128;
    assert(ax * ax <= 0x1_0000_0000_0000_0000 && ax * ax == x * x) by (nonlinear_arith)
        requires
            0 <= ax <= 0x1_0000_0000,
            ax == magnitude(x as int),
    ;
    assert(ay * ay <= 0x1_0000_0000_0000_0000 && ay * ay == y * y) by (nonlinear_arith)
        requires
            0 <= ay <= 0x1_0000_0000,
            ay == magnitude(y as int),
    ;
    assert(k * k <= 0x4000_0000_0000_0000) by (nonlinear_arith)
        requires
            0 <= k <= 0x8000_0000,
    ;
    let norm2: u128 = ax * ax + ay * ay;
    proof {
        lemma_capped_within_cap(raw_aim(ball@, pointer@), max_swing as int);
        assert(raw_aim(ball@, pointer@) == (Vec2 { x: x as int, y: y as int }));
    }
    if norm2 > k * k {
        Vector { x: rescale_axis(x, norm2, max_swing), y: rescale_axis(y, norm2, max_swing) }
    } else {
        Vector { x, y }
    }
}

/// The velocity with which the ball leaves for an aim vector within the cap.
pub fn launch(aim: Vector, tuning: &Tuning) -> (v: Velocity)
    requires
        tuning.wf(),
        magnitude(aim@.x) <= tuning.max_swing,
        magnitude(aim@.y) <= tuning.max_swing,
    ensures
        v@ == launch_velocity(aim@, tuning@.power),
        v.wf(),
{
    proof {
        lemma_scaled_bound(aim@.x, tuning@.power, tuning@.max_swing);
        lemma_scaled_bound(aim@.y, tuning@.power, tuning@.max_swing);
        assert(tuning@.max_swing * magnitude(tuning@.power) == magnitude(
            tuning@.max_swing * tuning@.power,
        )) by (nonlinear_arith)
            requires
                tuning@.max_swing >= 0,
        ;
    }
    Velocity(Vector { x: scale(aim.x, tuning.power), y: scale(aim.y, tuning.power) })
}

/// One tick of aiming. Computes the aim vector from the ball, seen in the
/// pointer's space, to the pointer. If the swing is confirmed, the ball
/// leaves with the velocity that the aim gives and the swing is counted;
/// if not, nothing changes. Returns the aim vector.
pub fn set_ball_velocity(
    ball: &mut Ball,
    scoreboard: &mut Scoreboard,
    pointer: Vector,
    pressed: bool,
    tuning: &Tuning,
) -> (aim: Vector)
    requires
        old(ball).wf(),
        pointer.wf(),
        tuning.wf(),
        pressed ==> old(scoreboard).score < usize::MAX,
    ensures
        aim@ == candidate(old(ball)@.position.flipped(), pointer@, tuning@.max_swing),
        aim.wf(),
        final(ball)@ == swung(old(ball)@, aim@, tuning@.power, pressed),
        final(ball).wf(),
        final(scoreboard)@ == old(scoreboard)@ + (if pressed {
            1nat
        } else {
            0nat
        }),
{
    let aim: Vector = aim_vector(ball.position.flipped(), pointer, tuning.max_swing);
    if pressed {
        ball.velocity = launch(aim, tuning);
        scoreboard.record_swing();
    }
    aim
}

} // verus!
