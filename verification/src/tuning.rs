//! The constants that shape a swing and the ball's flight.

use vstd::prelude::*;
use crate::units::{in_range, magnitude, LIMIT, SCALE};

verus! {

/// Model of a [`Tuning`].
pub struct TuningView {
    pub max_swing: int,
    pub power: int,
    pub decay_rate: int,
    pub rest_epsilon: int,
}

impl TuningView {
    /// The cap on the aim is a length, the decay rate is not negative, and
    /// the fastest launch, `max_swing * power`, is representable.
    pub open spec fn wf(self) -> bool {
        &&& 0 <= self.max_swing <= LIMIT
        &&& in_range(self.power)
        &&& magnitude(self.max_swing * self.power) <= LIMIT * SCALE
        &&& 0 <= self.decay_rate <= LIMIT
        &&& in_range(self.rest_epsilon)
    }
}

/// The constants of the simulation, in fixed-point steps.
#[derive(Clone, Copy, Debug, PartialEq, Eq)]
pub struct Tuning {
    /// Greatest length of the aim vector: the strongest swing.
    pub max_swing: i64,
    /// Factor from the aim vector to the launch velocity.
    pub power: i64,
    /// Speed that the ball loses in one tick, shared between the axes.
    pub decay_rate: i64,
    /// Speed on each axis at or below which the ball is at rest.
    pub rest_epsilon: i64,
}

impl View for Tuning {
    type V = TuningView;

    open spec fn view(&self) -> TuningView {
        TuningView {
            max_swing: self.max_swing as int,
            power: self.power as int,
            decay_rate: self.decay_rate as int,
            rest_epsilon: self.rest_epsilon as int,
        }
    }
}

impl Tuning {
    /// See [`TuningView::wf`].
    pub open spec fn wf(self) -> bool {
        self@.wf()
    }

    /// Tells whether the constants are valid.
    pub fn is_valid(&self) -> (ok: bool)
        ensures
            ok == self.wf(),
    {
        if !(0 <= self.max_swing && self.max_swing <= LIMIT && -LIMIT <= self.power && self.power
            <= LIMIT) {
            return false;
        }
        assert(-0x4000_0000_0000_0000 <= self.max_swing * self.power <= 0x4000_0000_0000_0000)
            by (nonlinear_arith)
            requires
                0 <= self.max_swing <= 0x8000_0000,
                -0x8000_0000 <= self.power <= 0x8000_0000,
        ;
        let product: i64 = self.max_swing * self.power;
        -(LIMIT * SCALE) <= product && product <= LIMIT * SCALE && 0 <= self.decay_rate
            && self.decay_rate <= LIMIT && -LIMIT <= self.rest_epsilon && self.rest_epsilon
            <= LIMIT
    }

    /// The constants with the given values, if they are valid.
    pub fn new(max_swing: i64, power: i64, decay_rate: i64, rest_epsilon: i64) -> (r: Option<
        Tuning,
    >)
        ensures
            r is Some <==> (TuningView {
                max_swing: max_swing as int,
                power: power as int,
                decay_rate: decay_rate as int,
                rest_epsilon: rest_epsilon as int,
            }).wf(),
            r matches Some(t) ==> t@ == (TuningView {
                max_swing: max_swing as int,
                power: power as int,
                decay_rate: decay_rate as int,
                rest_epsilon: rest_epsilon as int,
            }),
    {
        let tuning = Tuning { max_swing, power, decay_rate, rest_epsilon };
        if tuning.is_valid() {
            Some(tuning)
        } else {
            None
        }
    }

    /// The constants of the standard game: aim capped at 275 units, launch at
    /// 3.5 times the aim, 2.75 units of speed lost per tick, rest at 5 units.
    pub fn standard() -> (t: Tuning)
        ensures
            t@ == (TuningView {
                max_swing: 275 * SCALE,
                power: 3584,
                decay_rate: 2816,
                rest_epsilon: 5 * SCALE,
            }),
            t.wf(),
    {
        let t = Tuning {
            max_swing: 275 * SCALE,
            power: 3584,
            decay_rate: 2816,
            rest_epsilon: 5 * SCALE,
        };
        assert(t@.max_swing * t@.power == 1009254400) by (nonlinear_arith)
            requires
                t@.max_swing == 281600,
                t@.power == 3584,
        ;
        t
    }
}

} // verus!
