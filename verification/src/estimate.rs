//! The motion of the craft over one sub-interval of constant burn.
//!
//! While the engine burns, the craft's mass falls linearly and its
//! deceleration rises with it, so velocity follows the logarithm of the mass
//! ratio.  With `q` the burned share of the mass, the logarithm is taken
//! as its series up to the fifth power, and the altitude from the integral of
//! that series.  All terms are fixed-point fractions over [`FRACTION`].

use vstd::prelude::*;
use crate::state::{DescentModel, DescentState};
use crate::units::{FRACTION, MAX_INTERVAL};

verus! {

/// The product of two fractions, as a fraction.
pub open spec fn fraction_product(p: int, q: int) -> int {
    p * q / (FRACTION as int)
}

/// The share of the craft's mass that burning at `burn_rate` for `span`
/// ticks consumes, as a fraction.
pub open spec fn burned_share(state: DescentModel, burn_rate: int, span: int) -> int {
    burn_rate * span * FRACTION / state.total_mass
}

/// `q + q^2/2 + q^3/3 + q^4/4 + q^5/5`, as a fraction: the first five terms
/// of `-ln(1 - q)`.
pub open spec fn velocity_series(q: int) -> int {
    let q2 = fraction_product(q, q);
    let q3 = fraction_product(q2, q);
    let q4 = fraction_product(q3, q);
    let q5 = fraction_product(q4, q);
    q + q2 / 2 + q3 / 3 + q4 / 4 + q5 / 5
}

/// `q/2 + q^2/6 + q^3/12 + q^4/20 + q^5/30`, as a fraction: the mean over the
/// sub-interval of the terms of [`velocity_series`].
pub open spec fn altitude_series(q: int) -> int {
    let q2 = fraction_product(q, q);
    let q3 = fraction_product(q2, q);
    let q4 = fraction_product(q3, q);
    let q5 = fraction_product(q4, q);
    q / 2 + q2 / 6 + q3 / 12 + q4 / 20 + q5 / 30
}

/// The velocity that gravity adds over `span` ticks.
pub open spec fn gravity_gain(state: DescentModel, span: int) -> int {
    state.gravity * span
}

/// The distance that gravity alone adds to the fall over `span` ticks.
pub open spec fn gravity_drop(state: DescentModel, span: int) -> int {
    state.gravity * span * span / 2
}

/// The velocity that the burn takes away over `span` ticks.
pub open spec fn thrust_loss(state: DescentModel, burn_rate: int, span: int) -> int {
    state.exhaust * velocity_series(burned_share(state, burn_rate, span)) / (FRACTION as int)
}

/// The height that the burn saves over `span` ticks.
pub open spec fn thrust_lift(state: DescentModel, burn_rate: int, span: int) -> int {
    state.exhaust * span * altitude_series(burned_share(state, burn_rate, span)) / (
    FRACTION as int)
}

/// The velocity after burning at `burn_rate` for `span` ticks.
pub open spec fn velocity_after(state: DescentModel, burn_rate: int, span: int) -> int {
    state.velocity + gravity_gain(state, span) - thrust_loss(state, burn_rate, span)
}

/// The altitude after burning at `burn_rate` for `span` ticks.  It is
/// negative where the craft would have passed below the surface.
pub open spec fn altitude_after(state: DescentModel, burn_rate: int, span: int) -> int {
    state.altitude - state.velocity * span - gravity_drop(state, span) + thrust_lift(
        state,
        burn_rate,
        span,
    )
}

/// A burn that the tank can feed: the rate and the span are not negative,
/// the span is within a turn's limit, and the fuel lasts for it.
pub open spec fn feasible(state: DescentModel, burn_rate: int, span: int) -> bool {
    &&& 0 <= burn_rate
    &&& 0 <= span <= MAX_INTERVAL
    &&& burn_rate * span <= state.fuel()
}

/// The provisional altitude and velocity at the end of a sub-interval.
#[derive(Clone, Copy, Debug, PartialEq, Eq, Structural)]
pub struct Candidate {
    /// Height above the surface; negative below it.
    pub altitude: i128,
    /// Closing speed; positive when descending.
    pub velocity: i128,
}

/// A product of two fractions is a fraction again.
pub proof fn lemma_fraction_product_bounds(p: int, q: int)
    requires
        0 <= p <= FRACTION,
        0 <= q <= FRACTION,
    ensures
        0 <= fraction_product(p, q) <= p,
        p * q <= FRACTION * FRACTION,
{
    let d = FRACTION as int;
    assert(0 <= p * q <= p * d && p * q <= d * d) by (nonlinear_arith)
        requires
            0 <= p <= d,
            0 <= q <= d,
    ;
    assert(p * d / d == p) by (nonlinear_arith)
        requires
            d > 0,
    ;
    assert(0 <= (p * q) / d <= (p * d) / d) by (nonlinear_arith)
        requires
            0 <= p * q <= p * d,
            d > 0,
    ;
}

/// Both series of a fraction stay below small multiples of one.
pub proof fn lemma_series_bounds(q: int)
    requires
        0 <= q <= FRACTION,
    ensures
        0 <= velocity_series(q) <= 3 * q,
        0 <= altitude_series(q) <= 2 * q,
{
    let q2 = fraction_product(q, q);
    let q3 = fraction_product(q2, q);
    let q4 = fraction_product(q3, q);
    let q5 = fraction_product(q4, q);
    lemma_fraction_product_bounds(q, q);
    lemma_fraction_product_bounds(q2, q);
    lemma_fraction_product_bounds(q3, q);
    lemma_fraction_product_bounds(q4, q);
}

/// The burned share of a feasible burn is a fraction, and it is zero when
/// nothing burns.
pub proof fn lemma_burned_share_bounds(state: DescentModel, burn_rate: int, span: int)
    requires
        state.sound(),
        feasible(state, burn_rate, span),
    ensures
        0 <= burn_rate * span <= state.total_mass,
        0 <= burned_share(state, burn_rate, span) <= FRACTION,
        burn_rate == 0 || span == 0 ==> burned_share(state, burn_rate, span) == 0,
{
    let b = burn_rate * span;
    let m = state.total_mass;
    let d = FRACTION as int;
    assert(0 <= b) by (nonlinear_arith)
        requires
            b == burn_rate * span,
            0 <= burn_rate,
            0 <= span,
    ;
    assert(burn_rate == 0 || span == 0 ==> b == 0) by (nonlinear_arith)
        requires
            b == burn_rate * span,
    ;
    assert(0 <= b * d <= m * d) by (nonlinear_arith)
        requires
            0 <= b <= m,
            d > 0,
    ;
    assert(b == 0 ==> b * d == 0) by (nonlinear_arith);
    assert(0 <= (b * d) / m <= d) by (nonlinear_arith)
        requires
            0 <= b * d <= m * d,
            m > 0,
    ;
    assert(b * d == 0 ==> (b * d) / m == 0) by (nonlinear_arith)
        requires
            m > 0,
    ;
}

/// A quotient by [`FRACTION`] of a number between zero and `bound` times
/// [`FRACTION`] lies between zero and `bound`.
pub proof fn lemma_quotient_bounds(x: int, bound: int)
    requires
        0 <= x <= bound * FRACTION,
    ensures
        0 <= x / (FRACTION as int) <= bound,
{
}

/// The thrust terms of a feasible burn are not negative, and within small
/// multiples of the exhaust constant.
pub proof fn lemma_thrust_bounds(state: DescentModel, burn_rate: int, span: int)
    requires
        state.sound(),
        feasible(state, burn_rate, span),
    ensures
        0 <= thrust_loss(state, burn_rate, span) <= 3 * state.exhaust,
        0 <= thrust_lift(state, burn_rate, span) <= 2 * state.exhaust * span,
        burn_rate == 0 || span == 0 ==> thrust_loss(state, burn_rate, span) == 0 && thrust_lift(
            state,
            burn_rate,
            span,
        ) == 0,
{
    let q = burned_share(state, burn_rate, span);
    let d = FRACTION as int;
    let z = state.exhaust;
    lemma_burned_share_bounds(state, burn_rate, span);
    lemma_series_bounds(q);
    let vs = velocity_series(q);
    let hs = altitude_series(q);
    assert(0 <= z * vs <= (3 * z) * d) by (nonlinear_arith)
        requires
            0 <= z,
            0 <= vs <= 3 * d,
    ;
    assert(0 <= z * span && 0 <= z * span * hs <= (2 * z * span) * d) by (nonlinear_arith)
        requires
            0 <= z,
            0 <= span,
            0 <= hs <= 2 * d,
    ;
    assert(vs == 0 ==> z * vs == 0) by (nonlinear_arith);
    assert(hs == 0 ==> z * span * hs == 0) by (nonlinear_arith);
    lemma_quotient_bounds(z * vs, 3 * z);
    lemma_quotient_bounds(z * span * hs, 2 * z * span);
}

/// Free fall follows the closed form: with no burn the velocity grows by
/// gravity times the span, and the altitude falls by the span times the
/// velocity and by half of gravity times the square of the span.
pub proof fn lemma_free_fall(state: DescentModel, span: int)
    requires
        state.sound(),
        0 <= span <= MAX_INTERVAL,
    ensures
        velocity_after(state, 0, span) == state.velocity + state.gravity * span,
        altitude_after(state, 0, span) == state.altitude - state.velocity * span - state.gravity
            * span * span / 2,
{
    assert(0 * span == 0) by (nonlinear_arith);
    lemma_thrust_bounds(state, 0, span);
}

/// A burn never adds to the fall: the craft ends a burn no faster and no
/// lower than it would end the same span of free fall.
pub proof fn lemma_burn_brakes(state: DescentModel, burn_rate: int, span: int)
    requires
        state.sound(),
        feasible(state, burn_rate, span),
    ensures
        velocity_after(state, burn_rate, span) <= velocity_after(state, 0, span),
        altitude_after(state, burn_rate, span) >= altitude_after(state, 0, span),
{
    lemma_free_fall(state, span);
    lemma_thrust_bounds(state, burn_rate, span);
}

/// The provisional altitude and velocity after burning at `burn_rate` for
/// `span` ticks from `state`.
pub fn f420(state: &DescentState, burn_rate: u64, span: u64) -> (candidate: Candidate)
    requires
        state@.sound(),
        feasible(state@, burn_rate as int, span as int),
    ensures
        candidate.altitude == altitude_after(state@, burn_rate as int, span as int),
        candidate.velocity == velocity_after(state@, burn_rate as int, span as int),
{
    let d: u128 = FRACTION as u128;
    let s: u128 = span as u128;
    let z: u128 = state.exhaust as u128;
    let g: u128 = state.gravity as u128;
    proof {
        lemma_burned_share_bounds(state@, burn_rate as int, span as int);
        lemma_thrust_bounds(state@, burn_rate as int, span as int);
    }
    let burned: u128 = burn_rate as u128 * s;
    assert(burned * d <= 1_000_000_000_000_000_000_000_000) by (nonlinear_arith)
        requires
            0 <= burned <= 1_000_000_000_000_000,
            d == 1_000_000_000,
    ;
    let q: u128 = burned * d / (state.total_mass as u128);
    assert(q == burned_share(state@, burn_rate as int, span as int));
    let q2: u128 = share_product(q, q);
    let q3: u128 = share_product(q2, q);
    let q4: u128 = share_product(q3, q);
    let q5: u128 = share_product(q4, q);
    let loss_series: u128 = q + q2 / 2 + q3 / 3 + q4 / 4 + q5 / 5;
    let lift_series: u128 = q / 2 + q2 / 6 + q3 / 12 + q4 / 20 + q5 / 30;
    assert(loss_series == velocity_series(q as int));
    assert(lift_series == altitude_series(q as int));
    proof {
        lemma_series_bounds(q as int);
    }
    assert(z * loss_series <= 300_000_000_000_000_000) by (nonlinear_arith)
        requires
            0 <= z <= 100_000_000,
            0 <= loss_series <= 3_000_000_000,
    ;
    let loss: u128 = z * loss_series / d;
    assert(z * s <= 10_000_000_000_000 && z * s * lift_series
        <= 20_000_000_000_000_000_000_000) by (nonlinear_arith)
        requires
            0 <= z <= 100_000_000,
            0 <= s <= 100_000,
            0 <= lift_series <= 2_000_000_000,
    ;
    let lift: u128 = z * s * lift_series / d;
    assert(g * s <= 100_000_000_000 && g * s * s <= 10_000_000_000_000_000) by (nonlinear_arith)
        requires
            0 <= g <= 1_000_000,
            0 <= s <= 100_000,
    ;
    let gain: u128 = g * s;
    let drop: u128 = g * s * s / 2;
    let v: i128 = state.velocity as i128;
    assert(-0x8000_0000_0000_0000 * 100_000 <= v * (span as i128) <= 0x8000_0000_0000_0000
        * 100_000) by (nonlinear_arith)
        requires
            -0x8000_0000_0000_0000 <= v <= 0x8000_0000_0000_0000,
            0 <= span <= 100_000,
    ;
    let travel: i128 = v * (span as i128);
    Candidate {
        altitude: state.altitude as i128 - travel - drop as i128 + lift as i128,
        velocity: v + gain as i128 - loss as i128,
    }
}

/// The product of two fractions, as a fraction.
fn share_product(p: u128, q: u128) -> (r: u128)
    requires
        p <= FRACTION,
        q <= FRACTION,
    ensures
        r == fraction_product(p as int, q as int),
        r <= p,
{
    proof {
        lemma_fraction_product_bounds(p as int, q as int);
    }
    p * q / (FRACTION as u128)
}

} // verus!
