//! The interval integrator: one turn of the descent.
//!
//! A turn advances the craft by up to one decision interval at a constant
//! burn rate.  It proceeds in sub-intervals.  A sub-interval starts as all
//! that is left of the interval, cut to the time for which the fuel lasts.
//! While the craft would end it below the surface it is halved; then it is
//! committed, and the turn goes on with the remainder.  The turn ends when
//! the interval is used up, when the tank cannot feed the burn for another
//! tick, or when the craft reaches the surface.

use vstd::prelude::*;
use vstd::arithmetic::div_mod::lemma_fundamental_div_mod_converse;
use vstd::arithmetic::power2::{lemma2_to64, lemma2_to64_rest, lemma_pow2_unfold, pow2};
use crate::estimate::{
    altitude_after, f420, feasible, lemma_free_fall, lemma_thrust_bounds, velocity_after,
    Candidate,
};
use crate::state::{DescentModel, DescentState};
use crate::units::{
    ALTITUDE_EPSILON, HALVING_CAP, MAX_ALTITUDE, MAX_BURN_RATE, MAX_INTERVAL, MAX_SPEED,
};

verus! {

/// The model of a [`TurnOutcome`].
pub enum OutcomeModel {
    /// The interval was used up and the mission goes on.
    Continuing { state: DescentModel },
    /// The tank ran dry with `residual` ticks of the interval left.
    FuelExhausted { state: DescentModel, residual: int },
    /// The craft reached the surface at `velocity`.
    Touchdown { state: DescentModel, velocity: int },
}

impl OutcomeModel {
    /// The state in which the turn ended.
    pub open spec fn state(self) -> DescentModel {
        match self {
            OutcomeModel::Continuing { state } => state,
            OutcomeModel::FuelExhausted { state, .. } => state,
            OutcomeModel::Touchdown { state, .. } => state,
        }
    }
}

/// How one turn ended.
#[derive(Clone, Copy, Debug, PartialEq, Eq, Structural)]
pub enum TurnOutcome {
    /// The interval was used up and the mission goes on from `state`.
    Continuing { state: DescentState },
    /// The tank ran dry before the interval was used up: `state` is the
    /// moment the burn stopped, `residual` the ticks of the interval that
    /// were left, for the caller to spend in free fall.
    FuelExhausted { state: DescentState, residual: u64 },
    /// The craft reached the surface: `state` is the moment of contact,
    /// `velocity` the closing speed at impact.
    Touchdown { state: DescentState, velocity: i64 },
}

impl View for TurnOutcome {
    type V = OutcomeModel;

    open spec fn view(&self) -> OutcomeModel {
        match *self {
            TurnOutcome::Continuing { state } => OutcomeModel::Continuing { state: state@ },
            TurnOutcome::FuelExhausted { state, residual } => OutcomeModel::FuelExhausted {
                state: state@,
                residual: residual as int,
            },
            TurnOutcome::Touchdown { state, velocity } => OutcomeModel::Touchdown {
                state: state@,
                velocity: velocity as int,
            },
        }
    }
}

/// An internal fault of the integrator.
#[derive(Clone, Copy, Debug, PartialEq, Eq, Structural)]
pub enum IntegrationFault {
    /// A sub-interval asked for more than [`HALVING_CAP`] halvings.
    NonConvergence,
}

/// The longest burn at `burn_rate`, of at most `reach` ticks, that the fuel
/// can feed.  A burn rate of zero is never cut short.
pub open spec fn fuel_clamped(state: DescentModel, burn_rate: int, reach: int) -> int {
    if burn_rate * reach <= state.fuel() {
        reach
    } else {
        state.fuel() / burn_rate
    }
}

/// The sub-interval that is committed when one of `span` ticks is tried: the
/// first of `span`, its half, the half of that and so on that ends on or
/// above the surface, or one tick where none of them does.
pub open spec fn settled_span(state: DescentModel, burn_rate: int, span: int) -> int
    decreases span,
{
    if span <= 1 || altitude_after(state, burn_rate, span) >= 0 {
        span
    } else {
        settled_span(state, burn_rate, span / 2)
    }
}

/// The state after a committed sub-interval of `span` ticks that ends at
/// `altitude` with `velocity`.
pub open spec fn committed(
    state: DescentModel,
    burn_rate: int,
    span: int,
    altitude: int,
    velocity: int,
) -> DescentModel {
    DescentModel {
        elapsed: state.elapsed + span,
        altitude,
        velocity,
        total_mass: state.total_mass - burn_rate * span,
        dry_mass: state.dry_mass,
        gravity: state.gravity,
        exhaust: state.exhaust,
    }
}

/// The outcome of a turn of which `remaining` ticks are left.
///
/// With nothing left the mission goes on.  With less fuel than one tick
/// burns the tank is reported dry.  Otherwise a sub-interval is committed:
/// where it ends within [`ALTITUDE_EPSILON`] of the surface, or below it, the
/// craft has touched down, at altitude zero; where it ends higher the turn
/// goes on from there.
pub open spec fn turn(state: DescentModel, burn_rate: int, remaining: int) -> OutcomeModel
    decreases remaining,
    when state.sound() && 0 <= burn_rate
{
    if remaining <= 0 {
        OutcomeModel::Continuing { state }
    } else if state.fuel() < burn_rate {
        OutcomeModel::FuelExhausted { state, residual: remaining }
    } else {
        let span = settled_span(state, burn_rate, fuel_clamped(state, burn_rate, remaining));
        let altitude = altitude_after(state, burn_rate, span);
        let velocity = velocity_after(state, burn_rate, span);
        proof {
            lemma_fuel_clamped(state, burn_rate, remaining);
            lemma_settled_span(state, burn_rate, fuel_clamped(state, burn_rate, remaining));
        }
        if altitude <= ALTITUDE_EPSILON {
            OutcomeModel::Touchdown {
                state: committed(state, burn_rate, span, 0, velocity),
                velocity,
            }
        } else {
            turn(
                committed(state, burn_rate, span, altitude, velocity),
                burn_rate,
                remaining - span,
            )
        }
    }
}

/// What holds between the start and the end of a turn, whatever its course:
/// `end` is a sound state of the same session, reached from `start` by
/// burning at `burn_rate` for `consumed` ticks.
pub open spec fn reached(start: DescentModel, burn_rate: int, consumed: int, end: DescentModel) -> bool {
    &&& end.sound()
    &&& end.same_session(start)
    &&& end.elapsed == start.elapsed + consumed
    &&& end.total_mass == start.total_mass - burn_rate * consumed
}

/// The clamp never asks more of the tank than it holds, leaves a burn rate of
/// zero alone, grants at least one tick where the tank can feed one, and
/// cuts a burn short exactly to the whole ticks that the fuel lasts.
pub proof fn lemma_fuel_clamped(state: DescentModel, burn_rate: int, reach: int)
    requires
        state.sound(),
        0 <= burn_rate,
        0 <= reach,
    ensures
        0 <= fuel_clamped(state, burn_rate, reach) <= reach,
        0 <= burn_rate * fuel_clamped(state, burn_rate, reach) <= state.fuel(),
        burn_rate == 0 ==> fuel_clamped(state, burn_rate, reach) == reach,
        state.fuel() >= burn_rate && reach >= 1 ==> fuel_clamped(state, burn_rate, reach) >= 1,
        fuel_clamped(state, burn_rate, reach) < reach ==> {
            &&& burn_rate > 0
            &&& fuel_clamped(state, burn_rate, reach) == state.fuel() / burn_rate
            &&& state.fuel() - burn_rate * fuel_clamped(state, burn_rate, reach) < burn_rate
        },
{
    let fuel = state.fuel();
    assert(0 <= burn_rate * reach && (burn_rate == 0 ==> burn_rate * reach == 0))
        by (nonlinear_arith)
        requires
            0 <= burn_rate,
            0 <= reach,
    ;
    if burn_rate * reach > fuel {
        let span = fuel / burn_rate;
        assert(0 <= span && burn_rate * span <= fuel < burn_rate * span + burn_rate && 0
            <= burn_rate * span && span < reach && (fuel >= burn_rate ==> span >= 1))
            by (nonlinear_arith)
            requires
                span == fuel / burn_rate,
                burn_rate > 0,
                0 <= fuel < burn_rate * reach,
        ;
    }
}

/// Halving settles on a span of at least one tick and at most the one tried,
/// which the tank can feed if it can feed the one tried, and which lasts one
/// tick or ends on or above the surface.
pub proof fn lemma_settled_span(state: DescentModel, burn_rate: int, span: int)
    requires
        0 <= burn_rate,
        1 <= span,
    ensures
        1 <= settled_span(state, burn_rate, span) <= span,
        0 <= burn_rate * settled_span(state, burn_rate, span) <= burn_rate * span,
        settled_span(state, burn_rate, span) == 1 || altitude_after(
            state,
            burn_rate,
            settled_span(state, burn_rate, span),
        ) >= 0,
    decreases span,
{
    if span <= 1 || altitude_after(state, burn_rate, span) >= 0 {
        assert(0 <= burn_rate * span) by (nonlinear_arith)
            requires
                0 <= burn_rate,
                0 <= span,
        ;
    } else {
        lemma_settled_span(state, burn_rate, span / 2);
        let settled = settled_span(state, burn_rate, span / 2);
        assert(burn_rate * settled <= burn_rate * span) by (nonlinear_arith)
            requires
                0 <= burn_rate,
                settled <= span,
        ;
    }
}

/// The sub-interval that a turn commits next leads from a sound state to a
/// sound state of the same session, and lasts at least one tick.
pub proof fn lemma_sub_interval(state: DescentModel, burn_rate: int, remaining: int)
    requires
        state.sound(),
        0 <= burn_rate <= state.fuel(),
        1 <= remaining,
    ensures
        ({
            let span = settled_span(state, burn_rate, fuel_clamped(state, burn_rate, remaining));
            let altitude = altitude_after(state, burn_rate, span);
            let velocity = velocity_after(state, burn_rate, span);
            &&& 1 <= span <= remaining
            &&& 0 <= burn_rate * span <= state.fuel()
            &&& span == 1 || altitude >= 0
            &&& reached(state, burn_rate, span, committed(state, burn_rate, span, 0, velocity))
            &&& altitude >= 0 ==> reached(
                state,
                burn_rate,
                span,
                committed(state, burn_rate, span, altitude, velocity),
            )
        }),
{
    lemma_fuel_clamped(state, burn_rate, remaining);
    lemma_settled_span(state, burn_rate, fuel_clamped(state, burn_rate, remaining));
}

/// The laws of a turn, whatever the trajectory.
///
/// A turn from a sound state ends in a sound state of the same session, so
/// that altitude, fuel and mass are never negative.  The elapsed time grows by
/// the ticks consumed, which are at most `interval`, and by at least one tick
/// where the tank can feed one.  The mass falls by exactly `burn_rate` times
/// the ticks consumed, over however many sub-intervals.  The mission goes on
/// only after the whole interval and above the surface.  A burn rate of zero
/// never reports an empty tank; a turn that does report one has consumed
/// exactly the whole ticks that the fuel lasted, and fewer than `interval`.
/// A touchdown is reported at altitude zero, with the velocity of the state.
pub proof fn lemma_turn(state: DescentModel, burn_rate: int, interval: int)
    requires
        state.sound(),
        0 <= burn_rate,
        0 <= interval,
    ensures
        ({
            let outcome = turn(state, burn_rate, interval);
            let end = outcome.state();
            let consumed = end.elapsed - state.elapsed;
            &&& reached(state, burn_rate, consumed, end)
            &&& 0 <= consumed <= interval
            &&& consumed == 0 ==> end == state
            &&& interval >= 1 && state.fuel() >= burn_rate ==> consumed >= 1
            &&& burn_rate == 0 ==> !(outcome is FuelExhausted)
            &&& outcome is Continuing ==> {
                &&& consumed == interval
                &&& consumed >= 1 ==> end.altitude > ALTITUDE_EPSILON
            }
            &&& outcome is FuelExhausted ==> {
                &&& consumed == state.fuel() / burn_rate
                &&& consumed < interval
                &&& outcome->residual == interval - consumed
                &&& end.fuel() < burn_rate
                &&& consumed >= 1 ==> end.altitude > ALTITUDE_EPSILON
            }
            &&& outcome is Touchdown ==> {
                &&& end.altitude == 0
                &&& outcome->velocity == end.velocity
                &&& consumed >= 1
            }
        }),
    decreases interval,
{
    let outcome = turn(state, burn_rate, interval);
    if interval <= 0 {
        assert(burn_rate * 0 == 0) by (nonlinear_arith);
    } else if state.fuel() < burn_rate {
        assert(burn_rate * 0 == 0) by (nonlinear_arith);
        assert(state.fuel() / burn_rate == 0) by (nonlinear_arith)
            requires
                0 <= state.fuel() < burn_rate,
        ;
    } else {
        let span = settled_span(state, burn_rate, fuel_clamped(state, burn_rate, interval));
        let altitude = altitude_after(state, burn_rate, span);
        let velocity = velocity_after(state, burn_rate, span);
        lemma_sub_interval(state, burn_rate, interval);
        if altitude > ALTITUDE_EPSILON {
            let next = committed(state, burn_rate, span, altitude, velocity);
            lemma_turn(next, burn_rate, interval - span);
            let end = outcome.state();
            let rest = end.elapsed - next.elapsed;
            assert(burn_rate * span + burn_rate * rest == burn_rate * (span + rest))
                by (nonlinear_arith);
            if outcome is FuelExhausted {
                lemma_fundamental_div_mod_converse(
                    state.fuel(),
                    burn_rate,
                    span + rest,
                    end.fuel(),
                );
            }
        }
    }
}

/// A turn that the tank can feed to its end, and that ends above the
/// surface, is one sub-interval: the mission goes on from the state that the
/// whole interval leads to.
pub proof fn lemma_turn_undivided(state: DescentModel, burn_rate: int, interval: int)
    requires
        state.sound(),
        0 <= burn_rate,
        1 <= interval,
        burn_rate * interval <= state.fuel(),
        altitude_after(state, burn_rate, interval) > ALTITUDE_EPSILON,
    ensures
        turn(state, burn_rate, interval) == (OutcomeModel::Continuing {
            state: committed(
                state,
                burn_rate,
                interval,
                altitude_after(state, burn_rate, interval),
                velocity_after(state, burn_rate, interval),
            ),
        }),
{
    let next = committed(
        state,
        burn_rate,
        interval,
        altitude_after(state, burn_rate, interval),
        velocity_after(state, burn_rate, interval),
    );
    assert(burn_rate <= burn_rate * interval) by (nonlinear_arith)
        requires
            0 <= burn_rate,
            1 <= interval,
    ;
    lemma_sub_interval(state, burn_rate, interval);
    assert(turn(next, burn_rate, 0) == OutcomeModel::Continuing { state: next });
}

/// A turn of free fall that ends above the surface follows the closed form:
/// the velocity grows by gravity times the interval, the altitude falls by the
/// interval times the velocity and by half of gravity times the square of the
/// interval, and the mass stays.
pub proof fn lemma_turn_of_free_fall(state: DescentModel, interval: int)
    requires
        state.sound(),
        1 <= interval <= MAX_INTERVAL,
        state.altitude - state.velocity * interval - state.gravity * interval * interval / 2
            > ALTITUDE_EPSILON,
    ensures
        turn(state, 0, interval) == (OutcomeModel::Continuing {
            state: DescentModel {
                elapsed: state.elapsed + interval,
                altitude: state.altitude - state.velocity * interval - state.gravity * interval
                    * interval / 2,
                velocity: state.velocity + state.gravity * interval,
                ..state
            },
        }),
{
    lemma_free_fall(state, interval);
    assert(0 * interval == 0) by (nonlinear_arith);
    lemma_turn_undivided(state, 0, interval);
}

/// A turn that the tank cannot feed to its end, and whose burn ends above the
/// surface, stops when the fuel is spent: after the whole ticks that the fuel
/// lasts, with the rest of the interval reported.
pub proof fn lemma_turn_runs_dry(state: DescentModel, burn_rate: int, interval: int)
    requires
        state.sound(),
        0 <= burn_rate,
        1 <= interval,
        burn_rate * interval > state.fuel(),
        state.fuel() < burn_rate || altitude_after(state, burn_rate, state.fuel() / burn_rate)
            > ALTITUDE_EPSILON,
    ensures
        state.fuel() < burn_rate ==> turn(state, burn_rate, interval) == (
        OutcomeModel::FuelExhausted { state, residual: interval }),
        state.fuel() >= burn_rate ==> turn(state, burn_rate, interval) == (
        OutcomeModel::FuelExhausted {
            state: committed(
                state,
                burn_rate,
                state.fuel() / burn_rate,
                altitude_after(state, burn_rate, state.fuel() / burn_rate),
                velocity_after(state, burn_rate, state.fuel() / burn_rate),
            ),
            residual: interval - state.fuel() / burn_rate,
        }),
{
    if state.fuel() >= burn_rate {
        let span = state.fuel() / burn_rate;
        let next = committed(
            state,
            burn_rate,
            span,
            altitude_after(state, burn_rate, span),
            velocity_after(state, burn_rate, span),
        );
        lemma_fuel_clamped(state, burn_rate, interval);
        lemma_sub_interval(state, burn_rate, interval);
        assert(turn(next, burn_rate, interval - span) == OutcomeModel::FuelExhausted {
            state: next,
            residual: interval - span,
        });
    }
}

/// The most that one tick can change the velocity: gravity at its limit and
/// three times the exhaust constant at its limit.
spec fn speed_change_per_tick() -> int {
    301_000_000
}

/// The highest speed that a turn can reach: the limit at its start and the
/// most that the ticks of the longest interval can add.
spec fn speed_ceiling() -> int {
    31_100_000_000_000
}

/// The most that one tick of a turn can raise the craft: the highest speed
/// that a turn can reach and twice the exhaust constant at its limit.
spec fn climb_per_tick() -> int {
    31_100_200_000_000
}

/// How far one sub-interval can move the velocity and raise the craft.
proof fn lemma_step_bounds(state: DescentModel, burn_rate: int, span: int)
    requires
        state.sound(),
        feasible(state, burn_rate, span),
        1 <= span,
        -speed_ceiling() <= state.velocity <= speed_ceiling(),
    ensures
        state.velocity - speed_change_per_tick() * span <= velocity_after(state, burn_rate, span)
            <= state.velocity + speed_change_per_tick() * span,
        altitude_after(state, burn_rate, span) <= state.altitude + climb_per_tick() * span,
{
    lemma_thrust_bounds(state, burn_rate, span);
    let g = state.gravity;
    let z = state.exhaust;
    let v = state.velocity;
    assert(0 <= g * span <= 1_000_000 * span && 0 <= g * span * span) by (nonlinear_arith)
        requires
            0 <= g <= 1_000_000,
            1 <= span,
    ;
    assert(3 * z <= 300_000_000 * span && 2 * z * span <= 200_000_000 * span) by (nonlinear_arith)
        requires
            0 <= z <= 100_000_000,
            1 <= span,
    ;
    assert(-(31_100_000_000_000 * span) <= v * span <= 31_100_000_000_000 * span)
        by (nonlinear_arith)
        requires
            -31_100_000_000_000 <= v <= 31_100_000_000_000,
            1 <= span,
    ;
}

/// The longest burn at `burn_rate`, of at most `reach` ticks, that the fuel
/// of `state` can feed.
pub fn clamp_to_fuel(state: &DescentState, burn_rate: u64, reach: u64) -> (span: u64)
    requires
        state.dry_mass <= state.total_mass,
    ensures
        span == fuel_clamped(state@, burn_rate as int, reach as int),
{
    let fuel: u64 = state.total_mass - state.dry_mass;
    assert(burn_rate * reach <= 0xffff_ffff_ffff_ffff * 0xffff_ffff_ffff_ffff) by (nonlinear_arith)
        requires
            0 <= burn_rate <= 0xffff_ffff_ffff_ffff,
            0 <= reach <= 0xffff_ffff_ffff_ffff,
    ;
    if burn_rate as u128 * reach as u128 <= fuel as u128 {
        reach
    } else {
        assert(burn_rate != 0) by (nonlinear_arith)
            requires
                burn_rate * reach > fuel,
                fuel >= 0,
        ;
        fuel / burn_rate
    }
}

/// Advances `state` by one turn of `interval` ticks at `burn_rate`.
///
/// The result is never a fault, and is the outcome that [`turn`] defines.
/// Whatever the trajectory, the turn ends in a sound state of the same
/// session: altitude, fuel and mass are not negative.  The elapsed time grows
/// by the ticks consumed, which are at most `interval`, and by at least one
/// tick where the tank can feed one.  The mass falls by exactly `burn_rate`
/// times the ticks consumed.  The mission goes on only after the whole
/// interval and above the surface.  An empty tank is reported only for a
/// positive burn rate, after exactly the whole ticks that the fuel lasted.  A
/// touchdown is reported at altitude zero.
#[verifier::loop_isolation(false)]
pub fn advance(state: DescentState, burn_rate: u64, interval: u64) -> (result: Result<
    TurnOutcome,
    IntegrationFault,
>)
    requires
        state@.valid(),
        burn_rate <= MAX_BURN_RATE,
        interval <= MAX_INTERVAL,
    ensures
        result is Ok,
        result->Ok_0@ == turn(state@, burn_rate as int, interval as int),
        ({
            let outcome = result->Ok_0@;
            let end = outcome.state();
            let consumed = end.elapsed - state@.elapsed;
            &&& reached(state@, burn_rate as int, consumed, end)
            &&& 0 <= consumed <= interval
            &&& interval >= 1 && state@.fuel() >= burn_rate ==> consumed >= 1
            &&& outcome is Continuing ==> {
                &&& consumed == interval
                &&& interval >= 1 ==> end.altitude > ALTITUDE_EPSILON
            }
            &&& outcome is FuelExhausted ==> {
                &&& burn_rate > 0
                &&& consumed == state@.fuel() / (burn_rate as int)
                &&& consumed < interval
                &&& outcome->residual == interval - consumed
                &&& end.fuel() < burn_rate
            }
            &&& outcome is Touchdown ==> {
                &&& end.altitude == 0
                &&& outcome->velocity == end.velocity
                &&& consumed >= 1
            }
        }),
{
    let mut current = state;
    let mut remaining = interval;
    proof {
        lemma_turn(state@, burn_rate as int, interval as int);
        lemma2_to64();
        lemma2_to64_rest();
    }
    while remaining > 0
        invariant
            remaining <= interval,
            current@.sound(),
            current@.same_session(state@),
            current.elapsed == state.elapsed + (interval - remaining),
            -(MAX_SPEED + speed_change_per_tick() * (interval - remaining)) <= current.velocity
                <= MAX_SPEED + speed_change_per_tick() * (interval - remaining),
            current.altitude <= MAX_ALTITUDE + climb_per_tick() * (interval - remaining),
            turn(current@, burn_rate as int, remaining as int) == turn(
                state@,
                burn_rate as int,
                interval as int,
            ),
        decreases remaining,
    {
        if current.total_mass - current.dry_mass < burn_rate {
            return Ok(TurnOutcome::FuelExhausted { state: current, residual: remaining });
        }
        let first: u64 = clamp_to_fuel(&current, burn_rate, remaining);
        proof {
            lemma_fuel_clamped(current@, burn_rate as int, remaining as int);
            lemma_settled_span(current@, burn_rate as int, first as int);
        }
        let mut span: u64 = first;
        let mut candidate: Candidate = f420(&current, burn_rate, span);
        let mut halvings: u32 = 0;
        while candidate.altitude < 0 && span > 1
            invariant
                1 <= span <= first,
                0 <= burn_rate * span <= current@.fuel(),
                halvings <= HALVING_CAP,
                span * pow2(halvings as nat) <= first,
                candidate.altitude == altitude_after(current@, burn_rate as int, span as int),
                candidate.velocity == velocity_after(current@, burn_rate as int, span as int),
                settled_span(current@, burn_rate as int, span as int) == settled_span(
                    current@,
                    burn_rate as int,
                    first as int,
                ),
            decreases span,
        {
            if halvings >= HALVING_CAP {
                proof {
                    assert(span * pow2(40) >= pow2(40)) by (nonlinear_arith)
                        requires
                            span >= 1,
                            pow2(40) >= 0,
                    ;
                }
                return Err(IntegrationFault::NonConvergence);
            }
            proof {
                let p = pow2(halvings as nat) as int;
                lemma_pow2_unfold((halvings + 1) as nat);
                assert((span / 2) * (2 * p) <= span * p) by (nonlinear_arith)
                    requires
                        0 <= span,
                        p >= 0,
                ;
                assert(0 <= burn_rate * (span / 2) <= burn_rate * span) by (nonlinear_arith)
                    requires
                        0 <= burn_rate,
                        0 <= span,
                ;
            }
            halvings = halvings + 1;
            span = span / 2;
            candidate = f420(&current, burn_rate, span);
        }
        proof {
            lemma_step_bounds(current@, burn_rate as int, span as int);
            lemma_sub_interval(current@, burn_rate as int, remaining as int);
            assert(speed_change_per_tick() * (interval - remaining) + speed_change_per_tick()
                * span == speed_change_per_tick() * (interval - (remaining - span)));
            assert(climb_per_tick() * (interval - remaining) + climb_per_tick() * span
                == climb_per_tick() * (interval - (remaining - span)));
        }
        let elapsed: u64 = current.elapsed + span;
        let total_mass: u64 = current.total_mass - burn_rate * span;
        let velocity: i64 = candidate.velocity as i64;
        if candidate.altitude <= ALTITUDE_EPSILON as i128 {
            let landed = DescentState {
                elapsed,
                altitude: 0,
                velocity,
                total_mass,
                dry_mass: current.dry_mass,
                gravity: current.gravity,
                exhaust: current.exhaust,
            };
            return Ok(TurnOutcome::Touchdown { state: landed, velocity });
        }
        current =
        DescentState {
            elapsed,
            altitude: candidate.altitude as u64,
            velocity,
            total_mass,
            dry_mass: current.dry_mass,
            gravity: current.gravity,
            exhaust: current.exhaust,
        };
        remaining = remaining - span;
    }
    Ok(TurnOutcome::Continuing { state: current })
}

} // verus!
