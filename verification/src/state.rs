//! The physical record of a descent and its mathematical model.

use vstd::prelude::*;
use crate::units::{
    MAX_ALTITUDE, MAX_ELAPSED, MAX_EXHAUST, MAX_GRAVITY, MAX_MASS, MAX_SPEED,
};

verus! {

/// The model of a descent: the same quantities as [`DescentState`], as
/// unbounded integers.
pub struct DescentModel {
    /// Ticks since the start of the mission.
    pub elapsed: int,
    /// Height above the surface.
    pub altitude: int,
    /// Closing speed; positive when descending.
    pub velocity: int,
    /// Mass of the capsule and of the fuel left.
    pub total_mass: int,
    /// Mass of the capsule without fuel.
    pub dry_mass: int,
    /// Downward acceleration, per tick squared.
    pub gravity: int,
    /// Velocity gained per unit of the natural logarithm of the mass ratio.
    pub exhaust: int,
}

impl DescentModel {
    /// The fuel left.
    pub open spec fn fuel(self) -> int {
        self.total_mass - self.dry_mass
    }

    /// The physical invariants: time and altitude are not negative, the craft
    /// weighs at least its dry mass, and the constants of the session lie
    /// within their limits.
    pub open spec fn sound(self) -> bool {
        &&& 0 <= self.elapsed
        &&& 0 <= self.altitude
        &&& 1 <= self.dry_mass <= self.total_mass <= MAX_MASS
        &&& 0 <= self.gravity <= MAX_GRAVITY
        &&& 0 <= self.exhaust <= MAX_EXHAUST
    }

    /// A sound state from which a turn may begin: time, altitude and speed lie
    /// within the limits that keep a whole turn's arithmetic in range.
    pub open spec fn valid(self) -> bool {
        &&& self.sound()
        &&& self.elapsed <= MAX_ELAPSED
        &&& self.altitude <= MAX_ALTITUDE
        &&& -MAX_SPEED <= self.velocity <= MAX_SPEED
    }

    /// Two states of one session: the constants agree.
    pub open spec fn same_session(self, other: DescentModel) -> bool {
        &&& self.dry_mass == other.dry_mass
        &&& self.gravity == other.gravity
        &&& self.exhaust == other.exhaust
    }
}

/// The state at the start of a session: 120 miles up, closing at one mile per
/// second, 16,500 pounds of fuel in a capsule of 16,500 pounds, under a
/// gravity of a thousandth of a mile per second squared and with an exhaust
/// constant of 1.8 miles per second.
pub open spec fn initial_descent() -> DescentModel {
    DescentModel {
        elapsed: 0,
        altitude: 240_000_000_000,
        velocity: 2_000_000,
        total_mass: 33_000_000_000,
        dry_mass: 16_500_000_000,
        gravity: 2,
        exhaust: 3_600_000,
    }
}

/// The physical record of a descent at one moment.
#[derive(Clone, Copy, Debug, PartialEq, Eq, Structural)]
pub struct DescentState {
    /// Ticks since the start of the mission.
    pub elapsed: u64,
    /// Height above the surface, in altitude units.
    pub altitude: u64,
    /// Closing speed in velocity units; positive when descending.
    pub velocity: i64,
    /// Mass of the capsule and of the fuel left, in mass units.
    pub total_mass: u64,
    /// Mass of the capsule without fuel, in mass units.
    pub dry_mass: u64,
    /// Downward acceleration, in altitude units per tick squared.
    pub gravity: u64,
    /// Exhaust constant, in velocity units.
    pub exhaust: u64,
}

impl View for DescentState {
    type V = DescentModel;

    open spec fn view(&self) -> DescentModel {
        DescentModel {
            elapsed: self.elapsed as int,
            altitude: self.altitude as int,
            velocity: self.velocity as int,
            total_mass: self.total_mass as int,
            dry_mass: self.dry_mass as int,
            gravity: self.gravity as int,
            exhaust: self.exhaust as int,
        }
    }
}

impl DescentState {
    /// The state at the start of a session.
    pub fn initial() -> (state: DescentState)
        ensures
            state@ == initial_descent(),
            state@.valid(),
    {
        DescentState {
            elapsed: 0,
            altitude: 240_000_000_000,
            velocity: 2_000_000,
            total_mass: 33_000_000_000,
            dry_mass: 16_500_000_000,
            gravity: 2,
            exhaust: 3_600_000,
        }
    }

    /// Whether a turn may begin from this state.
    pub fn is_valid(&self) -> (ok: bool)
        ensures
            ok == self@.valid(),
    {
        1 <= self.dry_mass && self.dry_mass <= self.total_mass && self.total_mass <= MAX_MASS
            && self.gravity <= MAX_GRAVITY && self.exhaust <= MAX_EXHAUST
            && self.elapsed <= MAX_ELAPSED && self.altitude <= MAX_ALTITUDE
            && -MAX_SPEED <= self.velocity && self.velocity <= MAX_SPEED
    }

    /// The fuel left, in mass units.
    pub fn fuel_mass(&self) -> (fuel: u64)
        requires
            self.dry_mass <= self.total_mass,
        ensures
            fuel == self@.fuel(),
    {
        self.total_mass - self.dry_mass
    }
}

} // verus!
