//! The status record of a descent, in the units an operator reads.

use vstd::prelude::*;
use crate::state::{DescentModel, DescentState};
use crate::units::{
    ALTITUDE_UNITS_PER_MILE, FEET_PER_MILE, MASS_UNITS_PER_POUND, SECONDS_PER_HOUR,
    TICKS_PER_SECOND, VELOCITY_UNITS_PER_MILE_PER_SECOND,
};

verus! {

/// The state of a descent in whole display units, each rounded toward zero.
#[derive(Clone, Copy, Debug, PartialEq, Eq, Structural)]
pub struct Status {
    /// Whole seconds since the start of the mission.
    pub seconds: u64,
    /// Whole miles above the surface.
    pub miles: u64,
    /// Whole feet above the last whole mile.
    pub feet: u64,
    /// Closing speed in whole miles per hour; positive when descending.
    pub miles_per_hour: i64,
    /// Whole pounds of fuel left.
    pub fuel_pounds: u64,
}

/// A velocity in whole miles per hour, rounded toward zero.
pub open spec fn miles_per_hour(velocity: int) -> int {
    if velocity >= 0 {
        velocity * SECONDS_PER_HOUR / (VELOCITY_UNITS_PER_MILE_PER_SECOND as int)
    } else {
        -((-velocity) * SECONDS_PER_HOUR / (VELOCITY_UNITS_PER_MILE_PER_SECOND as int))
    }
}

/// The whole feet in the part of an altitude above its last whole mile.
pub open spec fn feet_above_mile(altitude: int) -> int {
    (altitude % (ALTITUDE_UNITS_PER_MILE as int)) * FEET_PER_MILE / (
    ALTITUDE_UNITS_PER_MILE as int)
}

/// The status record of `state`.
pub open spec fn status_of(state: DescentModel) -> Status {
    Status {
        seconds: (state.elapsed / (TICKS_PER_SECOND as int)) as u64,
        miles: (state.altitude / (ALTITUDE_UNITS_PER_MILE as int)) as u64,
        feet: feet_above_mile(state.altitude) as u64,
        miles_per_hour: miles_per_hour(state.velocity) as i64,
        fuel_pounds: (state.fuel() / (MASS_UNITS_PER_POUND as int)) as u64,
    }
}

/// The status record of `state`.  The feet are always fewer than a mile's.
pub fn status(state: &DescentState) -> (record: Status)
    requires
        state.dry_mass <= state.total_mass,
    ensures
        record == status_of(state@),
        record.feet < FEET_PER_MILE,
{
    let part: u128 = (state.altitude % ALTITUDE_UNITS_PER_MILE) as u128;
    assert(part < 2_000_000_000);
    assert(part * 5_280 < 2_000_000_000 * 5_280);
    let feet: u128 = part * (FEET_PER_MILE as u128) / (ALTITUDE_UNITS_PER_MILE as u128);
    assert(feet < 5_280) by (nonlinear_arith)
        requires
            feet == part * 5_280 / 2_000_000_000,
            0 <= part < 2_000_000_000,
    ;
    let speed: i128 = state.velocity as i128;
    let miles_per_hour: i64 = if speed >= 0 {
        ((speed as u128) * (SECONDS_PER_HOUR as u128) / (
        VELOCITY_UNITS_PER_MILE_PER_SECOND as u128)) as i64
    } else {
        let up: u128 = ((-speed) as u128) * (SECONDS_PER_HOUR as u128) / (
        VELOCITY_UNITS_PER_MILE_PER_SECOND as u128);
        -(up as i64)
    };
    Status {
        seconds: state.elapsed / TICKS_PER_SECOND,
        miles: state.altitude / ALTITUDE_UNITS_PER_MILE,
        feet: feet as u64,
        miles_per_hour,
        fuel_pounds: (state.total_mass - state.dry_mass) / MASS_UNITS_PER_POUND,
    }
}

} // verus!
