//! Units of measure and the limits within which the arithmetic is exact.
//!
//! Time is counted in ticks of one millisecond; a time shorter than a tick
//! counts as no time.  A burn rate is a number of mass units per tick, so
//! that the mass burned over a whole number of ticks is a whole number of mass
//! units.  A velocity is a number of altitude units per tick, positive when
//! the craft descends.  The altitude unit is half a billionth of a mile, which
//! makes a gravity of a thousandth of a mile per second squared two units per
//! tick squared.

use vstd::prelude::*;

verus! {

/// Ticks in one second.
pub const TICKS_PER_SECOND: u64 = 1_000;

/// Mass units in one pound.
pub const MASS_UNITS_PER_POUND: u64 = 1_000_000;

/// Burn-rate units (mass units per tick) in one pound per second.
pub const RATE_UNITS_PER_POUND_PER_SECOND: u64 = 1_000;

/// Altitude units in one mile.
pub const ALTITUDE_UNITS_PER_MILE: u64 = 2_000_000_000;

/// Velocity units (altitude units per tick) in one mile per second.
pub const VELOCITY_UNITS_PER_MILE_PER_SECOND: u64 = 2_000_000;

/// Feet in one mile.
pub const FEET_PER_MILE: u64 = 5_280;

/// Seconds in one hour.
pub const SECONDS_PER_HOUR: u64 = 3_600;

/// Denominator of the fixed-point fractions used for the burned share of the
/// craft's mass and for its powers.
pub const FRACTION: u64 = 1_000_000_000;

/// The largest burn rate an operator may choose: 200 pounds per second.
pub const MAX_BURN_RATE: u64 = 200_000;

/// The time between two choices of burn rate: ten seconds.
pub const DECISION_INTERVAL: u64 = 10_000;

/// The longest interval that one turn may cover.
pub const MAX_INTERVAL: u64 = 100_000;

/// An altitude at or below this counts as contact with the surface: a
/// thousandth of a mile.
pub const ALTITUDE_EPSILON: u64 = 2_000_000;

/// The number of times one turn may halve its sub-interval.
pub const HALVING_CAP: u32 = 40;

/// The largest total mass a craft may have.
pub const MAX_MASS: u64 = 1_000_000_000_000_000;

/// The largest surface gravity, in altitude units per tick squared.
pub const MAX_GRAVITY: u64 = 1_000_000;

/// The largest exhaust constant, in velocity units.
pub const MAX_EXHAUST: u64 = 100_000_000;

/// The largest speed, up or down, at which a turn may begin.
pub const MAX_SPEED: i64 = 1_000_000_000_000;

/// The largest altitude at which a turn may begin.
pub const MAX_ALTITUDE: u64 = 1_000_000_000_000_000_000;

/// The largest elapsed time at which a turn may begin.
pub const MAX_ELAPSED: u64 = 1_000_000_000_000_000_000;

} // verus!
