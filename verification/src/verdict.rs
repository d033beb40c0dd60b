//! The verdict on a landing, from the speed at impact alone.

use vstd::prelude::*;
use crate::state::{DescentModel, DescentState};

verus! {

/// The fastest touchdown that counts as a safe landing: ten miles per hour,
/// in whole velocity units.
pub const SAFE_SPEED: i64 = 5_555;

/// The fastest touchdown that the crew survives: sixty miles per hour, in
/// whole velocity units.
pub const ROUGH_SPEED: i64 = 33_333;

/// How a landing ended.
#[derive(Clone, Copy, Debug, PartialEq, Eq, Structural)]
pub enum Verdict {
    /// A successful landing.
    Safe,
    /// The crew survived; the craft is damaged.
    Rough,
    /// The craft was destroyed on impact.
    Destroyed,
}

/// The verdict on a touchdown at `velocity`.
pub open spec fn verdict_of(velocity: int) -> Verdict {
    if velocity <= SAFE_SPEED {
        Verdict::Safe
    } else if velocity <= ROUGH_SPEED {
        Verdict::Rough
    } else {
        Verdict::Destroyed
    }
}

/// How bad a verdict is: zero for a safe landing, two for a destroyed craft.
pub open spec fn severity(verdict: Verdict) -> int {
    match verdict {
        Verdict::Safe => 0,
        Verdict::Rough => 1,
        Verdict::Destroyed => 2,
    }
}

/// The verdict with the score of a landing.
#[derive(Clone, Copy, Debug, PartialEq, Eq, Structural)]
pub struct LandingReport {
    /// How the landing ended.
    pub verdict: Verdict,
    /// The closing speed at impact, in velocity units.
    pub impact_velocity: i64,
    /// The fuel left at touchdown, in mass units.
    pub fuel_left: u64,
    /// The ticks from the start of the mission to touchdown.
    pub elapsed: u64,
}

/// The report on a touchdown in `state` at `velocity`.
pub open spec fn report_at(state: DescentModel, velocity: int) -> LandingReport {
    LandingReport {
        verdict: verdict_of(velocity),
        impact_velocity: velocity as i64,
        fuel_left: state.fuel() as u64,
        elapsed: state.elapsed as u64,
    }
}

/// A slower touchdown never gets a worse verdict.
pub proof fn lemma_verdict_monotone(slower: int, faster: int)
    requires
        slower <= faster,
    ensures
        severity(verdict_of(slower)) <= severity(verdict_of(faster)),
{
}

/// Classifies a touchdown at `velocity`.
pub fn classify(velocity: i64) -> (verdict: Verdict)
    ensures
        verdict == verdict_of(velocity as int),
{
    if velocity <= SAFE_SPEED {
        Verdict::Safe
    } else if velocity <= ROUGH_SPEED {
        Verdict::Rough
    } else {
        Verdict::Destroyed
    }
}

/// The report on a touchdown in `state` at `velocity`: the verdict, and the
/// fuel left and the time taken as the score.
pub fn landing_report(state: &DescentState, velocity: i64) -> (report: LandingReport)
    requires
        state.dry_mass <= state.total_mass,
    ensures
        report == report_at(state@, velocity as int),
{
    LandingReport {
        verdict: classify(velocity),
        impact_velocity: velocity,
        fuel_left: state.fuel_mass(),
        elapsed: state.elapsed,
    }
}

} // verus!
