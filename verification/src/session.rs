//! The course of a mission, turn by turn.
//!
//! A mission starts under power.  Each step takes the operator's burn rate,
//! runs one turn and says what the caller does next.  Once the tank has run
//! dry the craft coasts: the burn rate is forced to zero, first for the rest
//! of the interrupted decision interval and then interval by interval, until
//! it reaches the surface.

use vstd::prelude::*;
use crate::integrator::{advance, lemma_turn, turn, IntegrationFault, OutcomeModel, TurnOutcome};
use crate::state::{initial_descent, DescentModel, DescentState};
use crate::units::{DECISION_INTERVAL, MAX_BURN_RATE, MAX_INTERVAL};
use crate::verdict::{landing_report, report_at, LandingReport};

verus! {

/// Where a mission stands.
#[derive(Clone, Copy, Debug, PartialEq, Eq, Structural)]
pub enum Phase {
    /// The operator chooses the burn rate of each turn.
    Powered,
    /// The tank is dry and the craft falls freely.  `pending` is what is left
    /// of the decision interval in which the burn stopped, or zero.
    Coasting { pending: u64 },
    /// The craft has reached the surface.
    Landed { report: LandingReport },
    /// The craft has left the range in which a turn can be computed.
    Lost,
}

/// What the caller does after a step.
#[derive(Clone, Copy, Debug, PartialEq, Eq, Structural)]
pub enum Directive {
    /// Show the status and ask the operator for the next burn rate.
    Prompt,
    /// The burn rate was out of range and nothing has changed: ask again.
    Rejected,
    /// The tank has just run dry: say so, then step again without asking.
    FuelOut,
    /// The craft is coasting: show the status and step again without asking.
    Coast,
    /// The mission is over: show the verdict.
    Landed { report: LandingReport },
    /// The mission is over: the craft is out of range.
    Lost,
    /// The integrator reported a fault and nothing has changed.
    Fault { fault: IntegrationFault },
}

/// The model of a [`Mission`].
pub struct MissionModel {
    /// The physical state.
    pub state: DescentModel,
    /// Where the mission stands.
    pub phase: Phase,
}

impl MissionModel {
    /// A mission that can take a step: while it is under way its state is one
    /// from which a turn may begin, and once it has landed its report is the
    /// one that its state gives rise to.
    pub open spec fn wf(self) -> bool {
        match self.phase {
            Phase::Powered => self.state.valid(),
            Phase::Coasting { pending } => self.state.valid() && pending <= MAX_INTERVAL,
            Phase::Landed { report } => self.state.sound() && report == report_at(
                self.state,
                self.state.velocity,
            ),
            Phase::Lost => self.state.sound(),
        }
    }

    /// Whether the mission is over.
    pub open spec fn finished(self) -> bool {
        self.phase is Landed || self.phase is Lost
    }
}

/// The mission and the directive that follow from the result of a turn.
/// `coasting` says whether the turn was one of free fall after the tank ran
/// dry.
pub open spec fn settled(
    before: MissionModel,
    result: Result<OutcomeModel, IntegrationFault>,
    coasting: bool,
) -> (MissionModel, Directive) {
    match result {
        Err(fault) => (before, Directive::Fault { fault }),
        Ok(OutcomeModel::Touchdown { state, velocity }) => {
            let report = report_at(state, velocity);
            (MissionModel { state, phase: Phase::Landed { report } }, Directive::Landed { report })
        },
        Ok(OutcomeModel::FuelExhausted { state, residual }) => if state.valid() {
            (
                MissionModel { state, phase: Phase::Coasting { pending: residual as u64 } },
                Directive::FuelOut,
            )
        } else {
            (MissionModel { state, phase: Phase::Lost }, Directive::Lost)
        },
        Ok(OutcomeModel::Continuing { state }) => if !state.valid() {
            (MissionModel { state, phase: Phase::Lost }, Directive::Lost)
        } else if coasting {
            (MissionModel { state, phase: Phase::Coasting { pending: 0 } }, Directive::Coast)
        } else {
            (MissionModel { state, phase: Phase::Powered }, Directive::Prompt)
        },
    }
}

/// The interval that a coasting turn covers: what is left of the interrupted
/// decision interval, or a whole one.
pub open spec fn coasting_interval(pending: int) -> int {
    if pending > 0 {
        pending
    } else {
        DECISION_INTERVAL as int
    }
}

/// The mission and the directive that follow from one step with the
/// requested burn rate.
pub open spec fn stepped(mission: MissionModel, requested: int) -> (MissionModel, Directive) {
    match mission.phase {
        Phase::Landed { report } => (mission, Directive::Landed { report }),
        Phase::Lost => (mission, Directive::Lost),
        Phase::Powered => if requested > MAX_BURN_RATE {
            (mission, Directive::Rejected)
        } else {
            settled(mission, Ok(turn(mission.state, requested, DECISION_INTERVAL as int)), false)
        },
        Phase::Coasting { pending } => settled(
            mission,
            Ok(turn(mission.state, 0, coasting_interval(pending as int))),
            true,
        ),
    }
}

/// The laws of a step.
///
/// A step leads from a well-formed mission to a well-formed mission of the
/// same session, never back in time and never to a greater mass, and never
/// reports a fault.  A mission that is over stays as it is.  A coasting craft
/// burns nothing, whatever burn rate is requested, and never comes back under
/// power.  The directive tells the phase: the caller is asked for a burn rate
/// only while the mission is under power, and is told of a landing or a loss
/// exactly when the mission is in that phase.
pub proof fn lemma_stepped(mission: MissionModel, requested: int)
    requires
        mission.wf(),
        0 <= requested,
    ensures
        ({
            let (next, directive) = stepped(mission, requested);
            &&& next.wf()
            &&& !(directive is Fault)
            &&& next.state.same_session(mission.state)
            &&& mission.state.elapsed <= next.state.elapsed
            &&& next.state.total_mass <= mission.state.total_mass
            &&& mission.finished() ==> next == mission
            &&& mission.phase is Coasting ==> next.state.total_mass == mission.state.total_mass
                && !(next.phase is Powered)
            &&& directive is Prompt || directive is Rejected ==> next.phase is Powered
            &&& directive is FuelOut || directive is Coast ==> next.phase is Coasting
            &&& directive is Landed <==> next.phase is Landed
            &&& directive is Lost <==> next.phase is Lost
            &&& directive matches Directive::Landed { report } ==> next.phase == (Phase::Landed {
                report,
            })
        }),
{
    match mission.phase {
        Phase::Powered => {
            if requested <= MAX_BURN_RATE {
                lemma_turn(mission.state, requested, DECISION_INTERVAL as int);
                let end = turn(mission.state, requested, DECISION_INTERVAL as int).state();
                assert(0 <= requested * (end.elapsed - mission.state.elapsed))
                    by (nonlinear_arith)
                    requires
                        0 <= requested,
                        0 <= end.elapsed - mission.state.elapsed,
                ;
            }
        },
        Phase::Coasting { pending } => {
            lemma_turn(mission.state, 0, coasting_interval(pending as int));
            let end = turn(mission.state, 0, coasting_interval(pending as int)).state();
            assert(0 * (end.elapsed - mission.state.elapsed) == 0) by (nonlinear_arith);
        },
        _ => {},
    }
}

/// A mission: the physical state and the phase it is in.
#[derive(Clone, Copy, Debug, PartialEq, Eq)]
pub struct Mission {
    state: DescentState,
    phase: Phase,
}

impl View for Mission {
    type V = MissionModel;

    closed spec fn view(&self) -> MissionModel {
        MissionModel { state: self.state@, phase: self.phase }
    }
}

impl Mission {
    #[verifier::type_invariant]
    spec fn well_formed(self) -> bool {
        self@.wf()
    }

    /// A mission under power at the start of a session.
    pub fn start() -> (mission: Mission)
        ensures
            mission@ == (MissionModel { state: initial_descent(), phase: Phase::Powered }),
            mission@.wf(),
    {
        Mission { state: DescentState::initial(), phase: Phase::Powered }
    }

    /// A mission under power that goes on from `state`, where a turn may
    /// begin from it.
    pub fn resume(state: DescentState) -> (mission: Option<Mission>)
        ensures
            mission is Some <==> state@.valid(),
            mission matches Some(m) ==> m@ == (MissionModel { state: state@, phase: Phase::Powered })
                && m@.wf(),
    {
        if state.is_valid() {
            Some(Mission { state, phase: Phase::Powered })
        } else {
            None
        }
    }

    /// The physical state.
    pub fn state(&self) -> (state: DescentState)
        ensures
            state@ == self@.state,
            self@.wf(),
    {
        proof {
            use_type_invariant(self);
        }
        self.state
    }

    /// The phase.
    pub fn phase(&self) -> (phase: Phase)
        ensures
            phase == self@.phase,
            self@.wf(),
    {
        proof {
            use_type_invariant(self);
        }
        self.phase
    }

    /// Takes one step: a turn at the requested burn rate while under power,
    /// a turn of free fall while coasting, nothing once the mission is over.
    /// A burn rate above [`MAX_BURN_RATE`] is rejected and changes nothing.
    /// The integrator's fault is never reported.
    pub fn step(&self, requested: u64) -> (next: (Mission, Directive))
        ensures
            (next.0@, next.1) == stepped(self@, requested as int),
            next.0@.wf(),
            !(next.1 is Fault),
    {
        proof {
            use_type_invariant(self);
        }
        match self.phase {
            Phase::Landed { report } => (*self, Directive::Landed { report }),
            Phase::Lost => (*self, Directive::Lost),
            Phase::Powered => {
                if requested > MAX_BURN_RATE {
                    (*self, Directive::Rejected)
                } else {
                    let result = advance(self.state, requested, DECISION_INTERVAL);
                    self.settle(result, false)
                }
            },
            Phase::Coasting { pending } => {
                let interval: u64 = if pending > 0 { pending } else { DECISION_INTERVAL };
                let result = advance(self.state, 0, interval);
                self.settle(result, true)
            },
        }
    }

    /// The mission and the directive that follow from the result of a turn.
    fn settle(&self, result: Result<TurnOutcome, IntegrationFault>, coasting: bool) -> (next: (
        Mission,
        Directive,
    ))
        requires
            result matches Ok(outcome) ==> {
                &&& outcome@.state().sound()
                &&& outcome matches TurnOutcome::FuelExhausted { residual, .. } ==> residual
                    <= MAX_INTERVAL
                &&& outcome matches TurnOutcome::Touchdown { state, velocity } ==> velocity
                    == state.velocity
            },
        ensures
            (next.0@, next.1) == settled(self@, view_of(result), coasting),
            next.0@.wf(),
    {
        proof {
            use_type_invariant(self);
        }
        match result {
            Err(fault) => (*self, Directive::Fault { fault }),
            Ok(outcome) => match outcome {
                TurnOutcome::Touchdown { state, velocity } => {
                    let report = landing_report(&state, velocity);
                    (Mission { state, phase: Phase::Landed { report } }, Directive::Landed { report })
                },
                TurnOutcome::FuelExhausted { state, residual } => {
                    if state.is_valid() {
                        (
                            Mission { state, phase: Phase::Coasting { pending: residual } },
                            Directive::FuelOut,
                        )
                    } else {
                        (Mission { state, phase: Phase::Lost }, Directive::Lost)
                    }
                },
                TurnOutcome::Continuing { state } => {
                    if !state.is_valid() {
                        (Mission { state, phase: Phase::Lost }, Directive::Lost)
                    } else if coasting {
                        (Mission { state, phase: Phase::Coasting { pending: 0 } }, Directive::Coast)
                    } else {
                        (Mission { state, phase: Phase::Powered }, Directive::Prompt)
                    }
                },
            },
        }
    }
}

/// The model of the result of a turn.
spec fn view_of(result: Result<TurnOutcome, IntegrationFault>) -> Result<
    OutcomeModel,
    IntegrationFault,
> {
    match result {
        Ok(outcome) => Ok(outcome@),
        Err(fault) => Err(fault),
    }
}

} // verus!
