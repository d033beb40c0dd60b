use lunar::integrator::{advance, clamp_to_fuel, IntegrationFault, TurnOutcome};
use lunar::state::DescentState;
use lunar::units::{ALTITUDE_EPSILON, DECISION_INTERVAL, MAX_BURN_RATE, MAX_INTERVAL};
use lunar::verdict::{classify, Verdict};

fn craft(altitude: u64, velocity: i64, total_mass: u64, dry_mass: u64) -> DescentState {
    DescentState {
        elapsed: 0,
        altitude,
        velocity,
        total_mass,
        dry_mass,
        gravity: 2,
        exhaust: 3_600_000,
    }
}

fn end_of(outcome: &TurnOutcome) -> DescentState {
    match outcome {
        TurnOutcome::Continuing { state } => *state,
        TurnOutcome::FuelExhausted { state, .. } => *state,
        TurnOutcome::Touchdown { state, .. } => *state,
    }
}

fn turn_of(state: DescentState, burn_rate: u64) -> TurnOutcome {
    assert!(state.is_valid());
    assert!(burn_rate <= MAX_BURN_RATE);
    match advance(state, burn_rate, DECISION_INTERVAL) {
        Ok(outcome) => outcome,
        Err(IntegrationFault::NonConvergence) => panic!("the turn did not converge"),
    }
}

#[test]
fn free_fall_for_one_turn() {
    // Starting altitude 120 miles, 16,500 pounds of fuel in a capsule of
    // 16,500 pounds, gravity 0.001, exhaust constant 1.8, no burn for ten
    // seconds: the velocity grows by gravity times ten, the fuel stays, and
    // the altitude falls by the gravity-only displacement.
    let start = DescentState::initial();
    let outcome = turn_of(start, 0);
    let expected = DescentState {
        elapsed: 10_000,
        altitude: 240_000_000_000 - (2_000_000 * 10_000 + 2 * 10_000 * 10_000 / 2),
        velocity: 2_000_000 + 2 * 10_000,
        ..start
    };
    assert_eq!(outcome, TurnOutcome::Continuing { state: expected });
    assert_eq!(end_of(&outcome).fuel_mass(), 16_500_000_000);
    assert_eq!(end_of(&outcome).altitude, 219_900_000_000);
}

#[test]
fn a_full_burn_for_one_turn() {
    let start = DescentState::initial();
    let expected = DescentState {
        elapsed: 10_000,
        altitude: 221_013_640_668,
        velocity: 1_794_927,
        total_mass: 31_000_000_000,
        ..start
    };
    assert_eq!(turn_of(start, 200_000), TurnOutcome::Continuing { state: expected });
}

#[test]
fn a_full_burn_runs_the_tank_dry_after_eighty_two_and_a_half_seconds() {
    // 16,500 pounds at 200 pounds per second last 82.5 seconds: eight whole
    // turns, then two and a half seconds of the ninth.
    let mut state = DescentState::initial();
    for turn in 1..=8u64 {
        match turn_of(state, 200_000) {
            TurnOutcome::Continuing { state: next } => {
                assert_eq!(next.elapsed, turn * 10_000);
                assert_eq!(next.total_mass, 33_000_000_000 - turn * 2_000_000_000);
                state = next;
            }
            other => panic!("turn {} ended with {:?}", turn, other),
        }
    }
    assert_eq!(state.fuel_mass(), 500_000_000);
    let expected = DescentState {
        elapsed: 82_500,
        altitude: 159_328_851_706,
        velocity: -330_323,
        total_mass: 16_500_000_000,
        ..state
    };
    assert_eq!(
        turn_of(state, 200_000),
        TurnOutcome::FuelExhausted { state: expected, residual: 7_500 }
    );
    assert_eq!(expected.fuel_mass(), 0);
}

#[test]
fn an_empty_tank_is_reported_at_once() {
    let start = DescentState { elapsed: 5, ..craft(10_000_000_000, 1_000, 1_000_000_000, 1_000_000_000) };
    assert_eq!(
        turn_of(start, 1),
        TurnOutcome::FuelExhausted { state: start, residual: 10_000 }
    );
    assert_eq!(
        turn_of(start, 200_000),
        TurnOutcome::FuelExhausted { state: start, residual: 10_000 }
    );
}

#[test]
fn free_fall_never_reports_an_empty_tank() {
    let start = DescentState { elapsed: 5, ..craft(10_000_000_000, 1_000, 1_000_000_000, 1_000_000_000) };
    let expected = DescentState {
        elapsed: 10_005,
        altitude: 10_000_000_000 - 1_000 * 10_000 - 100_000_000,
        velocity: 21_000,
        ..start
    };
    assert_eq!(turn_of(start, 0), TurnOutcome::Continuing { state: expected });
    // Whatever the interval.
    let mut interval: u64 = 1;
    while interval <= MAX_INTERVAL {
        let outcome = advance(start, 0, interval).unwrap();
        assert!(!matches!(outcome, TurnOutcome::FuelExhausted { .. }));
        interval = interval * 3 + 1;
    }
}

#[test]
fn fuel_that_does_not_divide_evenly_leaves_less_than_one_tick_burns() {
    // 1,000 units at 300 a tick: three ticks, and 100 units stay.
    let start = DescentState { elapsed: 5, ..craft(10_000_000_000, 1_000, 1_000_001_000, 1_000_000_000) };
    let expected = DescentState {
        elapsed: 8,
        altitude: 9_999_996_995,
        velocity: 1_003,
        total_mass: 1_000_000_100,
        ..start
    };
    assert_eq!(
        turn_of(start, 300),
        TurnOutcome::FuelExhausted { state: expected, residual: 9_997 }
    );
}

#[test]
fn a_tank_that_lasts_exactly_one_turn_is_reported_dry_in_the_next() {
    let start = craft(10_000_000_000, 1_000, 1_000_000_000 + 200_000 * 10_000, 1_000_000_000);
    let expected = DescentState {
        elapsed: 10_000,
        altitude: 25_959_135_680,
        velocity: -3_807_148,
        total_mass: 1_000_000_000,
        ..start
    };
    assert_eq!(turn_of(start, 200_000), TurnOutcome::Continuing { state: expected });
    assert_eq!(
        turn_of(expected, 200_000),
        TurnOutcome::FuelExhausted { state: expected, residual: 10_000 }
    );
}

#[test]
fn free_fall_to_the_surface_destroys_the_craft() {
    let mut state = DescentState::initial();
    let mut turns = 0;
    let velocity = loop {
        turns += 1;
        match turn_of(state, 0) {
            TurnOutcome::Continuing { state: next } => state = next,
            TurnOutcome::Touchdown { state: landed, velocity } => {
                state = landed;
                break velocity;
            }
            other => panic!("free fall ended with {:?}", other),
        }
    };
    assert_eq!(turns, 12);
    // The closed form gives 113.5529 seconds and 1.1135529 miles per second.
    assert_eq!(state.elapsed, 113_552);
    assert_eq!(velocity, 2_227_104);
    assert_eq!(state.velocity, velocity);
    assert_eq!(state.altitude, 0);
    assert_eq!(state.fuel_mass(), 16_500_000_000);
    assert!(velocity > 33_333 * 60);
    assert_eq!(classify(velocity), Verdict::Destroyed);
}

#[test]
fn a_burn_that_holds_the_craft_lands_it_safely() {
    // A hundredth of a mile up at 3.6 miles per hour, with the burn that
    // offsets gravity for a craft of 20,000 pounds.
    let start = craft(20_000_000, 2_000, 20_000_000_000, 16_500_000_000);
    let landed = DescentState {
        elapsed: 10_000,
        altitude: 0,
        velocity: 1_945,
        total_mass: 20_000_000_000 - 11_111 * 10_000,
        ..start
    };
    let outcome = turn_of(start, 11_111);
    assert_eq!(outcome, TurnOutcome::Touchdown { state: landed, velocity: 1_945 });
    assert_eq!(classify(1_945), Verdict::Safe);
}

#[test]
fn a_touchdown_inside_the_turn_is_found_by_halving() {
    let start = craft(3_000_000, 1_000, 20_000_000_000, 16_500_000_000);
    let landed = DescentState {
        elapsed: 2_500,
        altitude: 0,
        velocity: 1_047,
        total_mass: 20_000_000_000 - 11_000 * 2_500,
        ..start
    };
    assert_eq!(turn_of(start, 11_000), TurnOutcome::Touchdown { state: landed, velocity: 1_047 });
    assert_eq!(classify(1_047), Verdict::Safe);
}

#[test]
fn a_hard_touchdown_after_a_short_fall_is_rough() {
    let start = craft(100_000_000, 20_000, 20_000_000_000, 16_500_000_000);
    let landed = DescentState { elapsed: 4_132, altitude: 0, velocity: 28_264, ..start };
    assert_eq!(turn_of(start, 0), TurnOutcome::Touchdown { state: landed, velocity: 28_264 });
    assert_eq!(classify(28_264), Verdict::Rough);
}

#[test]
fn a_craft_that_reaches_the_surface_within_one_tick_lands_in_that_tick() {
    let start = craft(3_000_000, 4_000_000, 20_000_000_000, 16_500_000_000);
    let landed = DescentState { elapsed: 1, altitude: 0, velocity: 4_000_002, ..start };
    assert_eq!(turn_of(start, 0), TurnOutcome::Touchdown { state: landed, velocity: 4_000_002 });
}

#[test]
fn a_turn_of_one_tick() {
    let start = DescentState::initial();
    let expected = DescentState {
        elapsed: 1,
        altitude: 239_998_000_009,
        velocity: 1_999_981,
        total_mass: 33_000_000_000 - 200_000,
        ..start
    };
    assert_eq!(advance(start, 200_000, 1), Ok(TurnOutcome::Continuing { state: expected }));
}

#[test]
fn the_longest_turn() {
    let start = DescentState::initial();
    let outcome = advance(start, 0, MAX_INTERVAL).unwrap();
    let expected = DescentState {
        elapsed: 100_000,
        altitude: 240_000_000_000 - 2_000_000 * 100_000 - 100_000 * 100_000,
        velocity: 2_200_000,
        ..start
    };
    assert_eq!(outcome, TurnOutcome::Continuing { state: expected });
}

#[test]
fn no_burn_rate_ever_fails_to_converge() {
    let mut burn_rate: u64 = 0;
    while burn_rate <= MAX_BURN_RATE {
        let mut state = DescentState::initial();
        let mut rate = burn_rate;
        let mut turns = 0;
        loop {
            assert!(state.is_valid());
            let result = advance(state, rate, DECISION_INTERVAL);
            assert_ne!(result, Err(IntegrationFault::NonConvergence));
            match result.unwrap() {
                TurnOutcome::Continuing { state: next } => state = next,
                TurnOutcome::FuelExhausted { state: next, .. } => {
                    state = next;
                    rate = 0;
                }
                TurnOutcome::Touchdown { .. } => break,
            }
            turns += 1;
            assert!(turns < 1_000);
        }
        burn_rate += 500;
    }
}

#[test]
fn every_turn_keeps_the_state_sound_and_the_books_balanced() {
    let mut burn_rate: u64 = 0;
    while burn_rate <= MAX_BURN_RATE {
        let mut state = DescentState::initial();
        let mut rate = burn_rate;
        loop {
            let outcome = turn_of(state, rate);
            let end = end_of(&outcome);
            let consumed = end.elapsed - state.elapsed;
            // Never negative fuel or mass.
            assert!(end.total_mass >= end.dry_mass);
            assert!(end.dry_mass >= 1);
            // The constants of the session stay.
            assert_eq!((end.dry_mass, end.gravity, end.exhaust), (state.dry_mass, state.gravity, state.exhaust));
            // Time moves on by what was consumed, at most one interval.
            assert!(consumed <= DECISION_INTERVAL);
            if state.fuel_mass() >= rate {
                assert!(consumed >= 1);
            }
            // The mass falls by exactly the burn rate times the time burned.
            assert_eq!(state.total_mass - end.total_mass, rate * consumed);
            match outcome {
                TurnOutcome::Continuing { state: next } => {
                    assert_eq!(consumed, DECISION_INTERVAL);
                    assert!(next.altitude > ALTITUDE_EPSILON);
                    state = next;
                }
                TurnOutcome::FuelExhausted { state: next, residual } => {
                    assert!(rate > 0);
                    assert_eq!(consumed, state.fuel_mass() / rate);
                    assert_eq!(residual, DECISION_INTERVAL - consumed);
                    assert!(residual >= 1);
                    assert!(next.fuel_mass() < rate);
                    state = next;
                    rate = 0;
                }
                TurnOutcome::Touchdown { state: landed, velocity } => {
                    assert_eq!(landed.altitude, 0);
                    assert_eq!(landed.velocity, velocity);
                    assert!(consumed >= 1);
                    break;
                }
            }
        }
        burn_rate += 2_500;
    }
}

#[test]
fn the_same_turn_twice_gives_the_same_outcome() {
    let start = craft(100_000_000, 20_000, 20_000_000_000, 16_500_000_000);
    assert_eq!(advance(start, 123_456, 9_999), advance(start, 123_456, 9_999));
}

#[test]
fn the_clamp_leaves_a_burn_that_the_tank_can_feed() {
    let state = craft(10_000_000_000, 1_000, 1_000_001_000, 1_000_000_000);
    assert_eq!(clamp_to_fuel(&state, 0, 10_000), 10_000);
    assert_eq!(clamp_to_fuel(&state, 1, 1_000), 1_000);
    assert_eq!(clamp_to_fuel(&state, 1, 1_001), 1_000);
    assert_eq!(clamp_to_fuel(&state, 300, 10_000), 3);
    assert_eq!(clamp_to_fuel(&state, 300, 3), 3);
    assert_eq!(clamp_to_fuel(&state, 300, 2), 2);
    assert_eq!(clamp_to_fuel(&state, 1_001, 10_000), 0);
    assert_eq!(clamp_to_fuel(&state, u64::MAX, u64::MAX), 0);
    assert_eq!(clamp_to_fuel(&state, 0, u64::MAX), u64::MAX);
}

#[test]
fn the_clamp_gives_the_time_at_which_the_fuel_is_spent() {
    // 16,500 pounds at 200 pounds per second: 82.5 seconds.
    let state = DescentState::initial();
    assert_eq!(clamp_to_fuel(&state, 200_000, 100_000), 82_500);
    assert_eq!(clamp_to_fuel(&state, 200_000, 10_000), 10_000);
}
