use lunar::estimate::{f420, Candidate};
use lunar::state::DescentState;

fn craft(altitude: u64, velocity: i64, total_mass: u64, dry_mass: u64) -> DescentState {
    DescentState {
        elapsed: 0,
        altitude,
        velocity,
        total_mass,
        dry_mass,
        gravity: 2,
        exhaust: 3_600_000,
    }
}

#[test]
fn free_fall_for_ten_seconds_follows_gravity_alone() {
    // 120 miles up at one mile per second: ten seconds of free fall add a
    // hundredth of a mile per second and take 10.05 miles.
    let state = DescentState::initial();
    let candidate = f420(&state, 0, 10_000);
    assert_eq!(candidate.velocity, 2_000_000 + 2 * 10_000);
    assert_eq!(candidate.altitude, 240_000_000_000 - 2_000_000 * 10_000 - 2 * 10_000 * 10_000 / 2);
    assert_eq!(candidate, Candidate { altitude: 219_900_000_000, velocity: 2_020_000 });
}

#[test]
fn a_span_of_zero_changes_nothing() {
    let state = DescentState::initial();
    assert_eq!(
        f420(&state, 200_000, 0),
        Candidate { altitude: 240_000_000_000, velocity: 2_000_000 }
    );
    assert_eq!(f420(&state, 0, 0), Candidate { altitude: 240_000_000_000, velocity: 2_000_000 });
}

#[test]
fn burning_half_the_mass_follows_the_series() {
    // Half of 20,000 pounds burned in 100 seconds: the burned share is one
    // half, its powers a quarter, an eighth, a sixteenth and a thirty-second.
    // Velocity series: 500000000 + 125000000 + 41666666 + 15625000 + 6250000.
    // Altitude series: 250000000 + 41666666 + 10416666 + 3125000 + 1041666.
    let state = craft(1_000_000_000, 0, 20_000_000_000, 10_000_000_000);
    let candidate = f420(&state, 100_000, 100_000);
    let loss: i128 = 3_600_000 * 688_541_666 / 1_000_000_000;
    let lift: i128 = 3_600_000 * 100_000 * 306_249_998 / 1_000_000_000;
    assert_eq!(loss, 2_478_749);
    assert_eq!(lift, 110_249_999_280);
    assert_eq!(candidate.velocity, 2 * 100_000 - loss);
    assert_eq!(candidate.altitude, 1_000_000_000 - 10_000_000_000 + lift);
    assert_eq!(candidate, Candidate { altitude: 101_249_999_280, velocity: -2_278_749 });
}

#[test]
fn a_full_burn_for_ten_seconds_brakes_the_fall() {
    let state = DescentState::initial();
    let burning = f420(&state, 200_000, 10_000);
    let falling = f420(&state, 0, 10_000);
    assert_eq!(burning, Candidate { altitude: 221_013_640_668, velocity: 1_794_927 });
    assert!(burning.velocity < falling.velocity);
    assert!(burning.altitude > falling.altitude);
}

#[test]
fn a_full_burn_for_one_tick() {
    let state = DescentState::initial();
    assert_eq!(
        f420(&state, 200_000, 1),
        Candidate { altitude: 239_998_000_009, velocity: 1_999_981 }
    );
}

#[test]
fn a_craft_that_would_pass_the_surface_ends_below_it() {
    // Five miles up at one mile per second: ten seconds take 10.05 miles.
    let state = craft(10_000_000_000, 2_000_000, 33_000_000_000, 16_500_000_000);
    assert_eq!(f420(&state, 0, 10_000), Candidate { altitude: -10_100_000_000, velocity: 2_020_000 });
}

#[test]
fn a_rising_craft_gains_height() {
    let state = craft(1_000, -500, 33_000_000_000, 16_500_000_000);
    // Up by 500 a tick for 100 ticks, less the fall of 2 * 100 * 100 / 2.
    assert_eq!(f420(&state, 0, 100), Candidate { altitude: 1_000 + 50_000 - 10_000, velocity: -300 });
}

#[test]
fn the_last_drop_of_fuel_can_be_burned() {
    let state = craft(10_000_000_000, 1_000, 1_000_001_000, 1_000_000_000);
    // 900 of the 1,000 units of fuel in three ticks: too little to brake.
    assert_eq!(f420(&state, 300, 3), Candidate { altitude: 9_999_996_995, velocity: 1_003 });
}
