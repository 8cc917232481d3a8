//! Tests of the scenario optimizer sweep.

use vault::errors::ArithmeticError;
use vault::fixed_point::FixedPoint;
use vault::optimizer::get_simulation;

const E18: u128 = 1_000_000_000_000_000_000;

#[test]
fn sweep_single_candidate() {
    // One candidate draw trigger, 181%: one sample, which is therefore the
    // best, with the exact integer score of that configuration.
    let increase = FixedPoint::from_u128(3 * E18 / 2, 18);
    let friction = FixedPoint::from_u128(0, 18);
    let scenario = get_simulation(180, increase, friction, 1).unwrap();
    assert_eq!(scenario.results.len(), 1);
    assert_eq!(scenario.results[0].max_ratio, 181);
    assert_eq!(scenario.best_result.max_ratio, 181);
    assert_eq!(scenario.best_result.increase.raw.hi, 0);
    assert_eq!(scenario.best_result.increase.raw.lo, 2_482_247_328_589_923_493);
    assert_eq!(scenario.no_boost_increase.raw.lo, 2_125_000_000_000_000_000);
    assert_eq!(scenario.boost_ratio, 180);
}

#[test]
fn sweep_candidates_are_consecutive() {
    let increase = FixedPoint::from_u128(3 * E18 / 2, 18);
    let friction = FixedPoint::from_u128(0, 18);
    let scenario = get_simulation(180, increase, friction, 5).unwrap();
    assert_eq!(scenario.results.len(), 5);
    for (i, sample) in scenario.results.iter().enumerate() {
        assert_eq!(sample.max_ratio, 181 + i);
    }
    // The best sample is one of the recorded ones, found by strict
    // comparison.
    let best = &scenario.best_result;
    assert!(scenario
        .results
        .iter()
        .any(|s| s.max_ratio == best.max_ratio));
    for sample in &scenario.results {
        assert!(!best.increase.raw.lt(&sample.increase.raw));
    }
}

#[test]
fn sweep_empty_span() {
    let increase = FixedPoint::from_u128(3 * E18 / 2, 18);
    let friction = FixedPoint::from_u128(0, 18);
    let scenario = get_simulation(180, increase, friction, 0).unwrap();
    assert_eq!(scenario.results.len(), 0);
    assert_eq!(scenario.best_result.max_ratio, 180);
    assert_eq!(scenario.best_result.increase.raw.lo, 0);
    assert_eq!(scenario.no_boost_increase.raw.lo, 0);
}

#[test]
fn sweep_baseline_boost_divides_by_zero() {
    // A 100% boost hypothesis gives the baseline vault a net value of
    // exactly zero, so scoring the first sample divides by zero.
    let increase = FixedPoint::from_u128(3 * E18 / 2, 18);
    let friction = FixedPoint::from_u128(0, 18);
    assert!(matches!(
        get_simulation(100, increase, friction, 1),
        Err(ArithmeticError::DivideByZero)
    ));
}

#[test]
fn sweep_underwater_boost_underflows() {
    // A 50% boost hypothesis builds an underwater baseline vault: its net
    // value is negative, which the unsigned engine reports as underflow.
    let increase = FixedPoint::from_u128(3 * E18 / 2, 18);
    let friction = FixedPoint::from_u128(0, 18);
    assert!(matches!(
        get_simulation(50, increase, friction, 1),
        Err(ArithmeticError::Underflow)
    ));
}

#[test]
fn sweep_with_friction_scores_lower() {
    let increase = FixedPoint::from_u128(3 * E18 / 2, 18);
    let no_friction = FixedPoint::from_u128(0, 18);
    let friction = FixedPoint::from_u128(3 * 10_000_000_000_000_000, 18);
    let free = get_simulation(180, increase, no_friction, 1).unwrap();
    let costly = get_simulation(180, increase, friction, 1).unwrap();
    assert!(costly.best_result.increase.lt(&free.best_result.increase));
}
