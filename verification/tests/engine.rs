//! Exact-value tests of the vault rebalancing engine.

use vault::errors::ArithmeticError;
use vault::fixed_point::FixedPoint;
use vault::uint256::Uint256;
use vault::vault::Erc20Token;
use vault::vault::FrictionMode;
use vault::vault::Vault;

const E18: u128 = 1_000_000_000_000_000_000;
const E16: u128 = 10_000_000_000_000_000;

fn weth_token() -> Erc20Token {
    Erc20Token {
        name: String::from("Wrapped Ether"),
        symbol: String::from("WETH"),
        decimals: 18,
        address: [0u8; 20],
    }
}

/// A vault of 180 collateral against 10000 debt (both 18-decimal), with a
/// 100% repay trigger and a 220% draw trigger.
fn base_vault() -> Vault {
    Vault {
        subscribed: true,
        min_ratio: FixedPoint::from_u128(100 * E16, 16),
        max_ratio: FixedPoint::from_u128(220 * E16, 16),
        repay_ratio: FixedPoint::from_u128(180 * E16, 16),
        boost_ratio: FixedPoint::from_u128(180 * E16, 16),
        owner: [0u8; 20],
        collateral: FixedPoint::from_u128(180 * E18, 18),
        debt: FixedPoint::from_u128(10_000 * E18, 18),
        token: weth_token(),
    }
}

/// The same vault with a 160% repay trigger, so the repay path has room to
/// work in.
fn repay_vault() -> Vault {
    let mut v = base_vault();
    v.min_ratio = FixedPoint::from_u128(160 * E16, 16);
    v
}

fn assert_fp(value: &FixedPoint, expected: u128, decimals: usize) {
    assert_eq!(value.raw.hi, 0);
    assert_eq!(value.raw.lo, expected);
    assert_eq!(value.decimals, decimals);
}

#[test]
fn up_price_exact() {
    let v = base_vault();
    let up = v.get_up_price().unwrap();
    // 10000e18 * 220e16 / 180e18, truncating.
    assert_fp(&up, 122_222_222_222_222_222_222, 18);
}

#[test]
fn down_price_exact() {
    let v = base_vault();
    let down = v.get_down_price().unwrap();
    assert_fp(&down, 55_555_555_555_555_555_555, 18);
}

#[test]
fn zero_collateral_divides_by_zero() {
    let mut v = base_vault();
    v.collateral = FixedPoint::from_u128(0, 18);
    assert!(matches!(v.get_up_price(), Err(ArithmeticError::DivideByZero)));
    assert!(matches!(v.get_down_price(), Err(ArithmeticError::DivideByZero)));
}

#[test]
fn dai_value_exact() {
    let v = base_vault();
    let price = FixedPoint::from_u128(100 * E18, 18);
    // 100e18 * 180e18 / 1e18 - 10000e18 == 8000e18.
    let dv = v.get_dai_value(&price).unwrap();
    assert_fp(&dv, 8_000 * E18, 18);
}

#[test]
fn dai_value_underwater_is_underflow() {
    let v = base_vault();
    let price = FixedPoint::from_u128(50 * E18, 18);
    // 50 * 180 == 9000 < 10000: the position is underwater.
    assert!(matches!(v.get_dai_value(&price), Err(ArithmeticError::Underflow)));
}

#[test]
fn col_value_exact() {
    let v = base_vault();
    let price = FixedPoint::from_u128(100 * E18, 18);
    // net value 8000e18 dai == 80e18 collateral at price 100.
    let cv = v.get_col_value(&price).unwrap();
    assert_fp(&cv, 80 * E18, 18);
}

#[test]
fn value_round_trip_recovers_collateral() {
    // With no debt, dai value then col value recovers the collateral
    // exactly here (and within one unit in general).
    let mut v = base_vault();
    v.debt = FixedPoint::from_u128(0, 18);
    let price = FixedPoint::from_u128(100 * E18, 18);
    let cv = v.get_col_value(&price).unwrap();
    assert_fp(&cv, 180 * E18, 18);
}

#[test]
fn value_round_trip_truncation_loses_one_unit() {
    // One raw unit of collateral at price 1.5: the dai value truncates to
    // 1, and back to collateral units truncates to 0 — one unit below the
    // true collateral.
    let mut v = base_vault();
    v.debt = FixedPoint::from_u128(0, 18);
    v.collateral = FixedPoint::from_u128(1, 18);
    let price = FixedPoint::from_u128(3 * E18 / 2, 18);
    let dv = v.get_dai_value(&price).unwrap();
    assert_fp(&dv, 1, 18);
    let cv = v.get_col_value(&price).unwrap();
    assert_fp(&cv, 0, 18);
}

#[test]
fn up_dai_to_draw_exact() {
    let v = base_vault();
    let draw = v.get_up_dai_to_draw().unwrap();
    assert_fp(&draw, 4_999_999_999_999_999_999_950, 18);
}

#[test]
fn boost_ratio_at_baseline_underflows() {
    let mut v = base_vault();
    v.boost_ratio = FixedPoint::from_u128(100 * E16, 16);
    assert!(matches!(v.get_up_dai_to_draw(), Err(ArithmeticError::Underflow)));
    v.boost_ratio = FixedPoint::from_u128(50 * E16, 16);
    assert!(matches!(v.get_up_dai_to_draw(), Err(ArithmeticError::Underflow)));
}

#[test]
fn repay_ratio_at_baseline_underflows() {
    let mut v = repay_vault();
    v.repay_ratio = FixedPoint::from_u128(100 * E16, 16);
    assert!(matches!(v.get_down_dai_to_payback(), Err(ArithmeticError::Underflow)));
}

#[test]
fn up_vault_exact() {
    let v = base_vault();
    let up = v.get_up_vault().unwrap();
    assert_fp(&up.collateral, 220_909_090_909_090_909_090, 18);
    assert_fp(&up.debt, 14_999_999_999_999_999_999_950, 18);
    // Policy fields are untouched.
    assert_eq!(up.max_ratio.raw.lo, 220 * E16);
    assert_eq!(up.token.symbol, "WETH");
    assert!(up.subscribed);
}

#[test]
fn down_dai_to_payback_exact() {
    let v = repay_vault();
    let payback = v.get_down_dai_to_payback().unwrap();
    assert_fp(&payback, 2_500_000_000_000_000_000_200, 18);
}

#[test]
fn down_vault_exact() {
    let v = repay_vault();
    let down = v.get_down_vault().unwrap();
    assert_fp(&down.collateral, 151_874_999_999_999_999_998, 18);
    assert_fp(&down.debt, 7_499_999_999_999_999_999_800, 18);
}

#[test]
fn vault_info_snapshot() {
    let v = base_vault();
    let info = v.get_vault_info();
    assert_eq!(info.col.raw.lo, 180 * E18);
    assert_eq!(info.debt.raw.lo, 10_000 * E18);
}

#[test]
fn predict_in_band_charges_friction_once() {
    // Price 100 lies between the triggers (55.5 and 122.2): the vault is
    // returned unchanged but for one (1 - 0.03) scaling of both amounts.
    let v = base_vault();
    let price = FixedPoint::from_u128(100 * E18, 18);
    let friction = FixedPoint::from_u128(3 * E16, 18);
    let settled = v.predict_vault(&price, &friction).unwrap();
    assert_fp(&settled.collateral, 174_600_000_000_000_000_000, 18);
    assert_fp(&settled.debt, 9_700_000_000_000_000_000_000, 18);
    // With a single charge both friction modes agree in the band.
    let once = v
        .predict_vault_with_mode(&price, &friction, FrictionMode::Once)
        .unwrap();
    assert_fp(&once.collateral, 174_600_000_000_000_000_000, 18);
    assert_fp(&once.debt, 9_700_000_000_000_000_000_000, 18);
}

#[test]
fn predict_far_price_draws_until_in_band() {
    // A price far above the draw trigger takes exactly enough draw steps
    // that the settled vault's recomputed band contains it.
    let v = base_vault();
    let price = FixedPoint::from_u128(10_000 * E18, 18);
    let friction = FixedPoint::from_u128(0, 18);
    let settled = v.predict_vault(&price, &friction).unwrap();
    assert_eq!(settled.collateral.raw.hi, 0);
    assert_eq!(settled.collateral.raw.lo, 16_292_072_667_926_815_855_273);
    assert_eq!(settled.debt.raw.lo, 74_818_276_426_792_144_773_227_418);
    let up_after = settled.get_up_price().unwrap();
    let down_after = settled.get_down_price().unwrap();
    assert_eq!(up_after.raw.lo, 10_103_085_807_061_298_592_226);
    assert!(!up_after.raw.lt(&price.raw));
    assert!(!price.raw.lt(&down_after.raw));
}

#[test]
fn predict_repays_until_in_band() {
    // A price below the repay trigger (88.9 for the 160% vault) takes
    // three repay steps; per-step friction of 1% is then charged four
    // times.
    let v = repay_vault();
    let price = FixedPoint::from_u128(70 * E18, 18);
    let friction = FixedPoint::from_u128(E16, 18);
    let settled = v.predict_vault(&price, &friction).unwrap();
    assert_fp(&settled.collateral, 103_861_512_074_871_826_168, 18);
    assert_fp(&settled.debt, 4_052_514_417_187_499_999_746, 18);
}

#[test]
fn friction_once_charges_a_single_scaling() {
    let v = repay_vault();
    let price = FixedPoint::from_u128(70 * E18, 18);
    let friction = FixedPoint::from_u128(E16, 18);
    let settled = v
        .predict_vault_with_mode(&price, &friction, FrictionMode::Once)
        .unwrap();
    assert_fp(&settled.collateral, 107_040_728_759_765_624_997, 18);
    assert_fp(&settled.debt, 4_176_562_499_999_999_999_740, 18);
}

#[test]
fn predict_zero_friction_settles_in_band() {
    let v = repay_vault();
    let price = FixedPoint::from_u128(70 * E18, 18);
    let friction = FixedPoint::from_u128(0, 18);
    let settled = v.predict_vault(&price, &friction).unwrap();
    let up_after = settled.get_up_price().unwrap();
    let down_after = settled.get_down_price().unwrap();
    assert!(!up_after.raw.lt(&price.raw));
    assert!(!price.raw.lt(&down_after.raw));
}

#[test]
fn predict_bad_boost_ratio_underflows() {
    // Above the draw trigger with a boost ratio at the 100% baseline, the
    // draw step's final-debt computation underflows.
    let mut v = base_vault();
    v.boost_ratio = FixedPoint::from_u128(100 * E16, 16);
    let price = FixedPoint::from_u128(200 * E18, 18);
    let friction = FixedPoint::from_u128(0, 18);
    assert!(matches!(
        v.predict_vault(&price, &friction),
        Err(ArithmeticError::Underflow)
    ));
}

#[test]
fn predict_zero_debt_divides_by_zero() {
    // With no debt the draw trigger is zero, so the draw step divides the
    // collateral equivalent by a zero price.
    let mut v = base_vault();
    v.debt = FixedPoint::from_u128(0, 18);
    let price = FixedPoint::from_u128(100 * E18, 18);
    let friction = FixedPoint::from_u128(0, 18);
    assert!(matches!(
        v.predict_vault(&price, &friction),
        Err(ArithmeticError::DivideByZero)
    ));
}

#[test]
fn predict_no_progress_reports_no_convergence() {
    // One raw unit of debt: the draw step truncates to drawing nothing, so
    // the iteration makes no progress and gives up.
    let mut v = base_vault();
    v.debt = FixedPoint::from_u128(1, 18);
    v.collateral = FixedPoint::from_u128(E18, 18);
    let price = FixedPoint::from_u128(10, 18);
    let friction = FixedPoint::from_u128(0, 18);
    assert!(matches!(
        v.predict_vault(&price, &friction),
        Err(ArithmeticError::NoConvergence)
    ));
}

#[test]
fn predict_friction_above_one_underflows() {
    let v = base_vault();
    let price = FixedPoint::from_u128(100 * E18, 18);
    let friction = FixedPoint::from_u128(2 * E18, 18);
    assert!(matches!(
        v.predict_vault(&price, &friction),
        Err(ArithmeticError::Underflow)
    ));
}

#[test]
fn huge_product_overflows() {
    // A price and a collateral that together exceed the 256-bit range.
    let mut v = base_vault();
    v.collateral = FixedPoint::from_raw(Uint256 { hi: u128::MAX, lo: 0 }, 18);
    let price = FixedPoint::from_raw(Uint256 { hi: u128::MAX, lo: 0 }, 18);
    assert!(matches!(v.get_dai_value(&price), Err(ArithmeticError::Overflow)));
}

#[test]
fn duplicate_copies_every_field() {
    let v = base_vault();
    let copy = v.duplicate();
    assert_eq!(copy.subscribed, v.subscribed);
    assert_eq!(copy.collateral.raw.lo, v.collateral.raw.lo);
    assert_eq!(copy.debt.raw.lo, v.debt.raw.lo);
    assert_eq!(copy.token.name, v.token.name);
    assert_eq!(copy.token.decimals, v.token.decimals);
    assert_eq!(copy.owner, v.owner);
}
