//! The scenario optimizer: a sweep over draw-trigger ratios.
//!
//! For one boost-ratio hypothesis, [`get_simulation`] builds a synthetic
//! baseline vault leveraged exactly to that ratio, simulates a price move,
//! and runs the rebalancing engine once for every candidate draw-trigger
//! ratio in a range, scoring each configuration by the growth of the
//! vault's net value.  A configuration on which the engine fails is scored
//! as a total loss (an increase of zero) rather than aborting the sweep.

use vstd::prelude::*;

use crate::errors::ArithmeticError;
use crate::fixed_point::spec_mul;
use crate::fixed_point::FixedPoint;
use crate::fixed_point::FixedPointView;
use crate::uint256::pow10;
use crate::uint256::two_pow_256;
use crate::uint256::Uint256;
use crate::vault::Erc20Token;
use crate::vault::Erc20TokenView;
use crate::vault::FrictionMode;
use crate::vault::Vault;
use crate::vault::VaultView;
use crate::vault::MAX_SETTLE_STEPS;

verus! {

broadcast use vstd::array::group_array_axioms;

/// One sample point of a sweep: a candidate draw-trigger ratio (an integer
/// percentage) and the net-value growth it produced, as an 18-decimal
/// multiplier.
#[derive(Clone, Copy, Debug)]
pub struct ScenarioResult {
    /// The candidate draw-trigger ratio, in integer percent.
    pub max_ratio: usize,
    /// The net-value growth of this configuration, as an 18-decimal
    /// fixed-point multiplier.
    pub increase: FixedPoint,
}

/// The mathematical content of a [`ScenarioResult`].
pub struct ScenarioResultView {
    /// The candidate draw-trigger ratio, in integer percent.
    pub max_ratio: nat,
    /// The net-value growth multiplier.
    pub increase: FixedPointView,
}

impl View for ScenarioResult {
    type V = ScenarioResultView;

    open spec fn view(&self) -> ScenarioResultView {
        ScenarioResultView { max_ratio: self.max_ratio as nat, increase: self.increase@ }
    }
}

/// The aggregate of one full sweep for one boost-ratio hypothesis.
#[derive(Debug)]
pub struct Scenario {
    /// All sample points, in sweep order.
    pub results: Vec<ScenarioResult>,
    /// The sample with the greatest increase; the earliest wins ties.
    pub best_result: ScenarioResult,
    /// The boost-ratio hypothesis, in integer percent.
    pub boost_ratio: usize,
    /// The simulated price move, as an 18-decimal multiplier.
    pub price_increase: FixedPoint,
    /// The growth the vault's net value would see with no intervention, as
    /// an 18-decimal multiplier.
    pub no_boost_increase: FixedPoint,
    /// The friction charged per settlement, as an 18-decimal fraction.
    pub friction: FixedPoint,
}

/// The mathematical content of a [`Scenario`].
#[verifier::ext_equal]
pub struct ScenarioView {
    /// All sample points, in sweep order.
    pub results: Seq<ScenarioResultView>,
    /// The sample with the greatest increase; the earliest wins ties.
    pub best_result: ScenarioResultView,
    /// The boost-ratio hypothesis, in integer percent.
    pub boost_ratio: nat,
    /// The simulated price move.
    pub price_increase: FixedPointView,
    /// The no-intervention growth multiplier.
    pub no_boost_increase: FixedPointView,
    /// The friction charged per settlement.
    pub friction: FixedPointView,
}

impl View for Scenario {
    type V = ScenarioView;

    open spec fn view(&self) -> ScenarioView {
        ScenarioView {
            results: self.results@.map_values(|r: ScenarioResult| r@),
            best_result: self.best_result@,
            boost_ratio: self.boost_ratio as nat,
            price_increase: self.price_increase@,
            no_boost_increase: self.no_boost_increase@,
            friction: self.friction@,
        }
    }
}

/// Maps a fallible scenario result to its mathematical content.
pub open spec fn scenario_result(r: Result<Scenario, ArithmeticError>) -> Result<
    ScenarioView,
    ArithmeticError,
> {
    match r {
        Ok(s) => Ok(s@),
        Err(e) => Err(e),
    }
}

/// A 20-byte address of zeroes, the placeholder owner of synthetic vaults.
pub open spec fn zeroed_address() -> Seq<u8> {
    Seq::new(20, |i: int| 0u8)
}

/// An increase of zero, the score of a failed configuration.
pub open spec fn zero_increase() -> FixedPointView {
    FixedPointView { raw: 0, decimals: 18 }
}

/// The sample a sweep's best result starts from: the boost-ratio hypothesis
/// itself with an increase of zero, so any sample with a positive increase
/// displaces it.
pub open spec fn initial_best(boost: nat) -> ScenarioResultView {
    ScenarioResultView { max_ratio: boost, increase: zero_increase() }
}

/// The synthetic base price of every sweep: 100, in 18 decimals.
pub open spec fn start_price() -> FixedPointView {
    FixedPointView { raw: 100 * pow10(18), decimals: 18 }
}

/// The synthetic baseline vault of a sweep: a fixed placeholder debt, and
/// collateral sized so that at the base price the vault sits exactly at the
/// boost-ratio hypothesis.
pub open spec fn simulation_vault(boost: nat) -> VaultView {
    VaultView {
        subscribed: true,
        min_ratio: FixedPointView { raw: 100 * pow10(16), decimals: 16 },
        max_ratio: FixedPointView { raw: 220 * pow10(16), decimals: 16 },
        repay_ratio: FixedPointView { raw: 180 * pow10(16), decimals: 16 },
        boost_ratio: FixedPointView { raw: boost * pow10(16), decimals: 16 },
        owner: zeroed_address(),
        collateral: FixedPointView {
            raw: 10000 * pow10(18) * (boost * pow10(16)) / (100 * pow10(18)),
            decimals: 18,
        },
        debt: FixedPointView { raw: 10000 * pow10(18), decimals: 18 },
        token: Erc20TokenView {
            name: Seq::empty(),
            symbol: Seq::empty(),
            decimals: 18,
            address: zeroed_address(),
        },
    }
}

/// The best sample of a sequence by strict comparison of increases: a later
/// sample displaces the best so far only when strictly greater, so the
/// earliest of equal samples wins.
pub open spec fn best_of(results: Seq<ScenarioResultView>, init: ScenarioResultView)
    -> ScenarioResultView
    decreases results.len(),
{
    if results.len() == 0 {
        init
    } else {
        let prev = best_of(results.drop_last(), init);
        if results.last().increase.raw > prev.increase.raw {
            results.last()
        } else {
            prev
        }
    }
}

/// The first `count` samples of a sweep: the `i`-th candidate (1-based) is
/// the draw-trigger ratio `boost + i` percent; its score is the settled
/// vault's net value at the target price, divided by `base` — or zero when
/// the engine fails on it.
pub open spec fn sweep_results(
    base_vault: VaultView,
    up_target: FixedPointView,
    friction: nat,
    base: nat,
    boost: nat,
    count: nat,
) -> Result<Seq<ScenarioResultView>, ArithmeticError>
    decreases count,
{
    if count == 0 {
        Ok(Seq::empty())
    } else {
        match sweep_results(base_vault, up_target, friction, base, boost, (count - 1) as nat) {
            Err(e) => Err(e),
            Ok(prefix) => {
                let candidate = boost + count;
                let v = VaultView {
                    max_ratio: FixedPointView { raw: candidate * pow10(16), decimals: 16 },
                    ..base_vault
                };
                let dai_or: Result<nat, ArithmeticError> = match v.predict(
                    up_target.raw,
                    friction,
                    FrictionMode::PerStep,
                    MAX_SETTLE_STEPS as nat,
                ) {
                    Ok(settled) => match settled.dai_value(up_target) {
                        Ok(dv) => Ok(dv.raw),
                        Err(e) => Err(e),
                    },
                    Err(_) => Ok(0),
                };
                match dai_or {
                    Err(e) => Err(e),
                    Ok(dai) => if dai * pow10(18) >= two_pow_256() {
                        Err(ArithmeticError::Overflow)
                    } else if base == 0 {
                        Err(ArithmeticError::DivideByZero)
                    } else {
                        Ok(
                            prefix.push(
                                ScenarioResultView {
                                    max_ratio: candidate,
                                    increase: FixedPointView {
                                        raw: dai * pow10(18) / base,
                                        decimals: 18,
                                    },
                                },
                            ),
                        )
                    },
                }
            },
        }
    }
}

/// The scenario [`get_simulation`] returns: empty for a span of zero, and
/// otherwise the full sweep over the candidates `boost + 1 ..= boost + end`,
/// its best sample, and the no-intervention growth `base_up / base`.
pub open spec fn spec_simulation(
    boost: nat,
    price_increase: FixedPointView,
    friction: FixedPointView,
    end: nat,
) -> Result<ScenarioView, ArithmeticError> {
    if end < 1 {
        Ok(
            ScenarioView {
                results: Seq::empty(),
                best_result: initial_best(boost),
                boost_ratio: boost,
                price_increase,
                no_boost_increase: zero_increase(),
                friction,
            },
        )
    } else {
        let v = simulation_vault(boost);
        match spec_mul(start_price(), price_increase) {
            Err(e) => Err(e),
            Ok(up_target) => match v.dai_value(start_price()) {
                Err(e) => Err(e),
                Ok(base) => match v.dai_value(up_target) {
                    Err(e) => Err(e),
                    Ok(base_up) => match sweep_results(
                        v,
                        up_target,
                        friction.raw,
                        base.raw,
                        boost,
                        end,
                    ) {
                        Err(e) => Err(e),
                        Ok(results) => if base_up.raw * pow10(18) >= two_pow_256() {
                            Err(ArithmeticError::Overflow)
                        } else if base.raw == 0 {
                            Err(ArithmeticError::DivideByZero)
                        } else {
                            Ok(
                                ScenarioView {
                                    results,
                                    best_result: best_of(results, initial_best(boost)),
                                    boost_ratio: boost,
                                    price_increase,
                                    no_boost_increase: FixedPointView {
                                        raw: base_up.raw * pow10(18) / base.raw,
                                        decimals: 18,
                                    },
                                    friction,
                                },
                            )
                        },
                    },
                },
            },
        }
    }
}

/// Once one sweep sample fails, every longer sweep fails the same way.
proof fn lemma_sweep_error_persists(
    base_vault: VaultView,
    up_target: FixedPointView,
    friction: nat,
    base: nat,
    boost: nat,
    k: nat,
    n: nat,
)
    requires
        k <= n,
        sweep_results(base_vault, up_target, friction, base, boost, k) is Err,
    ensures
        sweep_results(base_vault, up_target, friction, base, boost, n) == sweep_results(
            base_vault,
            up_target,
            friction,
            base,
            boost,
            k,
        ),
    decreases n,
{
    if n > k {
        lemma_sweep_error_persists(base_vault, up_target, friction, base, boost, k, (n - 1) as nat);
    }
}

/// Sweeps the candidate draw-trigger ratios `boost_ratio + 1` through
/// `boost_ratio + end` percent: for each, the baseline vault is given that
/// draw trigger, the rebalancing engine is run against the moved price, and
/// the configuration is scored by the growth of the vault's net value —
/// zero when the engine fails on it.  Returns the samples in sweep order,
/// the best of them by strict comparison (the earliest of equal scores
/// wins), and the no-intervention growth.
///
/// The result is exactly [`spec_simulation`] of the arguments.
pub fn get_simulation(
    boost_ratio: usize,
    price_increase: FixedPoint,
    friction: FixedPoint,
    end: usize,
) -> (r: Result<Scenario, ArithmeticError>)
    requires
        price_increase@.decimals == 18,
        boost_ratio + end <= usize::MAX,
    ensures
        scenario_result(r) == spec_simulation(
            boost_ratio as nat,
            price_increase@,
            friction@,
            end as nat,
        ),
{
    let zero_fp = FixedPoint::from_u128(0, 18);
    let mut scenario = Scenario {
        results: Vec::new(),
        best_result: ScenarioResult { max_ratio: boost_ratio, increase: zero_fp },
        boost_ratio,
        price_increase,
        no_boost_increase: zero_fp,
        friction,
    };
    if end < 1 {
        proof {
            assert(scenario@.results =~= Seq::<ScenarioResultView>::empty());
            assert(scenario@ =~= (ScenarioView {
                results: Seq::empty(),
                best_result: initial_best(boost_ratio as nat),
                boost_ratio: boost_ratio as nat,
                price_increase: price_increase@,
                no_boost_increase: zero_increase(),
                friction: friction@,
            }));
        }
        return Ok(scenario);
    }
    proof {
        reveal_with_fuel(pow10, 20);
    }
    let start = FixedPoint::from_u128(100_000_000_000_000_000_000u128, 18);
    let up_target = match start.mul(&price_increase) {
        Ok(u) => u,
        Err(e) => {
            return Err(e);
        },
    };
    let boost_raw: u128 = {
        proof {
            assert((boost_ratio as u128) * 10_000_000_000_000_000 <= 18446744073709551615u128
                * 10_000_000_000_000_000) by (nonlinear_arith)
                requires
                    boost_ratio as u128 <= 18446744073709551615u128,
            ;
        }
        (boost_ratio as u128) * 10_000_000_000_000_000u128
    };
    let debt_fp = FixedPoint::from_u128(10_000_000_000_000_000_000_000u128, 18);
    let boost_fp = FixedPoint::from_u128(boost_raw, 16);
    proof {
        assert(debt_fp@.raw * boost_fp@.raw <= 10_000_000_000_000_000_000_000
            * 184467440737095516150000000000000000nat) by (nonlinear_arith)
            requires
                debt_fp@.raw == 10_000_000_000_000_000_000_000nat,
                boost_fp@.raw <= 184467440737095516150000000000000000nat,
        ;
    }
    let collateral_product = debt_fp.raw.checked_mul(&boost_fp.raw).unwrap();
    let collateral_raw = collateral_product.checked_div(&start.raw).unwrap();
    let mut vault = Vault {
        subscribed: true,
        min_ratio: FixedPoint::from_u128(1_000_000_000_000_000_000u128, 16),
        max_ratio: FixedPoint::from_u128(2_200_000_000_000_000_000u128, 16),
        repay_ratio: FixedPoint::from_u128(1_800_000_000_000_000_000u128, 16),
        boost_ratio: boost_fp,
        owner: [0u8; 20],
        collateral: FixedPoint::from_raw(collateral_raw, 18),
        debt: debt_fp,
        token: Erc20Token {
            name: String::new(),
            symbol: String::new(),
            decimals: 18,
            address: [0u8; 20],
        },
    };
    proof {
        assert(vault@.owner =~= zeroed_address());
        assert(vault@.token.address =~= zeroed_address());
        assert(vault@ =~= simulation_vault(boost_ratio as nat));
    }
    let base = match vault.get_dai_value(&start) {
        Ok(b) => b,
        Err(e) => {
            return Err(e);
        },
    };
    let base_up = match vault.get_dai_value(&up_target) {
        Ok(b) => b,
        Err(e) => {
            return Err(e);
        },
    };
    let unit = Uint256::exp10(18);
    proof {
        assert(scenario@.results =~= Seq::<ScenarioResultView>::empty());
    }
    let mut i: usize = 0;
    while i < end
        invariant
            i <= end,
            1 <= end,
            boost_ratio + end <= usize::MAX,
            price_increase@.decimals == 18,
            unit@ == pow10(18),
            start@ == start_price(),
            spec_mul(start_price(), price_increase@) == Ok::<FixedPointView, ArithmeticError>(
                up_target@,
            ),
            simulation_vault(boost_ratio as nat).dai_value(start_price()) == Ok::<
                FixedPointView,
                ArithmeticError,
            >(base@),
            simulation_vault(boost_ratio as nat).dai_value(up_target@) == Ok::<
                FixedPointView,
                ArithmeticError,
            >(base_up@),
            vault@ == (VaultView {
                max_ratio: vault@.max_ratio,
                ..simulation_vault(boost_ratio as nat)
            }),
            scenario.boost_ratio == boost_ratio,
            scenario.price_increase == price_increase,
            scenario.friction == friction,
            scenario.no_boost_increase@ == zero_increase(),
            sweep_results(
                simulation_vault(boost_ratio as nat),
                up_target@,
                friction@.raw,
                base@.raw,
                boost_ratio as nat,
                i as nat,
            ) == Ok::<Seq<ScenarioResultView>, ArithmeticError>(scenario@.results),
            scenario.best_result@ == best_of(scenario@.results, initial_best(boost_ratio as nat)),
        decreases end - i,
    {
        proof {
            reveal_with_fuel(pow10, 20);
        }
        let candidate = boost_ratio + i + 1;
        let candidate_raw: u128 = {
            proof {
                assert((candidate as u128) * 10_000_000_000_000_000 <= 18446744073709551615u128
                    * 10_000_000_000_000_000) by (nonlinear_arith)
                    requires
                        candidate as u128 <= 18446744073709551615u128,
                ;
            }
            (candidate as u128) * 10_000_000_000_000_000u128
        };
        vault.max_ratio = FixedPoint::from_u128(candidate_raw, 16);
        let ghost candidate_vault = VaultView {
            max_ratio: FixedPointView {
                raw: (boost_ratio as nat + i as nat + 1) * pow10(16),
                decimals: 16,
            },
            ..simulation_vault(boost_ratio as nat)
        };
        proof {
            assert(vault@ =~= candidate_vault);
        }
        let dai_raw: Uint256 = match vault.predict_vault(&up_target, &friction) {
            Ok(settled) => {
                proof {
                    crate::vault::lemma_predict_same_policy(
                        vault@,
                        up_target@.raw,
                        friction@.raw,
                        FrictionMode::PerStep,
                        MAX_SETTLE_STEPS as nat,
                    );
                }
                match settled.get_dai_value(&up_target) {
                    Ok(dv) => dv.raw,
                    Err(e) => {
                        proof {
                            lemma_sweep_error_persists(
                                simulation_vault(boost_ratio as nat),
                                up_target@,
                                friction@.raw,
                                base@.raw,
                                boost_ratio as nat,
                                i as nat + 1,
                                end as nat,
                            );
                        }
                        return Err(e);
                    },
                }
            },
            Err(_) => Uint256::zero(),
        };
        let ghost previous_results = scenario@.results;
        let increase_product = match dai_raw.checked_mul(&unit) {
            Some(p) => p,
            None => {
                proof {
                    lemma_sweep_error_persists(
                        simulation_vault(boost_ratio as nat),
                        up_target@,
                        friction@.raw,
                        base@.raw,
                        boost_ratio as nat,
                        i as nat + 1,
                        end as nat,
                    );
                }
                return Err(ArithmeticError::Overflow);
            },
        };
        let increase_raw = match increase_product.checked_div(&base.raw) {
            Some(q) => q,
            None => {
                proof {
                    lemma_sweep_error_persists(
                        simulation_vault(boost_ratio as nat),
                        up_target@,
                        friction@.raw,
                        base@.raw,
                        boost_ratio as nat,
                        i as nat + 1,
                        end as nat,
                    );
                }
                return Err(ArithmeticError::DivideByZero);
            },
        };
        let sample = ScenarioResult {
            max_ratio: candidate,
            increase: FixedPoint::from_raw(increase_raw, 18),
        };
        scenario.results.push(sample);
        proof {
            assert(scenario@.results =~= previous_results.push(sample@));
            assert(scenario@.results.drop_last() =~= previous_results);
        }
        if scenario.best_result.increase.raw.lt(&sample.increase.raw) {
            scenario.best_result = sample;
        }
        i = i + 1;
    }
    let no_boost_product = match base_up.raw.checked_mul(&unit) {
        Some(p) => p,
        None => {
            return Err(ArithmeticError::Overflow);
        },
    };
    let no_boost_raw = match no_boost_product.checked_div(&base.raw) {
        Some(q) => q,
        None => {
            return Err(ArithmeticError::DivideByZero);
        },
    };
    scenario.no_boost_increase = FixedPoint::from_raw(no_boost_raw, 18);
    proof {
        assert(scenario@ =~= (ScenarioView {
            results: scenario@.results,
            best_result: best_of(scenario@.results, initial_best(boost_ratio as nat)),
            boost_ratio: boost_ratio as nat,
            price_increase: price_increase@,
            no_boost_increase: FixedPointView {
                raw: base_up@.raw * pow10(18) / base@.raw,
                decimals: 18,
            },
            friction: friction@,
        }));
    }
    Ok(scenario)
}

} // verus!
