//! Vault state and the rebalancing engine.
//!
//! A [`Vault`] is a collateralized-debt position: collateral and debt
//! together with the policy thresholds that keep it inside a target
//! collateralization band.  The engine computes the price thresholds at
//! which the policy would draw more debt (boost) or repay debt, and
//! [`Vault::predict_vault`] applies those draw/repay adjustments repeatedly
//! until the vault settles inside the band at a hypothetical price, then
//! charges a friction cost.
//!
//! Every executable function mirrors, bit for bit, a specification function
//! over [`VaultView`], the mathematical content of a vault; all arithmetic
//! is truncating unsigned 256-bit arithmetic, and every failure mode is an
//! explicit [`ArithmeticError`].

use vstd::prelude::*;

use crate::errors::ArithmeticError;
use crate::fixed_point::fp_result;
use crate::fixed_point::lemma_pow10_pos;
use crate::fixed_point::FixedPoint;
use crate::fixed_point::FixedPointView;
use crate::uint256::pow10;
use crate::uint256::two_pow_256;
use crate::uint256::Uint256;

verus! {

/// A token description: display data and the decimal precision its amounts
/// are scaled by.
#[derive(Debug)]
pub struct Erc20Token {
    /// The token's name.
    pub name: String,
    /// The token's ticker symbol.
    pub symbol: String,
    /// The decimal precision of amounts of this token.
    pub decimals: usize,
    /// The token contract's 20-byte address.
    pub address: [u8; 20],
}

/// The mathematical content of an [`Erc20Token`].
#[verifier::ext_equal]
pub struct Erc20TokenView {
    /// The token's name.
    pub name: Seq<char>,
    /// The token's ticker symbol.
    pub symbol: Seq<char>,
    /// The decimal precision of amounts of this token.
    pub decimals: nat,
    /// The token contract's address bytes.
    pub address: Seq<u8>,
}

impl View for Erc20Token {
    type V = Erc20TokenView;

    open spec fn view(&self) -> Erc20TokenView {
        Erc20TokenView {
            name: self.name@,
            symbol: self.symbol@,
            decimals: self.decimals as nat,
            address: self.address@,
        }
    }
}

impl Erc20Token {
    /// An exact copy of this token description.
    pub fn duplicate(&self) -> (r: Erc20Token)
        ensures
            r@ == self@,
    {
        Erc20Token {
            name: self.name.clone(),
            symbol: self.symbol.clone(),
            decimals: self.decimals,
            address: self.address,
        }
    }
}

/// A collateralized-debt position and its rebalancing policy thresholds.
///
/// The four ratios are 16-decimal fixed-point percentages (a raw value of
/// `180 * 10^16` means 180%); collateral and debt are amounts scaled by the
/// token's decimal precision.
#[derive(Debug)]
pub struct Vault {
    /// Whether the position is subscribed to the rebalancing policy.
    pub subscribed: bool,
    /// Below the price this ratio induces, the policy repays debt.
    pub min_ratio: FixedPoint,
    /// Above the price this ratio induces, the policy draws debt.
    pub max_ratio: FixedPoint,
    /// The collateralization ratio a repay step steers toward.
    pub repay_ratio: FixedPoint,
    /// The collateralization ratio a draw (boost) step steers toward.
    pub boost_ratio: FixedPoint,
    /// The position owner's 20-byte address.
    pub owner: [u8; 20],
    /// The collateral amount held by the position.
    pub collateral: FixedPoint,
    /// The debt amount owed by the position.
    pub debt: FixedPoint,
    /// The collateral token.
    pub token: Erc20Token,
}

/// The mathematical content of a [`Vault`].
#[verifier::ext_equal]
pub struct VaultView {
    /// Whether the position is subscribed to the rebalancing policy.
    pub subscribed: bool,
    /// The repay-trigger ratio.
    pub min_ratio: FixedPointView,
    /// The draw-trigger ratio.
    pub max_ratio: FixedPointView,
    /// The ratio a repay step steers toward.
    pub repay_ratio: FixedPointView,
    /// The ratio a draw step steers toward.
    pub boost_ratio: FixedPointView,
    /// The owner's address bytes.
    pub owner: Seq<u8>,
    /// The collateral amount.
    pub collateral: FixedPointView,
    /// The debt amount.
    pub debt: FixedPointView,
    /// The collateral token.
    pub token: Erc20TokenView,
}

impl View for Vault {
    type V = VaultView;

    open spec fn view(&self) -> VaultView {
        VaultView {
            subscribed: self.subscribed,
            min_ratio: self.min_ratio@,
            max_ratio: self.max_ratio@,
            repay_ratio: self.repay_ratio@,
            boost_ratio: self.boost_ratio@,
            owner: self.owner@,
            collateral: self.collateral@,
            debt: self.debt@,
            token: self.token@,
        }
    }
}

impl Vault {
    /// An exact copy of this vault.
    pub fn duplicate(&self) -> (r: Vault)
        ensures
            r@ == self@,
    {
        Vault {
            subscribed: self.subscribed,
            min_ratio: self.min_ratio,
            max_ratio: self.max_ratio,
            repay_ratio: self.repay_ratio,
            boost_ratio: self.boost_ratio,
            owner: self.owner,
            collateral: self.collateral,
            debt: self.debt,
            token: self.token.duplicate(),
        }
    }
}

/// A snapshot of the two amounts a vault holds.
#[derive(Clone, Copy, Debug)]
pub struct VaultInfo {
    /// The collateral amount.
    pub col: FixedPoint,
    /// The debt amount.
    pub debt: FixedPoint,
}

/// Maps a fallible vault result to its mathematical content.
pub open spec fn vault_result(r: Result<Vault, ArithmeticError>) -> Result<
    VaultView,
    ArithmeticError,
> {
    match r {
        Ok(v) => Ok(v@),
        Err(e) => Err(e),
    }
}

/// When the friction cost is charged by [`Vault::predict_vault_with_mode`].
#[derive(Clone, Copy, Debug, PartialEq, Eq, Structural)]
pub enum FrictionMode {
    /// One friction charge per draw/repay step taken, plus one for the
    /// final settlement: the behaviour of the recursive policy, where every
    /// nested prediction charges friction as it returns.
    PerStep,
    /// A single friction charge at settlement, however many steps were
    /// taken.
    Once,
}

/// The bound on draw/repay steps [`Vault::predict_vault`] attempts before
/// reporting that the iteration does not converge.  Each successful step
/// moves the trigger price toward the target by a fixed ratio, so realistic
/// policies settle within a few hundred steps.
pub const MAX_SETTLE_STEPS: usize = 100_000;

/// What the draw/repay iteration reaches from a given vault: either a vault
/// whose band contains the target price, together with the number of steps
/// taken, or the error that stopped it.
pub enum SettleOutcome {
    /// The iteration reached a vault whose band contains the price.
    Settled {
        /// The settled vault.
        vault: VaultView,
        /// How many draw/repay steps were taken.
        steps: nat,
    },
    /// The iteration stopped on an arithmetic failure, or ran out of fuel.
    Failed {
        /// The error that stopped the iteration.
        err: ArithmeticError,
    },
}

/// The same outcome with `k` more steps counted.
pub open spec fn add_steps(o: SettleOutcome, k: nat) -> SettleOutcome {
    match o {
        SettleOutcome::Settled { vault, steps } => SettleOutcome::Settled {
            vault,
            steps: steps + k,
        },
        SettleOutcome::Failed { err } => SettleOutcome::Failed { err },
    }
}

/// Scales a raw amount by `(1 - friction)`: `x * (10^18 - friction) / 10^18`
/// in the 18-decimal unit scale.  A friction above 100% is `Underflow`.
pub open spec fn scale_by_friction(x: nat, friction: nat) -> Result<nat, ArithmeticError> {
    if friction > pow10(18) {
        Err(ArithmeticError::Underflow)
    } else if x * (pow10(18) - friction) as nat >= two_pow_256() {
        Err(ArithmeticError::Overflow)
    } else {
        Ok(x * (pow10(18) - friction) as nat / pow10(18))
    }
}

/// One friction charge: debt first, then collateral, each scaled by
/// `(1 - friction)`.
pub open spec fn scale_vault_by_friction(v: VaultView, friction: nat) -> Result<
    VaultView,
    ArithmeticError,
> {
    match scale_by_friction(v.debt.raw, friction) {
        Err(e) => Err(e),
        Ok(new_debt) => match scale_by_friction(v.collateral.raw, friction) {
            Err(e) => Err(e),
            Ok(new_collateral) => Ok(
                VaultView {
                    collateral: FixedPointView {
                        raw: new_collateral,
                        decimals: v.collateral.decimals,
                    },
                    debt: FixedPointView { raw: new_debt, decimals: v.debt.decimals },
                    ..v
                },
            ),
        },
    }
}

/// `times` successive friction charges.
pub open spec fn apply_friction_times(v: VaultView, friction: nat, times: nat) -> Result<
    VaultView,
    ArithmeticError,
>
    decreases times,
{
    if times == 0 {
        Ok(v)
    } else {
        match scale_vault_by_friction(v, friction) {
            Err(e) => Err(e),
            Ok(v2) => apply_friction_times(v2, friction, (times - 1) as nat),
        }
    }
}

impl VaultView {
    /// The net value of the vault in debt units at the given price:
    /// `price * collateral / 10^decimals - debt`, with `Underflow` for an
    /// underwater position and `Overflow` past the 256-bit range.
    pub open spec fn dai_value(self, price: FixedPointView) -> Result<
        FixedPointView,
        ArithmeticError,
    > {
        if price.raw * self.collateral.raw >= two_pow_256() {
            Err(ArithmeticError::Overflow)
        } else {
            let dai_col = price.raw * self.collateral.raw / pow10(self.token.decimals);
            if dai_col < self.debt.raw {
                Err(ArithmeticError::Underflow)
            } else {
                Ok(FixedPointView { raw: (dai_col - self.debt.raw) as nat, decimals: price.decimals })
            }
        }
    }

    /// The net value of the vault converted back to collateral units:
    /// `dai_value * 10^decimals / price`.
    pub open spec fn col_value(self, price: FixedPointView) -> Result<
        FixedPointView,
        ArithmeticError,
    > {
        match self.dai_value(price) {
            Err(e) => Err(e),
            Ok(dv) => if dv.raw * pow10(self.token.decimals) >= two_pow_256() {
                Err(ArithmeticError::Overflow)
            } else if price.raw == 0 {
                Err(ArithmeticError::DivideByZero)
            } else {
                Ok(
                    FixedPointView {
                        raw: dv.raw * pow10(self.token.decimals) / price.raw,
                        decimals: self.token.decimals,
                    },
                )
            },
        }
    }

    /// The price above which the policy draws more debt:
    /// `debt * max_ratio / collateral`.
    pub open spec fn up_price(self) -> Result<FixedPointView, ArithmeticError> {
        if self.debt.raw * self.max_ratio.raw >= two_pow_256() {
            Err(ArithmeticError::Overflow)
        } else if self.collateral.raw == 0 {
            Err(ArithmeticError::DivideByZero)
        } else {
            Ok(
                FixedPointView {
                    raw: self.debt.raw * self.max_ratio.raw / self.collateral.raw,
                    decimals: self.debt.decimals,
                },
            )
        }
    }

    /// The debt a draw (boost) step adds: at the draw-trigger price, the
    /// net value is releveraged to the boost ratio, so the debt grows to
    /// `dai_value * 10^18 / (boost_ratio - 10^18)` and the step draws the
    /// difference.  A boost ratio at or below the 100% baseline (`10^18` in
    /// the 18-decimal unit scale) is `Underflow`.
    pub open spec fn up_dai_to_draw(self) -> Result<FixedPointView, ArithmeticError> {
        match self.up_price() {
            Err(e) => Err(e),
            Ok(up) => match self.dai_value(up) {
                Err(e) => Err(e),
                Ok(dv) => if self.boost_ratio.raw <= pow10(18) {
                    Err(ArithmeticError::Underflow)
                } else if dv.raw * pow10(18) >= two_pow_256() {
                    Err(ArithmeticError::Overflow)
                } else {
                    let final_debt = dv.raw * pow10(18) / (self.boost_ratio.raw - pow10(18)) as nat;
                    if final_debt < self.debt.raw {
                        Err(ArithmeticError::Underflow)
                    } else {
                        Ok(
                            FixedPointView {
                                raw: (final_debt - self.debt.raw) as nat,
                                decimals: self.debt.decimals,
                            },
                        )
                    }
                },
            },
        }
    }

    /// The debt a repay step removes: at the repay-trigger price, the net
    /// value is deleveraged to the repay ratio, so the debt shrinks to
    /// `dai_value * 10^18 / (repay_ratio - 10^18)` and the step pays back
    /// the difference.  A repay ratio at or below the 100% baseline is
    /// `Underflow`.
    pub open spec fn down_dai_to_payback(self) -> Result<FixedPointView, ArithmeticError> {
        match self.down_price() {
            Err(e) => Err(e),
            Ok(down) => match self.dai_value(down) {
                Err(e) => Err(e),
                Ok(dv) => if self.repay_ratio.raw <= pow10(18) {
                    Err(ArithmeticError::Underflow)
                } else if dv.raw * pow10(18) >= two_pow_256() {
                    Err(ArithmeticError::Overflow)
                } else {
                    let final_debt = dv.raw * pow10(18) / (self.repay_ratio.raw - pow10(18)) as nat;
                    if self.debt.raw < final_debt {
                        Err(ArithmeticError::Underflow)
                    } else {
                        Ok(
                            FixedPointView {
                                raw: (self.debt.raw - final_debt) as nat,
                                decimals: self.debt.decimals,
                            },
                        )
                    }
                },
            },
        }
    }

    /// The vault after one draw step: the drawn debt is added to the debt
    /// and its collateral equivalent at the draw-trigger price,
    /// `dai_to_draw * 10^18 / up_price`, is added to the collateral.
    pub open spec fn up_vault(self) -> Result<VaultView, ArithmeticError> {
        match self.up_dai_to_draw() {
            Err(e) => Err(e),
            Ok(draw) => match self.up_price() {
                Err(e) => Err(e),
                Ok(up) => if draw.raw * pow10(18) >= two_pow_256() {
                    Err(ArithmeticError::Overflow)
                } else if up.raw == 0 {
                    Err(ArithmeticError::DivideByZero)
                } else {
                    let added = draw.raw * pow10(18) / up.raw;
                    if self.collateral.raw + added >= two_pow_256() {
                        Err(ArithmeticError::Overflow)
                    } else if self.debt.raw + draw.raw >= two_pow_256() {
                        Err(ArithmeticError::Overflow)
                    } else {
                        Ok(
                            VaultView {
                                collateral: FixedPointView {
                                    raw: (self.collateral.raw + added) as nat,
                                    decimals: self.collateral.decimals,
                                },
                                debt: FixedPointView {
                                    raw: (self.debt.raw + draw.raw) as nat,
                                    decimals: self.debt.decimals,
                                },
                                ..self
                            },
                        )
                    }
                },
            },
        }
    }

    /// The vault after one repay step: the paid-back debt is removed from
    /// the debt and its collateral equivalent at the repay-trigger price,
    /// `dai_to_payback * 10^18 / down_price`, is removed from the
    /// collateral.
    pub open spec fn down_vault(self) -> Result<VaultView, ArithmeticError> {
        match self.down_dai_to_payback() {
            Err(e) => Err(e),
            Ok(payback) => match self.down_price() {
                Err(e) => Err(e),
                Ok(down) => if payback.raw * pow10(18) >= two_pow_256() {
                    Err(ArithmeticError::Overflow)
                } else if down.raw == 0 {
                    Err(ArithmeticError::DivideByZero)
                } else {
                    let removed = payback.raw * pow10(18) / down.raw;
                    if self.collateral.raw < removed {
                        Err(ArithmeticError::Underflow)
                    } else if self.debt.raw < payback.raw {
                        Err(ArithmeticError::Underflow)
                    } else {
                        Ok(
                            VaultView {
                                collateral: FixedPointView {
                                    raw: (self.collateral.raw - removed) as nat,
                                    decimals: self.collateral.decimals,
                                },
                                debt: FixedPointView {
                                    raw: (self.debt.raw - payback.raw) as nat,
                                    decimals: self.debt.decimals,
                                },
                                ..self
                            },
                        )
                    }
                },
            },
        }
    }

    /// The price below which the policy repays debt:
    /// `debt * min_ratio / collateral`.
    pub open spec fn down_price(self) -> Result<FixedPointView, ArithmeticError> {
        if self.debt.raw * self.min_ratio.raw >= two_pow_256() {
            Err(ArithmeticError::Overflow)
        } else if self.collateral.raw == 0 {
            Err(ArithmeticError::DivideByZero)
        } else {
            Ok(
                FixedPointView {
                    raw: self.debt.raw * self.min_ratio.raw / self.collateral.raw,
                    decimals: self.debt.decimals,
                },
            )
        }
    }

    /// What the draw/repay iteration reaches from this vault within `fuel`
    /// steps: while the price lies above the draw trigger a draw step is
    /// taken, while it lies below the repay trigger a repay step is taken,
    /// and once it lies in the band the vault has settled.
    pub open spec fn settle(self, price: nat, fuel: nat) -> SettleOutcome
        decreases fuel,
    {
        match self.up_price() {
            Err(e) => SettleOutcome::Failed { err: e },
            Ok(up) => match self.down_price() {
                Err(e) => SettleOutcome::Failed { err: e },
                Ok(down) => if price > up.raw {
                    if fuel == 0 {
                        SettleOutcome::Failed { err: ArithmeticError::NoConvergence }
                    } else {
                        match self.up_vault() {
                            Err(e) => SettleOutcome::Failed { err: e },
                            Ok(v2) => add_steps(v2.settle(price, (fuel - 1) as nat), 1),
                        }
                    }
                } else if price < down.raw {
                    if fuel == 0 {
                        SettleOutcome::Failed { err: ArithmeticError::NoConvergence }
                    } else {
                        match self.down_vault() {
                            Err(e) => SettleOutcome::Failed { err: e },
                            Ok(v2) => add_steps(v2.settle(price, (fuel - 1) as nat), 1),
                        }
                    }
                } else {
                    SettleOutcome::Settled { vault: self, steps: 0 }
                },
            },
        }
    }

    /// The vault the policy settles in at the given price, with the
    /// friction cost charged according to `mode`: the exact mathematical
    /// content of [`Vault::predict_vault_with_mode`].
    pub open spec fn predict(
        self,
        price: nat,
        friction: nat,
        mode: FrictionMode,
        fuel: nat,
    ) -> Result<VaultView, ArithmeticError> {
        match self.settle(price, fuel) {
            SettleOutcome::Failed { err } => Err(err),
            SettleOutcome::Settled { vault, steps } => {
                let times: nat = match mode {
                    FrictionMode::PerStep => steps + 1,
                    FrictionMode::Once => 1,
                };
                apply_friction_times(vault, friction, times)
            },
        }
    }
}

/// True when the two vaults differ at most in the amounts of collateral and
/// debt they hold: the policy thresholds, the owner, the token and the
/// decimal precisions all agree.
pub open spec fn same_policy(a: VaultView, b: VaultView) -> bool {
    &&& a.subscribed == b.subscribed
    &&& a.min_ratio == b.min_ratio
    &&& a.max_ratio == b.max_ratio
    &&& a.repay_ratio == b.repay_ratio
    &&& a.boost_ratio == b.boost_ratio
    &&& a.owner == b.owner
    &&& a.token == b.token
    &&& a.collateral.decimals == b.collateral.decimals
    &&& a.debt.decimals == b.debt.decimals
}

/// Draw and repay steps change only the amounts a vault holds: whatever
/// vault the iteration settles in keeps the input's policy, owner, token
/// and precisions.
pub proof fn lemma_settle_same_policy(v: VaultView, price: nat, fuel: nat)
    ensures
        (match v.settle(price, fuel) {
            SettleOutcome::Settled { vault, .. } => same_policy(v, vault),
            SettleOutcome::Failed { .. } => true,
        }),
    decreases fuel,
{
    if v.up_price() is Ok && v.down_price() is Ok && fuel > 0 {
        let up = v.up_price()->Ok_0;
        let down = v.down_price()->Ok_0;
        if price > up.raw {
            if v.up_vault() is Ok {
                lemma_settle_same_policy(v.up_vault()->Ok_0, price, (fuel - 1) as nat);
            }
        } else if price < down.raw {
            if v.down_vault() is Ok {
                lemma_settle_same_policy(v.down_vault()->Ok_0, price, (fuel - 1) as nat);
            }
        }
    }
}

/// Friction charges change only the amounts a vault holds.
pub proof fn lemma_friction_same_policy(v: VaultView, friction: nat, times: nat)
    ensures
        (match apply_friction_times(v, friction, times) {
            Ok(v2) => same_policy(v, v2),
            Err(_) => true,
        }),
    decreases times,
{
    if times > 0 {
        if scale_vault_by_friction(v, friction) is Ok {
            lemma_friction_same_policy(
                scale_vault_by_friction(v, friction)->Ok_0,
                friction,
                (times - 1) as nat,
            );
        }
    }
}

/// A successful prediction changes only the amounts a vault holds: the
/// policy thresholds, the owner, the token and the precisions of the result
/// are the input's.
pub proof fn lemma_predict_same_policy(
    v: VaultView,
    price: nat,
    friction: nat,
    mode: FrictionMode,
    fuel: nat,
)
    ensures
        (match v.predict(price, friction, mode, fuel) {
            Ok(v2) => same_policy(v, v2),
            Err(_) => true,
        }),
{
    lemma_settle_same_policy(v, price, fuel);
    match v.settle(price, fuel) {
        SettleOutcome::Settled { vault, steps } => {
            let times: nat = match mode {
                FrictionMode::PerStep => steps + 1,
                FrictionMode::Once => 1,
            };
            lemma_friction_same_policy(vault, friction, times);
        },
        SettleOutcome::Failed { .. } => {},
    }
}

/// True when the price lies in the vault's band: both trigger prices are
/// defined and `down_price <= price <= up_price`.
pub open spec fn in_band(v: VaultView, price: nat) -> bool {
    &&& v.up_price() is Ok
    &&& v.down_price() is Ok
    &&& v.down_price()->Ok_0.raw <= price <= v.up_price()->Ok_0.raw
}

/// A vault whose band already contains the price is left exactly as it is
/// by the draw/repay iteration — the band check is idempotent — so
/// predicting it, in either friction mode, only charges the friction cost
/// once: the prediction is precisely one scaling of collateral and debt by
/// `(1 - friction)`.
pub proof fn lemma_predict_in_band(
    v: VaultView,
    price: nat,
    friction: nat,
    mode: FrictionMode,
    fuel: nat,
)
    requires
        in_band(v, price),
    ensures
        v.settle(price, fuel) == (SettleOutcome::Settled { vault: v, steps: 0nat }),
        v.predict(price, friction, mode, fuel) == scale_vault_by_friction(v, friction),
{
    assert(apply_friction_times(v, friction, 1) == scale_vault_by_friction(v, friction)) by {
        match scale_vault_by_friction(v, friction) {
            Ok(v2) => {
                assert(apply_friction_times(v2, friction, 0) == Ok::<VaultView, ArithmeticError>(
                    v2,
                ));
            },
            Err(_) => {},
        }
    }
}

/// Whatever vault the draw/repay iteration settles in has the price inside
/// its band: `down_price <= price <= up_price` holds of the result.
pub proof fn lemma_settle_in_band(v: VaultView, price: nat, fuel: nat)
    ensures
        (match v.settle(price, fuel) {
            SettleOutcome::Settled { vault, .. } => in_band(vault, price),
            SettleOutcome::Failed { .. } => true,
        }),
    decreases fuel,
{
    if v.up_price() is Ok && v.down_price() is Ok && fuel > 0 {
        let up = v.up_price()->Ok_0;
        let down = v.down_price()->Ok_0;
        if price > up.raw {
            if v.up_vault() is Ok {
                lemma_settle_in_band(v.up_vault()->Ok_0, price, (fuel - 1) as nat);
            }
        } else if price < down.raw {
            if v.down_vault() is Ok {
                lemma_settle_in_band(v.down_vault()->Ok_0, price, (fuel - 1) as nat);
            }
        }
    }
}

/// With a friction of zero, friction charges leave the vault unchanged:
/// each scales the amounts by `10^18 / 10^18`, which truncates nothing.
pub proof fn lemma_apply_friction_zero(v: VaultView, times: nat)
    ensures
        (match apply_friction_times(v, 0, times) {
            Ok(r) => r == v,
            Err(_) => true,
        }),
    decreases times,
{
    if times > 0 {
        lemma_pow10_pos(18);
        match scale_vault_by_friction(v, 0) {
            Ok(v2) => {
                vstd::arithmetic::div_mod::lemma_div_by_multiple(
                    v.debt.raw as int,
                    pow10(18) as int,
                );
                vstd::arithmetic::div_mod::lemma_div_by_multiple(
                    v.collateral.raw as int,
                    pow10(18) as int,
                );
                assert(v2 =~= v);
                lemma_apply_friction_zero(v2, (times - 1) as nat);
            },
            Err(_) => {},
        }
    }
}

/// The settlement invariant: a prediction with zero friction returns a
/// vault whose recomputed band contains the price,
/// `down_price <= price <= up_price`.  (A positive friction rescales both
/// amounts after settlement, which can move the band slightly.)
pub proof fn lemma_predict_settles_in_band(
    v: VaultView,
    price: nat,
    mode: FrictionMode,
    fuel: nat,
)
    ensures
        (match v.predict(price, 0, mode, fuel) {
            Ok(r) => in_band(r, price),
            Err(_) => true,
        }),
{
    lemma_settle_in_band(v, price, fuel);
    match v.settle(price, fuel) {
        SettleOutcome::Settled { vault, steps } => {
            let times: nat = match mode {
                FrictionMode::PerStep => steps + 1,
                FrictionMode::Once => 1,
            };
            lemma_apply_friction_zero(vault, times);
        },
        SettleOutcome::Failed { .. } => {},
    }
}

/// The value round trip: converting a vault's gross value to debt units and
/// back to collateral units recovers the collateral within the truncation
/// error of one unit, for a debt-free vault at a price of at least one debt
/// unit per token.  (With a positive debt the net value loses the debt's
/// collateral equivalent, and below one debt unit per token the truncation
/// error exceeds one collateral unit.)
pub proof fn lemma_value_round_trip(v: VaultView, price: FixedPointView)
    requires
        v.debt.raw == 0,
        price.raw >= pow10(v.token.decimals),
        price.raw * v.collateral.raw < two_pow_256(),
    ensures
        v.dai_value(price) is Ok,
        v.col_value(price) is Ok,
        v.collateral.raw - 1 <= v.col_value(price)->Ok_0.raw <= v.collateral.raw,
{
    let t = pow10(v.token.decimals) as int;
    let p = price.raw as int;
    let c = v.collateral.raw as int;
    lemma_pow10_pos(v.token.decimals);
    let dai = p * c / t;
    vstd::arithmetic::div_mod::lemma_fundamental_div_mod(p * c, t);
    vstd::arithmetic::div_mod::lemma_mod_bound(p * c, t);
    assert(dai * t == p * c - (p * c) % t);
    vstd::arithmetic::div_mod::lemma_div_pos_is_pos(p * c, t);
    assert(v.dai_value(price) is Ok);
    assert(v.dai_value(price)->Ok_0.raw == dai);
    assert(dai * t < two_pow_256());
    let rv = dai * t / p;
    assert(v.col_value(price) is Ok);
    assert(v.col_value(price)->Ok_0.raw == rv);
    // Upper bound: dai * t <= p * c, so the quotient by p is at most c.
    vstd::arithmetic::div_mod::lemma_div_is_ordered(dai * t, p * c, p);
    vstd::arithmetic::div_mod::lemma_div_multiples_vanish(c, p);
    assert(rv <= c);
    // Lower bound: dai * t exceeds p * (c - 1), so the quotient is at
    // least c - 1.
    if c > 0 {
        assert((p * c) % t < t);
        assert(dai * t > p * c - p);
        assert(p * c - p == p * (c - 1)) by (nonlinear_arith);
        vstd::arithmetic::div_mod::lemma_div_is_ordered(p * (c - 1), dai * t, p);
        vstd::arithmetic::div_mod::lemma_div_multiples_vanish(c - 1, p);
        assert(rv >= c - 1);
    }
}

impl Vault {
    /// The net value of the vault in debt units at the given price.
    pub fn get_dai_value(&self, price: &FixedPoint) -> (r: Result<FixedPoint, ArithmeticError>)
        requires
            self@.token.decimals <= 77,
        ensures
            fp_result(r) == self@.dai_value(price@),
    {
        let product = match price.raw.checked_mul(&self.collateral.raw) {
            Some(p) => p,
            None => {
                return Err(ArithmeticError::Overflow);
            },
        };
        let scale = Uint256::exp10(self.token.decimals);
        proof {
            lemma_pow10_pos(self.token.decimals as nat);
        }
        let dai_col = match product.checked_div(&scale) {
            Some(q) => q,
            None => {
                return Err(ArithmeticError::DivideByZero);
            },
        };
        match dai_col.checked_sub(&self.debt.raw) {
            Some(raw) => Ok(FixedPoint { raw, decimals: price.decimals }),
            None => Err(ArithmeticError::Underflow),
        }
    }

    /// The net value of the vault converted back to collateral units.
    pub fn get_col_value(&self, price: &FixedPoint) -> (r: Result<FixedPoint, ArithmeticError>)
        requires
            self@.token.decimals <= 77,
        ensures
            fp_result(r) == self@.col_value(price@),
    {
        let dai_value = match self.get_dai_value(price) {
            Ok(dv) => dv,
            Err(e) => {
                return Err(e);
            },
        };
        let scale = Uint256::exp10(self.token.decimals);
        let product = match dai_value.raw.checked_mul(&scale) {
            Some(p) => p,
            None => {
                return Err(ArithmeticError::Overflow);
            },
        };
        match product.checked_div(&price.raw) {
            Some(raw) => Ok(FixedPoint { raw, decimals: self.token.decimals }),
            None => Err(ArithmeticError::DivideByZero),
        }
    }

    /// A snapshot of the vault's collateral and debt.
    pub fn get_vault_info(&self) -> (r: VaultInfo)
        ensures
            r.col@ == self@.collateral,
            r.debt@ == self@.debt,
    {
        VaultInfo { col: self.collateral, debt: self.debt }
    }

    /// The price above which the policy draws more debt.
    pub fn get_up_price(&self) -> (r: Result<FixedPoint, ArithmeticError>)
        ensures
            fp_result(r) == self@.up_price(),
    {
        let product = match self.debt.raw.checked_mul(&self.max_ratio.raw) {
            Some(p) => p,
            None => {
                return Err(ArithmeticError::Overflow);
            },
        };
        match product.checked_div(&self.collateral.raw) {
            Some(raw) => Ok(FixedPoint { raw, decimals: self.debt.decimals }),
            None => Err(ArithmeticError::DivideByZero),
        }
    }

    /// The price below which the policy repays debt.
    pub fn get_down_price(&self) -> (r: Result<FixedPoint, ArithmeticError>)
        ensures
            fp_result(r) == self@.down_price(),
    {
        let product = match self.debt.raw.checked_mul(&self.min_ratio.raw) {
            Some(p) => p,
            None => {
                return Err(ArithmeticError::Overflow);
            },
        };
        match product.checked_div(&self.collateral.raw) {
            Some(raw) => Ok(FixedPoint { raw, decimals: self.debt.decimals }),
            None => Err(ArithmeticError::DivideByZero),
        }
    }

    /// The debt one draw (boost) step would add to this vault.
    pub fn get_up_dai_to_draw(&self) -> (r: Result<FixedPoint, ArithmeticError>)
        requires
            self@.token.decimals <= 77,
        ensures
            fp_result(r) == self@.up_dai_to_draw(),
    {
        let up_price = match self.get_up_price() {
            Ok(p) => p,
            Err(e) => {
                return Err(e);
            },
        };
        let dai_value = match self.get_dai_value(&up_price) {
            Ok(dv) => dv,
            Err(e) => {
                return Err(e);
            },
        };
        let one = Uint256::exp10(18);
        if !one.lt(&self.boost_ratio.raw) {
            return Err(ArithmeticError::Underflow);
        }
        let divisor = match self.boost_ratio.raw.checked_sub(&one) {
            Some(d) => d,
            None => {
                return Err(ArithmeticError::Underflow);
            },
        };
        let product = match dai_value.raw.checked_mul(&one) {
            Some(p) => p,
            None => {
                return Err(ArithmeticError::Overflow);
            },
        };
        let final_debt = match product.checked_div(&divisor) {
            Some(q) => q,
            None => {
                return Err(ArithmeticError::DivideByZero);
            },
        };
        match final_debt.checked_sub(&self.debt.raw) {
            Some(raw) => Ok(FixedPoint { raw, decimals: self.debt.decimals }),
            None => Err(ArithmeticError::Underflow),
        }
    }

    /// The debt one repay step would remove from this vault.
    pub fn get_down_dai_to_payback(&self) -> (r: Result<FixedPoint, ArithmeticError>)
        requires
            self@.token.decimals <= 77,
        ensures
            fp_result(r) == self@.down_dai_to_payback(),
    {
        let down_price = match self.get_down_price() {
            Ok(p) => p,
            Err(e) => {
                return Err(e);
            },
        };
        let dai_value = match self.get_dai_value(&down_price) {
            Ok(dv) => dv,
            Err(e) => {
                return Err(e);
            },
        };
        let one = Uint256::exp10(18);
        if !one.lt(&self.repay_ratio.raw) {
            return Err(ArithmeticError::Underflow);
        }
        let divisor = match self.repay_ratio.raw.checked_sub(&one) {
            Some(d) => d,
            None => {
                return Err(ArithmeticError::Underflow);
            },
        };
        let product = match dai_value.raw.checked_mul(&one) {
            Some(p) => p,
            None => {
                return Err(ArithmeticError::Overflow);
            },
        };
        let final_debt = match product.checked_div(&divisor) {
            Some(q) => q,
            None => {
                return Err(ArithmeticError::DivideByZero);
            },
        };
        match self.debt.raw.checked_sub(&final_debt) {
            Some(raw) => Ok(FixedPoint { raw, decimals: self.debt.decimals }),
            None => Err(ArithmeticError::Underflow),
        }
    }

    /// The vault after one draw step.
    pub fn get_up_vault(&self) -> (r: Result<Vault, ArithmeticError>)
        requires
            self@.token.decimals <= 77,
        ensures
            vault_result(r) == self@.up_vault(),
    {
        let draw = match self.get_up_dai_to_draw() {
            Ok(d) => d,
            Err(e) => {
                return Err(e);
            },
        };
        let up_price = match self.get_up_price() {
            Ok(p) => p,
            Err(e) => {
                return Err(e);
            },
        };
        let one = Uint256::exp10(18);
        let product = match draw.raw.checked_mul(&one) {
            Some(p) => p,
            None => {
                return Err(ArithmeticError::Overflow);
            },
        };
        let added = match product.checked_div(&up_price.raw) {
            Some(q) => q,
            None => {
                return Err(ArithmeticError::DivideByZero);
            },
        };
        let new_collateral = match self.collateral.raw.checked_add(&added) {
            Some(c) => c,
            None => {
                return Err(ArithmeticError::Overflow);
            },
        };
        let new_debt = match self.debt.raw.checked_add(&draw.raw) {
            Some(d) => d,
            None => {
                return Err(ArithmeticError::Overflow);
            },
        };
        let mut up_vault = self.duplicate();
        up_vault.collateral = FixedPoint { raw: new_collateral, decimals: self.collateral.decimals };
        up_vault.debt = FixedPoint { raw: new_debt, decimals: self.debt.decimals };
        Ok(up_vault)
    }

    /// The vault after one repay step.
    pub fn get_down_vault(&self) -> (r: Result<Vault, ArithmeticError>)
        requires
            self@.token.decimals <= 77,
        ensures
            vault_result(r) == self@.down_vault(),
    {
        let payback = match self.get_down_dai_to_payback() {
            Ok(d) => d,
            Err(e) => {
                return Err(e);
            },
        };
        let down_price = match self.get_down_price() {
            Ok(p) => p,
            Err(e) => {
                return Err(e);
            },
        };
        let one = Uint256::exp10(18);
        let product = match payback.raw.checked_mul(&one) {
            Some(p) => p,
            None => {
                return Err(ArithmeticError::Overflow);
            },
        };
        let removed = match product.checked_div(&down_price.raw) {
            Some(q) => q,
            None => {
                return Err(ArithmeticError::DivideByZero);
            },
        };
        let new_collateral = match self.collateral.raw.checked_sub(&removed) {
            Some(c) => c,
            None => {
                return Err(ArithmeticError::Underflow);
            },
        };
        let new_debt = match self.debt.raw.checked_sub(&payback.raw) {
            Some(d) => d,
            None => {
                return Err(ArithmeticError::Underflow);
            },
        };
        let mut down_vault = self.duplicate();
        down_vault.collateral = FixedPoint {
            raw: new_collateral,
            decimals: self.collateral.decimals,
        };
        down_vault.debt = FixedPoint { raw: new_debt, decimals: self.debt.decimals };
        Ok(down_vault)
    }

    /// One friction charge on debt and collateral.
    fn scaled_by_friction(&self, friction: &FixedPoint) -> (r: Result<Vault, ArithmeticError>)
        ensures
            vault_result(r) == scale_vault_by_friction(self@, friction@.raw),
    {
        let one = Uint256::exp10(18);
        let factor = match one.checked_sub(&friction.raw) {
            Some(f) => f,
            None => {
                return Err(ArithmeticError::Underflow);
            },
        };
        proof {
            lemma_pow10_pos(18);
        }
        let debt_product = match self.debt.raw.checked_mul(&factor) {
            Some(p) => p,
            None => {
                return Err(ArithmeticError::Overflow);
            },
        };
        let new_debt = match debt_product.checked_div(&one) {
            Some(q) => q,
            None => {
                return Err(ArithmeticError::DivideByZero);
            },
        };
        let collateral_product = match self.collateral.raw.checked_mul(&factor) {
            Some(p) => p,
            None => {
                return Err(ArithmeticError::Overflow);
            },
        };
        let new_collateral = match collateral_product.checked_div(&one) {
            Some(q) => q,
            None => {
                return Err(ArithmeticError::DivideByZero);
            },
        };
        let mut scaled = self.duplicate();
        scaled.collateral = FixedPoint { raw: new_collateral, decimals: self.collateral.decimals };
        scaled.debt = FixedPoint { raw: new_debt, decimals: self.debt.decimals };
        Ok(scaled)
    }

    /// The vault the rebalancing policy settles in at the given price.
    ///
    /// Draw steps are applied while the price lies above the draw trigger,
    /// repay steps while it lies below the repay trigger; each step moves
    /// the triggers toward the price.  Once the price lies in the band, the
    /// friction cost is charged according to `mode`.  The result is exactly
    /// [`VaultView::predict`] of the vault's mathematical content.
    pub fn predict_vault_with_mode(
        &self,
        price: &FixedPoint,
        friction: &FixedPoint,
        mode: FrictionMode,
    ) -> (r: Result<Vault, ArithmeticError>)
        requires
            self@.token.decimals <= 77,
        ensures
            vault_result(r) == self@.predict(
                price@.raw,
                friction@.raw,
                mode,
                MAX_SETTLE_STEPS as nat,
            ),
    {
        let mut vault = self.duplicate();
        let mut steps: usize = 0;
        loop
            invariant
                steps <= MAX_SETTLE_STEPS,
                vault@.token.decimals <= 77,
                self@.settle(price@.raw, MAX_SETTLE_STEPS as nat) == add_steps(
                    vault@.settle(price@.raw, (MAX_SETTLE_STEPS - steps) as nat),
                    steps as nat,
                ),
            ensures
                steps <= MAX_SETTLE_STEPS,
                self@.settle(price@.raw, MAX_SETTLE_STEPS as nat) == (SettleOutcome::Settled {
                    vault: vault@,
                    steps: steps as nat,
                }),
            decreases MAX_SETTLE_STEPS - steps,
        {
            let up_price = match vault.get_up_price() {
                Ok(p) => p,
                Err(e) => {
                    return Err(e);
                },
            };
            let down_price = match vault.get_down_price() {
                Ok(p) => p,
                Err(e) => {
                    return Err(e);
                },
            };
            if up_price.raw.lt(&price.raw) {
                if steps == MAX_SETTLE_STEPS {
                    return Err(ArithmeticError::NoConvergence);
                }
                vault = match vault.get_up_vault() {
                    Ok(v2) => v2,
                    Err(e) => {
                        return Err(e);
                    },
                };
                steps = steps + 1;
            } else if price.raw.lt(&down_price.raw) {
                if steps == MAX_SETTLE_STEPS {
                    return Err(ArithmeticError::NoConvergence);
                }
                vault = match vault.get_down_vault() {
                    Ok(v2) => v2,
                    Err(e) => {
                        return Err(e);
                    },
                };
                steps = steps + 1;
            } else {
                break ;
            }
        }
        let ghost settled = vault@;
        let ghost settled_steps = steps as nat;
        let times: usize = match mode {
            FrictionMode::PerStep => steps + 1,
            FrictionMode::Once => 1,
        };
        let mut charged: usize = 0;
        while charged < times
            invariant
                charged <= times,
                times == (match mode {
                    FrictionMode::PerStep => settled_steps + 1,
                    FrictionMode::Once => 1nat,
                }),
                self@.settle(price@.raw, MAX_SETTLE_STEPS as nat) == (SettleOutcome::Settled {
                    vault: settled,
                    steps: settled_steps,
                }),
                apply_friction_times(settled, friction@.raw, times as nat) == apply_friction_times(
                    vault@,
                    friction@.raw,
                    (times - charged) as nat,
                ),
            decreases times - charged,
        {
            vault = match vault.scaled_by_friction(friction) {
                Ok(v2) => v2,
                Err(e) => {
                    return Err(e);
                },
            };
            charged = charged + 1;
        }
        Ok(vault)
    }

    /// The vault the rebalancing policy settles in at the given price, with
    /// the friction cost charged once per step taken plus once at
    /// settlement — the behaviour of the recursive policy, where every
    /// nested prediction charges friction as it returns.
    pub fn predict_vault(&self, price: &FixedPoint, friction: &FixedPoint) -> (r: Result<
        Vault,
        ArithmeticError,
    >)
        requires
            self@.token.decimals <= 77,
        ensures
            vault_result(r) == self@.predict(
                price@.raw,
                friction@.raw,
                FrictionMode::PerStep,
                MAX_SETTLE_STEPS as nat,
            ),
    {
        self.predict_vault_with_mode(price, friction, FrictionMode::PerStep)
    }
}

} // verus!
