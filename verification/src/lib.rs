//! Evaluation and simulation of collateralized-debt vaults kept in a target
//! collateralization band by an automated draw/repay policy.
//!
//! The crate models on-chain token amounts and ratios as scaled unsigned
//! integers, predicts the state a vault settles in after the rebalancing
//! policy has run to equilibrium at a hypothetical price, and sweeps a range
//! of policy parameters to find the configuration with the best net-value
//! outcome.

pub mod errors;
pub mod fixed_point;
pub mod optimizer;
pub mod oracle;
pub mod uint256;
pub mod vault;

pub use crate::errors::ArithmeticError;
pub use crate::errors::BlockchainError;
pub use crate::fixed_point::FixedPoint;
pub use crate::optimizer::get_simulation;
pub use crate::optimizer::Scenario;
pub use crate::optimizer::ScenarioResult;
pub use crate::uint256::Uint256;
pub use crate::vault::Erc20Token;
pub use crate::vault::Vault;
pub use crate::vault::VaultInfo;
