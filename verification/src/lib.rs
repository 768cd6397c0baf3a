//! An oracle that reports whether the US equities market is open, and the
//! reward policy for whoever refreshes that report near the opening or the
//! closing bell.
//!
//! - [`clock`]: from a UTC timestamp to "open" and to "within the reward
//!   window".
//! - [`oracle`]: the record that the oracle keeps and that other programs read.
//! - [`address`]: the derived addresses of the record and of its reward vault.
//! - [`reward`]: when the reward is due, and the transfer that pays it.
//! - [`program`]: the two operations, `create_oracle` and `crank_oracle`.

pub mod address;
pub mod clock;
pub mod oracle;
pub mod program;
pub mod reward;

pub use crate::oracle::{ExternalValidationResult, Oracle, OracleValidation};
pub use crate::program::{crank_oracle, create_oracle, CrankOracle, CreateOracle, OracleError};
