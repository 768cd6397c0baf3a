//! The oracle record: what the program stores, and what the programs that
//! consult it read.

use crate::clock::{is_us_market_open, market_open};
use vstd::prelude::*;

verus! {

/// The outcome of one permission check.
#[derive(Clone, Copy, Debug, PartialEq, Eq, Structural)]
pub enum ExternalValidationResult {
    Approved,
    Rejected,
    Pass,
}

/// The validation that the record holds, tagged by its version.
#[derive(Clone, Copy, Debug, PartialEq, Eq, Structural)]
pub enum OracleValidation {
    V1 {
        transfer: ExternalValidationResult,
        create: ExternalValidationResult,
        update: ExternalValidationResult,
        burn: ExternalValidationResult,
    },
}

/// The oracle record.
#[derive(Clone, Copy, Debug, PartialEq, Eq, Structural)]
pub struct Oracle {
    /// What the oracle currently says of the four operations.
    pub validation: OracleValidation,
    /// The bump of the record's own address.
    pub bump: u8,
    /// The bump of the address of the record's reward vault.
    pub vault_bump: u8,
}

impl ExternalValidationResult {
    /// How a reader takes an outcome: `Rejected` forbids the operation,
    /// `Approved` and `Pass` let it through.
    pub open spec fn permits(self) -> bool {
        self != ExternalValidationResult::Rejected
    }

    /// Whether this outcome lets the operation through.
    pub fn is_permitted(&self) -> (permitted: bool)
        ensures
            permitted == self.permits(),
    {
        match self {
            ExternalValidationResult::Rejected => false,
            ExternalValidationResult::Approved => true,
            ExternalValidationResult::Pass => true,
        }
    }
}

/// The validation that the oracle reports while the market is open, or while
/// it is closed. Only the transfer outcome follows the market; creating,
/// updating and burning always pass.
pub open spec fn validation_for(open: bool) -> OracleValidation {
    OracleValidation::V1 {
        transfer: if open {
            ExternalValidationResult::Approved
        } else {
            ExternalValidationResult::Rejected
        },
        create: ExternalValidationResult::Pass,
        update: ExternalValidationResult::Pass,
        burn: ExternalValidationResult::Pass,
    }
}

/// The validation that the oracle reports at time `t`.
pub open spec fn validation_at(t: int) -> OracleValidation {
    validation_for(market_open(t))
}

impl OracleValidation {
    /// The shape of every validation that the program writes: the transfer
    /// outcome is decided, `Approved` or `Rejected`, and the other three are
    /// `Pass`.
    pub open spec fn wf(self) -> bool {
        match self {
            OracleValidation::V1 { transfer, create, update, burn } => {
                &&& transfer != ExternalValidationResult::Pass
                &&& create == ExternalValidationResult::Pass
                &&& update == ExternalValidationResult::Pass
                &&& burn == ExternalValidationResult::Pass
            },
        }
    }

    /// The transfer outcome.
    pub open spec fn transfer(self) -> ExternalValidationResult {
        match self {
            OracleValidation::V1 { transfer, .. } => transfer,
        }
    }

    /// The validation to report at `unix_timestamp`.
    pub fn at(unix_timestamp: i64) -> (validation: OracleValidation)
        ensures
            validation == validation_at(unix_timestamp as int),
            validation.wf(),
    {
        if is_us_market_open(unix_timestamp) {
            OracleValidation::V1 {
                transfer: ExternalValidationResult::Approved,
                create: ExternalValidationResult::Pass,
                update: ExternalValidationResult::Pass,
                burn: ExternalValidationResult::Pass,
            }
        } else {
            OracleValidation::V1 {
                transfer: ExternalValidationResult::Rejected,
                create: ExternalValidationResult::Pass,
                update: ExternalValidationResult::Pass,
                burn: ExternalValidationResult::Pass,
            }
        }
    }
}

impl Oracle {
    /// The record as it stands after a refresh at time `t`: the validation is
    /// replaced whole, both bumps stay.
    pub open spec fn refreshed(self, t: int) -> Oracle {
        Oracle { validation: validation_at(t), bump: self.bump, vault_bump: self.vault_bump }
    }

    /// A new record that reports the market's state at `unix_timestamp`.
    pub fn new(unix_timestamp: i64, bump: u8, vault_bump: u8) -> (oracle: Oracle)
        ensures
            oracle == (Oracle {
                validation: validation_at(unix_timestamp as int),
                bump,
                vault_bump,
            }),
            oracle.validation.wf(),
    {
        Oracle { validation: OracleValidation::at(unix_timestamp), bump, vault_bump }
    }

    /// Replaces the validation by the one to report at `unix_timestamp`.
    pub fn refresh(&mut self, unix_timestamp: i64)
        ensures
            *final(self) == old(self).refreshed(unix_timestamp as int),
            final(self).validation.wf(),
    {
        self.validation = OracleValidation::at(unix_timestamp);
    }
}

/// Every validation that the program reports is well formed, and it lets a
/// transfer through exactly while the market is open.
pub proof fn lemma_validation_follows_market(t: int)
    ensures
        validation_at(t).wf(),
        validation_at(t).transfer().permits() == market_open(t),
{
}

/// A refresh leaves both bumps as they were, whatever the time and however
/// often it is repeated.
pub proof fn lemma_refresh_keeps_bumps(oracle: Oracle, t: int)
    ensures
        oracle.refreshed(t).bump == oracle.bump,
        oracle.refreshed(t).vault_bump == oracle.vault_bump,
{
}

/// Refreshing twice at the same time gives what refreshing once gives, and
/// what it gives does not depend on what the record held before.
pub proof fn lemma_refresh_idempotent(oracle: Oracle, t: int)
    ensures
        oracle.refreshed(t).refreshed(t) == oracle.refreshed(t),
        oracle.refreshed(t).validation == validation_at(t),
{
}

} // verus!
