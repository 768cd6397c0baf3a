//! The two operations of the program: creating the oracle record, and the
//! crank that refreshes it and may reward its caller.
//!
//! Both work on the accounts as plain values and leave reading the clock,
//! storing the record and moving the lamports to their caller. A crank returns
//! the transfer that the runtime is to carry out; the balance it leaves in its
//! accounts is the one that the vault holds once that transfer is done.

use crate::address::{
    build_oracle_seeds, build_reward_vault_seeds, derives, find_bump, found_bump, oracle_seeds,
    program_address, push_bump, reward_vault_seeds, verify_program_address, Address,
};
use crate::oracle::{validation_at, Oracle};
use crate::reward::{
    balance_after, is_reward_due, reward_due, reward_paid, RewardTransfer, REWARD_IN_LAMPORTS,
};
use vstd::prelude::*;

verus! {

/// Why an operation refused the accounts it was given.
#[derive(Clone, Copy, Debug, PartialEq, Eq, Structural)]
pub enum OracleError {
    /// The account presented as the oracle record is not at the address that
    /// the record's seeds derive.
    OracleAddressMismatch,
    /// The account presented as the reward vault is not at the address that
    /// the vault's seeds derive.
    RewardVaultAddressMismatch,
}

/// The accounts of `create_oracle`.
#[derive(Clone, Copy, Debug, PartialEq, Eq)]
pub struct CreateOracle {
    /// The address of this program.
    pub program_id: Address,
    /// The address at which the record is to be created.
    pub oracle_key: Address,
    /// The address presented as the record's reward vault.
    pub reward_vault_key: Address,
}

/// The accounts of `crank_oracle`.
#[derive(Clone, Copy, Debug, PartialEq, Eq)]
pub struct CrankOracle {
    /// The address of this program.
    pub program_id: Address,
    /// The caller, who receives the reward.
    pub signer: Address,
    /// The address of the account presented as the record.
    pub oracle_key: Address,
    /// What that account holds.
    pub oracle: Oracle,
    /// The address of the account presented as the reward vault.
    pub reward_vault_key: Address,
    /// The balance of that account.
    pub reward_vault_lamports: u64,
}

impl CreateOracle {
    /// The bump of the record: the one under which the search from the
    /// record's seeds finds the presented address.
    pub open spec fn oracle_bump(self) -> Option<u8> {
        found_bump(oracle_seeds(), self.program_id@, self.oracle_key@)
    }

    /// The bump of the vault: the one under which the search from the vault's
    /// seeds finds the presented address.
    pub open spec fn vault_bump(self) -> Option<u8> {
        found_bump(reward_vault_seeds(self.oracle_key@), self.program_id@, self.reward_vault_key@)
    }

    /// The accounts of a crank on the record `oracle` created from these
    /// accounts, called by `signer` while the vault holds `lamports`.
    pub open spec fn crank_accounts(self, oracle: Oracle, signer: Address, lamports: u64) -> CrankOracle {
        CrankOracle {
            program_id: self.program_id,
            signer,
            oracle_key: self.oracle_key,
            oracle,
            reward_vault_key: self.reward_vault_key,
            reward_vault_lamports: lamports,
        }
    }
}

impl CrankOracle {
    /// The presented record is at the address that its seeds and its stored
    /// bump derive.
    pub open spec fn oracle_verified(self) -> bool {
        derives(oracle_seeds(), self.oracle.bump, self.program_id@, self.oracle_key@)
    }

    /// The presented vault is at the address that the vault's seeds and the
    /// stored vault bump derive.
    pub open spec fn reward_vault_verified(self) -> bool {
        derives(
            reward_vault_seeds(self.oracle_key@),
            self.oracle.vault_bump,
            self.program_id@,
            self.reward_vault_key@,
        )
    }

    /// Both presented accounts are the derived ones.
    pub open spec fn verified(self) -> bool {
        self.oracle_verified() && self.reward_vault_verified()
    }

    /// The accounts after a crank at time `t`: the record refreshed, the vault
    /// less the reward where it is due, all else as before.
    pub open spec fn cranked(self, t: int) -> CrankOracle {
        CrankOracle {
            oracle: self.oracle.refreshed(t),
            reward_vault_lamports: balance_after(t, self.reward_vault_lamports),
            ..self
        }
    }

    /// `payout` is what a crank at time `t` on these accounts hands to the
    /// runtime: the reward to the caller where it is due, nothing where it is
    /// not.
    pub open spec fn pays(self, t: int, payout: Option<RewardTransfer>) -> bool {
        match payout {
            Some(transfer) => {
                &&& reward_due(t, self.reward_vault_lamports)
                &&& transfer.is_reward(
                    self.reward_vault_key@,
                    self.oracle_key@,
                    self.oracle.vault_bump,
                    self.signer@,
                )
            },
            None => !reward_due(t, self.reward_vault_lamports),
        }
    }

    /// Derives both addresses from the stored bumps and holds the presented
    /// accounts against them, the record first.
    pub fn verify(&self) -> (outcome: Result<(), OracleError>)
        ensures
            outcome is Ok <==> self.verified(),
            match outcome {
                Ok(()) => self.verified(),
                Err(OracleError::OracleAddressMismatch) => !self.oracle_verified(),
                Err(OracleError::RewardVaultAddressMismatch) => self.oracle_verified()
                    && !self.reward_vault_verified(),
            },
    {
        let oracle_seeds = push_bump(build_oracle_seeds(), self.oracle.bump);
        if !verify_program_address(&self.oracle_key, &oracle_seeds, &self.program_id) {
            return Err(OracleError::OracleAddressMismatch);
        }
        let vault_seeds = push_bump(
            build_reward_vault_seeds(&self.oracle_key),
            self.oracle.vault_bump,
        );
        if !verify_program_address(&self.reward_vault_key, &vault_seeds, &self.program_id) {
            return Err(OracleError::RewardVaultAddressMismatch);
        }
        Ok(())
    }

    /// The crank on accounts as they stand: refreshes the record from
    /// `unix_timestamp` and, where the reward is due, takes it from the vault's
    /// balance and returns its transfer.
    pub fn crank(&mut self, unix_timestamp: i64) -> (payout: Option<RewardTransfer>)
        ensures
            *final(self) == old(self).cranked(unix_timestamp as int),
            old(self).pays(unix_timestamp as int, payout),
    {
        self.oracle.refresh(unix_timestamp);
        if is_reward_due(unix_timestamp, self.reward_vault_lamports) {
            let transfer = RewardTransfer::reward(
                &self.reward_vault_key,
                &self.oracle_key,
                self.oracle.vault_bump,
                &self.signer,
            );
            self.reward_vault_lamports = self.reward_vault_lamports - REWARD_IN_LAMPORTS;
            Some(transfer)
        } else {
            None
        }
    }
}

/// Creates the oracle record.
///
/// Searches for the address of the record and for that of its reward vault,
/// and refuses accounts that are presented at other addresses. The record it
/// returns reports the market's state at `unix_timestamp` and keeps the two
/// bumps that the searches found; a crank on the same accounts verifies it.
pub fn create_oracle(ctx: &CreateOracle, unix_timestamp: i64) -> (created: Result<
    Oracle,
    OracleError,
>)
    ensures
        created is Ok <==> ctx.oracle_bump() is Some && ctx.vault_bump() is Some,
        match created {
            Ok(oracle) => {
                &&& ctx.oracle_bump() == Some(oracle.bump)
                &&& ctx.vault_bump() == Some(oracle.vault_bump)
                &&& oracle.validation == validation_at(unix_timestamp as int)
                &&& forall|signer: Address, lamports: u64|
                    (#[trigger] ctx.crank_accounts(oracle, signer, lamports)).verified()
            },
            Err(OracleError::OracleAddressMismatch) => ctx.oracle_bump() is None,
            Err(OracleError::RewardVaultAddressMismatch) => ctx.oracle_bump() is Some
                && ctx.vault_bump() is None,
        },
{
    let bump = match find_bump(&ctx.oracle_key, &build_oracle_seeds(), &ctx.program_id) {
        Some(bump) => bump,
        None => {
            return Err(OracleError::OracleAddressMismatch);
        },
    };
    let vault_seeds = build_reward_vault_seeds(&ctx.oracle_key);
    let vault_bump = match find_bump(&ctx.reward_vault_key, &vault_seeds, &ctx.program_id) {
        Some(bump) => bump,
        None => {
            return Err(OracleError::RewardVaultAddressMismatch);
        },
    };
    Ok(Oracle::new(unix_timestamp, bump, vault_bump))
}

/// The crank.
///
/// Verifies the addresses of the presented accounts and, if either is not the
/// derived one, changes nothing. Otherwise refreshes the record from
/// `unix_timestamp` and pays the reward where it is due.
pub fn crank_oracle(ctx: &mut CrankOracle, unix_timestamp: i64) -> (cranked: Result<
    Option<RewardTransfer>,
    OracleError,
>)
    ensures
        cranked is Ok <==> old(ctx).verified(),
        match cranked {
            Ok(payout) => {
                &&& *final(ctx) == old(ctx).cranked(unix_timestamp as int)
                &&& old(ctx).pays(unix_timestamp as int, payout)
            },
            Err(OracleError::OracleAddressMismatch) => {
                &&& !old(ctx).oracle_verified()
                &&& *final(ctx) == *old(ctx)
            },
            Err(OracleError::RewardVaultAddressMismatch) => {
                &&& old(ctx).oracle_verified()
                &&& !old(ctx).reward_vault_verified()
                &&& *final(ctx) == *old(ctx)
            },
        },
{
    match ctx.verify() {
        Ok(()) => Ok(ctx.crank(unix_timestamp)),
        Err(error) => Err(error),
    }
}

/// Two cranks in immediate succession at the same time: the second leaves the
/// record exactly as the first left it, with the validation of that time, and
/// each of the two takes from the vault the reward or nothing.
pub proof fn lemma_crank_twice(ctx: CrankOracle, t: int)
    ensures
        ctx.cranked(t).oracle.validation == validation_at(t),
        ctx.cranked(t).cranked(t).oracle == ctx.cranked(t).oracle,
        ctx.reward_vault_lamports - ctx.cranked(t).reward_vault_lamports == reward_paid(
            t,
            ctx.reward_vault_lamports,
        ),
        ctx.cranked(t).reward_vault_lamports - ctx.cranked(t).cranked(t).reward_vault_lamports
            == reward_paid(t, ctx.cranked(t).reward_vault_lamports),
{
}

/// A crank changes neither the addresses nor the bumps, so accounts that were
/// verified stay verified however often the crank runs.
pub proof fn lemma_crank_keeps_verified(ctx: CrankOracle, t: int)
    ensures
        ctx.cranked(t).oracle.bump == ctx.oracle.bump,
        ctx.cranked(t).oracle.vault_bump == ctx.oracle.vault_bump,
        ctx.cranked(t).verified() == ctx.verified(),
{
}

/// The transfer that a crank on verified accounts returns is signed for with
/// seeds that derive the address it takes the lamports from: the runtime will
/// take the program's signature for the vault.
pub proof fn lemma_reward_is_authorized(ctx: CrankOracle, t: int, transfer: RewardTransfer)
    ensures
        ctx.verified() && ctx.pays(t, Some(transfer)) ==> {
            &&& program_address(transfer.signer_seeds.deep_view(), ctx.program_id@) == Some(
                transfer.from@,
            )
            &&& transfer.from@ == ctx.reward_vault_key@
            &&& transfer.to@ == ctx.signer@
            &&& transfer.lamports == REWARD_IN_LAMPORTS
        },
{
}

} // verus!
