//! The reward for a refresh: when it is due, and the transfer that pays it.
//!
//! A refresh is rewarded with a fixed amount out of the record's reward vault
//! if it comes within the margin after the opening or the closing bell and the
//! vault holds more than the reward. Nothing else is ever taken from the vault.

use crate::address::{
    build_reward_vault_seeds, push_bump, reward_vault_seeds, with_bump, Address,
};
use crate::clock::{is_within_15_minutes_of_market_open_or_close, near_open_or_close};
use anchor_lang::prelude::Pubkey;
use anchor_lang::solana_program::system_instruction;
use vstd::bytes::spec_u64_to_le_bytes;
use vstd::prelude::*;

verus! {

/// The reward for one refresh, in lamports: a hundredth of a SOL.
pub const REWARD_IN_LAMPORTS: u64 = 10000000;

/// Whether a refresh at time `t` is rewarded out of a vault that holds
/// `balance` lamports.
pub open spec fn reward_due(t: int, balance: u64) -> bool {
    near_open_or_close(t) && balance > REWARD_IN_LAMPORTS
}

/// What a refresh at time `t` pays out of a vault that holds `balance`.
pub open spec fn reward_paid(t: int, balance: u64) -> u64 {
    if reward_due(t, balance) {
        REWARD_IN_LAMPORTS
    } else {
        0
    }
}

/// What the vault holds after a refresh at time `t`.
pub open spec fn balance_after(t: int, balance: u64) -> u64 {
    if reward_due(t, balance) {
        (balance - REWARD_IN_LAMPORTS) as u64
    } else {
        balance
    }
}

/// The address of the system program: 32 zero bytes.
pub open spec fn system_program_id() -> Seq<u8> {
    Seq::new(32, |i: int| 0u8)
}

/// The data of the system program's transfer instruction: its number, 2, in
/// four bytes, then the amount in eight, both little-endian.
pub open spec fn transfer_data(lamports: u64) -> Seq<u8> {
    seq![2u8, 0u8, 0u8, 0u8] + spec_u64_to_le_bytes(lamports)
}

/// An account as an instruction lists it.
#[derive(Clone, Copy, Debug, PartialEq, Eq)]
pub struct AccountMeta {
    pub address: Address,
    pub is_signer: bool,
    pub is_writable: bool,
}

/// An instruction for another program.
#[derive(Debug, PartialEq, Eq)]
pub struct Instruction {
    pub program_id: Address,
    pub accounts: Vec<AccountMeta>,
    pub data: Vec<u8>,
}

/// The payment of one reward, for the runtime to carry out.
#[derive(Debug, PartialEq, Eq)]
pub struct RewardTransfer {
    /// The reward vault.
    pub from: Address,
    /// The caller of the crank.
    pub to: Address,
    /// The amount.
    pub lamports: u64,
    /// The seeds, bump included, with which the program signs for the vault.
    pub signer_seeds: Vec<Vec<u8>>,
    /// The transfer as the system program takes it.
    pub instruction: Instruction,
}

impl Instruction {
    /// This is the system program's transfer of `lamports` from `from`, which
    /// signs, to `to`.
    pub open spec fn is_system_transfer(self, from: Seq<u8>, to: Seq<u8>, lamports: u64) -> bool {
        &&& self.program_id@ == system_program_id()
        &&& self.accounts@.len() == 2
        &&& self.accounts@[0].address@ == from
        &&& self.accounts@[0].is_signer
        &&& self.accounts@[0].is_writable
        &&& self.accounts@[1].address@ == to
        &&& !self.accounts@[1].is_signer
        &&& self.accounts@[1].is_writable
        &&& self.data@ == transfer_data(lamports)
    }
}

impl RewardTransfer {
    /// This pays exactly the reward, from `vault` to `caller`, signed for with
    /// the vault's own seeds and `vault_bump`.
    pub open spec fn is_reward(
        self,
        vault: Seq<u8>,
        oracle_key: Seq<u8>,
        vault_bump: u8,
        caller: Seq<u8>,
    ) -> bool {
        &&& self.from@ == vault
        &&& self.to@ == caller
        &&& self.lamports == REWARD_IN_LAMPORTS
        &&& self.signer_seeds.deep_view() == with_bump(reward_vault_seeds(oracle_key), vault_bump)
        &&& self.instruction.is_system_transfer(vault, caller, REWARD_IN_LAMPORTS)
    }

    /// The payment of the reward out of `vault`, the vault of the record at
    /// `oracle_key`, to `caller`.
    pub fn reward(vault: &Address, oracle_key: &Address, vault_bump: u8, caller: &Address) -> (transfer:
        RewardTransfer)
        ensures
            transfer.is_reward(vault@, oracle_key@, vault_bump, caller@),
    {
        RewardTransfer {
            from: *vault,
            to: *caller,
            lamports: REWARD_IN_LAMPORTS,
            signer_seeds: push_bump(build_reward_vault_seeds(oracle_key), vault_bump),
            instruction: system_transfer(vault, caller, REWARD_IN_LAMPORTS),
        }
    }
}

/// Calls `system_instruction::transfer` and hands its instruction out field by
/// field. Trusted: the instruction is addressed to the system program, lists
/// `from` as a writable signer and `to` as writable, in that order, and its
/// data is the transfer's number and the amount as `transfer_data` lays them
/// out.
#[verifier::external_body]
fn system_transfer(from: &Address, to: &Address, lamports: u64) -> (instruction: Instruction)
    ensures
        instruction.is_system_transfer(from@, to@, lamports),
{
    let (from, to) = (Pubkey::new_from_array(*from), Pubkey::new_from_array(*to));
    let built = system_instruction::transfer(&from, &to, lamports);
    let accounts = built.accounts.iter().map(
        |meta| AccountMeta {
            address: meta.pubkey.to_bytes(),
            is_signer: meta.is_signer,
            is_writable: meta.is_writable,
        },
    );
    Instruction {
        program_id: built.program_id.to_bytes(),
        accounts: accounts.collect(),
        data: built.data,
    }
}

/// Whether a refresh at `unix_timestamp` is rewarded out of a vault that holds
/// `reward_vault_lamports`.
pub fn is_reward_due(unix_timestamp: i64, reward_vault_lamports: u64) -> (due: bool)
    ensures
        due == reward_due(unix_timestamp as int, reward_vault_lamports),
{
    is_within_15_minutes_of_market_open_or_close(unix_timestamp) && reward_vault_lamports
        > REWARD_IN_LAMPORTS
}

/// A vault that holds exactly the reward pays nothing, at any time. A vault
/// that holds one lamport more pays the reward at every time within the margin
/// after a bell, and is left with that one lamport.
pub proof fn lemma_reward_threshold(t: int)
    ensures
        !reward_due(t, REWARD_IN_LAMPORTS),
        reward_due(t, (REWARD_IN_LAMPORTS + 1) as u64) == near_open_or_close(t),
        near_open_or_close(t) ==> balance_after(t, (REWARD_IN_LAMPORTS + 1) as u64) == 1,
{
}

/// Whatever the time and the balance, a refresh pays the reward or nothing,
/// never more than the vault holds, and the vault is left with what it held
/// less what was paid. A vault that pays is not emptied.
pub proof fn lemma_vault_never_overdrawn(t: int, balance: u64)
    ensures
        reward_paid(t, balance) == 0 || reward_paid(t, balance) == REWARD_IN_LAMPORTS,
        reward_paid(t, balance) <= balance,
        balance_after(t, balance) == balance - reward_paid(t, balance),
        reward_due(t, balance) ==> balance_after(t, balance) > 0,
        !near_open_or_close(t) ==> balance_after(t, balance) == balance,
{
}

} // verus!
