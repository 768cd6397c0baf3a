use anchor_lang::prelude::Pubkey;
use anchor_lang::solana_program::{system_instruction, system_program};
use nft_market_hours::reward::{is_reward_due, RewardTransfer, REWARD_IN_LAMPORTS};

const MONDAY: i64 = 1_704_067_200;

#[test]
fn reward_is_a_hundredth_of_a_sol() {
    assert_eq!(REWARD_IN_LAMPORTS, 10_000_000);
    assert_eq!(REWARD_IN_LAMPORTS * 100, anchor_lang::solana_program::native_token::LAMPORTS_PER_SOL);
}

#[test]
fn balance_equal_to_the_reward_pays_nothing() {
    assert!(!is_reward_due(MONDAY + 52_500, REWARD_IN_LAMPORTS));
    assert!(!is_reward_due(MONDAY + 75_700, REWARD_IN_LAMPORTS));
    assert!(!is_reward_due(MONDAY + 52_500, REWARD_IN_LAMPORTS - 1));
    assert!(!is_reward_due(MONDAY + 52_500, 0));
}

#[test]
fn one_lamport_above_the_reward_pays_within_the_window() {
    assert!(is_reward_due(MONDAY + 52_200, REWARD_IN_LAMPORTS + 1));
    assert!(is_reward_due(MONDAY + 53_099, REWARD_IN_LAMPORTS + 1));
    assert!(is_reward_due(MONDAY + 75_600, REWARD_IN_LAMPORTS + 1));
    assert!(is_reward_due(MONDAY + 76_499, REWARD_IN_LAMPORTS + 1));
    assert!(is_reward_due(MONDAY + 52_500, u64::MAX));
}

#[test]
fn nothing_is_paid_outside_the_window_whatever_the_balance() {
    assert!(!is_reward_due(MONDAY + 52_199, u64::MAX));
    assert!(!is_reward_due(MONDAY + 53_100, u64::MAX));
    assert!(!is_reward_due(MONDAY + 64_800, u64::MAX));
    assert!(!is_reward_due(MONDAY + 75_599, u64::MAX));
    assert!(!is_reward_due(MONDAY + 76_500, u64::MAX));
    assert!(!is_reward_due(MONDAY + 5 * 86_400 + 54_000, u64::MAX));
}

#[test]
fn reward_window_pays_on_any_day_of_the_week() {
    for day in 0..7 {
        assert!(is_reward_due(MONDAY + day * 86_400 + 52_500, REWARD_IN_LAMPORTS + 1));
    }
}

#[test]
fn reward_transfer_names_vault_caller_and_amount() {
    let vault = [7u8; 32];
    let oracle_key = [9u8; 32];
    let caller = [3u8; 32];
    let transfer = RewardTransfer::reward(&vault, &oracle_key, 251, &caller);
    assert_eq!(transfer.from, vault);
    assert_eq!(transfer.to, caller);
    assert_eq!(transfer.lamports, 10_000_000);
    assert_eq!(
        transfer.signer_seeds,
        vec![b"reward_vault".to_vec(), oracle_key.to_vec(), vec![251u8]]
    );
}

#[test]
fn reward_instruction_is_the_system_transfer() {
    let vault = [7u8; 32];
    let caller = [3u8; 32];
    let transfer = RewardTransfer::reward(&vault, &[9u8; 32], 251, &caller);
    let instruction = &transfer.instruction;

    assert_eq!(instruction.program_id, [0u8; 32]);
    assert_eq!(instruction.program_id, system_program::ID.to_bytes());
    assert_eq!(instruction.accounts.len(), 2);
    assert_eq!(instruction.accounts[0].address, vault);
    assert!(instruction.accounts[0].is_signer);
    assert!(instruction.accounts[0].is_writable);
    assert_eq!(instruction.accounts[1].address, caller);
    assert!(!instruction.accounts[1].is_signer);
    assert!(instruction.accounts[1].is_writable);
    assert_eq!(instruction.data, vec![2, 0, 0, 0, 0x80, 0x96, 0x98, 0, 0, 0, 0, 0]);
}

#[test]
fn reward_instruction_agrees_with_the_system_program_crate() {
    let vault = Pubkey::new_from_array([7u8; 32]);
    let caller = Pubkey::new_from_array([3u8; 32]);
    let expected = system_instruction::transfer(&vault, &caller, REWARD_IN_LAMPORTS);
    let transfer =
        RewardTransfer::reward(&vault.to_bytes(), &[9u8; 32], 251, &caller.to_bytes());

    assert_eq!(transfer.instruction.program_id, expected.program_id.to_bytes());
    assert_eq!(transfer.instruction.data, expected.data);
    assert_eq!(transfer.instruction.accounts.len(), expected.accounts.len());
    for (ours, theirs) in transfer.instruction.accounts.iter().zip(expected.accounts.iter()) {
        assert_eq!(ours.address, theirs.pubkey.to_bytes());
        assert_eq!(ours.is_signer, theirs.is_signer);
        assert_eq!(ours.is_writable, theirs.is_writable);
    }
}
