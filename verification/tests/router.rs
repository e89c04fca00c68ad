use pda_vault::accounts::Accounts;
use pda_vault::address::Address;
use pda_vault::error::VaultError;
use pda_vault::processor::{create_account, process_instruction, withdraw};
use pda_vault::request::Effect;

const HOLDER: [u8; 32] = [2; 32];
const PROGRAM_ID: [u8; 32] = [7; 32];
const HOLDERS_VAULT: [u8; 32] = [
    129, 118, 253, 239, 100, 222, 106, 175, 251, 24, 195, 160, 18, 223, 154, 82, 235, 189, 14, 86,
    6, 137, 166, 6, 3, 72, 158, 132, 249, 30, 184, 171,
];

fn three(vault: [u8; 32]) -> Accounts {
    let mut accounts = Accounts::new();
    accounts.load(Address::new(HOLDER), 2000, true, true);
    accounts.load(Address::new(vault), 1000, false, true);
    accounts.load(Address::new([5; 32]), 30, false, true);
    accounts
}

#[test]
fn opcode_zero_opens_a_vault() {
    let mut accounts = three(HOLDERS_VAULT);
    let expected = create_account(&Address::new(PROGRAM_ID), &accounts).unwrap();
    let effect = process_instruction(&Address::new(PROGRAM_ID), &mut accounts, &[0]);
    assert_eq!(effect, Ok(Effect::Invoke(expected)));
    assert_eq!(accounts.balances, vec![2000, 1000, 30]);
}

#[test]
fn opcode_one_deposits() {
    let mut accounts = three(HOLDERS_VAULT);
    let data = [1, 244, 1, 0, 0, 0, 0, 0, 0];
    let effect = process_instruction(&Address::new(PROGRAM_ID), &mut accounts, &data);
    assert_eq!(effect, Ok(Effect::Settled));
    assert_eq!(accounts.balances, vec![1500, 1500, 30]);
}

#[test]
fn opcode_two_withdraws() {
    let mut accounts = three(HOLDERS_VAULT);
    let expected = withdraw(&Address::new(PROGRAM_ID), &accounts).unwrap();
    let effect = process_instruction(&Address::new(PROGRAM_ID), &mut accounts, &[2, 255, 255]);
    assert_eq!(effect, Ok(Effect::Invoke(expected.clone())));
    assert_eq!(expected.instruction.data, vec![2, 0, 0, 0, 100, 0, 0, 0, 0, 0, 0, 0]);
    assert_eq!(accounts.balances, vec![2000, 1000, 30]);
}

#[test]
fn opcode_three_is_refused() {
    let mut accounts = three(HOLDERS_VAULT);
    let effect = process_instruction(&Address::new(PROGRAM_ID), &mut accounts, &[3]);
    assert_eq!(effect, Err(VaultError::InvalidInstructionData));
    assert_eq!(accounts, three(HOLDERS_VAULT));
}

#[test]
fn every_opcode_above_two_is_refused() {
    for opcode in 3..=255u8 {
        let mut accounts = three(HOLDERS_VAULT);
        let data = [opcode, 244, 1, 0, 0, 0, 0, 0, 0];
        let effect = process_instruction(&Address::new(PROGRAM_ID), &mut accounts, &data);
        assert_eq!(effect, Err(VaultError::InvalidInstructionData));
        assert_eq!(accounts.balances, vec![2000, 1000, 30]);
    }
}

#[test]
fn empty_payload_is_refused() {
    let mut accounts = three(HOLDERS_VAULT);
    let effect = process_instruction(&Address::new(PROGRAM_ID), &mut accounts, &[]);
    assert_eq!(effect, Err(VaultError::InvalidInstructionData));
    assert_eq!(accounts.balances, vec![2000, 1000, 30]);
}

#[test]
fn substituted_vault_changes_nothing() {
    let mut accounts = three([9; 32]);
    let effect = process_instruction(&Address::new(PROGRAM_ID), &mut accounts, &[0]);
    assert_eq!(effect, Err(VaultError::InvalidArgument));
    assert_eq!(accounts, three([9; 32]));
    let effect = process_instruction(&Address::new(PROGRAM_ID), &mut accounts, &[2]);
    assert_eq!(effect, Err(VaultError::InvalidArgument));
    assert_eq!(accounts, three([9; 32]));
}

#[test]
fn failed_deposit_changes_nothing() {
    let mut accounts = three(HOLDERS_VAULT);
    let data = [1, 209, 7, 0, 0, 0, 0, 0, 0];
    let effect = process_instruction(&Address::new(PROGRAM_ID), &mut accounts, &data);
    assert_eq!(effect, Err(VaultError::BalanceUnderflow));
    assert_eq!(accounts, three(HOLDERS_VAULT));
    let effect = process_instruction(&Address::new(PROGRAM_ID), &mut accounts, &[1, 1]);
    assert_eq!(effect, Err(VaultError::PayloadTooShort));
    assert_eq!(accounts, three(HOLDERS_VAULT));
}

#[test]
fn too_few_accounts_are_refused() {
    let mut accounts = Accounts::new();
    accounts.load(Address::new(HOLDER), 2000, true, true);
    for opcode in 0..3u8 {
        let data = [opcode, 1, 0, 0, 0, 0, 0, 0, 0];
        let effect = process_instruction(&Address::new(PROGRAM_ID), &mut accounts, &data);
        assert_eq!(effect, Err(VaultError::NotEnoughAccountKeys));
    }
    assert_eq!(accounts.balances, vec![2000]);
}
