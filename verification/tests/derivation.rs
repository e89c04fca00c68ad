use pda_vault::address::Address;
use pda_vault::derivation::{check_vault, vault_address, AuthorizationProof, VAULT_SEED};
use pda_vault::error::VaultError;
use solana_program::pubkey::Pubkey;

const VAULT_OF_ONES: [u8; 32] = [
    107, 13, 114, 233, 208, 142, 152, 42, 81, 89, 247, 217, 189, 177, 124, 235, 254, 96, 29, 127,
    46, 130, 56, 153, 15, 86, 122, 214, 104, 75, 239, 62,
];

const VAULT_OF_TWOS: [u8; 32] = [
    129, 118, 253, 239, 100, 222, 106, 175, 251, 24, 195, 160, 18, 223, 154, 82, 235, 189, 14, 86,
    6, 137, 166, 6, 3, 72, 158, 132, 249, 30, 184, 171,
];

fn filled(byte: u8) -> Address {
    Address::new([byte; 32])
}

#[test]
fn shared_seed_spells_vault() {
    assert_eq!(&VAULT_SEED, b"vault");
}

#[test]
fn vault_address_has_the_expected_bytes() {
    let derived = vault_address(&filled(1), &filled(7));
    assert_eq!(derived, Some((Address::new(VAULT_OF_ONES), 255)));
}

#[test]
fn vault_address_searches_past_the_first_bump() {
    let derived = vault_address(&filled(2), &filled(7));
    assert_eq!(derived, Some((Address::new(VAULT_OF_TWOS), 254)));
}

#[test]
fn vault_address_is_what_the_ledger_derives() {
    let owner = Pubkey::new_from_array([2; 32]);
    let program = Pubkey::new_from_array([7; 32]);
    let (key, bump) = Pubkey::find_program_address(&[b"vault", owner.as_ref()], &program);
    assert_eq!(vault_address(&filled(2), &filled(7)), Some((Address::new(key.to_bytes()), bump)));
}

#[test]
fn vault_address_is_deterministic() {
    let first = vault_address(&filled(9), &filled(3));
    let second = vault_address(&filled(9), &filled(3));
    assert!(first.is_some());
    assert_eq!(first, second);
}

#[test]
fn vault_address_depends_on_owner_and_program() {
    let base = vault_address(&filled(1), &filled(7)).unwrap();
    let other_owner = vault_address(&filled(2), &filled(7)).unwrap();
    let other_program = vault_address(&filled(1), &filled(8)).unwrap();
    assert_ne!(base.0, other_owner.0);
    assert_ne!(base.0, other_program.0);
    assert_ne!(base.0, filled(1));
    assert_ne!(base.0, filled(7));
}

#[test]
fn vault_address_is_off_the_curve() {
    let (address, _) = vault_address(&filled(1), &filled(7)).unwrap();
    assert!(!Pubkey::new_from_array(address.bytes).is_on_curve());
}

#[test]
fn check_vault_accepts_the_derived_address() {
    let derived = Some((Address::new(VAULT_OF_TWOS), 254));
    assert_eq!(check_vault(&Address::new(VAULT_OF_TWOS), derived), Ok(254));
}

#[test]
fn check_vault_refuses_another_address() {
    let derived = Some((Address::new(VAULT_OF_TWOS), 254));
    assert_eq!(check_vault(&Address::new(VAULT_OF_ONES), derived), Err(VaultError::InvalidArgument));
    let mut close = VAULT_OF_TWOS;
    close[31] ^= 1;
    assert_eq!(check_vault(&Address::new(close), derived), Err(VaultError::InvalidArgument));
}

#[test]
fn check_vault_reports_a_failed_derivation() {
    assert_eq!(check_vault(&filled(1), None), Err(VaultError::NoDerivedAddress));
}

#[test]
fn signer_seeds_are_the_derivation_seeds_and_the_bump() {
    let proof = AuthorizationProof { owner: filled(2), bump: 254, program_id: filled(7) };
    let seeds = proof.to_signer_seeds();
    assert_eq!(seeds, vec![b"vault".to_vec(), vec![2u8; 32], vec![254u8]]);
}

#[test]
fn signer_seeds_lead_back_to_the_vault() {
    let (address, bump) = vault_address(&filled(2), &filled(7)).unwrap();
    let proof = AuthorizationProof { owner: filled(2), bump, program_id: filled(7) };
    let seeds = proof.to_signer_seeds();
    let parts: Vec<&[u8]> = seeds.iter().map(|seed| seed.as_slice()).collect();
    let key = Pubkey::create_program_address(&parts, &Pubkey::new_from_array([7; 32])).unwrap();
    assert_eq!(key.to_bytes(), address.bytes);
}

#[test]
fn addresses_compare_by_their_bytes() {
    let mut bytes = [5u8; 32];
    assert_eq!(Address::new(bytes), filled(5));
    bytes[17] = 6;
    assert_ne!(Address::new(bytes), filled(5));
    assert_eq!(filled(5).to_vec(), vec![5u8; 32]);
}
