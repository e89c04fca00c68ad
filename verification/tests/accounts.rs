use pda_vault::accounts::{AccountRef, Accounts};
use pda_vault::address::Address;

fn key(byte: u8) -> Address {
    Address::new([byte; 32])
}

#[test]
fn new_list_is_empty() {
    let accounts = Accounts::new();
    assert_eq!(accounts.len(), 0);
    assert!(accounts.balances.is_empty());
    assert!(accounts.is_wf());
}

#[test]
fn load_gives_each_account_a_slot() {
    let mut accounts = Accounts::new();
    assert_eq!(accounts.load(key(1), 1000, true, false), 0);
    assert_eq!(accounts.load(key(2), 50, false, true), 1);
    assert_eq!(accounts.len(), 2);
    assert_eq!(
        accounts.refs,
        vec![
            AccountRef { key: key(1), slot: 0, is_signer: true, is_writable: false },
            AccountRef { key: key(2), slot: 1, is_signer: false, is_writable: true },
        ]
    );
    assert_eq!(accounts.balances, vec![1000, 50]);
    assert_eq!(accounts.balance(0), 1000);
    assert_eq!(accounts.balance(1), 50);
    assert!(accounts.is_wf());
}

#[test]
fn load_shares_the_slot_of_a_repeated_account() {
    let mut accounts = Accounts::new();
    accounts.load(key(1), 1000, true, true);
    accounts.load(key(2), 50, false, true);
    assert_eq!(accounts.load(key(1), 1000, false, false), 2);
    assert_eq!(accounts.refs[2].slot, 0);
    assert_eq!(accounts.refs[2].is_signer, false);
    assert_eq!(accounts.balances, vec![1000, 50]);
    assert_eq!(accounts.balance(2), 1000);
    assert_eq!(accounts.load(key(2), 50, false, true), 3);
    assert_eq!(accounts.refs[3].slot, 1);
    assert_eq!(accounts.load(key(3), 7, false, true), 4);
    assert_eq!(accounts.refs[4].slot, 2);
    assert_eq!(accounts.balances, vec![1000, 50, 7]);
}

#[test]
fn dangling_slot_is_not_well_formed() {
    let accounts = Accounts {
        refs: vec![AccountRef { key: key(1), slot: 1, is_signer: true, is_writable: true }],
        balances: vec![10],
    };
    assert!(!accounts.is_wf());
    let accounts = Accounts {
        refs: vec![AccountRef { key: key(1), slot: 0, is_signer: true, is_writable: true }],
        balances: vec![10],
    };
    assert!(accounts.is_wf());
}
