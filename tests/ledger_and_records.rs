use xbasic::address::Address;
use xbasic::ledger::{Ledger, TokenAccount, TokenError};
use xbasic::visitor::{initialize, introduce_yourself, update, visit, MyAccount, VisitorState};

fn addr(b: u8) -> Address {
    Address::new([b; 32])
}

fn account(key: u8, owner: u8, amount: u64) -> TokenAccount {
    TokenAccount { key: addr(key), mint: addr(1), owner: addr(owner), amount }
}

#[test]
fn address_same_compares_every_byte() {
    let mut bytes = [7u8; 32];
    assert!(addr(7).same(&Address::new(bytes)));
    bytes[31] = 8;
    assert!(!addr(7).same(&Address::new(bytes)));
}

#[test]
fn duplicate_key_is_refused() {
    let mut ledger = Ledger::new();
    assert!(ledger.open_account(account(10, 2, 5)));
    assert!(!ledger.open_account(account(10, 3, 9)));
    assert_eq!(ledger.accounts.len(), 1);
    assert_eq!(ledger.balance_of(&addr(10)), 5);
    assert_eq!(ledger.balance_of(&addr(11)), 0);
    assert_eq!(ledger.find(&addr(10)), Some(0));
    assert_eq!(ledger.find(&addr(11)), None);
}

#[test]
fn transfer_moves_exact_amount() {
    let mut ledger = Ledger::new();
    assert!(ledger.open_account(account(10, 2, 50)));
    assert!(ledger.open_account(account(11, 3, 7)));
    assert_eq!(ledger.transfer(&addr(10), &addr(11), 20, &addr(2)), Ok(()));
    assert_eq!(ledger.balance_of(&addr(10)), 30);
    assert_eq!(ledger.balance_of(&addr(11)), 27);
    assert_eq!(ledger.transfer(&addr(10), &addr(11), 31, &addr(2)), Err(TokenError::InsufficientFunds));
    assert_eq!(ledger.transfer(&addr(11), &addr(10), 1, &addr(2)), Err(TokenError::OwnerMismatch));
    assert_eq!(ledger.transfer(&addr(12), &addr(10), 1, &addr(2)), Err(TokenError::AccountNotFound));
    assert_eq!(ledger.balance_of(&addr(10)), 30);
    assert_eq!(ledger.balance_of(&addr(11)), 27);
}

#[test]
fn transfer_to_itself_keeps_balance() {
    let mut ledger = Ledger::new();
    assert!(ledger.open_account(account(10, 2, 50)));
    assert_eq!(ledger.transfer(&addr(10), &addr(10), 20, &addr(2)), Ok(()));
    assert_eq!(ledger.balance_of(&addr(10)), 50);
}

#[test]
fn visitor_counts_visits() {
    let mut state = VisitorState { visit_count: 0, bump: 0 };
    introduce_yourself(&mut state, 254);
    assert_eq!(state.visit_count, 1);
    assert_eq!(state.bump, 254);
    visit(&mut state);
    visit(&mut state);
    assert_eq!(state.visit_count, 3);
    assert_eq!(state.bump, 254);
}

#[test]
fn data_cell_is_set_and_updated() {
    let mut cell = MyAccount { data: 0 };
    initialize(&mut cell, 42);
    assert_eq!(cell.data, 42);
    update(&mut cell, 7);
    assert_eq!(cell.data, 7);
}
