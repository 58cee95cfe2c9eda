use rps_staking::{ErrorCode, Identity, Ledger};

fn who(tag: u8) -> Identity {
    Identity::new([tag; 32])
}

#[test]
fn new_ledger_holds_nothing() {
    let wallets = Ledger::new();
    assert_eq!(wallets.balance(&who(1)), 0);
    assert_eq!(wallets.balance(&Identity::default()), 0);
}

#[test]
fn set_balance_touches_one_wallet() {
    let mut wallets = Ledger::new();
    wallets.set_balance(who(1), 10);
    wallets.set_balance(who(2), 20);
    wallets.set_balance(who(1), 30);
    assert_eq!(wallets.balance(&who(1)), 30);
    assert_eq!(wallets.balance(&who(2)), 20);
    assert_eq!(wallets.balance(&who(3)), 0);
}

#[test]
fn credit_adds() {
    let mut wallets = Ledger::new();
    assert_eq!(wallets.credit(who(1), 5), Ok(()));
    assert_eq!(wallets.credit(who(1), 7), Ok(()));
    assert_eq!(wallets.credit(who(2), 1), Ok(()));
    assert_eq!(wallets.balance(&who(1)), 12);
    assert_eq!(wallets.balance(&who(2)), 1);
}

#[test]
fn credit_refuses_what_does_not_fit() {
    let mut wallets = Ledger::new();
    wallets.set_balance(who(1), u64::MAX - 1);
    assert_eq!(wallets.credit(who(1), 2), Err(ErrorCode::InsufficientFunds));
    assert_eq!(wallets.balance(&who(1)), u64::MAX - 1);
    assert_eq!(wallets.credit(who(1), 1), Ok(()));
    assert_eq!(wallets.balance(&who(1)), u64::MAX);
}

#[test]
fn debit_takes() {
    let mut wallets = Ledger::new();
    wallets.set_balance(who(1), 10);
    assert_eq!(wallets.debit(who(1), 4), Ok(()));
    assert_eq!(wallets.balance(&who(1)), 6);
    assert_eq!(wallets.debit(who(1), 6), Ok(()));
    assert_eq!(wallets.balance(&who(1)), 0);
}

#[test]
fn debit_refuses_more_than_is_held() {
    let mut wallets = Ledger::new();
    wallets.set_balance(who(1), 10);
    assert_eq!(wallets.debit(who(1), 11), Err(ErrorCode::InsufficientFunds));
    assert_eq!(wallets.balance(&who(1)), 10);
    assert_eq!(wallets.debit(who(2), 1), Err(ErrorCode::InsufficientFunds));
    assert_eq!(wallets.debit(who(2), 0), Ok(()));
}
