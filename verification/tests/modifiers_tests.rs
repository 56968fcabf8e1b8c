use minter::modifiers;
use minter::Error;
use minter::Key;
use minter::Minter;

const ADMIN: Key = Key::Account(1);

fn engine(only_whitelist: bool, allow_mint: bool, max_mint: u64) -> Minter {
    let mut m = Minter::new();
    m.init(ADMIN, Key::Account(2), Key::Hash(3), 10, only_whitelist, allow_mint, max_mint);
    m
}

#[test]
fn only_admin_admits_exactly_the_admin() {
    let m = engine(false, true, 100);
    assert_eq!(modifiers::only_admin(&m, ADMIN), Ok(()));
    assert_eq!(modifiers::only_admin(&m, Key::Account(5)), Err(Error::PermissionDenied));
    assert_eq!(modifiers::only_admin(&m, Key::Hash(1)), Err(Error::PermissionDenied));
    assert_eq!(modifiers::only_admin(&Minter::new(), ADMIN), Err(Error::Uninitialized));
}

#[test]
fn mint_allowed_follows_the_kill_switch() {
    assert_eq!(modifiers::mint_allowed(&engine(false, true, 100)), Ok(()));
    assert_eq!(modifiers::mint_allowed(&engine(false, false, 100)), Err(Error::MintNotAllowed));
    assert_eq!(modifiers::mint_allowed(&Minter::new()), Err(Error::Uninitialized));
}

#[test]
fn valid_account_checks_the_whitelist_only_when_gated() {
    let owner = Key::Account(7);
    let mut gated = engine(true, true, 100);
    assert_eq!(modifiers::valid_account(&gated, owner), Err(Error::NotWhitelisted));
    gated.set_whitelist(ADMIN, vec![owner], vec![true]).unwrap();
    assert_eq!(modifiers::valid_account(&gated, owner), Ok(()));
    let open = engine(false, true, 100);
    assert_eq!(modifiers::valid_account(&open, owner), Ok(()));
}

#[test]
fn limited_mint_caps_holdings_plus_count() {
    let m = engine(false, true, 5);
    assert_eq!(modifiers::limited_mint(&m, 4, 1), Ok(()));
    assert_eq!(modifiers::limited_mint(&m, 4, 2), Err(Error::MintLimitExceed));
    assert_eq!(modifiers::limited_mint(&m, 0, 5), Ok(()));
    // The sum is computed without wrapping.
    assert_eq!(modifiers::limited_mint(&m, u64::MAX, 1), Err(Error::MintLimitExceed));
}

#[test]
fn enough_native_balance_compares_amount_to_balance() {
    assert_eq!(modifiers::enough_native_balance(30, 30), Ok(()));
    assert_eq!(modifiers::enough_native_balance(30, 25), Err(Error::NotEnoughBalance));
    assert_eq!(modifiers::enough_native_balance(0, 0), Ok(()));
}
