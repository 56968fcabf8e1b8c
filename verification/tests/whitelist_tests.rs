use minter::Key;
use minter::Whitelist;

#[test]
fn fresh_whitelist_admits_nobody() {
    let w = Whitelist::init();
    assert!(!w.get(&Key::Account(1)));
    assert!(!w.get(&Key::Hash(1)));
}

#[test]
fn set_and_get_roundtrip() {
    let mut w = Whitelist::init();
    w.set(&Key::Account(1), true);
    w.set(&Key::Account(2), false);
    assert!(w.get(&Key::Account(1)));
    assert!(!w.get(&Key::Account(2)));
    assert!(!w.get(&Key::Account(3)));
}

#[test]
fn later_entry_for_the_same_account_wins() {
    let mut w = Whitelist::init();
    w.set(&Key::Account(1), true);
    w.set(&Key::Account(1), false);
    assert!(!w.get(&Key::Account(1)));
    w.set(&Key::Account(1), true);
    assert!(w.get(&Key::Account(1)));
}

#[test]
fn key_variants_are_distinct_accounts() {
    let mut w = Whitelist::init();
    w.set(&Key::Account(5), true);
    assert!(!w.get(&Key::Hash(5)));
    assert!(!w.get(&Key::Uref(5)));
}

#[test]
fn reset_forgets_everything() {
    let mut w = Whitelist::init();
    w.set(&Key::Account(1), true);
    w.set(&Key::Account(2), true);
    w.reset();
    assert!(!w.get(&Key::Account(1)));
    assert!(!w.get(&Key::Account(2)));
}
