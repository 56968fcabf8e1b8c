use minter::Config;
use minter::Error;
use minter::Key;
use minter::Minter;

const ADMIN: Key = Key::Account(1);
const FUND_MANAGER: Key = Key::Account(2);
const ISSUER: Key = Key::Hash(3);
const OWNER: Key = Key::Account(7);
const STRANGER: Key = Key::Account(9);

fn engine(fee: u128, only_whitelist: bool, allow_mint: bool, max_mint: u64) -> Minter {
    let mut m = Minter::new();
    m.init(ADMIN, FUND_MANAGER, ISSUER, fee, only_whitelist, allow_mint, max_mint);
    m
}

#[test]
fn reads_before_init_are_refused() {
    let m = Minter::new();
    assert_eq!(m.get_admin(), Err(Error::Uninitialized));
    assert_eq!(m.get_fund_manager(), Err(Error::Uninitialized));
    assert_eq!(m.get_cep78_package_hash(), Err(Error::Uninitialized));
    assert_eq!(m.get_mint_fee(), Err(Error::Uninitialized));
    assert_eq!(m.get_mint_count(), Err(Error::Uninitialized));
    assert_eq!(m.get_max_mint(), Err(Error::Uninitialized));
    assert_eq!(m.get_only_whitelist(), Err(Error::Uninitialized));
    assert_eq!(m.get_allow_mint(), Err(Error::Uninitialized));
    assert_eq!(m.get_mint_cost(1), Err(Error::Uninitialized));
}

#[test]
fn ops_before_init_are_refused() {
    let mut m = Minter::new();
    assert_eq!(m.set_config(ADMIN, None, None, None, None, None, None), Err(Error::Uninitialized));
    assert_eq!(m.free_mint(ADMIN, OWNER, 1), Err(Error::Uninitialized));
    assert_eq!(m.native_mint(OWNER, 1, 0, 100), Err(Error::Uninitialized));
    assert_eq!(m.mint_nft(OWNER, 1), Err(Error::Uninitialized));
    assert_eq!(m.set_whitelist(ADMIN, vec![OWNER], vec![true]), Err(Error::Uninitialized));
    assert_eq!(m.reset_whitelist(ADMIN, vec![OWNER], vec![true]), Err(Error::Uninitialized));
}

#[test]
fn init_sets_every_field_and_zeroes_the_counter() {
    let m = engine(10, true, false, 25);
    assert_eq!(m.get_admin(), Ok(ADMIN));
    assert_eq!(m.get_fund_manager(), Ok(FUND_MANAGER));
    assert_eq!(m.get_cep78_package_hash(), Ok(ISSUER));
    assert_eq!(m.get_mint_fee(), Ok(10));
    assert_eq!(m.get_only_whitelist(), Ok(true));
    assert_eq!(m.get_allow_mint(), Ok(false));
    assert_eq!(m.get_max_mint(), Ok(25));
    assert_eq!(m.get_mint_count(), Ok(0));
}

#[test]
fn free_mint_advances_counter_contiguously() {
    let mut m = engine(10, false, true, 100);
    let first = m.free_mint(ADMIN, OWNER, 3).unwrap();
    assert_eq!(first.len(), 3);
    for (i, rq) in first.iter().enumerate() {
        assert_eq!(rq.sequence, i as u64);
        assert_eq!(rq.token_owner, OWNER);
        assert_eq!(rq.cep78_package_hash, 3);
    }
    assert_eq!(m.get_mint_count(), Ok(3));
    let second = m.free_mint(ADMIN, OWNER, 2).unwrap();
    assert_eq!(second.len(), 2);
    assert_eq!(second[0].sequence, 3);
    assert_eq!(second[1].sequence, 4);
    assert_eq!(m.get_mint_count(), Ok(5));
}

#[test]
fn free_mint_of_nothing_changes_nothing() {
    let mut m = engine(10, false, true, 100);
    let batch = m.free_mint(ADMIN, OWNER, 0).unwrap();
    assert!(batch.is_empty());
    assert_eq!(m.get_mint_count(), Ok(0));
}

#[test]
fn free_mint_ignores_gates_of_the_paid_path() {
    // Whitelist on, owner unlisted, paid path disabled: the admin path
    // still issues.
    let mut m = engine(10, true, false, 0);
    let batch = m.free_mint(ADMIN, OWNER, 2).unwrap();
    assert_eq!(batch.len(), 2);
    assert_eq!(m.get_mint_count(), Ok(2));
}

#[test]
fn compute_cost_is_fee_times_count() {
    let m = engine(10, false, true, 100);
    assert_eq!(m.get_mint_cost(3), Ok(30));
    assert_eq!(m.get_mint_cost(0), Ok(0));
}

#[test]
fn compute_cost_refuses_to_wrap() {
    let m = engine(u128::MAX, false, true, 100);
    assert_eq!(m.get_mint_cost(1), Ok(u128::MAX));
    assert_eq!(m.get_mint_cost(2), Err(Error::ArithmeticOverflow));
    let m2 = engine(u128::MAX / 2 + 1, false, true, 100);
    assert_eq!(m2.get_mint_cost(2), Err(Error::ArithmeticOverflow));
}

#[test]
fn non_admin_callers_are_refused_and_change_nothing() {
    let mut m = engine(10, true, true, 100);
    m.set_whitelist(ADMIN, vec![OWNER], vec![true]).unwrap();

    assert_eq!(
        m.set_config(STRANGER, Some(STRANGER), None, Some(0), None, None, None),
        Err(Error::PermissionDenied)
    );
    assert_eq!(m.free_mint(STRANGER, STRANGER, 5), Err(Error::PermissionDenied));
    assert_eq!(
        m.set_whitelist(STRANGER, vec![STRANGER], vec![true]),
        Err(Error::PermissionDenied)
    );
    assert_eq!(
        m.reset_whitelist(STRANGER, vec![STRANGER], vec![true]),
        Err(Error::PermissionDenied)
    );

    // Configuration and whitelist are exactly as before.
    assert_eq!(m.get_admin(), Ok(ADMIN));
    assert_eq!(m.get_mint_fee(), Ok(10));
    assert_eq!(m.get_mint_count(), Ok(0));
    assert!(m.whitelist.get(&OWNER));
    assert!(!m.whitelist.get(&STRANGER));
}

#[test]
fn unlisted_owner_is_refused_while_gate_is_on() {
    let mut m = engine(10, true, true, 100);
    assert_eq!(m.native_mint(OWNER, 1, 0, 100), Err(Error::NotWhitelisted));
    assert_eq!(m.get_mint_count(), Ok(0));

    // Without the whitelist requirement the same owner is admitted.
    let mut open = engine(10, false, true, 100);
    assert!(open.native_mint(OWNER, 1, 0, 100).is_ok());
    assert_eq!(open.get_mint_count(), Ok(1));
}

#[test]
fn listed_owner_passes_the_gate() {
    let mut m = engine(10, true, true, 100);
    m.set_whitelist(ADMIN, vec![OWNER], vec![true]).unwrap();
    assert!(m.native_mint(OWNER, 1, 0, 100).is_ok());
    assert_eq!(m.get_mint_count(), Ok(1));
}

#[test]
fn quota_exceeded_is_refused_without_payment() {
    let mut m = engine(10, false, true, 5);
    // Holdings 4 of a cap of 5: two more would exceed it.
    assert_eq!(m.native_mint(OWNER, 2, 4, 1_000), Err(Error::MintLimitExceed));
    assert_eq!(m.get_mint_count(), Ok(0));
    // One more unit still fits.
    let receipt = m.native_mint(OWNER, 1, 4, 1_000).unwrap();
    assert_eq!(receipt.transfer.amount, 10);
    assert_eq!(m.get_mint_count(), Ok(1));
}

#[test]
fn quota_sum_does_not_wrap() {
    let mut m = engine(10, false, true, u64::MAX);
    assert_eq!(m.native_mint(OWNER, u64::MAX, 2, u128::MAX), Err(Error::MintLimitExceed));
}

#[test]
fn paid_mint_scenario() {
    let mut m = engine(10, false, true, 100);
    assert_eq!(m.get_mint_cost(3), Ok(30));

    // A funding source of 25 cannot pay for 30: nothing is issued.
    assert_eq!(m.native_mint(OWNER, 3, 0, 25), Err(Error::NotEnoughBalance));
    assert_eq!(m.get_mint_count(), Ok(0));

    // A funding source of exactly 30 pays, and three units are issued
    // with contiguous sequence numbers.
    let receipt = m.native_mint(OWNER, 3, 0, 30).unwrap();
    assert_eq!(receipt.transfer.amount, 30);
    assert_eq!(receipt.transfer.target, 2);
    assert_eq!(receipt.requests.len(), 3);
    for (i, rq) in receipt.requests.iter().enumerate() {
        assert_eq!(rq.sequence, i as u64);
        assert_eq!(rq.token_owner, OWNER);
        assert_eq!(rq.cep78_package_hash, 3);
    }
    assert_eq!(m.get_mint_count(), Ok(3));
}

#[test]
fn disabled_paid_path_is_refused() {
    let mut m = engine(10, false, false, 100);
    assert_eq!(m.native_mint(OWNER, 1, 0, 100), Err(Error::MintNotAllowed));
    assert_eq!(m.get_mint_count(), Ok(0));
}

#[test]
fn malformed_issuer_reference_is_refused() {
    let mut m = Minter::new();
    m.init(ADMIN, FUND_MANAGER, Key::Account(3), 10, false, true, 100);
    assert_eq!(m.native_mint(OWNER, 1, 0, 100), Err(Error::InvalidContractPackageHash));
    assert_eq!(m.free_mint(ADMIN, OWNER, 1), Err(Error::InvalidContractPackageHash));
    // A batch of zero units never consults the issuer reference.
    assert_eq!(m.free_mint(ADMIN, OWNER, 0), Ok(vec![]));
}

#[test]
fn malformed_fund_manager_is_refused_after_funds_check() {
    let mut m = Minter::new();
    m.init(ADMIN, Key::Hash(2), ISSUER, 10, false, true, 100);
    // Insufficient funds is reported first.
    assert_eq!(m.native_mint(OWNER, 1, 0, 5), Err(Error::NotEnoughBalance));
    // With funds in place the malformed fund manager surfaces.
    assert_eq!(m.native_mint(OWNER, 1, 0, 100), Err(Error::InvalidAccountHash));
    assert_eq!(m.get_mint_count(), Ok(0));
}

#[test]
fn counter_advance_must_fit() {
    let mut m = engine(10, false, true, u64::MAX);
    m.config = Some(Config {
        admin: ADMIN,
        fund_manager: FUND_MANAGER,
        cep78_package_hash: ISSUER,
        mint_fee: 0,
        only_whitelist: false,
        allow_mint: true,
        max_mint: u64::MAX,
        mint_count: u64::MAX - 1,
    });
    assert_eq!(m.free_mint(ADMIN, OWNER, 2), Err(Error::ArithmeticOverflow));
    assert_eq!(m.get_mint_count(), Ok(u64::MAX - 1));
    let batch = m.free_mint(ADMIN, OWNER, 1).unwrap();
    assert_eq!(batch[0].sequence, u64::MAX - 1);
    assert_eq!(m.get_mint_count(), Ok(u64::MAX));
}

#[test]
fn set_config_patches_only_given_fields() {
    let mut m = engine(10, false, true, 100);
    m.free_mint(ADMIN, OWNER, 1).unwrap();
    m.set_config(ADMIN, None, Some(Key::Account(4)), Some(99), None, Some(false), None).unwrap();
    assert_eq!(m.get_admin(), Ok(ADMIN));
    assert_eq!(m.get_fund_manager(), Ok(Key::Account(4)));
    assert_eq!(m.get_mint_fee(), Ok(99));
    assert_eq!(m.get_only_whitelist(), Ok(false));
    assert_eq!(m.get_allow_mint(), Ok(false));
    assert_eq!(m.get_max_mint(), Ok(100));
    assert_eq!(m.get_cep78_package_hash(), Ok(ISSUER));
    // The issuance counter survives a configuration patch.
    assert_eq!(m.get_mint_count(), Ok(1));
}

#[test]
fn set_config_can_hand_over_the_admin_role() {
    let mut m = engine(10, false, true, 100);
    m.set_config(ADMIN, Some(STRANGER), None, None, None, None, None).unwrap();
    assert_eq!(m.get_admin(), Ok(STRANGER));
    // The old admin has lost the role.
    assert_eq!(
        m.set_config(ADMIN, None, None, Some(1), None, None, None),
        Err(Error::PermissionDenied)
    );
    m.set_config(STRANGER, None, None, Some(1), None, None, None).unwrap();
    assert_eq!(m.get_mint_fee(), Ok(1));
}

#[test]
fn set_whitelist_pairs_columns_positionally() {
    let a = Key::Account(10);
    let b = Key::Account(11);
    let c = Key::Account(12);
    let mut m = engine(10, true, true, 100);
    m.set_whitelist(ADMIN, vec![a, b, c], vec![true, false, true]).unwrap();
    assert!(m.whitelist.get(&a));
    assert!(!m.whitelist.get(&b));
    assert!(m.whitelist.get(&c));
}

#[test]
fn set_whitelist_ignores_excess_entries() {
    let a = Key::Account(10);
    let b = Key::Account(11);
    let mut m = engine(10, true, true, 100);
    // More accounts than flags: the unmatched account stays unset.
    m.set_whitelist(ADMIN, vec![a, b], vec![true]).unwrap();
    assert!(m.whitelist.get(&a));
    assert!(!m.whitelist.get(&b));
    // More flags than accounts: the excess flags do nothing.
    m.set_whitelist(ADMIN, vec![b], vec![true, false, false]).unwrap();
    assert!(m.whitelist.get(&b));
}

#[test]
fn reset_whitelist_discards_previous_entries() {
    let a = Key::Account(10);
    let b = Key::Account(11);
    let c = Key::Account(12);
    let mut m = engine(10, true, true, 100);
    m.set_whitelist(ADMIN, vec![c], vec![true]).unwrap();
    assert!(m.whitelist.get(&c));
    m.reset_whitelist(ADMIN, vec![a, b], vec![true, false]).unwrap();
    assert!(m.whitelist.get(&a));
    assert!(!m.whitelist.get(&b));
    assert!(!m.whitelist.get(&c));
}
