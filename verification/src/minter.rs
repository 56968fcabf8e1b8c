use vstd::prelude::*;

use crate::cep78_utils::metadata_view;
use crate::cep78_utils::IssueRequest;
use crate::data::eligible;
use crate::data::paired_len;
use crate::data::set_many;
use crate::data::upserts;
use crate::data::Config;
use crate::data::Key;
use crate::data::Whitelist;
use crate::error::Error;
use crate::modifiers;

verus! {

/// The payment to capture before a paid batch is issued: `amount` moves
/// from the caller's funding source to the account named by `target`.
#[derive(Clone, Copy, Debug, PartialEq, Eq, Structural)]
pub struct TransferRequest {
    /// The account hash of the fund manager.
    pub target: u64,
    /// The full price of the batch.
    pub amount: u128,
}

/// Everything the host must perform for an admitted paid batch: first the
/// payment transfer, then one issuer call per unit, in order. If any step
/// is rejected, the host discards the engine state returned with this
/// receipt and keeps the previous one, so that no partial batch and no
/// payment without issuance is ever committed.
#[derive(Clone, Debug, PartialEq, Eq)]
pub struct NativeMintReceipt {
    /// The payment to capture before issuing.
    pub transfer: TransferRequest,
    /// The issuer calls of the batch, in sequence order.
    pub requests: Vec<IssueRequest>,
}

/// The issuance engine: the configuration singleton and the whitelist,
/// held as plain owned state.
///
/// Reads of the outside world come in as arguments and writes to it go
/// out as request values, so every decision the engine takes is a
/// function of its state and its arguments.
#[derive(Clone, Debug)]
pub struct Minter {
    /// The operational parameters; absent until `init` has run.
    pub config: Option<Config>,
    /// The accounts admitted while the whitelist gate is on.
    pub whitelist: Whitelist,
}

/// Whether `rq` is the issuance call for unit `sequence` of owner `owner`
/// through the issuer package `pkg`.
pub open spec fn request_ok(rq: IssueRequest, pkg: u64, owner: Key, sequence: u64) -> bool {
    &&& rq.cep78_package_hash == pkg
    &&& rq.token_owner == owner
    &&& rq.sequence == sequence
    &&& rq.token_meta_data@ == metadata_view(sequence)
}

/// Whether `requests` is exactly the batch of `count` issuance calls for
/// `owner` with contiguous sequence numbers starting at `start`.
pub open spec fn batch_ok(
    requests: Seq<IssueRequest>,
    pkg: u64,
    owner: Key,
    start: u64,
    count: u64,
) -> bool {
    &&& requests.len() == count
    &&& forall|i: int|
        0 <= i < count ==> request_ok(#[trigger] requests[i], pkg, owner, (start + i) as u64)
}

/// The outcome of the validation chain of `mint_nft`: the first failing
/// check decides, in this order: configuration present; issuer reference
/// well formed (only consulted when there is a unit to mint); counter
/// advance representable.
pub open spec fn mint_nft_decision(m0: Minter, count: u64) -> Result<(), Error> {
    if !m0.is_initialized() {
        Err(Error::Uninitialized)
    } else if count > 0 && m0.cfg().cep78_package_hash.spec_into_hash() is None {
        Err(Error::InvalidContractPackageHash)
    } else if m0.cfg().mint_count + count > u64::MAX {
        Err(Error::ArithmeticOverflow)
    } else {
        Ok(())
    }
}

/// The outcome of the validation chain of `free_mint`: admin first, then
/// the batch checks of `mint_nft`.
pub open spec fn free_mint_decision(m0: Minter, caller: Key, count: u64) -> Result<(), Error> {
    if !m0.is_initialized() {
        Err(Error::Uninitialized)
    } else if caller != m0.cfg().admin {
        Err(Error::PermissionDenied)
    } else {
        mint_nft_decision(m0, count)
    }
}

/// The outcome of the validation chain of `native_mint`, in the order the
/// paid path checks its gates: enablement; whitelist; issuer reference
/// well formed (the holdings query consults it); per-owner quota; batch
/// price representable; funding source balance; fund manager an account;
/// counter advance representable.
pub open spec fn native_mint_decision(
    m0: Minter,
    nft_owner: Key,
    count: u64,
    owner_holding: u64,
    source_purse_balance: u128,
) -> Result<(), Error> {
    if !m0.is_initialized() {
        Err(Error::Uninitialized)
    } else if !m0.cfg().allow_mint {
        Err(Error::MintNotAllowed)
    } else if m0.cfg().only_whitelist && !eligible(m0.whitelist@, nft_owner) {
        Err(Error::NotWhitelisted)
    } else if m0.cfg().cep78_package_hash.spec_into_hash() is None {
        Err(Error::InvalidContractPackageHash)
    } else if owner_holding + count > m0.cfg().max_mint {
        Err(Error::MintLimitExceed)
    } else if m0.cfg().mint_fee * count > u128::MAX {
        Err(Error::ArithmeticOverflow)
    } else if m0.cfg().mint_fee * count > source_purse_balance {
        Err(Error::NotEnoughBalance)
    } else if m0.cfg().fund_manager.spec_into_account() is None {
        Err(Error::InvalidAccountHash)
    } else if m0.cfg().mint_count + count > u64::MAX {
        Err(Error::ArithmeticOverflow)
    } else {
        Ok(())
    }
}

/// While the whitelist gate is on, a paid issuance for an owner that is
/// not eligible is refused as `NotWhitelisted`, whatever count, holdings
/// and funding balance come with it; `native_mint` then returns that
/// error and leaves the engine unchanged.
pub proof fn lemma_whitelist_gate(
    m0: Minter,
    nft_owner: Key,
    count: u64,
    owner_holding: u64,
    source_purse_balance: u128,
)
    requires
        m0.is_initialized(),
        m0.cfg().allow_mint,
        m0.cfg().only_whitelist,
        !eligible(m0.whitelist@, nft_owner),
    ensures
        native_mint_decision(m0, nft_owner, count, owner_holding, source_purse_balance) == Err::<
            (),
            Error,
        >(Error::NotWhitelisted),
{
}

/// A paid issuance whose count would lift the owner's holdings above the
/// per-owner cap is refused as `MintLimitExceed`; the refusal comes
/// before the price is computed, so no payment is asked for or captured.
pub proof fn lemma_quota_gate(
    m0: Minter,
    nft_owner: Key,
    count: u64,
    owner_holding: u64,
    source_purse_balance: u128,
)
    requires
        m0.is_initialized(),
        m0.cfg().allow_mint,
        !m0.cfg().only_whitelist || eligible(m0.whitelist@, nft_owner),
        m0.cfg().cep78_package_hash.spec_into_hash() is Some,
        owner_holding + count > m0.cfg().max_mint,
    ensures
        native_mint_decision(m0, nft_owner, count, owner_holding, source_purse_balance) == Err::<
            (),
            Error,
        >(Error::MintLimitExceed),
{
}

/// After a whitelist reset, an account that the new columns never name
/// is not eligible, whatever flags it carried before the reset.
pub proof fn lemma_reset_excludes_absent(accounts: Seq<Key>, values: Seq<bool>, k: Key)
    requires
        !accounts.contains(k),
    ensures
        !eligible(set_many(Map::<Key, bool>::empty(), accounts, values), k),
{
    crate::data::lemma_set_many_absent(Map::<Key, bool>::empty(), accounts, values, k);
}

impl Minter {
    /// Whether the engine has been initialized.
    pub open spec fn is_initialized(&self) -> bool {
        self.config is Some
    }

    /// The configuration; meaningful only once initialized.
    pub open spec fn cfg(&self) -> Config {
        self.config->0
    }

    /// A fresh engine: no configuration yet, nobody whitelisted.
    pub fn new() -> (m: Minter)
        ensures
            !m.is_initialized(),
            m.whitelist@ == Map::<Key, bool>::empty(),
    {
        Minter { config: None, whitelist: Whitelist::init() }
    }

    /// Sets every configuration field from the caller-supplied values,
    /// resets the issuance counter to zero and empties the whitelist.
    ///
    /// The host invokes this exactly once per engine instance; guarding
    /// against re-invocation is its concern, not the engine's.
    pub fn init(
        &mut self,
        admin: Key,
        fund_manager: Key,
        cep78_package_hash: Key,
        mint_fee: u128,
        only_whitelist: bool,
        allow_mint: bool,
        max_mint: u64,
    )
        ensures
            final(self).is_initialized(),
            final(self).cfg() == (Config {
                admin,
                fund_manager,
                cep78_package_hash,
                mint_fee,
                only_whitelist,
                allow_mint,
                max_mint,
                mint_count: 0,
            }),
            final(self).whitelist@ == Map::<Key, bool>::empty(),
    {
        self.config = Some(
            Config {
                admin,
                fund_manager,
                cep78_package_hash,
                mint_fee,
                only_whitelist,
                allow_mint,
                max_mint,
                mint_count: 0,
            },
        );
        self.whitelist = Whitelist::init();
    }

    /// The configured admin.
    pub fn get_admin(&self) -> (r: Result<Key, Error>)
        ensures
            self.is_initialized() ==> r == Ok::<Key, Error>(self.cfg().admin),
            !self.is_initialized() ==> r == Err::<Key, Error>(Error::Uninitialized),
    {
        match self.config {
            Some(c) => Ok(c.admin),
            None => Err(Error::Uninitialized),
        }
    }

    /// The configured fund manager.
    pub fn get_fund_manager(&self) -> (r: Result<Key, Error>)
        ensures
            self.is_initialized() ==> r == Ok::<Key, Error>(self.cfg().fund_manager),
            !self.is_initialized() ==> r == Err::<Key, Error>(Error::Uninitialized),
    {
        match self.config {
            Some(c) => Ok(c.fund_manager),
            None => Err(Error::Uninitialized),
        }
    }

    /// The configured issuer package reference.
    pub fn get_cep78_package_hash(&self) -> (r: Result<Key, Error>)
        ensures
            self.is_initialized() ==> r == Ok::<Key, Error>(self.cfg().cep78_package_hash),
            !self.is_initialized() ==> r == Err::<Key, Error>(Error::Uninitialized),
    {
        match self.config {
            Some(c) => Ok(c.cep78_package_hash),
            None => Err(Error::Uninitialized),
        }
    }

    /// The configured price per unit.
    pub fn get_mint_fee(&self) -> (r: Result<u128, Error>)
        ensures
            self.is_initialized() ==> r == Ok::<u128, Error>(self.cfg().mint_fee),
            !self.is_initialized() ==> r == Err::<u128, Error>(Error::Uninitialized),
    {
        match self.config {
            Some(c) => Ok(c.mint_fee),
            None => Err(Error::Uninitialized),
        }
    }

    /// How many units have been issued so far.
    pub fn get_mint_count(&self) -> (r: Result<u64, Error>)
        ensures
            self.is_initialized() ==> r == Ok::<u64, Error>(self.cfg().mint_count),
            !self.is_initialized() ==> r == Err::<u64, Error>(Error::Uninitialized),
    {
        match self.config {
            Some(c) => Ok(c.mint_count),
            None => Err(Error::Uninitialized),
        }
    }

    /// The per-owner cap of the paid path.
    pub fn get_max_mint(&self) -> (r: Result<u64, Error>)
        ensures
            self.is_initialized() ==> r == Ok::<u64, Error>(self.cfg().max_mint),
            !self.is_initialized() ==> r == Err::<u64, Error>(Error::Uninitialized),
    {
        match self.config {
            Some(c) => Ok(c.max_mint),
            None => Err(Error::Uninitialized),
        }
    }

    /// Whether the whitelist gate of the paid path is on.
    pub fn get_only_whitelist(&self) -> (r: Result<bool, Error>)
        ensures
            self.is_initialized() ==> r == Ok::<bool, Error>(self.cfg().only_whitelist),
            !self.is_initialized() ==> r == Err::<bool, Error>(Error::Uninitialized),
    {
        match self.config {
            Some(c) => Ok(c.only_whitelist),
            None => Err(Error::Uninitialized),
        }
    }

    /// Whether the paid path is enabled.
    pub fn get_allow_mint(&self) -> (r: Result<bool, Error>)
        ensures
            self.is_initialized() ==> r == Ok::<bool, Error>(self.cfg().allow_mint),
            !self.is_initialized() ==> r == Err::<bool, Error>(Error::Uninitialized),
    {
        match self.config {
            Some(c) => Ok(c.allow_mint),
            None => Err(Error::Uninitialized),
        }
    }

    /// The price of a batch of `count` units: the unit fee times the
    /// count, refused rather than wrapped when it would not fit.
    pub fn get_mint_cost(&self, count: u64) -> (r: Result<u128, Error>)
        ensures
            !self.is_initialized() ==> r == Err::<u128, Error>(Error::Uninitialized),
            self.is_initialized() && self.cfg().mint_fee * count > u128::MAX ==> r == Err::<
                u128,
                Error,
            >(Error::ArithmeticOverflow),
            self.is_initialized() && self.cfg().mint_fee * count <= u128::MAX ==> r == Ok::<
                u128,
                Error,
            >((self.cfg().mint_fee * count) as u128),
    {
        match self.config {
            None => Err(Error::Uninitialized),
            Some(c) => {
                match c.mint_fee.checked_mul(count as u128) {
                    None => Err(Error::ArithmeticOverflow),
                    Some(cost) => Ok(cost),
                }
            },
        }
    }

    /// Overwrites exactly the configuration fields that are present in
    /// the patch, leaving the others and the issuance counter untouched.
    /// Only the currently configured admin may patch.
    pub fn set_config(
        &mut self,
        caller: Key,
        admin: Option<Key>,
        fund_manager: Option<Key>,
        mint_fee: Option<u128>,
        only_whitelist: Option<bool>,
        allow_mint: Option<bool>,
        max_mint: Option<u64>,
    ) -> (r: Result<(), Error>)
        ensures
            !old(self).is_initialized() ==> r == Err::<(), Error>(Error::Uninitialized)
                && *final(self) == *old(self),
            old(self).is_initialized() && caller != old(self).cfg().admin ==> r == Err::<
                (),
                Error,
            >(Error::PermissionDenied) && *final(self) == *old(self),
            old(self).is_initialized() && caller == old(self).cfg().admin ==> r == Ok::<
                (),
                Error,
            >(()) && final(self).is_initialized() && final(self).cfg() == (Config {
                admin: if admin is Some { admin->0 } else { old(self).cfg().admin },
                fund_manager: if fund_manager is Some { fund_manager->0 } else {
                    old(self).cfg().fund_manager
                },
                cep78_package_hash: old(self).cfg().cep78_package_hash,
                mint_fee: if mint_fee is Some { mint_fee->0 } else { old(self).cfg().mint_fee },
                only_whitelist: if only_whitelist is Some { only_whitelist->0 } else {
                    old(self).cfg().only_whitelist
                },
                allow_mint: if allow_mint is Some { allow_mint->0 } else {
                    old(self).cfg().allow_mint
                },
                max_mint: if max_mint is Some { max_mint->0 } else { old(self).cfg().max_mint },
                mint_count: old(self).cfg().mint_count,
            }) && final(self).whitelist == old(self).whitelist,
    {
        let c = match self.config {
            None => { return Err(Error::Uninitialized) },
            Some(c) => c,
        };
        if let Err(e) = modifiers::only_admin(self, caller) {
            return Err(e);
        }
        let mut nc = c;
        if let Some(a) = admin {
            nc.admin = a;
        }
        if let Some(f) = fund_manager {
            nc.fund_manager = f;
        }
        if let Some(fee) = mint_fee {
            nc.mint_fee = fee;
        }
        if let Some(w) = only_whitelist {
            nc.only_whitelist = w;
        }
        if let Some(al) = allow_mint {
            nc.allow_mint = al;
        }
        if let Some(mm) = max_mint {
            nc.max_mint = mm;
        }
        self.config = Some(nc);
        Ok(())
    }

    /// Upserts the whitelist flag of each account of `accounts`, paired
    /// positionally with `values`; excess entries of the longer column
    /// are ignored. Only the admin may change the whitelist.
    pub fn set_whitelist(&mut self, caller: Key, accounts: Vec<Key>, values: Vec<bool>) -> (r:
        Result<(), Error>)
        ensures
            !old(self).is_initialized() ==> r == Err::<(), Error>(Error::Uninitialized)
                && *final(self) == *old(self),
            old(self).is_initialized() && caller != old(self).cfg().admin ==> r == Err::<
                (),
                Error,
            >(Error::PermissionDenied) && *final(self) == *old(self),
            old(self).is_initialized() && caller == old(self).cfg().admin ==> r == Ok::<
                (),
                Error,
            >(()) && final(self).config == old(self).config && final(self).whitelist@ == set_many(
                old(self).whitelist@,
                accounts@,
                values@,
            ),
    {
        if let Err(e) = modifiers::only_admin(self, caller) {
            return Err(e);
        }
        let n: usize = if accounts.len() <= values.len() {
            accounts.len()
        } else {
            values.len()
        };
        let mut j: usize = 0;
        while j < n
            invariant
                j <= n,
                n == paired_len(accounts@, values@),
                n <= accounts@.len(),
                n <= values@.len(),
                self.config == old(self).config,
                self.whitelist@ == upserts(
                    old(self).whitelist@,
                    accounts@.take(j as int),
                    values@.take(j as int),
                ),
            decreases n - j,
        {
            let account = accounts[j];
            let value = values[j];
            self.whitelist.set(&account, value);
            proof {
                assert(accounts@.take(j + 1).drop_last() =~= accounts@.take(j as int));
                assert(values@.take(j + 1).drop_last() =~= values@.take(j as int));
                assert(accounts@.take(j + 1).last() == accounts@[j as int]);
                assert(values@.take(j + 1).last() == values@[j as int]);
            }
            j += 1;
        }
        Ok(())
    }

    /// Discards the whole whitelist, then repopulates it from the two
    /// columns as `set_whitelist` does, atomically from the caller's
    /// point of view. Only the admin may reset.
    pub fn reset_whitelist(&mut self, caller: Key, accounts: Vec<Key>, values: Vec<bool>) -> (r:
        Result<(), Error>)
        ensures
            !old(self).is_initialized() ==> r == Err::<(), Error>(Error::Uninitialized)
                && *final(self) == *old(self),
            old(self).is_initialized() && caller != old(self).cfg().admin ==> r == Err::<
                (),
                Error,
            >(Error::PermissionDenied) && *final(self) == *old(self),
            old(self).is_initialized() && caller == old(self).cfg().admin ==> r == Ok::<
                (),
                Error,
            >(()) && final(self).config == old(self).config && final(self).whitelist@ == set_many(
                Map::<Key, bool>::empty(),
                accounts@,
                values@,
            ),
    {
        if let Err(e) = modifiers::only_admin(self, caller) {
            return Err(e);
        }
        self.whitelist.reset();
        self.set_whitelist(caller, accounts, values)
    }

    /// Issues a batch of `count` units to `nft_owner`: one issuer call
    /// per unit with contiguous sequence numbers starting at the current
    /// counter, then advances the counter by `count`.
    ///
    /// The returned calls must all be accepted by the issuer before the
    /// new state is committed; a host without transactional rollback
    /// keeps the previous engine value if any of them is rejected.
    pub fn mint_nft(&mut self, nft_owner: Key, count: u64) -> (r: Result<Vec<IssueRequest>, Error>)
        ensures
            mint_nft_decision(*old(self), count) matches Err(e) ==> r == Err::<
                Vec<IssueRequest>,
                Error,
            >(e) && *final(self) == *old(self),
            mint_nft_decision(*old(self), count) is Ok ==> r is Ok && final(self).is_initialized()
                && final(self).cfg() == (Config {
                mint_count: (old(self).cfg().mint_count + count) as u64,
                ..old(self).cfg()
            }) && final(self).whitelist == old(self).whitelist && batch_ok(
                r->Ok_0@,
                old(self).cfg().cep78_package_hash.spec_into_hash()->0,
                nft_owner,
                old(self).cfg().mint_count,
                count,
            ),
    {
        let c = match self.config {
            None => { return Err(Error::Uninitialized) },
            Some(c) => c,
        };
        let pkg: u64 = if count > 0 {
            match c.cep78_package_hash.into_hash() {
                None => { return Err(Error::InvalidContractPackageHash) },
                Some(h) => h,
            }
        } else {
            0
        };
        let start = c.mint_count;
        let end = match start.checked_add(count) {
            None => { return Err(Error::ArithmeticOverflow) },
            Some(e) => e,
        };
        let mut requests: Vec<IssueRequest> = Vec::new();
        let mut i: u64 = 0;
        while i < count
            invariant
                i <= count,
                *self == *old(self),
                self.config == Some(c),
                c.mint_count == start,
                start + count <= u64::MAX,
                count > 0 ==> c.cep78_package_hash.spec_into_hash() == Some(pkg),
                batch_ok(requests@, pkg, nft_owner, start, i),
            decreases count - i,
        {
            let sequence = start + i;
            let token_meta_data = crate::cep78_utils::generate_metadata(sequence);
            requests.push(
                IssueRequest { cep78_package_hash: pkg, token_owner: nft_owner, sequence, token_meta_data },
            );
            i = i + 1;
        }
        self.config = Some(Config { mint_count: end, ..c });
        Ok(requests)
    }

    /// The privileged path: the admin issues `count` units to `nft_owner`
    /// with no enablement, whitelist, quota, or payment check.
    pub fn free_mint(&mut self, caller: Key, nft_owner: Key, count: u64) -> (r: Result<
        Vec<IssueRequest>,
        Error,
    >)
        ensures
            free_mint_decision(*old(self), caller, count) matches Err(e) ==> r == Err::<
                Vec<IssueRequest>,
                Error,
            >(e) && *final(self) == *old(self),
            free_mint_decision(*old(self), caller, count) is Ok ==> r is Ok
                && final(self).is_initialized() && final(self).cfg() == (Config {
                mint_count: (old(self).cfg().mint_count + count) as u64,
                ..old(self).cfg()
            }) && final(self).whitelist == old(self).whitelist && batch_ok(
                r->Ok_0@,
                old(self).cfg().cep78_package_hash.spec_into_hash()->0,
                nft_owner,
                old(self).cfg().mint_count,
                count,
            ),
    {
        if let Err(e) = modifiers::only_admin(self, caller) {
            return Err(e);
        }
        self.mint_nft(nft_owner, count)
    }

    /// The public paid path: any caller may have `count` units issued to
    /// `nft_owner` in exchange for the batch price, provided every gate
    /// admits it.
    ///
    /// The host reads `owner_holding` (the issuer's current holdings of
    /// the owner) and `source_purse_balance` (the funding source's
    /// balance) just before the call, and afterwards performs the
    /// returned receipt: the payment transfer first, then each issuer
    /// call in order, committing the new engine state only if every step
    /// is accepted.
    pub fn native_mint(
        &mut self,
        nft_owner: Key,
        count: u64,
        owner_holding: u64,
        source_purse_balance: u128,
    ) -> (r: Result<NativeMintReceipt, Error>)
        ensures
            native_mint_decision(*old(self), nft_owner, count, owner_holding, source_purse_balance)
                matches Err(e) ==> r == Err::<NativeMintReceipt, Error>(e)
                && *final(self) == *old(self),
            native_mint_decision(*old(self), nft_owner, count, owner_holding, source_purse_balance)
                is Ok ==> r is Ok && final(self).is_initialized() && final(self).cfg() == (Config {
                mint_count: (old(self).cfg().mint_count + count) as u64,
                ..old(self).cfg()
            }) && final(self).whitelist == old(self).whitelist
                && r->Ok_0.transfer.amount == old(self).cfg().mint_fee * count
                && r->Ok_0.transfer.target == old(self).cfg().fund_manager.spec_into_account()->0
                && batch_ok(
                r->Ok_0.requests@,
                old(self).cfg().cep78_package_hash.spec_into_hash()->0,
                nft_owner,
                old(self).cfg().mint_count,
                count,
            ),
    {
        if let Err(e) = modifiers::mint_allowed(self) {
            return Err(e);
        }
        if let Err(e) = modifiers::valid_account(self, nft_owner) {
            return Err(e);
        }
        let c = match self.config {
            None => { return Err(Error::Uninitialized) },
            Some(c) => c,
        };
        // The holdings query behind the quota check goes through the
        // issuer package, so its reference must be well formed first.
        if c.cep78_package_hash.into_hash().is_none() {
            return Err(Error::InvalidContractPackageHash);
        }
        if let Err(e) = modifiers::limited_mint(self, owner_holding, count) {
            return Err(e);
        }
        let amount = match self.get_mint_cost(count) {
            Err(e) => { return Err(e) },
            Ok(v) => v,
        };
        if let Err(e) = modifiers::enough_native_balance(amount, source_purse_balance) {
            return Err(e);
        }
        let target = match c.fund_manager.into_account() {
            None => { return Err(Error::InvalidAccountHash) },
            Some(a) => a,
        };
        let requests = match self.mint_nft(nft_owner, count) {
            Err(e) => { return Err(e) },
            Ok(v) => v,
        };
        Ok(NativeMintReceipt { transfer: TransferRequest { target, amount }, requests })
    }
}

} // verus!
