use vstd::prelude::*;

verus! {

/// An identity reference: an account, a contract package, or a purse.
///
/// The engine never looks inside an identity; it only compares identities
/// for equality and tells the three shapes apart, so each variant carries
/// its address as a plain number.
#[derive(Clone, Copy, Debug, PartialEq, Eq, Hash, Structural)]
pub enum Key {
    /// An account, named by its account hash.
    Account(u64),
    /// A contract package, named by its package hash.
    Hash(u64),
    /// A purse handle.
    Uref(u64),
}

impl Key {
    /// The package hash behind this key, if it names a contract package.
    pub open spec fn spec_into_hash(self) -> Option<u64> {
        match self {
            Key::Hash(h) => Some(h),
            _ => None,
        }
    }

    /// The account hash behind this key, if it names an account.
    pub open spec fn spec_into_account(self) -> Option<u64> {
        match self {
            Key::Account(a) => Some(a),
            _ => None,
        }
    }

    pub fn into_hash(self) -> (r: Option<u64>)
        ensures
            r == self.spec_into_hash(),
    {
        match self {
            Key::Hash(h) => Some(h),
            _ => None,
        }
    }

    pub fn into_account(self) -> (r: Option<u64>)
        ensures
            r == self.spec_into_account(),
    {
        match self {
            Key::Account(a) => Some(a),
            _ => None,
        }
    }
}

/// The operational parameters of the engine, together with the running
/// issuance counter.
///
/// A value of this type exists only after initialization; `mint_count` is
/// the number of units issued so far and is the next sequence number to
/// hand to the issuer.
#[derive(Clone, Copy, Debug, PartialEq, Eq, Structural)]
pub struct Config {
    /// The identity with exclusive write access to the configuration and
    /// the whitelist, and exclusive use of the free mint path.
    pub admin: Key,
    /// The identity that receives captured payment.
    pub fund_manager: Key,
    /// The contract package of the external issuer.
    pub cep78_package_hash: Key,
    /// The price per issued unit.
    pub mint_fee: u128,
    /// When set, the paid path is open to whitelisted owners only.
    pub only_whitelist: bool,
    /// Kill switch for the paid path.
    pub allow_mint: bool,
    /// The most units one owner may ever hold through the paid path.
    pub max_mint: u64,
    /// How many units have been issued; also the next sequence number.
    pub mint_count: u64,
}

/// Whether `account` is whitelisted in the eligibility map `m`.
/// An account absent from the map is not eligible.
pub open spec fn eligible(m: Map<Key, bool>, account: Key) -> bool {
    m.contains_key(account) && m[account]
}

/// How many pairs two columns of accounts and flags form: the length of
/// the shorter column. Excess entries of the longer column pair with
/// nothing and are ignored.
pub open spec fn paired_len(accounts: Seq<Key>, values: Seq<bool>) -> int {
    if accounts.len() <= values.len() {
        accounts.len() as int
    } else {
        values.len() as int
    }
}

/// The eligibility map after upserting the pairs of two equally long
/// columns, first pair first, so that a later pair for the same account
/// overrides an earlier one.
pub open spec fn upserts(m: Map<Key, bool>, accounts: Seq<Key>, values: Seq<bool>) -> Map<
    Key,
    bool,
>
    decreases accounts.len(),
{
    if accounts.len() == 0 || values.len() == 0 {
        m
    } else {
        upserts(m, accounts.drop_last(), values.drop_last()).insert(
            accounts.last(),
            values.last(),
        )
    }
}

/// The eligibility map after upserting each account of `accounts` with the
/// flag at the same position of `values`, pairing the columns only as far
/// as the shorter one reaches.
pub open spec fn set_many(m: Map<Key, bool>, accounts: Seq<Key>, values: Seq<bool>) -> Map<
    Key,
    bool,
> {
    upserts(
        m,
        accounts.take(paired_len(accounts, values)),
        values.take(paired_len(accounts, values)),
    )
}

/// Upserting columns that never mention `k` leaves `k`'s entry as it was.
pub proof fn lemma_upserts_absent(m: Map<Key, bool>, accounts: Seq<Key>, values: Seq<bool>, k: Key)
    requires
        !accounts.contains(k),
    ensures
        upserts(m, accounts, values).contains_key(k) == m.contains_key(k),
        m.contains_key(k) ==> upserts(m, accounts, values)[k] == m[k],
        eligible(upserts(m, accounts, values), k) == eligible(m, k),
    decreases accounts.len(),
{
    if accounts.len() == 0 || values.len() == 0 {
    } else {
        assert(accounts.last() != k) by {
            assert(accounts[accounts.len() - 1] == accounts.last());
        }
        assert(!accounts.drop_last().contains(k)) by {
            if accounts.drop_last().contains(k) {
                let i = choose|i: int|
                    0 <= i < accounts.drop_last().len() && accounts.drop_last()[i] == k;
                assert(accounts[i] == k);
            }
        }
        lemma_upserts_absent(m, accounts.drop_last(), values.drop_last(), k);
    }
}

/// Bulk-setting entries for accounts other than `k` does not change
/// whether `k` is eligible.
pub proof fn lemma_set_many_absent(m: Map<Key, bool>, accounts: Seq<Key>, values: Seq<bool>, k: Key)
    requires
        !accounts.contains(k),
    ensures
        set_many(m, accounts, values).contains_key(k) == m.contains_key(k),
        m.contains_key(k) ==> set_many(m, accounts, values)[k] == m[k],
        eligible(set_many(m, accounts, values), k) == eligible(m, k),
{
    let n = paired_len(accounts, values);
    assert(!accounts.take(n).contains(k)) by {
        if accounts.take(n).contains(k) {
            let i = choose|i: int| 0 <= i < accounts.take(n).len() && accounts.take(n)[i] == k;
            assert(accounts[i] == k);
        }
    }
    lemma_upserts_absent(m, accounts.take(n), values.take(n), k);
}

/// The set of accounts the engine admits on the paid path while the
/// whitelist gate is on.
///
/// Entries live in insertion order; a later entry for the same account
/// shadows an earlier one, exactly as repeated upserts would.
#[derive(Clone, Debug)]
pub struct Whitelist {
    entries: Vec<(Key, bool)>,
}

/// The eligibility map that a run of entries denotes: each entry upserts
/// its account, so the last entry for an account wins.
spec fn assoc_map(s: Seq<(Key, bool)>) -> Map<Key, bool>
    decreases s.len(),
{
    if s.len() == 0 {
        Map::empty()
    } else {
        assoc_map(s.drop_last()).insert(s.last().0, s.last().1)
    }
}

/// The flag of the last entry for `k`, if any entry mentions `k`.
spec fn lookup(s: Seq<(Key, bool)>, k: Key) -> Option<bool>
    decreases s.len(),
{
    if s.len() == 0 {
        None
    } else if s.last().0 == k {
        Some(s.last().1)
    } else {
        lookup(s.drop_last(), k)
    }
}

proof fn lemma_lookup_assoc(s: Seq<(Key, bool)>, k: Key)
    ensures
        assoc_map(s).contains_key(k) == (lookup(s, k) is Some),
        lookup(s, k) is Some ==> assoc_map(s)[k] == lookup(s, k)->0,
    decreases s.len(),
{
    if s.len() == 0 {
    } else {
        lemma_lookup_assoc(s.drop_last(), k);
    }
}

impl View for Whitelist {
    type V = Map<Key, bool>;

    closed spec fn view(&self) -> Map<Key, bool> {
        assoc_map(self.entries@)
    }
}

impl Whitelist {
    /// A fresh, empty whitelist: nobody is eligible.
    pub fn init() -> (w: Whitelist)
        ensures
            w@ == Map::<Key, bool>::empty(),
    {
        Whitelist { entries: Vec::new() }
    }

    /// Discards every entry.
    pub fn reset(&mut self)
        ensures
            final(self)@ == Map::<Key, bool>::empty(),
    {
        self.entries = Vec::new();
    }

    /// Whether `account` is eligible; an account never set is not.
    pub fn get(&self, account: &Key) -> (r: bool)
        ensures
            r == eligible(self@, *account),
    {
        proof {
            assert(self.entries@.take(self.entries@.len() as int) =~= self.entries@);
        }
        let mut i: usize = self.entries.len();
        while i > 0
            invariant
                i <= self.entries@.len(),
                lookup(self.entries@, *account) == lookup(
                    self.entries@.take(i as int),
                    *account,
                ),
            decreases i,
        {
            i = i - 1;
            let entry = self.entries[i];
            proof {
                assert(self.entries@.take(i + 1).last() == self.entries@[i as int]);
                assert(self.entries@.take(i + 1).drop_last() =~= self.entries@.take(i as int));
            }
            if entry.0 == *account {
                proof {
                    assert(lookup(self.entries@.take(i + 1), *account) == Some(entry.1));
                    lemma_lookup_assoc(self.entries@, *account);
                }
                return entry.1;
            }
        }
        proof {
            lemma_lookup_assoc(self.entries@, *account);
        }
        false
    }

    /// Upserts one account's flag.
    pub fn set(&mut self, account: &Key, value: bool)
        ensures
            final(self)@ == old(self)@.insert(*account, value),
    {
        self.entries.push((*account, value));
        proof {
            assert(self.entries@.drop_last() =~= old(self).entries@);
        }
    }
}

} // verus!
