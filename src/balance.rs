//! Account balances as exchange-agnostic values, and the snapshot of a whole
//! account as a map from asset name to balance.
use vstd::prelude::*;

verus! {

/// One asset's balance. Amounts are kept as the decimal text the exchange
/// reported, so nothing is lost to rounding.
pub struct ExchangeBalance {
    pub asset: String,
    pub free: String,
    pub locked: String,
}

impl ExchangeBalance {
    pub fn new(asset: String, free: String, locked: String) -> (r: Self)
        ensures
            r.asset == asset,
            r.free == free,
            r.locked == locked,
    {
        ExchangeBalance { asset, free, locked }
    }

    /// A field-by-field copy.
    pub fn duplicate(&self) -> (r: Self)
        ensures
            r == *self,
    {
        ExchangeBalance {
            asset: self.asset.clone(),
            free: self.free.clone(),
            locked: self.locked.clone(),
        }
    }
}

/// The map that a sequence of keyed items describes: items are read in order,
/// and a later item with a key replaces an earlier one.
pub open spec fn last_wins<T>(s: Seq<T>, key: spec_fn(T) -> Seq<char>) -> Map<Seq<char>, T>
    decreases s.len(),
{
    if s.len() == 0 {
        Map::empty()
    } else {
        last_wins(s.drop_last(), key).insert(key(s.last()), s.last())
    }
}

/// A key is in the map exactly when some item has it, and its value is the
/// last such item.
#[verifier::rlimit(40)]
pub proof fn lemma_last_wins_lookup<T>(s: Seq<T>, key: spec_fn(T) -> Seq<char>, k: Seq<char>)
    ensures
        last_wins(s, key).contains_key(k) <==> exists|i: int|
            #![trigger s[i]]
            0 <= i < s.len() && key(s[i]) == k,
        forall|i: int|
            #![trigger s[i]]
            0 <= i < s.len() && key(s[i]) == k && (forall|j: int|
                #![trigger s[j]]
                i < j < s.len() ==> key(s[j]) != k) ==> last_wins(s, key)[k] == s[i],
    decreases s.len(),
{
    if s.len() > 0 {
        let t = s.drop_last();
        let n = s.len() - 1;
        lemma_last_wins_lookup(t, key, k);
        assert forall|i: int| 0 <= i < n implies t[i] == s[i] by {}
        if last_wins(t, key).contains_key(k) {
            let i = choose|i: int| #![trigger t[i]] 0 <= i < t.len() && key(t[i]) == k;
            assert(s[i] == t[i]);
        }
        if key(s[n]) != k {
            if exists|i: int| #![trigger s[i]] 0 <= i < s.len() && key(s[i]) == k {
                let i = choose|i: int| #![trigger s[i]] 0 <= i < s.len() && key(s[i]) == k;
                assert(t[i] == s[i]);
            }
        }
        assert forall|i: int|
            #![trigger s[i]]
            0 <= i < s.len() && key(s[i]) == k && (forall|j: int|
                #![trigger s[j]]
                i < j < s.len() ==> key(s[j]) != k) implies last_wins(s, key)[k] == s[i] by {
            if i < n {
                assert(key(s[n]) != k);
                assert(t[i] == s[i]);
                assert forall|j: int| #![trigger t[j]] i < j < t.len() implies key(t[j]) != k by {
                    assert(t[j] == s[j]);
                }
            }
        }
    }
}

/// A balance record is keyed by its asset name.
pub open spec fn asset_key() -> spec_fn(ExchangeBalance) -> Seq<char> {
    |b: ExchangeBalance| b.asset@
}

/// The map that a sequence of balance records describes: a later record for
/// an asset replaces an earlier one.
pub open spec fn records_map(s: Seq<ExchangeBalance>) -> Map<Seq<char>, ExchangeBalance> {
    last_wins(s, asset_key())
}

/// An asset is in the snapshot exactly when some record names it, and its
/// value is the last such record.
pub proof fn lemma_records_map_lookup(s: Seq<ExchangeBalance>, k: Seq<char>)
    ensures
        records_map(s).contains_key(k) <==> exists|i: int| 0 <= i < s.len() && s[i].asset@ == k,
        forall|i: int|
            0 <= i < s.len() && s[i].asset@ == k && (forall|j: int|
                i < j < s.len() ==> s[j].asset@ != k) ==> records_map(s)[k] == s[i],
{
    lemma_last_wins_lookup(s, asset_key(), k);
    assert forall|i: int| 0 <= i < s.len() implies #[trigger] s[i].asset@ == asset_key()(s[i]) by {}
}

/// A snapshot of an account: the records in the order they were inserted,
/// read as a map by `records_map` (a later record for an asset wins).
pub struct BalanceMap {
    pub entries: Vec<ExchangeBalance>,
}

impl View for BalanceMap {
    type V = Map<Seq<char>, ExchangeBalance>;

    open spec fn view(&self) -> Map<Seq<char>, ExchangeBalance> {
        records_map(self.entries@)
    }
}

impl BalanceMap {
    pub fn new() -> (r: Self)
        ensures
            r@ == Map::<Seq<char>, ExchangeBalance>::empty(),
            r.entries@.len() == 0,
    {
        BalanceMap { entries: Vec::new() }
    }

    /// Builds the snapshot of a list of records; a later record for an asset
    /// replaces an earlier one.
    pub fn from_records(records: Vec<ExchangeBalance>) -> (r: Self)
        ensures
            r.entries@ == records@,
            r@ == records_map(records@),
    {
        BalanceMap { entries: records }
    }

    /// Sets the balance of `b.asset`, replacing any earlier one.
    pub fn insert(&mut self, b: ExchangeBalance)
        ensures
            final(self).entries@ == old(self).entries@.push(b),
            final(self)@ == old(self)@.insert(b.asset@, b),
    {
        self.entries.push(b);
        assert(self.entries@.drop_last() == old(self).entries@);
    }

    /// The balance of `asset`, if the snapshot holds one.
    pub fn get(&self, asset: &String) -> (r: Option<&ExchangeBalance>)
        ensures
            r is Some <==> self@.contains_key(asset@),
            r is Some ==> *r->0 == self@[asset@],
    {
        proof {
            lemma_records_map_lookup(self.entries@, asset@);
        }
        let mut i: usize = self.entries.len();
        while i > 0
            invariant
                i <= self.entries@.len(),
                forall|j: int| i <= j < self.entries@.len() ==> self.entries@[j].asset@ != asset@,
            decreases i,
        {
            if self.entries[i - 1].asset == *asset {
                proof {
                    let k = (i - 1) as int;
                    lemma_records_map_lookup(self.entries@, asset@);
                    assert(self.entries@[k].asset@ == asset@);
                    assert(0 <= k < self.entries@.len() && self.entries@[k].asset@ == asset@);
                }
                return Some(&self.entries[i - 1]);
            }
            i = i - 1;
        }
        None
    }
}

} // verus!
