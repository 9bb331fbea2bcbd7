//! Merging the balance snapshots of several backends into one, keeping what
//! the healthy backends returned and recording which ones failed.
use vstd::prelude::*;
use crate::balance::{BalanceMap, ExchangeBalance, lemma_records_map_lookup, records_map};

verus! {

/// Why one backend could not produce its snapshot.
pub struct BackendError {
    pub message: String,
}

/// The merged snapshot, and the positions of the backends that failed, in
/// increasing order. Where an asset is held on several backends, the backend
/// that comes later in the list wins.
pub struct MergedBalances {
    pub balances: BalanceMap,
    pub failed: Vec<usize>,
}

/// The records of the successful snapshots among the first `n` results, in
/// backend order.
pub open spec fn ok_records(results: Seq<Result<BalanceMap, BackendError>>, n: nat) -> Seq<
    ExchangeBalance,
>
    decreases n,
{
    if n == 0 || n > results.len() {
        Seq::empty()
    } else {
        match results[n - 1] {
            Ok(m) => ok_records(results, (n - 1) as nat) + m.entries@,
            Err(_) => ok_records(results, (n - 1) as nat),
        }
    }
}

/// The positions of the failed results among the first `n`, in increasing order.
pub open spec fn failed_positions(results: Seq<Result<BalanceMap, BackendError>>, n: nat) -> Seq<
    usize,
>
    decreases n,
{
    if n == 0 || n > results.len() {
        Seq::empty()
    } else {
        match results[n - 1] {
            Ok(_) => failed_positions(results, (n - 1) as nat),
            Err(_) => failed_positions(results, (n - 1) as nat).push((n - 1) as usize),
        }
    }
}

/// The merged view of all results: every successful snapshot, in order.
pub open spec fn merged_view(results: Seq<Result<BalanceMap, BackendError>>) -> Map<
    Seq<char>,
    ExchangeBalance,
> {
    records_map(ok_records(results, results.len()))
}

/// Merges per-backend snapshots. A failed backend contributes nothing and is
/// reported by position; it never hides what the others returned.
pub fn merge_balances(results: &Vec<Result<BalanceMap, BackendError>>) -> (r: MergedBalances)
    ensures
        r.balances.entries@ == ok_records(results@, results@.len() as nat),
        r.balances@ == merged_view(results@),
        r.failed@ == failed_positions(results@, results@.len() as nat),
{
    let mut merged = BalanceMap::new();
    let mut failed: Vec<usize> = Vec::new();
    let mut i: usize = 0;
    while i < results.len()
        invariant
            i <= results@.len(),
            merged.entries@ == ok_records(results@, i as nat),
            failed@ == failed_positions(results@, i as nat),
        decreases results@.len() - i,
    {
        match &results[i] {
            Ok(m) => {
                let mut j: usize = 0;
                while j < m.entries.len()
                    invariant
                        j <= m.entries@.len(),
                        merged.entries@ == ok_records(results@, i as nat) + m.entries@.subrange(
                            0,
                            j as int,
                        ),
                    decreases m.entries@.len() - j,
                {
                    merged.insert(m.entries[j].duplicate());
                    assert(m.entries@.subrange(0, j + 1) == m.entries@.subrange(0, j as int).push(
                        m.entries@[j as int],
                    ));
                    j = j + 1;
                }
                assert(m.entries@.subrange(0, m.entries@.len() as int) == m.entries@);
            },
            Err(_) => {
                failed.push(i);
            },
        }
        i = i + 1;
    }
    MergedBalances { balances: merged, failed }
}

proof fn lemma_ok_records_hold(
    results: Seq<Result<BalanceMap, BackendError>>,
    n: nat,
    i: int,
    j: int,
)
    requires
        0 <= i < n <= results.len(),
        results[i] is Ok,
        0 <= j < results[i]->Ok_0.entries@.len(),
    ensures
        ok_records(results, n).contains(results[i]->Ok_0.entries@[j]),
    decreases n,
{
    let prev = ok_records(results, (n - 1) as nat);
    if i < n - 1 {
        lemma_ok_records_hold(results, (n - 1) as nat, i, j);
        let p = choose|p: int| 0 <= p < prev.len() && prev[p] == results[i]->Ok_0.entries@[j];
        assert(ok_records(results, n)[p] == prev[p]);
    } else {
        let e = results[i]->Ok_0.entries@;
        assert(ok_records(results, n) == prev + e);
        assert(ok_records(results, n)[prev.len() + j] == e[j]);
    }
}

proof fn lemma_failed_positions_nonempty(results: Seq<Result<BalanceMap, BackendError>>, n: nat)
    requires
        n <= results.len(),
    ensures
        failed_positions(results, n).len() > 0 <==> exists|i: int| 0 <= i < n && results[i] is Err,
    decreases n,
{
    if n > 0 {
        lemma_failed_positions_nonempty(results, (n - 1) as nat);
        if exists|i: int| 0 <= i < n && results[i] is Err {
            if results[n - 1] is Ok {
                let i = choose|i: int| 0 <= i < n && results[i] is Err;
                assert(0 <= i < n - 1 && results[i] is Err);
            }
        }
    }
}

/// Partial failure keeps partial data: every asset that a successful backend
/// reported is in the merged snapshot, and the failure list is non-empty
/// exactly when at least one backend failed.
pub proof fn lemma_merge_keeps_successful(
    results: Seq<Result<BalanceMap, BackendError>>,
    i: int,
    asset: Seq<char>,
)
    requires
        0 <= i < results.len(),
        results[i] is Ok,
        results[i]->Ok_0@.contains_key(asset),
    ensures
        merged_view(results).contains_key(asset),
        failed_positions(results, results.len()).len() > 0 <==> exists|k: int|
            0 <= k < results.len() && results[k] is Err,
{
    let e = results[i]->Ok_0.entries@;
    lemma_records_map_lookup(e, asset);
    let j = choose|j: int| 0 <= j < e.len() && e[j].asset@ == asset;
    lemma_ok_records_hold(results, results.len(), i, j);
    let all = ok_records(results, results.len());
    let p = choose|p: int| 0 <= p < all.len() && all[p] == e[j];
    lemma_records_map_lookup(all, asset);
    assert(0 <= p < all.len() && all[p].asset@ == asset);
    lemma_failed_positions_nonempty(results, results.len());
}

} // verus!
