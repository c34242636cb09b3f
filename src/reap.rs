//! Pruning: which labelled transfers the current feeds no longer reference.

use vstd::prelude::*;

use crate::text::same_text;
use crate::transfer::{has_label, label_in, TransferRecord};

verus! {

/// Some hash of `live` reads `h`.
pub open spec fn hash_in(live: Seq<String>, h: Seq<char>) -> bool {
    exists|i: int| 0 <= i < live.len() && #[trigger] live[i]@ == h
}

/// The transfer carries `label` and its hash is not live: it is to be removed.
pub open spec fn is_stale(t: TransferRecord, live: Seq<String>, label: Seq<char>) -> bool {
    label_in(t.labels@, label) && !hash_in(live, t.hash@)
}

/// The positions among the first `n` transfers of those that are stale, in order.
pub open spec fn stale_positions(
    ts: Seq<TransferRecord>,
    live: Seq<String>,
    label: Seq<char>,
    n: int,
) -> Seq<int>
    decreases n,
{
    if n <= 0 {
        Seq::empty()
    } else if is_stale(ts[n - 1], live, label) {
        stale_positions(ts, live, label, n - 1).push(n - 1)
    } else {
        stale_positions(ts, live, label, n - 1)
    }
}

/// Whether some hash of `live` reads `h`.
pub fn is_live(live: &Vec<String>, h: &str) -> (r: bool)
    ensures
        r == hash_in(live@, h@),
{
    let mut i: usize = 0;
    while i < live.len()
        invariant
            i <= live@.len(),
            forall|k: int| 0 <= k < i ==> live@[k]@ != h@,
        decreases live@.len() - i,
    {
        if same_text(live[i].as_str(), h) {
            assert(live@[i as int]@ == h@);
            return true;
        }
        i = i + 1;
    }
    false
}

/// The positions, in order, of the transfers to remove: those that carry
/// `label` and whose hash is not among the `live` hashes.
pub fn reap(transfers: &Vec<TransferRecord>, live: &Vec<String>, label: &str) -> (r: Vec<usize>)
    ensures
        r@.map_values(|i: usize| i as int) == stale_positions(
            transfers@,
            live@,
            label@,
            transfers@.len() as int,
        ),
{
    let mut out: Vec<usize> = Vec::new();
    let mut i: usize = 0;
    while i < transfers.len()
        invariant
            i <= transfers@.len(),
            out@.map_values(|i: usize| i as int) == stale_positions(
                transfers@,
                live@,
                label@,
                i as int,
            ),
        decreases transfers@.len() - i,
    {
        let t = &transfers[i];
        let ghost before = out@.map_values(|i: usize| i as int);
        if has_label(Some(t.labels.as_slice()), label) && !is_live(live, t.hash.as_str()) {
            out.push(i);
            assert(out@.map_values(|i: usize| i as int) =~= before.push(i as int));
        }
        i = i + 1;
    }
    out
}

proof fn lemma_stale_positions_exact(
    ts: Seq<TransferRecord>,
    live: Seq<String>,
    label: Seq<char>,
    n: int,
)
    requires
        0 <= n <= ts.len(),
    ensures
        forall|k: int|
            0 <= k < n ==> (stale_positions(ts, live, label, n).contains(k) <==> is_stale(
                #[trigger] ts[k],
                live,
                label,
            )),
        forall|k: int| #[trigger]
            stale_positions(ts, live, label, n).contains(k) ==> 0 <= k < n,
    decreases n,
{
    if n > 0 {
        lemma_stale_positions_exact(ts, live, label, n - 1);
        let prev = stale_positions(ts, live, label, n - 1);
        if is_stale(ts[n - 1], live, label) {
            assert forall|k: int| #[trigger] prev.push(n - 1).contains(k) <==> (prev.contains(k) || k
                == n - 1) by {
                if prev.push(n - 1).contains(k) {
                    let j = choose|j: int| 0 <= j < prev.push(n - 1).len() && #[trigger] prev.push(n - 1)[j] == k;
                    if j < prev.len() {
                        assert(prev[j] == k);
                    }
                }
                if prev.contains(k) {
                    let j = choose|j: int| 0 <= j < prev.len() && #[trigger] prev[j] == k;
                    assert(prev.push(n - 1)[j] == k);
                }
                if k == n - 1 {
                    assert(prev.push(n - 1)[prev.len() as int] == k);
                }
            }
        }
    }
}

/// Exactly the transfers that carry the label and whose hash is not live are
/// removed: a transfer without the label, or with a live hash, never is.
pub proof fn lemma_reap_exact(ts: Seq<TransferRecord>, live: Seq<String>, label: Seq<char>)
    ensures
        forall|k: int|
            0 <= k < ts.len() ==> (stale_positions(ts, live, label, ts.len() as int).contains(k)
                <==> is_stale(#[trigger] ts[k], live, label)),
        forall|k: int| #[trigger]
            stale_positions(ts, live, label, ts.len() as int).contains(k) ==> 0 <= k < ts.len(),
{
    lemma_stale_positions_exact(ts, live, label, ts.len() as int);
}

/// The hashes of the transfers at `picked`, in that order: what a removal
/// request names.
pub fn hashes_at(transfers: &Vec<TransferRecord>, picked: &Vec<usize>) -> (r: Vec<String>)
    requires
        forall|k: int| 0 <= k < picked@.len() ==> #[trigger] picked@[k] < transfers@.len(),
    ensures
        r@.len() == picked@.len(),
        forall|k: int|
            0 <= k < picked@.len() ==> #[trigger] r@[k] == transfers@[picked@[k] as int].hash,
{
    let mut out: Vec<String> = Vec::new();
    let mut k: usize = 0;
    while k < picked.len()
        invariant
            forall|j: int| 0 <= j < picked@.len() ==> #[trigger] picked@[j] < transfers@.len(),
            k <= picked@.len(),
            out@.len() == k,
            forall|j: int| 0 <= j < k ==> #[trigger] out@[j] == transfers@[picked@[j] as int].hash,
        decreases picked@.len() - k,
    {
        out.push(transfers[picked[k]].hash.clone());
        k = k + 1;
    }
    out
}

/// The hashes that `resolved` holds, in order, skipping the entries that
/// resolved to none.
pub open spec fn live_of(resolved: Seq<Option<String>>) -> Seq<String>
    decreases resolved.len(),
{
    if resolved.len() == 0 {
        Seq::empty()
    } else {
        let prev = live_of(resolved.drop_last());
        match resolved.last() {
            Some(h) => prev.push(h),
            None => prev,
        }
    }
}

/// The live hashes of this run: for each matched entry, the hash its
/// submission resolved to, if any.
pub fn live_hashes(resolved: &Vec<Option<String>>) -> (r: Vec<String>)
    ensures
        r@ == live_of(resolved@),
{
    let mut out: Vec<String> = Vec::new();
    let mut i: usize = 0;
    while i < resolved.len()
        invariant
            i <= resolved@.len(),
            out@ == live_of(resolved@.subrange(0, i as int)),
        decreases resolved@.len() - i,
    {
        assert(resolved@.subrange(0, i + 1).drop_last() =~= resolved@.subrange(0, i as int));
        match &resolved[i] {
            Some(h) => out.push(h.clone()),
            None => {},
        }
        i = i + 1;
    }
    assert(resolved@.subrange(0, resolved@.len() as int) =~= resolved@);
    out
}

proof fn lemma_resolved_in_live(resolved: Seq<Option<String>>, i: int)
    requires
        0 <= i < resolved.len(),
        resolved[i] is Some,
    ensures
        hash_in(live_of(resolved), resolved[i]->0@),
    decreases resolved.len(),
{
    let prev = live_of(resolved.drop_last());
    if i == resolved.len() - 1 {
        assert(live_of(resolved)[prev.len() as int] == resolved[i]->0);
    } else {
        assert(resolved.drop_last()[i] == resolved[i]);
        lemma_resolved_in_live(resolved.drop_last(), i);
        let k = choose|k: int| 0 <= k < prev.len() && #[trigger] prev[k]@ == resolved[i]->0@;
        assert(live_of(resolved)[k] == prev[k]);
    }
}

/// A transfer that some entry of this run resolved to is never removed by
/// the pruning that follows in the same run, whatever its labels.
pub proof fn lemma_resolved_survive(
    resolved: Seq<Option<String>>,
    ts: Seq<TransferRecord>,
    label: Seq<char>,
    i: int,
    k: int,
)
    requires
        0 <= i < resolved.len(),
        resolved[i] is Some,
        0 <= k < ts.len(),
        ts[k].hash@ == resolved[i]->0@,
    ensures
        !stale_positions(ts, live_of(resolved), label, ts.len() as int).contains(k),
{
    lemma_resolved_in_live(resolved, i);
    lemma_reap_exact(ts, live_of(resolved), label);
}

} // verus!
