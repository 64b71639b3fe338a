//! The selection policy and the cumulative scan.
//!
//! The caller hands the core the cumulative sums of the weight sequence, as
//! binary64 bit patterns in summation order; the last entry is the grand
//! total. The policy is: an empty sequence, or a total at or below zero,
//! selects index 0 without consulting the scan target; otherwise the scan
//! walks the sums in order and selects the first index whose sum the target
//! does not exceed, falling back to the last index if every comparison
//! missed (which only a NaN somewhere in the sums or in the target, or
//! rounding at the very boundary, can cause).

use vstd::prelude::*;

verus! {

use crate::bits::F64_ZERO_BITS;
use crate::bits::f64_le_bits;
use crate::bits::le_f64_bits;

/// The index the cumulative scan picks for the sums `cums` and the scan
/// target `target`: the first index whose sum is a hit, i.e. where
/// `f64_le_bits(target, cums[i])` holds, and the last index when none is.
pub open spec fn scan_index(cums: Seq<u64>, target: u64) -> int
    decreases cums.len(),
{
    if cums.len() <= 1 {
        0
    } else if f64_le_bits(target, cums[0]) {
        0
    } else {
        1 + scan_index(cums.subrange(1, cums.len() as int), target)
    }
}

/// The index selected for the cumulative sums `cums` and the scan target
/// `target`: index 0 when there is nothing to scan — an empty sequence, or a
/// grand total at or below zero (a NaN total is not at or below zero and is
/// scanned) — and the scan index otherwise.
pub open spec fn selected_index(cums: Seq<u64>, target: u64) -> int {
    if cums.len() == 0 || f64_le_bits(cums.last(), F64_ZERO_BITS) {
        0
    } else {
        scan_index(cums, target)
    }
}

/// The scan index lies inside the sequence.
pub proof fn lemma_scan_index_in_range(cums: Seq<u64>, target: u64)
    requires
        cums.len() > 0,
    ensures
        0 <= scan_index(cums, target) < cums.len(),
    decreases cums.len(),
{
    if cums.len() > 1 && !f64_le_bits(target, cums[0]) {
        lemma_scan_index_in_range(cums.subrange(1, cums.len() as int), target);
    }
}

/// The scan picks the first hit: every index before the scan index misses,
/// and the scan index itself is a hit unless the whole sequence was missed
/// and the last index stands as the fallback.
pub proof fn lemma_scan_least_hit(cums: Seq<u64>, target: u64)
    requires
        cums.len() > 0,
    ensures
        forall|j: int| 0 <= j < scan_index(cums, target) ==> !f64_le_bits(target, cums[j]),
        f64_le_bits(target, cums[scan_index(cums, target)]) || scan_index(cums, target)
            == cums.len() - 1,
    decreases cums.len(),
{
    lemma_scan_index_in_range(cums, target);
    if cums.len() > 1 && !f64_le_bits(target, cums[0]) {
        let sub = cums.subrange(1, cums.len() as int);
        lemma_scan_index_in_range(sub, target);
        lemma_scan_least_hit(sub, target);
        assert forall|j: int| 0 <= j < scan_index(cums, target) implies !f64_le_bits(
            target,
            cums[j],
        ) by {
            if j > 0 {
                assert(cums[j] == sub[j - 1]);
            }
        }
        assert(cums[scan_index(cums, target)] == sub[scan_index(sub, target)]);
    }
}

/// An index that misses everywhere before it and hits at its own place — or
/// stands last after a full miss — is the scan index.
proof fn lemma_scan_index_agrees(cums: Seq<u64>, target: u64, i: int)
    requires
        cums.len() > 0,
        0 <= i < cums.len(),
        forall|j: int| 0 <= j < i ==> !f64_le_bits(target, cums[j]),
        f64_le_bits(target, cums[i]) || i == cums.len() - 1,
    ensures
        i == scan_index(cums, target),
    decreases cums.len(),
{
    if i > 0 {
        assert(!f64_le_bits(target, cums[0]));
        let sub = cums.subrange(1, cums.len() as int);
        assert forall|j: int| 0 <= j < i - 1 implies !f64_le_bits(target, sub[j]) by {
            assert(sub[j] == cums[j + 1]);
        }
        assert(sub[i - 1] == cums[i]);
        lemma_scan_index_agrees(sub, target, i - 1);
    }
}

/// Walks the cumulative sums in order and returns the first index whose sum
/// the target does not exceed, or the last index when every comparison
/// missed.
pub fn scan_from_target(cums: &Vec<u64>, target_bits: u64) -> (i: usize)
    requires
        cums@.len() > 0,
    ensures
        i == scan_index(cums@, target_bits),
        i < cums@.len(),
        forall|j: int| 0 <= j < i ==> !f64_le_bits(target_bits, cums@[j]),
        f64_le_bits(target_bits, cums@[i as int]) || i == cums@.len() - 1,
{
    let n = cums.len();
    let mut k: usize = 0;
    while k < n
        invariant
            n == cums@.len(),
            0 < n,
            k <= n,
            forall|j: int| 0 <= j < k ==> !f64_le_bits(target_bits, cums@[j]),
        decreases n - k,
    {
        if le_f64_bits(target_bits, cums[k]) {
            proof {
                lemma_scan_index_agrees(cums@, target_bits, k as int);
            }
            return k;
        }
        k += 1;
    }
    proof {
        lemma_scan_index_agrees(cums@, target_bits, n - 1);
    }
    n - 1
}

/// The grand total of the cumulative sums, if it calls for a scan: `None`
/// when the sequence is empty or the total lies at or below zero — the
/// fallback cases that select index 0 outright — and the total's bit pattern
/// otherwise.
pub fn total_if_positive(cums: &Vec<u64>) -> (t: Option<u64>)
    ensures
        match t {
            Some(tb) => cums@.len() > 0 && tb == cums@.last() && !f64_le_bits(
                tb,
                F64_ZERO_BITS,
            ),
            None => cums@.len() == 0 || f64_le_bits(cums@.last(), F64_ZERO_BITS),
        },
{
    let n = cums.len();
    if n == 0 {
        None
    } else {
        let tb = cums[n - 1];
        if le_f64_bits(tb, F64_ZERO_BITS) {
            None
        } else {
            Some(tb)
        }
    }
}

/// The whole selection decision for one call, given the cumulative sums and
/// the scan target: the fallback cases select index 0, everything else goes
/// to the scan. The result always lies inside a non-empty sequence, and is 0
/// on an empty one.
pub fn select_with_target(cums: &Vec<u64>, target_bits: u64) -> (i: usize)
    ensures
        i == selected_index(cums@, target_bits),
        cums@.len() > 0 ==> i < cums@.len(),
        cums@.len() == 0 ==> i == 0,
{
    let n = cums.len();
    if n == 0 {
        return 0;
    }
    let total_bits = cums[n - 1];
    if le_f64_bits(total_bits, F64_ZERO_BITS) {
        return 0;
    }
    scan_from_target(cums, target_bits)
}

/// Law: a one-entry sequence selects index 0 whatever the scan target — that
/// is, whatever the clock and the random draw made of the seed.
pub proof fn lemma_single_element(cums: Seq<u64>, target: u64)
    requires
        cums.len() == 1,
    ensures
        selected_index(cums, target) == 0,
{
}

/// Law: a sequence whose total lies at or below zero — and in particular an
/// empty one — selects index 0 for every scan target alike.
pub proof fn lemma_fallback_deterministic(cums: Seq<u64>, target_a: u64, target_b: u64)
    requires
        cums.len() == 0 || f64_le_bits(cums.last(), F64_ZERO_BITS),
    ensures
        selected_index(cums, target_a) == 0,
        selected_index(cums, target_b) == 0,
{
}

/// Law: for every input — NaN and infinite entries included — the selection
/// lands inside a non-empty sequence and is 0 on an empty one.
pub proof fn lemma_selected_index_in_range(cums: Seq<u64>, target: u64)
    ensures
        0 <= selected_index(cums, target),
        cums.len() > 0 ==> selected_index(cums, target) < cums.len(),
        cums.len() == 0 ==> selected_index(cums, target) == 0,
{
    if cums.len() > 0 && !f64_le_bits(cums.last(), F64_ZERO_BITS) {
        lemma_scan_index_in_range(cums, target);
    }
}

} // verus!
