//! The ordering guarantee of parallel traversal.
//!
//! Parallel asynchronous traversal launches every field visit against
//! its own cloned visitor and collects the results as they complete, in
//! whatever order that happens. Each result arrives tagged with its
//! field's 0-based position; reassembly places it back at that position,
//! so the order handed to the caller is a structural property of the
//! declaration, never of completion timing.

use vstd::prelude::*;

verus! {

/// Some completion result is tagged with position `k`.
pub open spec fn spec_has_position<R>(pairs: Seq<(usize, R)>, k: int) -> bool {
    exists|j: int| 0 <= j < pairs.len() && (#[trigger] pairs[j]).0 == k
}

/// The slot at index `k` of the reassembled output holds a result that
/// completed tagged with position `k`.
pub open spec fn spec_slot_filled<R>(pairs: Seq<(usize, R)>, out: Seq<R>, k: int) -> bool {
    exists|j: int| 0 <= j < pairs.len() && (#[trigger] pairs[j]).0 == k && pairs[j].1 == out[k]
}

/// The completion results cover every position `0..n` exactly: one
/// tagged result per slot.
pub open spec fn spec_covers_positions<R>(pairs: Seq<(usize, R)>, n: int) -> bool {
    &&& pairs.len() == n
    &&& forall|k: int| 0 <= k < n ==> spec_has_position(pairs, k)
}

fn find_position<R>(rem: &Vec<(usize, R)>, k: usize) -> (r: Option<usize>)
    ensures
        match r {
            Some(idx) => idx < rem@.len() && rem@[idx as int].0 == k,
            None => forall|j: int| 0 <= j < rem@.len() ==> (#[trigger] rem@[j]).0 != k,
        },
{
    let mut idx: usize = 0;
    while idx < rem.len()
        invariant
            idx <= rem@.len(),
            forall|j: int| 0 <= j < idx ==> (#[trigger] rem@[j]).0 != k,
        decreases rem@.len() - idx,
    {
        if rem[idx].0 == k {
            return Some(idx);
        }
        idx += 1;
    }
    None
}

/// Reassembles completion results into declaration order: the result
/// tagged with position `k` lands at index `k`, whatever order the
/// results completed in. Succeeds exactly when the tags cover the
/// positions `0..n`, one result per slot.
#[verifier::loop_isolation(false)]
pub fn reassemble_in_order<R>(pairs: Vec<(usize, R)>, n: usize) -> (r: Option<Vec<R>>)
    ensures
        match r {
            Some(out) => {
                &&& spec_covers_positions(pairs@, n as int)
                &&& out@.len() == n
                &&& forall|k: int| 0 <= k < n ==> spec_slot_filled(pairs@, out@, k)
            },
            None => !spec_covers_positions(pairs@, n as int),
        },
{
    let ghost orig = pairs@;
    if pairs.len() != n {
        return None;
    }
    let mut rem = pairs;
    let mut out: Vec<R> = Vec::new();
    let mut k: usize = 0;
    while k < n
        invariant
            k <= n,
            out@.len() == k,
            orig.len() == n,
            forall|j: int| 0 <= j < rem@.len() ==> orig.contains(#[trigger] rem@[j]),
            forall|j: int|
                0 <= j < orig.len() && (#[trigger] orig[j]).0 >= k ==> rem@.contains(orig[j]),
            forall|kk: int| 0 <= kk < k ==> spec_slot_filled(orig, out@, kk),
        decreases n - k,
    {
        match find_position(&rem, k) {
            None => {
                proof {
                    assert(!spec_covers_positions(orig, n as int)) by {
                        if spec_covers_positions(orig, n as int) {
                            assert(spec_has_position(orig, k as int));
                            let j = choose|j: int|
                                0 <= j < orig.len() && (#[trigger] orig[j]).0 == k;
                            assert(rem@.contains(orig[j]));
                            let t = choose|t: int|
                                0 <= t < rem@.len() && #[trigger] rem@[t] == orig[j];
                            assert(rem@[t].0 == k as int);
                        }
                    }
                }
                return None;
            },
            Some(idx) => {
                let ghost rem_before = rem@;
                let pv = rem.remove(idx);
                proof {
                    assert(orig.contains(rem_before[idx as int]));
                }
                let ghost out_before = out@;
                out.push(pv.1);
                proof {
                    // the slot just filled has its witness among the originals
                    let jw = choose|j: int|
                        0 <= j < orig.len() && #[trigger] orig[j] == rem_before[idx as int];
                    assert(orig[jw].0 == k as int && orig[jw].1 == out@[k as int]);
                    assert(spec_slot_filled(orig, out@, k as int));
                    // earlier slots are untouched by the push
                    assert forall|kk: int| 0 <= kk < k implies spec_slot_filled(
                        orig,
                        out@,
                        kk,
                    ) by {
                        assert(spec_slot_filled(orig, out_before, kk));
                        let jd = choose|j: int|
                            0 <= j < orig.len() && (#[trigger] orig[j]).0 == kk && orig[j].1
                                == out_before[kk];
                        assert(out@[kk] == out_before[kk]);
                    }
                    // every remaining pair is still one of the originals
                    assert forall|j: int| 0 <= j < rem@.len() implies orig.contains(
                        #[trigger] rem@[j],
                    ) by {
                        if j < idx {
                            assert(rem@[j] == rem_before[j]);
                        } else {
                            assert(rem@[j] == rem_before[j + 1]);
                        }
                    }
                    // originals tagged beyond the filled slot are still remaining
                    assert forall|j: int|
                        0 <= j < orig.len() && (#[trigger] orig[j]).0 >= k + 1 implies rem@.contains(
                        orig[j],
                    ) by {
                        assert(rem_before.contains(orig[j]));
                        let t = choose|t: int|
                            0 <= t < rem_before.len() && #[trigger] rem_before[t] == orig[j];
                        assert(t != idx);
                        if t < idx {
                            assert(rem@[t] == orig[j]);
                        } else {
                            assert(rem@[t - 1] == orig[j]);
                        }
                    }
                }
                k += 1;
            },
        }
    }
    proof {
        assert(spec_covers_positions(orig, n as int)) by {
            assert forall|kk: int| 0 <= kk < n implies spec_has_position(orig, kk) by {
                assert(spec_slot_filled(orig, out@, kk));
                let j = choose|j: int|
                    0 <= j < orig.len() && (#[trigger] orig[j]).0 == kk && orig[j].1 == out@[kk];
            }
        }
    }
    Some(out)
}

} // verus!
