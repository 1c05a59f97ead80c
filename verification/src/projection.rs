//! Filtering: which master-list indices the current filter keeps.
//!
//! A filter is a case-sensitive substring test on the item name; the empty
//! filter keeps everything without scanning any item.

use vstd::prelude::*;

use crate::item::{item_name, ObjectItem};
use crate::text::{seq_contains_sub, str_contains_sub};

verus! {

/// The item at master index `i` matches the filter `f`.
pub open spec fn filter_matches(items: Seq<ObjectItem>, f: Seq<char>, i: int) -> bool {
    seq_contains_sub(item_name(items[i]), f)
}

/// The ascending sequence of master indices below `n` whose items match `f`.
pub open spec fn filter_indices(items: Seq<ObjectItem>, f: Seq<char>, n: int) -> Seq<usize>
    decreases n,
{
    if n <= 0 {
        Seq::empty()
    } else {
        let rest = filter_indices(items, f, n - 1);
        if filter_matches(items, f, n - 1) {
            rest.push((n - 1) as usize)
        } else {
            rest
        }
    }
}

/// The filtered projection contains exactly the matching indices, in
/// ascending master order and each at most once.
pub proof fn lemma_filter_indices_props(items: Seq<ObjectItem>, f: Seq<char>, n: int)
    requires
        0 <= n <= usize::MAX,
    ensures
        forall|k: int|
            0 <= k < filter_indices(items, f, n).len() ==> (#[trigger] filter_indices(
                items,
                f,
                n,
            )[k]) < n,
        forall|p: int, q: int|
            0 <= p < q < filter_indices(items, f, n).len() ==> filter_indices(items, f, n)[p]
                < filter_indices(items, f, n)[q],
        forall|k: int|
            0 <= k < filter_indices(items, f, n).len() ==> filter_matches(
                items,
                f,
                (#[trigger] filter_indices(items, f, n)[k]) as int,
            ),
        forall|j: usize|
            0 <= j < n && filter_matches(items, f, j as int) ==> filter_indices(
                items,
                f,
                n,
            ).contains(j),
    decreases n,
{
    if n > 0 {
        lemma_filter_indices_props(items, f, n - 1);
        let rest = filter_indices(items, f, n - 1);
        let cur = filter_indices(items, f, n);
        if filter_matches(items, f, n - 1) {
            assert(cur == rest.push((n - 1) as usize));
            assert forall|p: int, q: int| 0 <= p < q < cur.len() implies cur[p] < cur[q] by {
                if q < rest.len() {
                    assert(cur[p] == rest[p]);
                    assert(cur[q] == rest[q]);
                    assert(rest[p] < rest[q]);
                } else {
                    assert(cur[q] == (n - 1) as usize);
                    assert(cur[p] == rest[p]);
                    assert(rest[p] < n - 1);
                }
            }
            assert forall|k: int|
                0 <= k < cur.len() implies filter_matches(items, f, (#[trigger] cur[k]) as int) by {
                if k < rest.len() {
                    assert(cur[k] == rest[k]);
                    assert(filter_matches(items, f, rest[k] as int));
                } else {
                    assert(cur[k] == (n - 1) as usize);
                }
            }
            assert forall|j: usize|
                0 <= j < n && filter_matches(items, f, j as int) implies filter_indices(
                items,
                f,
                n,
            ).contains(j) by {
                if j < n - 1 {
                    assert(rest.contains(j));
                    let k = choose|k: int| 0 <= k < rest.len() && rest[k] == j;
                    assert(filter_indices(items, f, n)[k] == j);
                } else {
                    assert(filter_indices(items, f, n)[rest.len() as int] == j);
                }
            }
        } else {
            assert forall|j: usize|
                0 <= j < n && filter_matches(items, f, j as int) implies filter_indices(
                items,
                f,
                n,
            ).contains(j) by {
                if j < n - 1 {
                    assert(rest.contains(j));
                    let k = choose|k: int| 0 <= k < rest.len() && rest[k] == j;
                    assert(filter_indices(items, f, n)[k] == j);
                }
            }
        }
    }
}

/// An ascending index sequence has no duplicates.
pub proof fn lemma_ascending_no_duplicates(s: Seq<usize>)
    requires
        forall|p: int, q: int| 0 <= p < q < s.len() ==> #[trigger] s[p] < #[trigger] s[q],
    ensures
        s.no_duplicates(),
{
}

/// Compute the filtered projection. The empty filter short-circuits to the
/// identity projection without reading any item.
pub fn filter_indices_exec(items: &Vec<ObjectItem>, f: &str) -> (r: Vec<usize>)
    ensures
        r@ == filter_indices(items@, f@, items@.len() as int),
{
    let n = items.len();
    let mut out: Vec<usize> = Vec::new();
    if f.unicode_len() == 0 {
        let mut i: usize = 0;
        while i < n
            invariant
                n == items@.len(),
                i <= n,
                f@.len() == 0,
                out@ == filter_indices(items@, f@, i as int),
            decreases n - i,
        {
            proof {
                assert(item_name(items@[i as int]).subrange(0, 0 + f@.len() as int) =~= f@);
                assert(filter_matches(items@, f@, i as int));
            }
            out.push(i);
            i = i + 1;
        }
        out
    } else {
        let mut i: usize = 0;
        while i < n
            invariant
                n == items@.len(),
                i <= n,
                out@ == filter_indices(items@, f@, i as int),
            decreases n - i,
        {
            if str_contains_sub(items[i].name().as_str(), f) {
                out.push(i);
            }
            i = i + 1;
        }
        out
    }
}

} // verus!
