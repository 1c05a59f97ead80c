//! The orderings of the object list and a stable sort over projection
//! indices.
//!
//! A sort never touches the master item list: it permutes a sequence of
//! indices into it. Ties are kept in the order the input had them, which
//! `stable_sort_spec` captures exactly by ranking entries first by key and
//! then by their position in the input.

use vstd::prelude::*;
use vstd::multiset::Multiset;
use vstd::relations::{sorted_by, total_ordering};
use vstd::seq_lib::lemma_multiset_commutative;
use vstd::seq_lib::lemma_sorted_unique;

use crate::item::{item_mtime, item_name, item_size, ObjectItem};
use crate::text::{
    lemma_lex_lt_asym, lemma_lex_lt_connected, lemma_lex_lt_trans, lex_lt, str_lex_lt,
};

verus! {

/// The selectable orderings: the original index order, or one of the item
/// keys in either direction.
#[derive(Clone, Copy, Debug, PartialEq, Eq, Structural)]
pub enum ObjectListSortType {
    Default,
    NameAsc,
    NameDesc,
    LastModifiedAsc,
    LastModifiedDesc,
    SizeAsc,
    SizeDesc,
}

/// `None` (a directory) orders before every concrete timestamp.
pub open spec fn opt_i64_lt(a: Option<i64>, b: Option<i64>) -> bool {
    match (a, b) {
        (None, None) => false,
        (None, Some(_)) => true,
        (Some(_), None) => false,
        (Some(x), Some(y)) => x < y,
    }
}

/// `None` (a directory) orders before every concrete size.
pub open spec fn opt_usize_lt(a: Option<usize>, b: Option<usize>) -> bool {
    match (a, b) {
        (None, None) => false,
        (None, Some(_)) => true,
        (Some(_), None) => false,
        (Some(x), Some(y)) => x < y,
    }
}

/// The strict "comes before" relation between two master-list indices under a
/// sort type.
pub open spec fn sort_lt(
    ty: ObjectListSortType,
    items: Seq<ObjectItem>,
    a: usize,
    b: usize,
) -> bool {
    match ty {
        ObjectListSortType::Default => a < b,
        ObjectListSortType::NameAsc => lex_lt(item_name(items[a as int]), item_name(items[b as int])),
        ObjectListSortType::NameDesc => lex_lt(
            item_name(items[b as int]),
            item_name(items[a as int]),
        ),
        ObjectListSortType::LastModifiedAsc => opt_i64_lt(
            item_mtime(items[a as int]),
            item_mtime(items[b as int]),
        ),
        ObjectListSortType::LastModifiedDesc => opt_i64_lt(
            item_mtime(items[b as int]),
            item_mtime(items[a as int]),
        ),
        ObjectListSortType::SizeAsc => opt_usize_lt(
            item_size(items[a as int]),
            item_size(items[b as int]),
        ),
        ObjectListSortType::SizeDesc => opt_usize_lt(
            item_size(items[b as int]),
            item_size(items[a as int]),
        ),
    }
}

/// Two indices whose keys compare equal under the sort type.
pub open spec fn sort_eq(
    ty: ObjectListSortType,
    items: Seq<ObjectItem>,
    a: usize,
    b: usize,
) -> bool {
    !sort_lt(ty, items, a, b) && !sort_lt(ty, items, b, a)
}

/// Total order on position-annotated indices: by key first, then by the
/// position the entry had in the input (ties of both broken by the index
/// value so the relation is antisymmetric on all pairs).
pub open spec fn pair_leq(
    ty: ObjectListSortType,
    items: Seq<ObjectItem>,
    x: (usize, int),
    y: (usize, int),
) -> bool {
    sort_lt(ty, items, x.0, y.0) || (sort_eq(ty, items, x.0, y.0) && (x.1 < y.1 || (x.1 == y.1
        && x.0 <= y.0)))
}

pub open spec fn pair_leq_fn(ty: ObjectListSortType, items: Seq<ObjectItem>) -> spec_fn(
    (usize, int),
    (usize, int),
) -> bool {
    |x: (usize, int), y: (usize, int)| pair_leq(ty, items, x, y)
}

/// The strict key order is asymmetric and transitive, and key-equality is
/// compatible with it on both sides.
proof fn lemma_sort_lt_props(ty: ObjectListSortType, items: Seq<ObjectItem>)
    ensures
        forall|a: usize, b: usize| !(#[trigger] sort_lt(ty, items, a, b) && sort_lt(ty, items, b, a)),
        forall|a: usize, b: usize, c: usize|
            #[trigger] sort_lt(ty, items, a, b) && #[trigger] sort_lt(ty, items, b, c) ==> sort_lt(
                ty,
                items,
                a,
                c,
            ),
        forall|a: usize, b: usize, c: usize|
            #[trigger] sort_eq(ty, items, a, b) && #[trigger] sort_lt(ty, items, b, c) ==> sort_lt(
                ty,
                items,
                a,
                c,
            ),
        forall|a: usize, b: usize, c: usize|
            #[trigger] sort_lt(ty, items, a, b) && #[trigger] sort_eq(ty, items, b, c) ==> sort_lt(
                ty,
                items,
                a,
                c,
            ),
{
    assert forall|a: usize, b: usize| !(#[trigger] sort_lt(ty, items, a, b) && sort_lt(
        ty,
        items,
        b,
        a,
    )) by {
        if ty is NameAsc || ty is NameDesc {
            lemma_lex_lt_asym(item_name(items[a as int]), item_name(items[b as int]));
        }
    }
    assert forall|a: usize, b: usize, c: usize|
        #[trigger] sort_lt(ty, items, a, b) && #[trigger] sort_lt(ty, items, b, c) implies sort_lt(
        ty,
        items,
        a,
        c,
    ) by {
        if ty is NameAsc {
            lemma_lex_lt_trans(
                item_name(items[a as int]),
                item_name(items[b as int]),
                item_name(items[c as int]),
            );
        }
        if ty is NameDesc {
            lemma_lex_lt_trans(
                item_name(items[c as int]),
                item_name(items[b as int]),
                item_name(items[a as int]),
            );
        }
    }
    assert forall|a: usize, b: usize, c: usize|
        #[trigger] sort_eq(ty, items, a, b) && #[trigger] sort_lt(ty, items, b, c) implies sort_lt(
        ty,
        items,
        a,
        c,
    ) by {
        if ty is NameAsc || ty is NameDesc {
            lemma_lex_lt_connected(item_name(items[a as int]), item_name(items[b as int]));
        }
    }
    assert forall|a: usize, b: usize, c: usize|
        #[trigger] sort_lt(ty, items, a, b) && #[trigger] sort_eq(ty, items, b, c) implies sort_lt(
        ty,
        items,
        a,
        c,
    ) by {
        if ty is NameAsc || ty is NameDesc {
            lemma_lex_lt_connected(item_name(items[b as int]), item_name(items[c as int]));
        }
    }
}

/// The annotated order is a total ordering.
proof fn lemma_pair_total_ordering(ty: ObjectListSortType, items: Seq<ObjectItem>)
    ensures
        total_ordering(pair_leq_fn(ty, items)),
{
    lemma_sort_lt_props(ty, items);
    let leq = pair_leq_fn(ty, items);
    assert forall|x: (usize, int)| #[trigger] leq(x, x) by {
        assert(!(sort_lt(ty, items, x.0, x.0) && sort_lt(ty, items, x.0, x.0)));
    }
    assert forall|x: (usize, int), y: (usize, int)| #[trigger] leq(x, y) && #[trigger] leq(
        y,
        x,
    ) implies x == y by {
        assert(!(sort_lt(ty, items, x.0, y.0) && sort_lt(ty, items, y.0, x.0)));
        assert(sort_eq(ty, items, x.0, y.0));
        assert(x.1 == y.1 && x.0 == y.0);
    }
    assert forall|x: (usize, int), y: (usize, int), z: (usize, int)|
        #[trigger] leq(x, y) && #[trigger] leq(y, z) implies leq(x, z) by {
        assert(sort_lt(ty, items, x.0, y.0) || sort_eq(ty, items, x.0, y.0));
        assert(sort_lt(ty, items, y.0, z.0) || sort_eq(ty, items, y.0, z.0));
    }
    assert forall|x: (usize, int), y: (usize, int)| #[trigger] leq(x, y) || #[trigger] leq(
        y,
        x,
    ) by {
        if !sort_lt(ty, items, x.0, y.0) && !sort_lt(ty, items, y.0, x.0) {
            assert(sort_eq(ty, items, x.0, y.0));
        }
    }
}

/// Each input index tagged with its position.
pub open spec fn annotate(s: Seq<usize>) -> Seq<(usize, int)> {
    Seq::new(s.len(), |i: int| (s[i], i))
}

/// The unique stable sort of `s` under the given sort type: sorted by key,
/// with equal keys kept in the order `s` had them.
pub open spec fn stable_sort_spec(
    ty: ObjectListSortType,
    items: Seq<ObjectItem>,
    s: Seq<usize>,
) -> Seq<usize> {
    annotate(s).sort_by(pair_leq_fn(ty, items)).map_values(|p: (usize, int)| p.0)
}

/// Multiset equality survives mapping to the first components.
proof fn lemma_map_fst_multiset(x: Seq<(usize, int)>, y: Seq<(usize, int)>)
    requires
        x.to_multiset() == y.to_multiset(),
    ensures
        x.map_values(|p: (usize, int)| p.0).to_multiset() == y.map_values(
            |p: (usize, int)| p.0,
        ).to_multiset(),
    decreases x.len(),
{
    broadcast use vstd::seq_lib::group_to_multiset_ensures;

    let f = |p: (usize, int)| p.0;
    if x.len() == 0 {
        assert(x.to_multiset().len() == 0);
        assert(y.len() == 0);
        assert(x.map_values(f) =~= y.map_values(f));
    } else {
        let v = x[0];
        assert(x.contains(v));
        assert(x.to_multiset().count(v) > 0);
        assert(y.to_multiset().count(v) > 0);
        assert(y.contains(v));
        let k = choose|k: int| 0 <= k < y.len() && y[k] == v;
        assert(x.remove(0).to_multiset() =~= x.to_multiset().remove(v));
        assert(y.remove(k).to_multiset() =~= y.to_multiset().remove(v));
        assert(x.remove(0).to_multiset() =~= y.remove(k).to_multiset());
        lemma_map_fst_multiset(x.remove(0), y.remove(k));
        assert(x.map_values(f).remove(0) =~= x.remove(0).map_values(f));
        assert(y.map_values(f).remove(k) =~= y.remove(k).map_values(f));
        assert(x.map_values(f).remove(0).to_multiset() =~= x.map_values(f).to_multiset().remove(
            f(v),
        ));
        assert(y.map_values(f).remove(k).to_multiset() =~= y.map_values(f).to_multiset().remove(
            f(v),
        ));
        assert(x.map_values(f).to_multiset().count(f(v)) > 0) by {
            assert(x.map_values(f)[0] == f(v));
            assert(x.map_values(f).contains(f(v)));
        }
        assert(y.map_values(f).to_multiset().count(f(v)) > 0) by {
            assert(y.map_values(f)[k] == f(v));
            assert(y.map_values(f).contains(f(v)));
        }
        assert(x.map_values(f).to_multiset() =~= x.map_values(f).to_multiset().remove(f(v)).insert(
            f(v),
        ));
        assert(y.map_values(f).to_multiset() =~= y.map_values(f).to_multiset().remove(f(v)).insert(
            f(v),
        ));
    }
}

/// The stable sort is a permutation: it has the same indices, each the same
/// number of times, as its input.
pub proof fn lemma_stable_sort_permutes(
    ty: ObjectListSortType,
    items: Seq<ObjectItem>,
    s: Seq<usize>,
)
    ensures
        stable_sort_spec(ty, items, s).to_multiset() == s.to_multiset(),
        stable_sort_spec(ty, items, s).len() == s.len(),
{
    broadcast use vstd::seq_lib::group_to_multiset_ensures;

    let leq = pair_leq_fn(ty, items);
    lemma_pair_total_ordering(ty, items);
    annotate(s).lemma_sort_by_ensures(leq);
    lemma_map_fst_multiset(annotate(s).sort_by(leq), annotate(s));
    assert(annotate(s).map_values(|p: (usize, int)| p.0) =~= s);
    let r = stable_sort_spec(ty, items, s);
    assert(r.to_multiset().len() == r.len());
    assert(s.to_multiset().len() == s.len());
}

/// The indices of a stably sorted projection are in key order.
pub open spec fn key_sorted(
    ty: ObjectListSortType,
    items: Seq<ObjectItem>,
    r: Seq<usize>,
) -> bool {
    forall|i: int, j: int|
        0 <= i < j < r.len() ==> !sort_lt(ty, items, #[trigger] r[j], #[trigger] r[i])
}

pub proof fn lemma_stable_sort_key_sorted(
    ty: ObjectListSortType,
    items: Seq<ObjectItem>,
    s: Seq<usize>,
)
    ensures
        key_sorted(ty, items, stable_sort_spec(ty, items, s)),
{
    let leq = pair_leq_fn(ty, items);
    lemma_pair_total_ordering(ty, items);
    lemma_sort_lt_props(ty, items);
    annotate(s).lemma_sort_by_ensures(leq);
    let pairs = annotate(s).sort_by(leq);
    let r = stable_sort_spec(ty, items, s);
    assert forall|i: int, j: int| 0 <= i < j < r.len() implies !sort_lt(
        ty,
        items,
        #[trigger] r[j],
        #[trigger] r[i],
    ) by {
        assert(leq(pairs[i], pairs[j]));
        assert(r[i] == pairs[i].0 && r[j] == pairs[j].0);
    }
}

/// Sorting a sequence that is already in key order leaves it unchanged.
pub proof fn lemma_stable_sort_of_key_sorted(
    ty: ObjectListSortType,
    items: Seq<ObjectItem>,
    r: Seq<usize>,
)
    requires
        key_sorted(ty, items, r),
    ensures
        stable_sort_spec(ty, items, r) == r,
{
    let leq = pair_leq_fn(ty, items);
    lemma_pair_total_ordering(ty, items);
    lemma_sort_lt_props(ty, items);
    let pairs = annotate(r);
    assert forall|i: int, j: int| 0 <= i < j < pairs.len() implies #[trigger] leq(
        pairs[i],
        pairs[j],
    ) by {
        assert(!sort_lt(ty, items, r[j], r[i]));
        if !sort_lt(ty, items, r[i], r[j]) {
            assert(sort_eq(ty, items, r[i], r[j]));
        }
    }
    assert(sorted_by(pairs, leq));
    pairs.lemma_sort_by_ensures(leq);
    lemma_sorted_unique(pairs.sort_by(leq), pairs, leq);
    assert(pairs.sort_by(leq) == pairs);
    assert(pairs.map_values(|p: (usize, int)| p.0) =~= r);
}

/// Sorting is idempotent: applying the same sort type twice yields the same
/// ordering as applying it once.
pub proof fn lemma_stable_sort_idempotent(
    ty: ObjectListSortType,
    items: Seq<ObjectItem>,
    s: Seq<usize>,
)
    ensures
        stable_sort_spec(ty, items, stable_sort_spec(ty, items, s)) == stable_sort_spec(
            ty,
            items,
            s,
        ),
{
    lemma_stable_sort_key_sorted(ty, items, s);
    lemma_stable_sort_of_key_sorted(ty, items, stable_sort_spec(ty, items, s));
}

/// Executable comparison of two master-list indices under a sort type.
fn lt_exec(items: &Vec<ObjectItem>, ty: ObjectListSortType, a: usize, b: usize) -> (r: bool)
    requires
        a < items@.len(),
        b < items@.len(),
    ensures
        r == sort_lt(ty, items@, a, b),
{
    match ty {
        ObjectListSortType::Default => a < b,
        ObjectListSortType::NameAsc => str_lex_lt(items[a].name().as_str(), items[b].name().as_str()),
        ObjectListSortType::NameDesc => str_lex_lt(
            items[b].name().as_str(),
            items[a].name().as_str(),
        ),
        ObjectListSortType::LastModifiedAsc => opt_i64_lt_exec(
            items[a].last_modified(),
            items[b].last_modified(),
        ),
        ObjectListSortType::LastModifiedDesc => opt_i64_lt_exec(
            items[b].last_modified(),
            items[a].last_modified(),
        ),
        ObjectListSortType::SizeAsc => opt_usize_lt_exec(items[a].size_byte(), items[b].size_byte()),
        ObjectListSortType::SizeDesc => opt_usize_lt_exec(
            items[b].size_byte(),
            items[a].size_byte(),
        ),
    }
}

fn opt_i64_lt_exec(a: Option<i64>, b: Option<i64>) -> (r: bool)
    ensures
        r == opt_i64_lt(a, b),
{
    match (a, b) {
        (None, None) => false,
        (None, Some(_)) => true,
        (Some(_), None) => false,
        (Some(x), Some(y)) => x < y,
    }
}

fn opt_usize_lt_exec(a: Option<usize>, b: Option<usize>) -> (r: bool)
    ensures
        r == opt_usize_lt(a, b),
{
    match (a, b) {
        (None, None) => false,
        (None, Some(_)) => true,
        (Some(_), None) => false,
        (Some(x), Some(y)) => x < y,
    }
}

/// First position in `out` whose entry the new index must precede.
fn insert_pos(items: &Vec<ObjectItem>, ty: ObjectListSortType, out: &Vec<usize>, x: usize) -> (j:
    usize)
    requires
        x < items@.len(),
        forall|k: int| 0 <= k < out@.len() ==> out@[k] < items@.len(),
    ensures
        j <= out@.len(),
        forall|k: int| 0 <= k < j ==> !sort_lt(ty, items@, x, #[trigger] out@[k]),
        j < out@.len() ==> sort_lt(ty, items@, x, out@[j as int]),
{
    let mut j: usize = 0;
    while j < out.len()
        invariant
            x < items@.len(),
            forall|k: int| 0 <= k < out@.len() ==> out@[k] < items@.len(),
            j <= out@.len(),
            forall|k: int| 0 <= k < j ==> !sort_lt(ty, items@, x, #[trigger] out@[k]),
        decreases out@.len() - j,
    {
        if lt_exec(items, ty, x, out[j]) {
            return j;
        }
        j = j + 1;
    }
    j
}

proof fn lemma_insert_multiset(s: Seq<(usize, int)>, j: int, x: (usize, int))
    requires
        0 <= j <= s.len(),
    ensures
        s.insert(j, x).to_multiset() == s.to_multiset().insert(x),
{
    broadcast use vstd::seq_lib::group_to_multiset_ensures;
    broadcast use vstd::multiset::group_multiset_axioms;

    assert(s.insert(j, x) =~= s.take(j).push(x) + s.skip(j));
    lemma_multiset_commutative(s.take(j).push(x), s.skip(j));
    assert(s.take(j).push(x).to_multiset() =~= s.take(j).to_multiset().insert(x));
    assert(s.take(j) + s.skip(j) =~= s);
    lemma_multiset_commutative(s.take(j), s.skip(j));
    assert(s.take(j).to_multiset().insert(x).add(s.skip(j).to_multiset()) =~= s.take(
        j,
    ).to_multiset().add(s.skip(j).to_multiset()).insert(x));
    assert(s.insert(j, x).to_multiset() =~= s.to_multiset().insert(x));
}

/// Stable insertion sort over projection indices; the result is exactly the
/// stable sort of the input.
pub fn sort_indices(items: &Vec<ObjectItem>, ty: ObjectListSortType, v: &Vec<usize>) -> (r: Vec<
    usize,
>)
    requires
        forall|k: int| 0 <= k < v@.len() ==> v@[k] < items@.len(),
    ensures
        r@ == stable_sort_spec(ty, items@, v@),
{
    broadcast use vstd::seq_lib::group_to_multiset_ensures;

    let ghost leq = pair_leq_fn(ty, items@);
    proof {
        lemma_pair_total_ordering(ty, items@);
        lemma_sort_lt_props(ty, items@);
    }
    let mut out: Vec<usize> = Vec::new();
    let ghost mut pairs: Seq<(usize, int)> = Seq::empty();
    let mut i: usize = 0;
    proof {
        assert(annotate(v@.take(0)) =~= pairs);
    }
    while i < v.len()
        invariant
            forall|k: int| 0 <= k < v@.len() ==> v@[k] < items@.len(),
            leq == pair_leq_fn(ty, items@),
            total_ordering(leq),
            forall|a: usize, b: usize|
                !(#[trigger] sort_lt(ty, items@, a, b) && sort_lt(ty, items@, b, a)),
            forall|a: usize, b: usize, c: usize|
                #[trigger] sort_lt(ty, items@, a, b) && #[trigger] sort_lt(ty, items@, b, c)
                    ==> sort_lt(ty, items@, a, c),
            forall|a: usize, b: usize, c: usize|
                #[trigger] sort_lt(ty, items@, a, b) && #[trigger] sort_eq(ty, items@, b, c)
                    ==> sort_lt(ty, items@, a, c),
            i <= v@.len(),
            out@.len() == i,
            pairs.len() == i,
            forall|k: int| 0 <= k < i ==> (#[trigger] pairs[k]).0 == out@[k],
            forall|k: int| 0 <= k < i ==> 0 <= (#[trigger] pairs[k]).1 < i,
            forall|k: int| 0 <= k < i ==> #[trigger] out@[k] < items@.len(),
            pairs.to_multiset() == annotate(v@.take(i as int)).to_multiset(),
            sorted_by(pairs, leq),
        decreases v@.len() - i,
    {
        let x = v[i];
        let j = insert_pos(items, ty, &out, x);
        out.insert(j, x);
        proof {
            let newp = (x, i as int);
            let old_pairs = pairs;
            pairs = pairs.insert(j as int, newp);
            old_pairs.insert_ensures(j as int, newp);
            out@.insert_ensures(j as int, x);
            assert forall|p: int, q: int| 0 <= p < q < pairs.len() implies #[trigger] leq(
                pairs[p],
                pairs[q],
            ) by {
                if q < j {
                    assert(leq(old_pairs[p], old_pairs[q]));
                } else if p > j {
                    assert(leq(old_pairs[p - 1], old_pairs[q - 1]));
                } else if p < j && q > j {
                    assert(leq(old_pairs[p], old_pairs[q - 1]));
                } else if q == j {
                    // entries before the insertion point do not come after the new one
                    assert(pairs[p] == old_pairs[p]);
                    assert(!sort_lt(ty, items@, x, old_pairs[p].0));
                    if !sort_lt(ty, items@, old_pairs[p].0, x) {
                        assert(sort_eq(ty, items@, old_pairs[p].0, x));
                        assert(old_pairs[p].1 < i as int);
                    }
                } else {
                    // p == j: the new entry comes before the rest
                    assert(pairs[q] == old_pairs[q - 1]);
                    assert(sort_lt(ty, items@, x, old_pairs[j as int].0));
                    if q - 1 > j as int - 1 && q - 1 >= j as int && q - 1 < old_pairs.len() {
                        if q - 1 == j as int {
                        } else {
                            assert(leq(old_pairs[j as int], old_pairs[q - 1]));
                            if sort_lt(ty, items@, old_pairs[j as int].0, old_pairs[q - 1].0) {
                            } else {
                                assert(sort_eq(ty, items@, old_pairs[j as int].0, old_pairs[q
                                    - 1].0));
                            }
                        }
                    }
                    assert(sort_lt(ty, items@, x, old_pairs[q - 1].0));
                }
            }
            lemma_insert_multiset(old_pairs, j as int, newp);
            assert(annotate(v@.take(i + 1)) =~= annotate(v@.take(i as int)).push(newp));
            vstd::seq_lib::to_multiset_build(annotate(v@.take(i as int)), newp);
            assert(annotate(v@.take(i as int)).push(newp).to_multiset() =~= annotate(
                v@.take(i as int),
            ).to_multiset().insert(newp));
            assert(annotate(v@.take(i + 1)).to_multiset() == pairs.to_multiset());
        }
        i = i + 1;
    }
    proof {
        assert(v@.take(v@.len() as int) =~= v@);
        lemma_pair_total_ordering(ty, items@);
        annotate(v@).lemma_sort_by_ensures(leq);
        lemma_sorted_unique(pairs, annotate(v@).sort_by(leq), leq);
        assert(pairs =~= annotate(v@).sort_by(leq));
        assert(out@ =~= pairs.map_values(|p: (usize, int)| p.0));
    }
    out
}

} // verus!
