//! What holds of the search, whatever the keys are.
//!
//! Every lemma is stated over the spec functions of [`crate::nearest`],
//! which are what the contracts of the executable functions speak of: it
//! carries over to every value that those functions return.

use vstd::prelude::*;
use crate::nearest::{
    first_least, is_distance_key, is_first_least, nearest_key_of, nearest_keys_of, ZERO_KEY,
};

verus! {

/// Among candidates there is a nearest one, and a first among the nearest:
/// [`first_least`] is the one position that [`is_first_least`] describes.
pub proof fn lemma_first_least(keys: Seq<u64>)
    requires
        keys.len() > 0,
    ensures
        is_first_least(keys, first_least(keys)),
        forall|i: int| is_first_least(keys, i) ==> i == first_least(keys),
    decreases keys.len(),
{
    if keys.len() == 1 {
        assert(is_first_least(keys, 0));
    } else {
        let front = keys.drop_last();
        lemma_first_least(front);
        let before = first_least(front);
        let last = keys.len() - 1;
        assert forall|j: int| 0 <= j < last implies front[before] <= keys[j] by {
            assert(front[j] == keys[j]);
        }
        assert forall|j: int| 0 <= j < before implies front[before] < keys[j] by {
            assert(front[j] == keys[j]);
        }
        if keys[last] < front[before] {
            assert(is_first_least(keys, last));
        } else {
            assert(is_first_least(keys, before));
        }
    }
    let found = first_least(keys);
    assert forall|i: int| is_first_least(keys, i) implies i == found by {
        if i < found {
            assert(keys[found] < keys[i]);
        } else if found < i {
            assert(keys[i] < keys[found]);
        }
    }
}

/// The nearest key of a query point with candidates is the key of one of
/// them, and no candidate has a smaller one.
pub proof fn lemma_nearest_key_is_least(keys: Seq<u64>)
    requires
        keys.len() > 0,
    ensures
        keys.contains(nearest_key_of(keys)),
        forall|j: int| 0 <= j < keys.len() ==> nearest_key_of(keys) <= keys[j],
{
    lemma_first_least(keys);
}

/// The order of the reference points does not matter to a query point:
/// sequences that hold the same keys, each as many times, have the same
/// nearest key.
pub proof fn lemma_nearest_key_ignores_order(a: Seq<u64>, b: Seq<u64>)
    requires
        a.to_multiset() == b.to_multiset(),
    ensures
        nearest_key_of(a) == nearest_key_of(b),
{
    a.to_multiset_ensures();
    b.to_multiset_ensures();
    if a.len() > 0 {
        lemma_nearest_key_is_least(a);
        lemma_nearest_key_is_least(b);
        let in_a = nearest_key_of(a);
        let in_b = nearest_key_of(b);
        assert(b.contains(in_a)) by {
            assert(a.to_multiset().count(in_a) > 0);
        }
        assert(a.contains(in_b)) by {
            assert(b.to_multiset().count(in_b) > 0);
        }
        let at_b = choose|j: int| 0 <= j < b.len() && b[j] == in_a;
        let at_a = choose|j: int| 0 <= j < a.len() && a[j] == in_b;
        assert(in_b <= b[at_b]);
        assert(in_a <= a[at_a]);
    }
}

/// The order of the reference points does not matter to the result: where
/// the reference points are put in another order, the keys in every row are
/// rearranged, and the nearest key of every query point stays what it was.
pub proof fn lemma_nearest_keys_ignore_order(a: Seq<Seq<u64>>, b: Seq<Seq<u64>>)
    requires
        a.len() == b.len(),
        forall|i: int| 0 <= i < a.len() ==> (#[trigger] a[i]).to_multiset() == b[i].to_multiset(),
    ensures
        nearest_keys_of(a) == nearest_keys_of(b),
{
    assert forall|i: int| 0 <= i < a.len() implies nearest_key_of(a[i]) == nearest_key_of(b[i]) by {
        lemma_nearest_key_ignores_order(a[i], b[i]);
    }
    assert(nearest_keys_of(a) =~= nearest_keys_of(b));
}

/// A query point that lies on a reference point has the nearest key zero,
/// wherever the other reference points are.
pub proof fn lemma_zero_key_is_nearest(keys: Seq<u64>)
    requires
        keys.contains(ZERO_KEY),
    ensures
        nearest_key_of(keys) == ZERO_KEY,
{
    lemma_nearest_key_is_least(keys);
    let at = choose|j: int| 0 <= j < keys.len() && keys[j] == ZERO_KEY;
    assert(nearest_key_of(keys) <= keys[at]);
}

/// Where every query point lies on some reference point, every nearest key
/// is zero.
pub proof fn lemma_all_on_reference_points(rows: Seq<Seq<u64>>)
    requires
        forall|i: int| 0 <= i < rows.len() ==> (#[trigger] rows[i]).contains(ZERO_KEY),
    ensures
        nearest_keys_of(rows) == Seq::new(rows.len(), |i: int| ZERO_KEY),
{
    assert forall|i: int| 0 <= i < rows.len() implies nearest_key_of(rows[i]) == ZERO_KEY by {
        lemma_zero_key_is_nearest(rows[i]);
    }
    assert(nearest_keys_of(rows) =~= Seq::new(rows.len(), |i: int| ZERO_KEY));
}

/// Without reference points every query point gets the key zero: its row is
/// empty, and the search falls back to [`ZERO_KEY`].
pub proof fn lemma_no_reference_points(rows: Seq<Seq<u64>>)
    requires
        forall|i: int| 0 <= i < rows.len() ==> (#[trigger] rows[i]).len() == 0,
    ensures
        nearest_keys_of(rows) == Seq::new(rows.len(), |i: int| ZERO_KEY),
{
    assert(nearest_keys_of(rows) =~= Seq::new(rows.len(), |i: int| ZERO_KEY));
}

/// The result is a function of the keys alone: rows that hold the same keys
/// at the same places have the same nearest keys.
pub proof fn lemma_same_keys_same_result(a: Seq<Seq<u64>>, b: Seq<Seq<u64>>)
    requires
        a.len() == b.len(),
        forall|i: int| 0 <= i < a.len() ==> (#[trigger] a[i]).len() == b[i].len(),
        forall|i: int, j: int| 0 <= i < a.len() && 0 <= j < a[i].len() ==> a[i][j] == b[i][j],
    ensures
        nearest_keys_of(a) == nearest_keys_of(b),
{
    assert(a =~~= b);
}

/// The query points are searched independently of each other: the query set
/// can be cut in two, each part searched by itself, and the results put
/// together again in the parts' order.
pub proof fn lemma_nearest_keys_of_parts(a: Seq<Seq<u64>>, b: Seq<Seq<u64>>)
    ensures
        nearest_keys_of(a + b) == nearest_keys_of(a) + nearest_keys_of(b),
{
    assert(nearest_keys_of(a + b) =~= nearest_keys_of(a) + nearest_keys_of(b));
}

/// A value that is not a distance is never preferred to one that is: where
/// some candidate's key stands for a distance, so does the nearest key.
pub proof fn lemma_distance_is_preferred(keys: Seq<u64>)
    requires
        exists|j: int| 0 <= j < keys.len() && is_distance_key(#[trigger] keys[j]),
    ensures
        is_distance_key(nearest_key_of(keys)),
{
    lemma_nearest_key_is_least(keys);
    let at = choose|j: int| 0 <= j < keys.len() && is_distance_key(#[trigger] keys[j]);
    assert(nearest_key_of(keys) <= keys[at]);
}

} // verus!
