//! The search for the nearest reference point.
//!
//! # Keys
//!
//! The search compares distances and does no arithmetic on them, so it takes
//! each distance as a *key*: a `u64` such that a smaller distance has a
//! smaller key and equal distances have equal keys. The bit pattern of a
//! non-negative IEEE 754 double is such a key. In that encoding
//!
//! * the distance zero has the key [`ZERO_KEY`];
//! * the infinite distance has the key [`INFINITY_KEY`], the largest key
//!   that stands for a distance;
//! * every larger `u64` is the pattern of a value that is not a distance
//!   (not a number, or negative).
//!
//! Keys are compared as unsigned integers, so the order is total. A pattern
//! that is not a distance is greater than every pattern that is one; it is
//! selected only when all the candidates are of that sort
//! ([`crate::lemmas::lemma_distance_is_preferred`]).
//!
//! # Without reference points
//!
//! A query point that has no candidate at all gets the key [`ZERO_KEY`], as
//! if it lay on a reference point. This is a defined result and not an
//! error, so an empty reference set passes for a perfect match: a caller for
//! whom that would hide missing data has to test for it.

use vstd::prelude::*;
use crate::lemmas::lemma_first_least;

verus! {

/// The key of the distance zero, and the key of a query point without
/// candidates.
pub const ZERO_KEY: u64 = 0;

/// The key of the infinite distance.
pub const INFINITY_KEY: u64 = 0x7FF0_0000_0000_0000;

/// A key that stands for a distance: zero, a positive number or infinity.
pub open spec fn is_distance_key(key: u64) -> bool {
    key <= INFINITY_KEY
}

/// `i` is the position of the nearest candidate: no key is smaller than
/// `keys[i]`, and every key before it is greater.
pub open spec fn is_first_least(keys: Seq<u64>, i: int) -> bool {
    &&& 0 <= i < keys.len()
    &&& forall|j: int| 0 <= j < keys.len() ==> keys[i] <= keys[j]
    &&& forall|j: int| 0 <= j < i ==> keys[i] < keys[j]
}

/// The position of the nearest candidate among `keys`, the first one where
/// several are equally near. A non-empty sequence has exactly one such
/// position ([`crate::lemmas::lemma_first_least`]); of an empty one nothing
/// is said.
pub open spec fn first_least(keys: Seq<u64>) -> int {
    choose|i: int| is_first_least(keys, i)
}

/// The key of the nearest candidate among `keys`; [`ZERO_KEY`] where there is
/// no candidate.
pub open spec fn nearest_key_of(keys: Seq<u64>) -> u64 {
    if keys.len() == 0 {
        ZERO_KEY
    } else {
        keys[first_least(keys)]
    }
}

/// The key of the nearest candidate for every query point: `rows[i]` holds
/// the keys of the distances from query point `i` to the reference points.
pub open spec fn nearest_keys_of(rows: Seq<Seq<u64>>) -> Seq<u64> {
    Seq::new(rows.len(), |i: int| nearest_key_of(rows[i]))
}

/// Finds the nearest candidate: the position of the least of `keys`, and the
/// first such position where several keys are the least. `None` exactly when
/// there is no candidate.
pub fn nearest_index(keys: &[u64]) -> (found: Option<usize>)
    ensures
        found is None <==> keys@.len() == 0,
        found matches Some(i) ==> is_first_least(keys@, i as int) && i == first_least(keys@),
{
    let n = keys.len();
    if n == 0 {
        return None;
    }
    let mut best: usize = 0;
    let mut i: usize = 1;
    while i < n
        invariant
            n == keys@.len(),
            1 <= i <= n,
            is_first_least(keys@.take(i as int), best as int),
        decreases n - i,
    {
        if keys[i] < keys[best] {
            best = i;
        }
        i += 1;
    }
    proof {
        assert(keys@.take(n as int) =~= keys@);
        lemma_first_least(keys@);
    }
    Some(best)
}

/// The key of the nearest candidate: the least of `keys`, or [`ZERO_KEY`]
/// where `keys` is empty.
pub fn nearest_key(keys: &[u64]) -> (key: u64)
    ensures
        key == nearest_key_of(keys@),
        keys@.len() == 0 ==> key == ZERO_KEY,
        keys@.len() > 0 ==> keys@.contains(key),
        forall|j: int| 0 <= j < keys@.len() ==> key <= keys@[j],
{
    match nearest_index(keys) {
        Some(i) => keys[i],
        None => ZERO_KEY,
    }
}

/// The nested search: for every query point the key of its nearest reference
/// point. `rows[i]` holds the keys of the distances from query point `i` to
/// each reference point; the result has one key for each row, in the rows'
/// order.
pub fn nearest_keys(rows: &[Vec<u64>]) -> (out: Vec<u64>)
    ensures
        out@ == nearest_keys_of(rows.deep_view()),
        out@.len() == rows@.len(),
        forall|i: int| 0 <= i < rows@.len() ==> out@[i] == nearest_key_of(#[trigger] rows@[i]@),
{
    let n = rows.len();
    let mut out: Vec<u64> = Vec::with_capacity(n);
    let mut i: usize = 0;
    while i < n
        invariant
            n == rows@.len(),
            i <= n,
            out@.len() == i,
            forall|q: int| 0 <= q < i ==> out@[q] == nearest_key_of(#[trigger] rows@[q]@),
        decreases n - i,
    {
        let key = nearest_key(rows[i].as_slice());
        out.push(key);
        i += 1;
    }
    proof {
        let deep = rows.deep_view();
        assert forall|q: int| 0 <= q < n implies deep[q] == rows@[q]@ by {
            assert(deep[q] =~= rows@[q]@);
        }
        assert(out@ =~= nearest_keys_of(deep));
    }
    out
}

} // verus!
