//! Comparisons of sequences that tests of the service use.

use vstd::prelude::*;
use vstd::laws_eq::obeys_concrete_eq;

verus! {

broadcast use vstd::seq_lib::group_to_multiset_ensures;

/// How many items of `s` equal `x`.
fn count<T: PartialEq>(s: &[T], x: &T) -> (r: usize)
    requires
        obeys_concrete_eq::<T>(),
    ensures
        r == s@.to_multiset().count(*x),
{
    proof {
        reveal(obeys_concrete_eq);
    }
    let mut n: usize = 0;
    let mut i: usize = 0;
    while i < s.len()
        invariant
            obeys_concrete_eq::<T>(),
            i <= s@.len(),
            n == s@.subrange(0, i as int).to_multiset().count(*x),
            n <= i,
        decreases s@.len() - i,
    {
        proof {
            reveal(obeys_concrete_eq);
            assert(s@.subrange(0, i + 1) =~= s@.subrange(0, i as int).push(s@[i as int]));
        }
        if s[i] == *x {
            n = n + 1;
        }
        i = i + 1;
    }
    assert(s@.subrange(0, s@.len() as int) =~= s@);
    n
}

/// Whether every item of `s` occurs as often in `a` as in `b`.
fn counts_agree<T: PartialEq>(s: &[T], a: &[T], b: &[T]) -> (r: bool)
    requires
        obeys_concrete_eq::<T>(),
    ensures
        r == (forall|k: int| 0 <= k < s@.len() ==> a@.to_multiset().count(#[trigger] s@[k]) == b@.to_multiset().count(s@[k])),
{
    let mut i: usize = 0;
    while i < s.len()
        invariant
            obeys_concrete_eq::<T>(),
            i <= s@.len(),
            forall|k: int| 0 <= k < i ==> a@.to_multiset().count(#[trigger] s@[k]) == b@.to_multiset().count(s@[k]),
        decreases s@.len() - i,
    {
        if count(a, &s[i]) != count(b, &s[i]) {
            return false;
        }
        i = i + 1;
    }
    true
}

/// Whether the two slices hold the same items, each as often, in any order.
pub fn eq<T: PartialEq>(a: &[T], b: &[T]) -> (r: bool)
    requires
        obeys_concrete_eq::<T>(),
    ensures
        r == (a@.to_multiset() == b@.to_multiset()),
{
    let r = counts_agree(a, a, b) && counts_agree(b, a, b);
    proof {
        if r {
            assert forall|x: T| a@.to_multiset().count(x) == b@.to_multiset().count(x) by {
                if a@.contains(x) {
                    let k = choose|k: int| 0 <= k < a@.len() && a@[k] == x;
                    assert(a@.to_multiset().count(a@[k]) == b@.to_multiset().count(a@[k]));
                } else if b@.contains(x) {
                    let k = choose|k: int| 0 <= k < b@.len() && b@[k] == x;
                    assert(a@.to_multiset().count(b@[k]) == b@.to_multiset().count(b@[k]));
                }
            }
            assert(a@.to_multiset() =~= b@.to_multiset());
        } else if a@.to_multiset() == b@.to_multiset() {
            assert(false);
        }
    }
    r
}

/// Whether the two vectors hold the same items in the same order.
pub fn vecs_match<T: PartialEq>(a: &Vec<T>, b: &Vec<T>) -> (r: bool)
    requires
        obeys_concrete_eq::<T>(),
    ensures
        r == (a@ == b@),
{
    proof {
        reveal(obeys_concrete_eq);
    }
    if a.len() != b.len() {
        return false;
    }
    let mut i: usize = 0;
    while i < a.len()
        invariant
            obeys_concrete_eq::<T>(),
            a@.len() == b@.len(),
            i <= a@.len(),
            forall|k: int| 0 <= k < i ==> a@[k] == b@[k],
        decreases a@.len() - i,
    {
        proof {
            reveal(obeys_concrete_eq);
        }
        if a[i] != b[i] {
            return false;
        }
        i = i + 1;
    }
    assert(a@ =~= b@);
    true
}

} // verus!
