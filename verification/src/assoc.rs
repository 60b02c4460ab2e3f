//! String-keyed association lists standing in for the hash maps of the
//! application: a `Vec<(String, V)>` read as a map in which a later entry
//! for a key wins over an earlier one.
use vstd::prelude::*;

use crate::text::{chars_of, eq_chars};

verus! {

/// The map an association list denotes, each value seen through `f`.
pub open spec fn assoc_view<V, W>(s: Seq<(String, V)>, f: spec_fn(V) -> W) -> Map<Seq<char>, W>
    decreases s.len(),
{
    if s.len() == 0 {
        Map::empty()
    } else {
        assoc_view(s.drop_last(), f).insert(s.last().0@, f(s.last().1))
    }
}

/// Index of the last entry with key `k`, searching below `n`.
pub open spec fn last_index<V>(s: Seq<(String, V)>, k: Seq<char>, n: int) -> Option<int>
    decreases n,
{
    if n <= 0 || n > s.len() {
        None
    } else if s[n - 1].0@ == k {
        Some(n - 1)
    } else {
        last_index(s, k, n - 1)
    }
}

pub proof fn lemma_assoc_absent<V, W>(s: Seq<(String, V)>, k: Seq<char>, f: spec_fn(V) -> W)
    requires
        forall|j: int| 0 <= j < s.len() ==> s[j].0@ != k,
    ensures
        !assoc_view(s, f).contains_key(k),
    decreases s.len(),
{
    if s.len() > 0 {
        lemma_assoc_absent(s.drop_last(), k, f);
    }
}

pub proof fn lemma_assoc_last<V, W>(s: Seq<(String, V)>, k: Seq<char>, i: int, f: spec_fn(V) -> W)
    requires
        0 <= i < s.len(),
        s[i].0@ == k,
        forall|j: int| i < j < s.len() ==> s[j].0@ != k,
    ensures
        assoc_view(s, f).contains_key(k),
        assoc_view(s, f)[k] == f(s[i].1),
    decreases s.len(),
{
    if i < s.len() - 1 {
        lemma_assoc_last(s.drop_last(), k, i, f);
    }
}

pub proof fn lemma_assoc_update<V, W>(
    s: Seq<(String, V)>,
    i: int,
    k: String,
    v: V,
    f: spec_fn(V) -> W,
)
    requires
        0 <= i < s.len(),
        s[i].0@ == k@,
        forall|j: int| i < j < s.len() ==> s[j].0@ != k@,
    ensures
        assoc_view(s.update(i, (k, v)), f) == assoc_view(s, f).insert(k@, f(v)),
    decreases s.len(),
{
    let t = s.update(i, (k, v));
    if i == s.len() - 1 {
        assert(t.drop_last() =~= s.drop_last());
        assert(assoc_view(t, f) =~= assoc_view(s, f).insert(k@, f(v)));
    } else {
        lemma_assoc_update(s.drop_last(), i, k, v, f);
        assert(t.drop_last() =~= s.drop_last().update(i, (k, v)));
        assert(assoc_view(t, f) =~= assoc_view(s, f).insert(k@, f(v)));
    }
}

fn key_eq(a: &String, b: &String) -> (r: bool)
    ensures
        r == (a@ == b@),
{
    let av = chars_of(a.as_str());
    let bv = chars_of(b.as_str());
    eq_chars(&av, &bv)
}

/// Index of the last entry whose key is `k`.
pub fn assoc_find<V>(s: &Vec<(String, V)>, k: &String) -> (r: Option<usize>)
    ensures
        r matches Some(i) ==> i < s.len() && s@[i as int].0@ == k@ && (forall|j: int|
            i < j < s.len() ==> s@[j].0@ != k@),
        r is None ==> (forall|j: int| 0 <= j < s.len() ==> s@[j].0@ != k@),
{
    let mut n: usize = s.len();
    while n > 0
        invariant
            n <= s.len(),
            forall|j: int| n <= j < s.len() ==> s@[j].0@ != k@,
        decreases n,
    {
        if key_eq(&s[n - 1].0, k) {
            return Some(n - 1);
        }
        n -= 1;
    }
    None
}

/// Set the value of key `k` (replacing the last entry for `k`, or adding one).
pub fn assoc_insert<V, W>(s: &mut Vec<(String, V)>, k: String, v: V, Ghost(f): Ghost<spec_fn(V) -> W>)
    ensures
        assoc_view(final(s)@, f) == assoc_view(old(s)@, f).insert(k@, f(v)),
{
    match assoc_find(s, &k) {
        Some(i) => {
            proof {
                lemma_assoc_update(s@, i as int, k, v, f);
            }
            s.set(i, (k, v));
        },
        None => {
            let ghost old_s = s@;
            s.push((k, v));
            assert(s@.drop_last() =~= old_s);
        },
    }
}

} // verus!
