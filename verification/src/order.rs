//! Ordering items by distinct text keys.
use vstd::prelude::*;

use crate::text::{
    lemma_str_lt_asymmetric, lemma_str_lt_irreflexive, lemma_str_lt_total,
    lemma_str_lt_transitive, str_lt, views,
};

verus! {

/// No key occurs twice.
pub open spec fn keys_distinct(keys: Seq<Seq<char>>) -> bool {
    forall|i: int, j: int|
        0 <= i < keys.len() && 0 <= j < keys.len() && i != j ==> keys[i] != keys[j]
}

/// `o` lists every position of `keys` once, in increasing key order.
pub open spec fn is_key_order(keys: Seq<Seq<char>>, o: Seq<int>) -> bool {
    &&& o.len() == keys.len()
    &&& forall|i: int| 0 <= i < o.len() ==> 0 <= #[trigger] o[i] < keys.len()
    &&& forall|j: int| 0 <= j < keys.len() ==> #[trigger] o.contains(j)
    &&& forall|i: int, j: int|
        0 <= i < j < o.len() ==> str_lt(#[trigger] keys[o[i]], #[trigger] keys[o[j]])
}

/// The positions of `keys` in increasing key order.
pub open spec fn key_order(keys: Seq<Seq<char>>) -> Seq<int> {
    choose|o: Seq<int>| is_key_order(keys, o)
}

proof fn lemma_key_order_prefix_agree(keys: Seq<Seq<char>>, o1: Seq<int>, o2: Seq<int>, d: int)
    requires
        keys_distinct(keys),
        is_key_order(keys, o1),
        is_key_order(keys, o2),
        0 <= d < o1.len(),
    ensures
        forall|k: int| 0 <= k <= d ==> o1[k] == o2[k],
    decreases d,
{
    if d > 0 {
        lemma_key_order_prefix_agree(keys, o1, o2, d - 1);
    }
    let a = o1[d];
    let b = o2[d];
    if a != b {
        assert(o2.contains(a));
        assert(o1.contains(b));
        let e = choose|e: int| 0 <= e < o2.len() && o2[e] == a;
        let f = choose|f: int| 0 <= f < o1.len() && o1[f] == b;
        lemma_str_lt_total(keys[a], keys[b]);
        lemma_str_lt_asymmetric(keys[a], keys[b]);
        lemma_str_lt_irreflexive(keys[a]);
        lemma_str_lt_irreflexive(keys[b]);
        if e < d {
            assert(o1[e] == a);
        }
        if f < d {
            assert(o2[f] == b);
        }
        if e > d {
            assert(str_lt(keys[o2[d]], keys[o2[e]]));
        }
        if f > d {
            assert(str_lt(keys[o1[d]], keys[o1[f]]));
        }
    }
}

/// Distinct keys have exactly one key order.
pub proof fn lemma_key_order_unique(keys: Seq<Seq<char>>, o1: Seq<int>, o2: Seq<int>)
    requires
        keys_distinct(keys),
        is_key_order(keys, o1),
        is_key_order(keys, o2),
    ensures
        o1 == o2,
{
    if o1.len() > 0 {
        lemma_key_order_prefix_agree(keys, o1, o2, o1.len() - 1);
    }
    assert(o1 =~= o2);
}

pub open spec fn as_ints(o: Seq<usize>) -> Seq<int> {
    o.map_values(|i: usize| i as int)
}

/// Positions of `keys` in increasing key order (insertion sort).
pub fn sort_by_keys(keys: &Vec<Vec<char>>) -> (r: Vec<usize>)
    requires
        keys_distinct(views(keys@)),
    ensures
        as_ints(r@) == key_order(views(keys@)),
        is_key_order(views(keys@), as_ints(r@)),
{
    let ghost p = views(keys@);
    let mut order: Vec<usize> = Vec::new();
    let mut k: usize = 0;
    while k < keys.len()
        invariant
            k <= keys.len(),
            p == views(keys@),
            keys_distinct(p),
            order.len() == k,
            forall|i: int| 0 <= i < order.len() ==> #[trigger] order@[i] < k,
            forall|j: int| 0 <= j < k ==> #[trigger] order@.contains(j as usize),
            forall|i: int, j: int|
                0 <= i < j < order.len() ==> str_lt(
                    #[trigger] p[order@[i] as int],
                    #[trigger] p[order@[j] as int],
                ),
        decreases keys.len() - k,
    {
        let mut pos: usize = 0;
        while pos < order.len()
            invariant
                pos <= order.len(),
                k < keys.len(),
                p == views(keys@),
                forall|i: int| 0 <= i < order.len() ==> #[trigger] order@[i] < k,
                forall|i: int| 0 <= i < pos ==> !str_lt(p[k as int], #[trigger] p[order@[i] as int]),
            ensures
                pos <= order.len(),
                pos < order.len() ==> str_lt(p[k as int], p[order@[pos as int] as int]),
                forall|i: int| 0 <= i < pos ==> !str_lt(p[k as int], #[trigger] p[order@[i] as int]),
            decreases order.len() - pos,
        {
            if crate::text::str_less_chars(&keys[k], &keys[order[pos]]) {
                break;
            }
            pos = pos + 1;
        }
        let ghost old_order = order@;
        proof {
            assert forall|i: int| 0 <= i < pos implies str_lt(
                #[trigger] p[old_order[i] as int],
                p[k as int],
            ) by {
                lemma_str_lt_total(p[old_order[i] as int], p[k as int]);
                assert(p[old_order[i] as int] != p[k as int]);
            }
            assert forall|i: int| pos <= i < old_order.len() implies str_lt(
                p[k as int],
                #[trigger] p[old_order[i] as int],
            ) by {
                if i > pos {
                    lemma_str_lt_transitive(
                        p[k as int],
                        p[old_order[pos as int] as int],
                        p[old_order[i] as int],
                    );
                }
            }
        }
        order.insert(pos, k);
        proof {
            let no = order@;
            assert(no == old_order.insert(pos as int, k));
            assert forall|i: int, j: int| 0 <= i < j < no.len() implies str_lt(
                #[trigger] p[no[i] as int],
                #[trigger] p[no[j] as int],
            ) by {
                if j < pos {
                    assert(no[i] == old_order[i] && no[j] == old_order[j]);
                } else if j == pos {
                    assert(no[i] == old_order[i]);
                } else if i < pos {
                    assert(no[j] == old_order[j - 1]);
                    assert(no[i] == old_order[i]);
                    lemma_str_lt_transitive(
                        p[old_order[i] as int],
                        p[k as int],
                        p[old_order[j - 1] as int],
                    );
                } else if i == pos {
                    assert(no[j] == old_order[j - 1]);
                } else {
                    assert(no[i] == old_order[i - 1] && no[j] == old_order[j - 1]);
                }
            }
            assert forall|j: int| 0 <= j < k + 1 implies #[trigger] no.contains(j as usize) by {
                if j == k {
                    assert(no[pos as int] == k);
                } else {
                    assert(old_order.contains(j as usize));
                    let i = choose|i: int| 0 <= i < old_order.len() && old_order[i] == j as usize;
                    if i < pos {
                        assert(no[i] == j as usize);
                    } else {
                        assert(no[i + 1] == j as usize);
                    }
                }
            }
            assert forall|i: int| 0 <= i < no.len() implies #[trigger] no[i] < k + 1 by {
                if i < pos {
                    assert(no[i] == old_order[i]);
                } else if i > pos {
                    assert(no[i] == old_order[i - 1]);
                }
            }
        }
        k = k + 1;
    }
    let ghost o = as_ints(order@);
    proof {
        assert forall|j: int| 0 <= j < p.len() implies #[trigger] o.contains(j) by {
            assert(order@.contains(j as usize));
            let i = choose|i: int| 0 <= i < order@.len() && order@[i] == j as usize;
            assert(o[i] == j);
        }
        assert forall|i: int, j: int| 0 <= i < j < o.len() implies str_lt(
            #[trigger] p[o[i]],
            #[trigger] p[o[j]],
        ) by {
            assert(o[i] == order@[i] as int && o[j] == order@[j] as int);
        }
        assert(is_key_order(p, o));
        lemma_key_order_unique(p, o, key_order(p));
    }
    order
}

/// No number occurs twice.
pub open spec fn nums_distinct(keys: Seq<u64>) -> bool {
    forall|i: int, j: int|
        0 <= i < keys.len() && 0 <= j < keys.len() && i != j ==> keys[i] != keys[j]
}

/// `o` lists every position of `keys` once, largest key first.
pub open spec fn is_desc_order(keys: Seq<u64>, o: Seq<int>) -> bool {
    &&& o.len() == keys.len()
    &&& forall|i: int| 0 <= i < o.len() ==> 0 <= #[trigger] o[i] < keys.len()
    &&& forall|j: int| 0 <= j < keys.len() ==> #[trigger] o.contains(j)
    &&& forall|i: int, j: int| 0 <= i < j < o.len() ==> #[trigger] keys[o[i]] > #[trigger] keys[o[j]]
}

/// The positions of `keys`, largest key first.
pub open spec fn desc_order(keys: Seq<u64>) -> Seq<int> {
    choose|o: Seq<int>| is_desc_order(keys, o)
}

proof fn lemma_desc_prefix_agree(keys: Seq<u64>, o1: Seq<int>, o2: Seq<int>, d: int)
    requires
        nums_distinct(keys),
        is_desc_order(keys, o1),
        is_desc_order(keys, o2),
        0 <= d < o1.len(),
    ensures
        forall|k: int| 0 <= k <= d ==> o1[k] == o2[k],
    decreases d,
{
    if d > 0 {
        lemma_desc_prefix_agree(keys, o1, o2, d - 1);
    }
    let a = o1[d];
    let b = o2[d];
    if a != b {
        assert(o2.contains(a));
        assert(o1.contains(b));
        let e = choose|e: int| 0 <= e < o2.len() && o2[e] == a;
        let f = choose|f: int| 0 <= f < o1.len() && o1[f] == b;
        if e < d {
            assert(o1[e] == a);
        }
        if f < d {
            assert(o2[f] == b);
        }
        if e > d {
            assert(keys[o2[d]] > keys[o2[e]]);
        }
        if f > d {
            assert(keys[o1[d]] > keys[o1[f]]);
        }
    }
}

/// Distinct numbers have exactly one descending order.
pub proof fn lemma_desc_order_unique(keys: Seq<u64>, o1: Seq<int>, o2: Seq<int>)
    requires
        nums_distinct(keys),
        is_desc_order(keys, o1),
        is_desc_order(keys, o2),
    ensures
        o1 == o2,
{
    if o1.len() > 0 {
        lemma_desc_prefix_agree(keys, o1, o2, o1.len() - 1);
    }
    assert(o1 =~= o2);
}

/// Positions of `keys`, largest key first (insertion sort).
pub fn sort_desc(keys: &Vec<u64>) -> (r: Vec<usize>)
    requires
        nums_distinct(keys@),
    ensures
        as_ints(r@) == desc_order(keys@),
        is_desc_order(keys@, as_ints(r@)),
{
    let ghost p = keys@;
    let mut order: Vec<usize> = Vec::new();
    let mut k: usize = 0;
    while k < keys.len()
        invariant
            k <= keys.len(),
            p == keys@,
            nums_distinct(p),
            order.len() == k,
            forall|i: int| 0 <= i < order.len() ==> #[trigger] order@[i] < k,
            forall|j: int| 0 <= j < k ==> #[trigger] order@.contains(j as usize),
            forall|i: int, j: int|
                0 <= i < j < order.len() ==> #[trigger] p[order@[i] as int] > #[trigger] p[order@[j] as int],
        decreases keys.len() - k,
    {
        let mut pos: usize = 0;
        while pos < order.len()
            invariant
                pos <= order.len(),
                k < keys.len(),
                p == keys@,
                forall|i: int| 0 <= i < order.len() ==> #[trigger] order@[i] < k,
                forall|i: int| 0 <= i < pos ==> !(p[k as int] > #[trigger] p[order@[i] as int]),
            ensures
                pos <= order.len(),
                pos < order.len() ==> p[k as int] > p[order@[pos as int] as int],
                forall|i: int| 0 <= i < pos ==> !(p[k as int] > #[trigger] p[order@[i] as int]),
            decreases order.len() - pos,
        {
            if keys[k] > keys[order[pos]] {
                break;
            }
            pos = pos + 1;
        }
        let ghost old_order = order@;
        proof {
            assert forall|i: int| 0 <= i < pos implies #[trigger] p[old_order[i] as int] > p[k as int] by {
                assert(p[old_order[i] as int] != p[k as int]);
            }
        }
        order.insert(pos, k);
        proof {
            let no = order@;
            assert(no == old_order.insert(pos as int, k));
            assert forall|i: int, j: int| 0 <= i < j < no.len() implies #[trigger] p[no[i] as int]
                > #[trigger] p[no[j] as int] by {
                if j < pos {
                    assert(no[i] == old_order[i] && no[j] == old_order[j]);
                } else if j == pos {
                    assert(no[i] == old_order[i]);
                } else if i < pos {
                    assert(no[j] == old_order[j - 1]);
                    assert(no[i] == old_order[i]);
                } else if i == pos {
                    assert(no[j] == old_order[j - 1]);
                    if j - 1 > pos {
                        assert(p[old_order[pos as int] as int] > p[old_order[j - 1] as int]);
                    }
                } else {
                    assert(no[i] == old_order[i - 1] && no[j] == old_order[j - 1]);
                }
            }
            assert forall|j: int| 0 <= j < k + 1 implies #[trigger] no.contains(j as usize) by {
                if j == k {
                    assert(no[pos as int] == k);
                } else {
                    assert(old_order.contains(j as usize));
                    let i = choose|i: int| 0 <= i < old_order.len() && old_order[i] == j as usize;
                    if i < pos {
                        assert(no[i] == j as usize);
                    } else {
                        assert(no[i + 1] == j as usize);
                    }
                }
            }
            assert forall|i: int| 0 <= i < no.len() implies #[trigger] no[i] < k + 1 by {
                if i < pos {
                    assert(no[i] == old_order[i]);
                } else if i > pos {
                    assert(no[i] == old_order[i - 1]);
                }
            }
        }
        k = k + 1;
    }
    let ghost o = as_ints(order@);
    proof {
        assert forall|j: int| 0 <= j < p.len() implies #[trigger] o.contains(j) by {
            assert(order@.contains(j as usize));
            let i = choose|i: int| 0 <= i < order@.len() && order@[i] == j as usize;
            assert(o[i] == j);
        }
        assert forall|i: int, j: int| 0 <= i < j < o.len() implies #[trigger] p[o[i]] > #[trigger] p[o[j]] by {
            assert(o[i] == order@[i] as int && o[j] == order@[j] as int);
        }
        assert(is_desc_order(p, o));
        lemma_desc_order_unique(p, o, desc_order(p));
    }
    order
}

} // verus!
