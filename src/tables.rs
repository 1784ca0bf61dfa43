//! The entries of a pair of policy tables, as read from the kernel, and the
//! writes that installing a policy makes to them.
use vstd::prelude::*;
use crate::engine::entry;

verus! {

/// What a table holds after its entries `s` were read in order.
pub open spec fn table_view<V>(s: Seq<(u64, V)>) -> Map<u64, V>
    decreases s.len(),
{
    if s.len() == 0 {
        Map::empty()
    } else {
        table_view(s.drop_last()).insert(s.last().0, s.last().1)
    }
}

/// No key occurs twice, as in the entries of a hash table.
pub open spec fn unique_keys<V>(s: Seq<(u64, V)>) -> bool {
    forall|i: int, j: int| 0 <= i < j < s.len() ==> #[trigger] s[i].0 != #[trigger] s[j].0
}

proof fn lemma_table_view<V>(s: Seq<(u64, V)>, k: u64)
    requires
        unique_keys(s),
    ensures
        table_view(s).dom().contains(k) ==> exists|i: int| 0 <= i < s.len() && s[i].0 == k,
        forall|i: int|
            0 <= i < s.len() && #[trigger] s[i].0 == k ==> table_view(s).dom().contains(k)
                && table_view(s)[k] == s[i].1,
    decreases s.len(),
{
    if s.len() > 0 {
        let t = s.drop_last();
        assert(unique_keys(t));
        lemma_table_view(t, k);
        if table_view(s).dom().contains(k) && s.last().0 != k {
            let i = choose|i: int| 0 <= i < t.len() && t[i].0 == k;
            assert(s[i].0 == k);
        }
        if exists|i: int| 0 <= i < s.len() && s[i].0 == k {
            let i = choose|i: int| 0 <= i < s.len() && s[i].0 == k;
            if i < s.len() - 1 {
                assert(t[i].0 == k);
            }
        }
        assert forall|i: int| 0 <= i < s.len() && #[trigger] s[i].0 == k implies table_view(
            s,
        ).dom().contains(k) && table_view(s)[k] == s[i].1 by {
            if i < s.len() - 1 {
                assert(t[i] == s[i]);
                assert(s[s.len() - 1].0 != k);
            }
        }
    }
}

/// The entry of key `k` among `s`.
pub fn find<V: Copy>(s: &Vec<(u64, V)>, k: u64) -> (r: Option<V>)
    requires
        unique_keys(s@),
    ensures
        r == entry(table_view(s@), k),
{
    let mut i: usize = 0;
    while i < s.len()
        invariant
            0 <= i <= s@.len(),
            unique_keys(s@),
            forall|j: int| 0 <= j < i ==> s@[j].0 != k,
        decreases s@.len() - i,
    {
        if s[i].0 == k {
            proof {
                lemma_table_view(s@, k);
                assert(s@[i as int].0 == k);
            }
            return Some(s[i].1);
        }
        i = i + 1;
    }
    proof {
        lemma_table_view(s@, k);
    }
    None
}

/// No element occurs twice.
pub open spec fn distinct(s: Seq<u64>) -> bool {
    forall|i: int, j: int| 0 <= i < j < s.len() ==> #[trigger] s[i] != #[trigger] s[j]
}

/// The keys of the entries `s`, in order.
pub fn keys<V: Copy>(s: &Vec<(u64, V)>) -> (r: Vec<u64>)
    ensures
        r@.len() == s@.len(),
        forall|i: int| 0 <= i < s@.len() ==> r@[i] == #[trigger] s@[i].0,
{
    let mut r: Vec<u64> = Vec::new();
    let mut i: usize = 0;
    while i < s.len()
        invariant
            0 <= i <= s@.len(),
            r@.len() == i,
            forall|j: int| 0 <= j < i ==> r@[j] == #[trigger] s@[j].0,
        decreases s@.len() - i,
    {
        r.push(s[i].0);
        i = i + 1;
    }
    r
}

/// The elements of `a`, then those of `b` that `a` lacks.
pub fn union_keys(a: &Vec<u64>, b: &Vec<u64>) -> (r: Vec<u64>)
    requires
        distinct(a@),
        distinct(b@),
    ensures
        distinct(r@),
        forall|k: u64| r@.contains(k) <==> a@.contains(k) || b@.contains(k),
{
    let mut r: Vec<u64> = a.clone();
    let n: usize = a.len();
    let mut i: usize = 0;
    while i < b.len()
        invariant
            0 <= i <= b@.len(),
            n == a@.len(),
            distinct(b@),
            distinct(r@),
            n <= r@.len(),
            forall|j: int| 0 <= j < n ==> r@[j] == a@[j],
            forall|k: u64| r@.contains(k) <==> a@.contains(k) || b@.take(i as int).contains(k),
        decreases b@.len() - i,
    {
        let k = b[i];
        let mut found = false;
        let mut j: usize = 0;
        while j < r.len()
            invariant
                0 <= j <= r@.len(),
                found ==> r@.contains(k),
                !found ==> forall|m: int| 0 <= m < j ==> r@[m] != k,
            decreases r@.len() - j,
        {
            if r[j] == k {
                found = true;
            }
            j = j + 1;
        }
        let ghost before = r@;
        if !found {
            r.push(k);
            assert forall|m1: int, m2: int| 0 <= m1 < m2 < r@.len() implies #[trigger] r@[m1]
                != #[trigger] r@[m2] by {
                if m2 == r@.len() - 1 {
                    assert(before[m1] == r@[m1]);
                } else {
                    assert(before[m1] == r@[m1] && before[m2] == r@[m2]);
                }
            }
        }
        assert(b@.take(i + 1) =~= b@.take(i as int).push(k));
        assert forall|x: u64| r@.contains(x) <==> a@.contains(x) || b@.take(i + 1).contains(x) by {
            let t = b@.take(i as int);
            let t1 = b@.take(i + 1);
            assert(before.contains(x) <==> a@.contains(x) || t.contains(x));
            assert(found ==> r@ == before && before.contains(k));
            assert(!found ==> r@ == before.push(k));
            assert(t1[i as int] == k);
            if t.contains(x) {
                let m = choose|m: int| 0 <= m < t.len() && t[m] == x;
                assert(t1[m] == x);
            }
            if t1.contains(x) {
                let m = choose|m: int| 0 <= m < t1.len() && t1[m] == x;
                if m < i {
                    assert(t[m] == x);
                } else {
                    assert(x == k);
                }
            }
            if r@.contains(x) {
                let m = choose|m: int| 0 <= m < r@.len() && r@[m] == x;
                if m < before.len() {
                    assert(before[m] == x);
                    assert(before.contains(x));
                } else {
                    assert(x == k);
                }
            }
            if before.contains(x) {
                let m = choose|m: int| 0 <= m < before.len() && before[m] == x;
                assert(r@[m] == x);
            }
            if x == k {
                if !found {
                    assert(r@[r@.len() - 1] == k);
                }
            }
        }
        i = i + 1;
    }
    assert(b@.take(b@.len() as int) =~= b@);
    r
}

/// `r` holds, once each, every key of either table, with its entry in each.
pub open spec fn paired<V>(a: Map<u64, V>, d: Map<u64, V>, r: Seq<(u64, Option<V>, Option<V>)>) -> bool {
    &&& forall|i: int|
        0 <= i < r.len() ==> (a.dom().contains(#[trigger] r[i].0) || d.dom().contains(r[i].0))
            && r[i].1 == entry(a, r[i].0) && r[i].2 == entry(d, r[i].0)
    &&& forall|k: u64|
        a.dom().contains(k) || d.dom().contains(k) ==> exists|i: int|
            0 <= i < r.len() && #[trigger] r[i].0 == k
    &&& forall|i: int, j: int| 0 <= i < j < r.len() ==> #[trigger] r[i].0 != #[trigger] r[j].0
}

pub proof fn lemma_keys_distinct<V>(s: Seq<(u64, V)>, ks: Seq<u64>)
    requires
        unique_keys(s),
        ks.len() == s.len(),
        forall|i: int| 0 <= i < s.len() ==> ks[i] == #[trigger] s[i].0,
    ensures
        distinct(ks),
        forall|k: u64| ks.contains(k) <==> table_view(s).dom().contains(k),
{
    assert forall|i: int, j: int| 0 <= i < j < ks.len() implies #[trigger] ks[i] != #[trigger] ks[j] by {
        assert(s[i].0 != s[j].0);
    }
    assert forall|k: u64| ks.contains(k) <==> table_view(s).dom().contains(k) by {
        lemma_table_view(s, k);
        if ks.contains(k) {
            let i = choose|i: int| 0 <= i < ks.len() && ks[i] == k;
            assert(s[i].0 == k);
        }
        if table_view(s).dom().contains(k) {
            let i = choose|i: int| 0 <= i < s.len() && s[i].0 == k;
            assert(ks[i] == k);
        }
    }
}

/// Pairs the entries of an ALLOWED and a DENIED table by key: the keys of
/// the first in order, then the keys found only in the second.
pub fn pair_entries<V: Copy>(allowed: &Vec<(u64, V)>, denied: &Vec<(u64, V)>) -> (r: Vec<
    (u64, Option<V>, Option<V>),
>)
    requires
        unique_keys(allowed@),
        unique_keys(denied@),
    ensures
        paired(table_view(allowed@), table_view(denied@), r@),
{
    let ka = keys(allowed);
    let kd = keys(denied);
    proof {
        lemma_keys_distinct(allowed@, ka@);
        lemma_keys_distinct(denied@, kd@);
    }
    let all = union_keys(&ka, &kd);
    let ghost a = table_view(allowed@);
    let ghost d = table_view(denied@);
    let mut r: Vec<(u64, Option<V>, Option<V>)> = Vec::new();
    let mut i: usize = 0;
    while i < all.len()
        invariant
            0 <= i <= all@.len(),
            unique_keys(allowed@),
            unique_keys(denied@),
            a == table_view(allowed@),
            d == table_view(denied@),
            r@.len() == i,
            forall|j: int|
                0 <= j < i ==> #[trigger] r@[j].0 == all@[j] && r@[j].1 == entry(a, r@[j].0)
                    && r@[j].2 == entry(d, r@[j].0),
        decreases all@.len() - i,
    {
        let k = all[i];
        r.push((k, find(allowed, k), find(denied, k)));
        i = i + 1;
    }
    assert forall|k: u64| a.dom().contains(k) || d.dom().contains(k) implies exists|j: int|
        0 <= j < r@.len() && #[trigger] r@[j].0 == k by {
        assert(all@.contains(k));
        let j = choose|j: int| 0 <= j < all@.len() && all@[j] == k;
        assert(r@[j].0 == k);
    }
    assert forall|j1: int, j2: int| 0 <= j1 < j2 < r@.len() implies #[trigger] r@[j1].0
        != #[trigger] r@[j2].0 by {
        assert(r@[j1].0 == all@[j1] && r@[j2].0 == all@[j2]);
    }
    assert forall|j: int| 0 <= j < r@.len() implies a.dom().contains(#[trigger] r@[j].0)
        || d.dom().contains(r@[j].0) by {
        assert(r@[j].0 == all@[j]);
        assert(all@.contains(all@[j]));
    }
    r
}

} // verus!
