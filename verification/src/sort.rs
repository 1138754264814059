//! Stable sorting by a key.
//!
//! The commands sort with `sort_by` and `sort_by_key`, which are stable:
//! elements with equal keys keep their order. Every key they use fits a
//! `SortKey`: a group, then a text compared as Rust compares `&str`, then
//! a number. `stable_order` returns the unique permutation that sorts the
//! keys stably.

use vstd::prelude::*;

verus! {

/// A sort key: compared by `group`, then `text`, then `num`.
#[derive(Debug, Clone)]
pub struct SortKey {
    pub group: u8,
    pub text: Vec<char>,
    pub num: i64,
}

/// Lexicographic order of texts by code point (the order of `str::cmp`).
pub open spec fn text_lt(a: Seq<char>, b: Seq<char>) -> bool
    decreases a.len(),
{
    if a.len() == 0 {
        b.len() > 0
    } else if b.len() == 0 {
        false
    } else if a[0] != b[0] {
        (a[0] as u32) < (b[0] as u32)
    } else {
        text_lt(a.drop_first(), b.drop_first())
    }
}

/// A key as a value: group, text, number.
pub type KeyView = (u8, Seq<char>, i64);

impl SortKey {
    pub open spec fn kv(self) -> KeyView {
        (self.group, self.text@, self.num)
    }
}

/// The views of a sequence of keys.
pub open spec fn key_views(keys: Seq<SortKey>) -> Seq<KeyView> {
    keys.map_values(|k: SortKey| k.kv())
}

/// Strict order of keys.
pub open spec fn key_lt(a: KeyView, b: KeyView) -> bool {
    a.0 < b.0 || (a.0 == b.0 && (text_lt(a.1, b.1) || (a.1 == b.1 && a.2 < b.2)))
}

/// Equal keys.
pub open spec fn key_eq(a: KeyView, b: KeyView) -> bool {
    a.0 == b.0 && a.1 == b.1 && a.2 == b.2
}

/// Element `i` comes before element `j` in the stable order of `keys`.
pub open spec fn before(keys: Seq<KeyView>, i: int, j: int) -> bool {
    key_lt(keys[i], keys[j]) || (key_eq(keys[i], keys[j]) && i < j)
}

/// `perm` lists the indices of `keys` once each, in stable sorted order.
pub open spec fn is_stable_order(keys: Seq<KeyView>, perm: Seq<int>) -> bool {
    &&& perm.len() == keys.len()
    &&& forall|k: int| 0 <= k < perm.len() ==> 0 <= #[trigger] perm[k] < keys.len()
    &&& forall|a: int, b: int| 0 <= a < b < perm.len() ==> before(keys, #[trigger] perm[a], #[trigger] perm[b])
}

/// The indices as integers.
pub open spec fn as_ints(v: Seq<usize>) -> Seq<int> {
    v.map_values(|x: usize| x as int)
}

proof fn lemma_text_lt_irrefl(a: Seq<char>)
    ensures
        !text_lt(a, a),
    decreases a.len(),
{
    if a.len() > 0 {
        lemma_text_lt_irrefl(a.drop_first());
    }
}

proof fn lemma_text_lt_trans(a: Seq<char>, b: Seq<char>, c: Seq<char>)
    requires
        text_lt(a, b),
        text_lt(b, c),
    ensures
        text_lt(a, c),
    decreases a.len(),
{
    if a.len() > 0 && b.len() > 0 && c.len() > 0 {
        if a[0] == b[0] && b[0] == c[0] {
            lemma_text_lt_trans(a.drop_first(), b.drop_first(), c.drop_first());
        }
    }
}

proof fn lemma_text_lt_total(a: Seq<char>, b: Seq<char>)
    ensures
        text_lt(a, b) || text_lt(b, a) || a == b,
    decreases a.len(),
{
    if a.len() > 0 && b.len() > 0 {
        if a[0] == b[0] {
            lemma_text_lt_total(a.drop_first(), b.drop_first());
            if a.drop_first() == b.drop_first() {
                assert(a =~= seq![a[0]] + a.drop_first());
                assert(b =~= seq![b[0]] + b.drop_first());
            }
        } else {
            vstd::utf8::char_u32_cast(a[0], a[0] as u32);
            vstd::utf8::char_u32_cast(b[0], b[0] as u32);
        }
    } else if a.len() == 0 && b.len() == 0 {
        assert(a =~= b);
    }
}

proof fn lemma_text_lt_asym(a: Seq<char>, b: Seq<char>)
    requires
        text_lt(a, b),
    ensures
        !text_lt(b, a),
{
    if text_lt(b, a) {
        lemma_text_lt_trans(a, b, a);
        lemma_text_lt_irrefl(a);
    }
}

/// `before` is a strict total order on distinct indices.
pub proof fn lemma_before_order(keys: Seq<KeyView>)
    ensures
        forall|i: int| !before(keys, i, i),
        forall|i: int, j: int| i != j ==> (before(keys, i, j) || before(keys, j, i)),
        forall|i: int, j: int| #[trigger] before(keys, i, j) ==> !before(keys, j, i),
        forall|i: int, j: int, k: int|
            #[trigger] before(keys, i, j) && #[trigger] before(keys, j, k) ==> before(keys, i, k),
{
    assert forall|i: int| !before(keys, i, i) by {
        lemma_text_lt_irrefl(keys[i].1);
    }
    assert forall|i: int, j: int| i != j implies (before(keys, i, j) || before(keys, j, i)) by {
        lemma_text_lt_total(keys[i].1, keys[j].1);
    }
    assert forall|i: int, j: int| #[trigger] before(keys, i, j) implies !before(keys, j, i) by {
        if text_lt(keys[i].1, keys[j].1) {
            lemma_text_lt_asym(keys[i].1, keys[j].1);
        }
        if text_lt(keys[j].1, keys[i].1) {
            lemma_text_lt_asym(keys[j].1, keys[i].1);
        }
        lemma_text_lt_irrefl(keys[i].1);
    }
    assert forall|i: int, j: int, k: int|
        #[trigger] before(keys, i, j) && #[trigger] before(keys, j, k) implies before(keys, i, k) by {
        let (a, b, c) = (keys[i].1, keys[j].1, keys[k].1);
        if text_lt(a, b) && text_lt(b, c) {
            lemma_text_lt_trans(a, b, c);
        }
    }
}

/// Exec comparison of texts.
pub fn text_less(a: &Vec<char>, b: &Vec<char>) -> (r: bool)
    ensures
        r == text_lt(a@, b@),
{
    let mut i: usize = 0;
    assert(a@.skip(0) =~= a@);
    assert(b@.skip(0) =~= b@);
    while i < a.len() && i < b.len()
        invariant
            i <= a.len(),
            i <= b.len(),
            forall|k: int| 0 <= k < i ==> a@[k] == b@[k],
            text_lt(a@, b@) == text_lt(a@.skip(i as int), b@.skip(i as int)),
        decreases a.len() - i,
    {
        let ghost (sa, sb) = (a@.skip(i as int), b@.skip(i as int));
        assert(sa[0] == a@[i as int] && sb[0] == b@[i as int]);
        if a[i] != b[i] {
            return (a[i] as u32) < (b[i] as u32);
        }
        assert(sa.drop_first() =~= a@.skip(i + 1));
        assert(sb.drop_first() =~= b@.skip(i + 1));
        i = i + 1;
    }
    i < b.len() && i == a.len()
}

/// Exec comparison of keys.
pub fn key_less(a: &SortKey, b: &SortKey) -> (r: bool)
    ensures
        r == key_lt(a.kv(), b.kv()),
{
    if a.group != b.group {
        return a.group < b.group;
    }
    if text_less(&a.text, &b.text) {
        return true;
    }
    if text_less(&b.text, &a.text) {
        return false;
    }
    proof {
        lemma_text_lt_total(a.text@, b.text@);
    }
    a.num < b.num
}

/// The stable sorting permutation of the keys.
pub fn stable_order(keys: &Vec<SortKey>) -> (perm: Vec<usize>)
    ensures
        is_stable_order(key_views(keys@), as_ints(perm@)),
{
    let ghost kvs = key_views(keys@);
    proof {
        lemma_before_order(kvs);
    }
    let n = keys.len();
    let mut perm: Vec<usize> = Vec::new();
    let mut i: usize = 0;
    while i < n
        invariant
            n == keys.len(),
            kvs == key_views(keys@),
            i <= n,
            perm@.len() == i,
            forall|k: int| 0 <= k < perm@.len() ==> (#[trigger] perm@[k]) < i,
            forall|a: int, b: int|
                0 <= a < b < perm@.len() ==> before(kvs, #[trigger] perm@[a] as int, #[trigger] perm@[b] as int),
            forall|i: int| !before(kvs, i, i),
            forall|i: int, j: int| i != j ==> (before(kvs, i, j) || before(kvs, j, i)),
            forall|i: int, j: int| #[trigger] before(kvs, i, j) ==> !before(kvs, j, i),
            forall|i: int, j: int, k: int|
                #[trigger] before(kvs, i, j) && #[trigger] before(kvs, j, k) ==> before(kvs, i, k),
        decreases n - i,
    {
        let mut j: usize = perm.len();
        while j > 0 && key_less(&keys[i], &keys[perm[j - 1]])
            invariant
                n == keys.len(),
                kvs == key_views(keys@),
                i < n,
                j <= perm@.len(),
                perm@.len() == i,
                forall|k: int| 0 <= k < perm@.len() ==> (#[trigger] perm@[k]) < i,
                forall|k: int| j <= k < perm@.len() ==> before(kvs, i as int, #[trigger] perm@[k] as int),
            decreases j,
        {
            assert(before(kvs, i as int, perm@[j - 1] as int));
            j = j - 1;
        }
        proof {
            if j > 0 {
                let p = perm@[j - 1] as int;
                assert(!key_lt(kvs[i as int], kvs[p]));
                assert(p != i);
                assert(before(kvs, p, i as int));
            }
        }
        let ghost old_perm = perm@;
        perm.insert(j, i);
        assert forall|k: int| 0 <= k < perm@.len() implies (#[trigger] perm@[k]) < i + 1 by {
            if k < j {
                assert(perm@[k] == old_perm[k]);
            } else if k > j {
                assert(perm@[k] == old_perm[k - 1]);
            }
        }
        assert forall|a: int, b: int| 0 <= a < b < perm@.len() implies before(
            kvs,
            #[trigger] perm@[a] as int,
            #[trigger] perm@[b] as int,
        ) by {
            if j > 0 {
                let p = old_perm[j - 1] as int;
                assert(before(kvs, p, i as int));
                if a < j && b > j {
                    if a < j - 1 {
                        assert(before(kvs, old_perm[a] as int, p));
                    }
                }
            }
            if a < j && b == j as int {
                if a < j - 1 {
                    assert(before(kvs, old_perm[a] as int, old_perm[j - 1] as int));
                }
            }
            if a == j as int && b > j {
                assert(perm@[b] == old_perm[b - 1]);
            }
            if a > j {
                assert(perm@[a] == old_perm[a - 1]);
                assert(perm@[b] == old_perm[b - 1]);
            }
            if a < j && b > j {
                assert(perm@[a] == old_perm[a]);
                assert(perm@[b] == old_perm[b - 1]);
            }
            if b < j {
                assert(perm@[a] == old_perm[a]);
                assert(perm@[b] == old_perm[b]);
            }
        }
        i = i + 1;
    }
    assert forall|a: int, b: int| 0 <= a < b < as_ints(perm@).len() implies before(
        kvs,
        #[trigger] as_ints(perm@)[a],
        #[trigger] as_ints(perm@)[b],
    ) by {
        assert(before(kvs, perm@[a] as int, perm@[b] as int));
    }
    perm
}

} // verus!
