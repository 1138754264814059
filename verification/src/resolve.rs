//! Finding an entity by its full ID or by a unique prefix of it.
//!
//! Every command that takes an ID accepts either the full ID or any prefix
//! that matches exactly one candidate. An exact match always wins; otherwise
//! the candidates whose ID starts with the query are collected in order, and
//! the lookup succeeds when there is exactly one.

use vstd::prelude::*;
use crate::text::{decimal, is_prefix, push_str, push_u64, starts_with, str_eq};

verus! {

/// An entity with an ID.
pub trait Keyed {
    spec fn key(&self) -> Seq<char>;

    fn key_str(&self) -> (r: &str)
        ensures
            r@ == self.key(),
    ;
}

/// The IDs of a sequence of entities.
pub open spec fn keys_of<T: Keyed>(xs: Seq<T>) -> Seq<Seq<char>> {
    xs.map_values(|x: T| x.key())
}

/// The first candidate (below `n`) that is live and whose ID equals `q`.
pub open spec fn first_exact(ids: Seq<Seq<char>>, live: Seq<bool>, q: Seq<char>, n: int) -> Option<int>
    decreases n,
{
    if n <= 0 {
        None
    } else {
        match first_exact(ids, live, q, n - 1) {
            Some(i) => Some(i),
            None => if live[n - 1] && ids[n - 1] == q {
                Some(n - 1)
            } else {
                None
            },
        }
    }
}

/// The live candidates (below `n`, in order) whose ID starts with `q`.
pub open spec fn prefix_hits_upto(ids: Seq<Seq<char>>, live: Seq<bool>, q: Seq<char>, n: int) -> Seq<int>
    decreases n,
{
    if n <= 0 {
        Seq::empty()
    } else {
        let m = prefix_hits_upto(ids, live, q, n - 1);
        if live[n - 1] && is_prefix(q, ids[n - 1]) {
            m.push(n - 1)
        } else {
            m
        }
    }
}

/// All live candidates whose ID starts with `q`, in order.
pub open spec fn prefix_hits(ids: Seq<Seq<char>>, live: Seq<bool>, q: Seq<char>) -> Seq<int> {
    prefix_hits_upto(ids, live, q, ids.len() as int)
}

/// The candidate a lookup resolves to: the first exact match, else the only prefix match.
pub open spec fn resolved(ids: Seq<Seq<char>>, live: Seq<bool>, q: Seq<char>) -> Option<int> {
    match first_exact(ids, live, q, ids.len() as int) {
        Some(i) => Some(i),
        None => if prefix_hits(ids, live, q).len() == 1 {
            Some(prefix_hits(ids, live, q)[0])
        } else {
            None
        },
    }
}

/// Outcome of a lookup.
pub enum Lookup {
    /// The index of the candidate found.
    Found(usize),
    /// No live candidate matches.
    NotFound,
    /// Several live candidates start with the query (their indices, in order).
    Ambiguous(Vec<usize>),
}

/// `r` is the outcome of looking `q` up among `ids`.
pub open spec fn lookup_outcome(ids: Seq<Seq<char>>, live: Seq<bool>, q: Seq<char>, r: Lookup) -> bool {
    match resolved(ids, live, q) {
        Some(i) => r == Lookup::Found(i as usize),
        None => if prefix_hits(ids, live, q).len() == 0 {
            r == Lookup::NotFound
        } else {
            &&& r is Ambiguous
            &&& r->Ambiguous_0@.len() == prefix_hits(ids, live, q).len()
            &&& forall|k: int|
                0 <= k < r->Ambiguous_0@.len() ==> r->Ambiguous_0@[k] as int == #[trigger] prefix_hits(
                    ids,
                    live,
                    q,
                )[k]
        },
    }
}

/// Every prefix hit lies below `n` and is a live prefix match.
pub proof fn lemma_prefix_hits_upto(ids: Seq<Seq<char>>, live: Seq<bool>, q: Seq<char>, n: int)
    requires
        0 <= n <= ids.len(),
        ids.len() == live.len(),
    ensures
        forall|k: int|
            0 <= k < prefix_hits_upto(ids, live, q, n).len() ==> {
                let i = #[trigger] prefix_hits_upto(ids, live, q, n)[k];
                &&& 0 <= i < n
                &&& live[i]
                &&& is_prefix(q, ids[i])
            },
        prefix_hits_upto(ids, live, q, n).len() <= n,
    decreases n,
{
    if n > 0 {
        lemma_prefix_hits_upto(ids, live, q, n - 1);
    }
}

/// An exact match is a prefix match.
pub proof fn lemma_first_exact(ids: Seq<Seq<char>>, live: Seq<bool>, q: Seq<char>, n: int)
    requires
        0 <= n <= ids.len(),
        ids.len() == live.len(),
    ensures
        first_exact(ids, live, q, n) matches Some(i) ==> 0 <= i < n && live[i] && ids[i] == q,
        first_exact(ids, live, q, n) is None ==> forall|i: int|
            0 <= i < n ==> !(live[i] && #[trigger] ids[i] == q),
    decreases n,
{
    if n > 0 {
        lemma_first_exact(ids, live, q, n - 1);
    }
}

/// Looks `q` up among the candidate IDs.
pub fn lookup(ids: &Vec<&str>, live: &Vec<bool>, q: &str) -> (r: Lookup)
    requires
        ids.len() == live.len(),
    ensures
        lookup_outcome(ids@.map_values(|s: &str| s@), live@, q@, r),
{
    let ghost keys = ids@.map_values(|s: &str| s@);
    let n = ids.len();
    let mut i: usize = 0;
    while i < n
        invariant
            n == ids.len(),
            n == live.len(),
            keys == ids@.map_values(|s: &str| s@),
            i <= n,
            first_exact(keys, live@, q@, i as int) is None,
        decreases n - i,
    {
        if live[i] && str_eq(ids[i], q) {
            assert(first_exact(keys, live@, q@, i + 1) == Some(i as int));
            proof {
                lemma_first_exact_stays(keys, live@, q@, i + 1, n as int);
            }
            return Lookup::Found(i);
        }
        i = i + 1;
    }
    let mut hits: Vec<usize> = Vec::new();
    let mut j: usize = 0;
    while j < n
        invariant
            n == ids.len(),
            n == live.len(),
            keys == ids@.map_values(|s: &str| s@),
            j <= n,
            first_exact(keys, live@, q@, n as int) is None,
            hits@.len() == prefix_hits_upto(keys, live@, q@, j as int).len(),
            forall|k: int|
                0 <= k < hits@.len() ==> hits@[k] as int == #[trigger] prefix_hits_upto(
                    keys,
                    live@,
                    q@,
                    j as int,
                )[k],
        decreases n - j,
    {
        if live[j] && starts_with(ids[j], q) {
            hits.push(j);
        }
        j = j + 1;
    }
    if hits.len() == 0 {
        Lookup::NotFound
    } else if hits.len() == 1 {
        Lookup::Found(hits[0])
    } else {
        Lookup::Ambiguous(hits)
    }
}

/// A lookup finds a live candidate whose ID starts with the query; where a
/// live ID equals the query, the first such is found, whatever other IDs
/// start with it; and nothing is found without a live prefix match.
pub proof fn law_lookup_finds_match(ids: Seq<Seq<char>>, live: Seq<bool>, q: Seq<char>)
    requires
        ids.len() == live.len(),
    ensures
        resolved(ids, live, q) matches Some(i) ==> 0 <= i < ids.len() && live[i] && is_prefix(q, ids[i]),
        (exists|i: int| 0 <= i < ids.len() && live[i] && #[trigger] ids[i] == q) ==> (resolved(ids, live, q) matches Some(
            j,
        ) && ids[j] == q && forall|i: int| 0 <= i < j ==> !(live[i] && #[trigger] ids[i] == q)),
        prefix_hits(ids, live, q).len() == 0 ==> resolved(ids, live, q) is None,
{
    let n = ids.len() as int;
    lemma_first_exact(ids, live, q, n);
    lemma_prefix_hits_upto(ids, live, q, n);
    match first_exact(ids, live, q, n) {
        Some(i) => {
            assert(q.take(q.len() as int) =~= q);
            lemma_first_exact_prefix(ids, live, q, n);
            lemma_hit_counted(ids, live, q, i, n);
        },
        None => {
            if prefix_hits(ids, live, q).len() == 1 {
                let i = prefix_hits(ids, live, q)[0];
                assert(live[i] && is_prefix(q, ids[i]));
            }
        },
    }
}

proof fn lemma_hit_counted(ids: Seq<Seq<char>>, live: Seq<bool>, q: Seq<char>, i: int, n: int)
    requires
        0 <= i < n <= ids.len(),
        live[i],
        is_prefix(q, ids[i]),
    ensures
        prefix_hits_upto(ids, live, q, n).len() > 0,
    decreases n,
{
    if n - 1 > i {
        lemma_hit_counted(ids, live, q, i, n - 1);
    }
}

proof fn lemma_first_exact_prefix(ids: Seq<Seq<char>>, live: Seq<bool>, q: Seq<char>, n: int)
    requires
        0 <= n <= ids.len(),
        ids.len() == live.len(),
    ensures
        first_exact(ids, live, q, n) matches Some(j) ==> forall|i: int| 0 <= i < j ==> !(live[i] && #[trigger] ids[i] == q),
    decreases n,
{
    if n > 0 {
        lemma_first_exact_prefix(ids, live, q, n - 1);
        lemma_first_exact(ids, live, q, n - 1);
    }
}

/// Once found, the first exact match stays the first.
pub proof fn lemma_first_exact_stays(ids: Seq<Seq<char>>, live: Seq<bool>, q: Seq<char>, m: int, n: int)
    requires
        0 <= m <= n,
        first_exact(ids, live, q, m) is Some,
    ensures
        first_exact(ids, live, q, n) == first_exact(ids, live, q, m),
    decreases n - m,
{
    if m < n {
        lemma_first_exact_stays(ids, live, q, m, n - 1);
    }
}

/// Lines of a listing, each on its own line indented by two spaces.
pub open spec fn listing(lines: Seq<Seq<char>>) -> Seq<char>
    decreases lines.len(),
{
    if lines.len() == 0 {
        Seq::empty()
    } else {
        listing(lines.drop_last()) + "\n  "@ + lines.last()
    }
}

/// The tail that counts the matches that were not listed.
pub open spec fn more_note(total: nat, shown: nat) -> Seq<char> {
    if total > shown {
        "\n  ... and "@ + decimal((total - shown) as nat) + " more"@
    } else {
        Seq::empty()
    }
}

/// The message for a prefix that matches several entities.
pub open spec fn ambiguous_message(
    kind: Seq<char>,
    plural: Seq<char>,
    q: Seq<char>,
    lines: Seq<Seq<char>>,
    total: nat,
) -> Seq<char> {
    "Ambiguous "@ + kind + " ID \""@ + q + "\"\n\nMultiple "@ + plural + " match this prefix:"@
        + listing(lines) + more_note(total, lines.len()) + "\n\nPlease use a longer prefix."@
}

/// Appends the listing of `lines`.
pub fn push_listing(out: &mut String, lines: &Vec<String>)
    ensures
        final(out)@ == old(out)@ + listing(lines@.map_values(|s: String| s@)),
{
    let ghost ls = lines@.map_values(|s: String| s@);
    let mut i: usize = 0;
    while i < lines.len()
        invariant
            ls == lines@.map_values(|s: String| s@),
            i <= lines.len(),
            out@ == old(out)@ + listing(ls.take(i as int)),
        decreases lines.len() - i,
    {
        push_str(out, "\n  ");
        push_str(out, lines[i].as_str());
        assert(ls.take(i + 1).drop_last() =~= ls.take(i as int));
        assert(out@ =~= old(out)@ + listing(ls.take(i + 1)));
        i = i + 1;
    }
    assert(ls.take(lines.len() as int) =~= ls);
}

/// Builds the message for a prefix that matches several entities.
pub fn ambiguous_message_text(kind: &str, plural: &str, q: &str, lines: &Vec<String>, total: usize) -> (r:
    String)
    ensures
        r@ == ambiguous_message(kind@, plural@, q@, lines@.map_values(|s: String| s@), total as nat),
{
    let mut r = String::new();
    push_str(&mut r, "Ambiguous ");
    push_str(&mut r, kind);
    push_str(&mut r, " ID \"");
    push_str(&mut r, q);
    push_str(&mut r, "\"\n\nMultiple ");
    push_str(&mut r, plural);
    push_str(&mut r, " match this prefix:");
    push_listing(&mut r, lines);
    let ghost before_more = r@;
    if total > lines.len() {
        push_str(&mut r, "\n  ... and ");
        push_u64(&mut r, (total - lines.len()) as u64);
        push_str(&mut r, " more");
    }
    assert(r@ =~= before_more + more_note(total as nat, lines@.len()));
    push_str(&mut r, "\n\nPlease use a longer prefix.");
    let ghost ls = lines@.map_values(|s: String| s@);
    assert(ls.len() == lines@.len());
    assert(r@ =~= ambiguous_message(kind@, plural@, q@, ls, total as nat));
    r
}

/// The IDs of the entities, as string slices.
pub fn ids_of<T: Keyed>(xs: &Vec<T>) -> (r: Vec<&str>)
    ensures
        r@.map_values(|s: &str| s@) == keys_of(xs@),
{
    let mut r: Vec<&str> = Vec::new();
    let mut i: usize = 0;
    while i < xs.len()
        invariant
            i <= xs.len(),
            r@.len() == i,
            forall|k: int| 0 <= k < i ==> (#[trigger] r@[k])@ == xs@[k].key(),
        decreases xs.len() - i,
    {
        r.push(xs[i].key_str());
        i = i + 1;
    }
    assert(r@.map_values(|s: &str| s@) =~= keys_of(xs@));
    r
}

} // verus!

verus! {

/// The first index (below `n`) whose element satisfies `p`.
pub open spec fn first_where<T>(xs: Seq<T>, p: spec_fn(T) -> bool, n: int) -> Option<int>
    decreases n,
{
    if n <= 0 {
        None
    } else {
        match first_where(xs, p, n - 1) {
            Some(i) => Some(i),
            None => if p(xs[n - 1]) {
                Some(n - 1)
            } else {
                None
            },
        }
    }
}

/// The first element of `xs` that satisfies `p`.
pub open spec fn find_first<T>(xs: Seq<T>, p: spec_fn(T) -> bool) -> Option<T> {
    match first_where(xs, p, xs.len() as int) {
        Some(i) => Some(xs[i]),
        None => None,
    }
}

/// The first match lies in range and satisfies `p`; none before it does.
pub proof fn lemma_first_where<T>(xs: Seq<T>, p: spec_fn(T) -> bool, n: int)
    requires
        n <= xs.len(),
    ensures
        first_where(xs, p, n) matches Some(i) ==> 0 <= i < n && p(xs[i]) && forall|j: int|
            0 <= j < i ==> !p(#[trigger] xs[j]),
        first_where(xs, p, n) is None ==> forall|j: int| 0 <= j < n ==> !p(#[trigger] xs[j]),
    decreases n,
{
    if n > 0 {
        lemma_first_where(xs, p, n - 1);
    }
}

/// Extending the range past a match keeps it.
pub proof fn lemma_first_where_stays<T>(xs: Seq<T>, p: spec_fn(T) -> bool, m: int, n: int)
    requires
        m <= n,
        first_where(xs, p, m) is Some,
    ensures
        first_where(xs, p, n) == first_where(xs, p, m),
    decreases n - m,
{
    if m < n {
        lemma_first_where_stays(xs, p, m, n - 1);
    }
}

} // verus!

verus! {

/// The characters of string slices.
pub open spec fn str_views(ids: Seq<&str>) -> Seq<Seq<char>> {
    ids.map_values(|s: &str| s@)
}

/// The first live candidate whose ID equals `q`.
pub fn exact_index(ids: &Vec<&str>, live: &Vec<bool>, q: &str) -> (r: Option<usize>)
    requires
        ids.len() == live.len(),
    ensures
        match first_exact(str_views(ids@), live@, q@, ids.len() as int) {
            Some(i) => r == Some(i as usize),
            None => r is None,
        },
{
    let ghost keys = ids@.map_values(|s: &str| s@);
    let n = ids.len();
    let mut i: usize = 0;
    while i < n
        invariant
            n == ids.len(),
            n == live.len(),
            keys == ids@.map_values(|s: &str| s@),
            i <= n,
            first_exact(keys, live@, q@, i as int) is None,
        decreases n - i,
    {
        if live[i] && str_eq(ids[i], q) {
            assert(first_exact(keys, live@, q@, i + 1) == Some(i as int));
            proof {
                lemma_first_exact_stays(keys, live@, q@, i + 1, n as int);
            }
            return Some(i);
        }
        i = i + 1;
    }
    None
}

/// The live candidates whose ID starts with `q`, in order.
pub fn prefix_hit_list(ids: &Vec<&str>, live: &Vec<bool>, q: &str) -> (hits: Vec<usize>)
    requires
        ids.len() == live.len(),
    ensures
        hits@.len() == prefix_hits(str_views(ids@), live@, q@).len(),
        forall|k: int| 0 <= k < hits@.len() ==> hits@[k] as int == #[trigger] prefix_hits(str_views(ids@), live@, q@)[k],
{
    let ghost keys = ids@.map_values(|s: &str| s@);
    let n = ids.len();
    let mut hits: Vec<usize> = Vec::new();
    let mut j: usize = 0;
    while j < n
        invariant
            n == ids.len(),
            n == live.len(),
            keys == ids@.map_values(|s: &str| s@),
            j <= n,
            hits@.len() == prefix_hits_upto(keys, live@, q@, j as int).len(),
            forall|k: int|
                0 <= k < hits@.len() ==> hits@[k] as int == #[trigger] prefix_hits_upto(keys, live@, q@, j as int)[k],
        decreases n - j,
    {
        if live[j] && starts_with(ids[j], q) {
            hits.push(j);
        }
        j = j + 1;
    }
    hits
}

} // verus!
