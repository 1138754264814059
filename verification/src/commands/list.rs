//! `td list`: which tasks it shows, in which order, and how many.

use vstd::prelude::*;
use crate::cli::SortField;
use crate::commands::{CommandError, Result};
use crate::commands::edit::{find_project_id, project_id_for};
use crate::commands::show::derefs;
use crate::dates::{CalDate, date_number, local_today};
use crate::model::{Cache, Item, Section};
use crate::resolve::{find_first, first_where, lemma_first_where_stays};
use crate::sort::{KeyView, SortKey, as_ints, before, is_stable_order, key_views, stable_order};
use crate::text::{chars_of, lowercase, str_eq, string_of, to_lower};

verus! {

/// Options for the list command.
#[derive(Debug)]
pub struct ListOptions {
    /// Filter expression.
    pub filter: Option<String>,
    /// Filter by project name or ID.
    pub project: Option<String>,
    /// Filter by label name.
    pub label: Option<String>,
    /// Filter by priority (1-4).
    pub priority: Option<u8>,
    /// Filter by section name.
    pub section: Option<String>,
    /// Show only overdue tasks.
    pub overdue: bool,
    /// Show only tasks without due date.
    pub no_due: bool,
    /// Limit results.
    pub limit: u32,
    /// Show all tasks (no limit).
    pub all: bool,
    /// Pagination cursor (not yet used).
    pub cursor: Option<String>,
    /// Sort field.
    pub sort: Option<SortField>,
    /// Reverse sort order.
    pub reverse: bool,
}

/// What the filter-expression engine made of `--filter`: the message of
/// its parse error, or for each task of the cache whether it matches.
#[derive(Debug)]
pub enum ExprVerdict {
    Invalid(String),
    Matches(Vec<bool>),
}

/// A section answers to `q` by its name (ignoring case) or its ID.
pub open spec fn section_named(s: Section, q: Seq<char>) -> bool {
    lowercase(s.name@) == lowercase(q) || s.id@ == q
}

/// The ID of the first section that answers to `q`.
pub open spec fn section_id_named(sections: Seq<Section>, q: Seq<char>) -> Option<Seq<char>> {
    match find_first(sections, |s: Section| section_named(s, q)) {
        Some(s) => Some(s.id@),
        None => None,
    }
}

/// The ID of the first section that answers to `q`.
pub fn find_section_named(sections: &Vec<Section>, q: &str) -> (r: Option<String>)
    ensures
        r matches Some(id) ==> section_id_named(sections@, q@) == Some(id@),
        r is None ==> section_id_named(sections@, q@) is None,
{
    let ghost p = |s: Section| section_named(s, q@);
    let ql = to_lower(q);
    let mut i: usize = 0;
    while i < sections.len()
        invariant
            i <= sections.len(),
            ql@ == lowercase(q@),
            p == (|s: Section| section_named(s, q@)),
            first_where(sections@, p, i as int) is None,
        decreases sections.len() - i,
    {
        let nl = to_lower(sections[i].name.as_str());
        if str_eq(nl.as_str(), ql.as_str()) || str_eq(sections[i].id.as_str(), q) {
            assert(first_where(sections@, p, i + 1) == Some(i as int));
            proof {
                lemma_first_where_stays(sections@, p, i + 1, sections@.len() as int);
            }
            return Some(sections[i].id.clone());
        }
        i = i + 1;
    }
    None
}

/// The task carries a label equal to `l`, ignoring case.
pub open spec fn has_label(item: Item, l: Seq<char>) -> bool {
    exists|j: int| 0 <= j < item.labels@.len() && lowercase(#[trigger] item.labels@[j]@) == lowercase(l)
}

/// The task is due on a date before day `today`.
pub open spec fn is_overdue(item: Item, today: int) -> bool {
    item.due matches Some(d) && (date_number(d.date@) matches Some(n) && n < today)
}

/// Whether task `k` of the cache passes every filter of `opts`, given the
/// matched project and section IDs.
pub open spec fn list_keep(
    item: Item,
    k: int,
    opts: ListOptions,
    verdict: Option<ExprVerdict>,
    pid: Option<Seq<char>>,
    sid: Option<Seq<char>>,
    today: int,
) -> bool {
    &&& !item.is_deleted && !item.checked
    &&& (opts.filter is Some ==> (verdict matches Some(ExprVerdict::Matches(m)) && m@[k]))
    &&& (pid matches Some(p) ==> item.project_id@ == p)
    &&& (opts.label matches Some(l) ==> has_label(item, l@))
    &&& (opts.priority matches Some(p) ==> item.priority == 5 - p)
    &&& (sid matches Some(s) ==> (item.section_id matches Some(x) && x@ == s))
    &&& (opts.overdue ==> is_overdue(item, today))
    &&& (opts.no_due ==> item.due is None)
}

/// The elements among the first `n` whose index and value satisfy `keep`, in order.
pub open spec fn kept<T>(items: Seq<T>, keep: spec_fn(int, T) -> bool, n: int) -> Seq<T>
    decreases n,
{
    if n <= 0 {
        Seq::empty()
    } else {
        let prev = kept(items, keep, n - 1);
        if keep(n - 1, items[n - 1]) {
            prev.push(items[n - 1])
        } else {
            prev
        }
    }
}

/// The project a `--project` option names, if it names one.
pub open spec fn list_project(cache: Cache, opts: ListOptions) -> Option<Seq<char>> {
    match opts.project {
        Some(q) => project_id_for(cache.projects@, q@),
        None => None,
    }
}

/// The section a `--section` option names, if it names one.
pub open spec fn list_section(cache: Cache, opts: ListOptions) -> Option<Seq<char>> {
    match opts.section {
        Some(q) => section_id_named(cache.sections@, q@),
        None => None,
    }
}

/// The tasks `td list` selects, before sorting: an invalid filter expression
/// is an error; a project or section that nothing answers to selects none.
pub open spec fn list_selection(cache: Cache, opts: ListOptions, verdict: Option<ExprVerdict>, today: int) -> core::result::Result<
    Seq<Item>,
    Seq<char>,
> {
    if opts.filter is Some && verdict matches Some(ExprVerdict::Invalid(_)) {
        Err(verdict->0->Invalid_0@)
    } else if opts.project is Some && list_project(cache, opts) is None {
        Ok(Seq::empty())
    } else if opts.section is Some && list_section(cache, opts) is None {
        Ok(Seq::empty())
    } else {
        let pid = list_project(cache, opts);
        let sid = list_section(cache, opts);
        Ok(
            kept(
                cache.items@,
                |k: int, i: Item| list_keep(i, k, opts, verdict, pid, sid, today),
                cache.items@.len() as int,
            ),
        )
    }
}

/// The task carries a label equal to `l`, ignoring case.
fn item_has_label(item: &Item, ll: &str, Ghost(l): Ghost<Seq<char>>) -> (r: bool)
    requires
        ll@ == lowercase(l),
    ensures
        r == has_label(*item, l),
{
    let mut j: usize = 0;
    while j < item.labels.len()
        invariant
            j <= item.labels@.len(),
            ll@ == lowercase(l),
            forall|k: int| 0 <= k < j ==> lowercase(#[trigger] item.labels@[k]@) != lowercase(l),
        decreases item.labels.len() - j,
    {
        let x = to_lower(item.labels[j].as_str());
        if str_eq(x.as_str(), ll) {
            return true;
        }
        j = j + 1;
    }
    false
}

/// Filters the tasks of the cache by the options; `verdict` is what the
/// filter-expression engine said of `--filter`, `today` the local date.
pub fn filter_items<'a>(cache: &'a Cache, opts: &ListOptions, verdict: &Option<ExprVerdict>, today: &CalDate) -> (r:
    Result<Vec<&'a Item>>)
    requires
        verdict matches Some(ExprVerdict::Matches(m)) ==> m.len() == cache.items.len(),
    ensures
        match list_selection(*cache, *opts, *verdict, today.num()) {
            Ok(s) => r matches Ok(v) && derefs(v@) == s,
            Err(m) => r matches Err(CommandError::Filter(x)) && x@ == m,
        },
{
    if opts.filter.is_some() {
        if let Some(ExprVerdict::Invalid(m)) = verdict {
            return Err(CommandError::Filter(m.clone()));
        }
    }
    let pid = match &opts.project {
        Some(q) => {
            let f = find_project_id(&cache.projects, q.as_str());
            if f.is_none() {
                return Ok(Vec::new());
            }
            f
        },
        None => None,
    };
    let sid = match &opts.section {
        Some(q) => {
            let f = find_section_named(&cache.sections, q.as_str());
            if f.is_none() {
                return Ok(Vec::new());
            }
            f
        },
        None => None,
    };
    let ghost gpid = list_project(*cache, *opts);
    let ghost gsid = list_section(*cache, *opts);
    assert(pid matches Some(p) ==> gpid == Some(p@));
    assert(pid is None ==> gpid is None);
    assert(sid matches Some(p) ==> gsid == Some(p@));
    assert(sid is None ==> gsid is None);
    let label_lower: Option<String> = match &opts.label {
        Some(l) => Some(to_lower(l.as_str())),
        None => None,
    };
    let api_priority: Option<i32> = match opts.priority {
        Some(p) => Some(5 - p as i32),
        None => None,
    };
    let ghost keep = |k: int, i: Item| list_keep(i, k, *opts, *verdict, gpid, gsid, today.num());
    let today_n = today.day_number();
    let mut out: Vec<&'a Item> = Vec::new();
    assert(derefs(out@) =~= Seq::<Item>::empty());
    let mut k: usize = 0;
    while k < cache.items.len()
        invariant
            k <= cache.items.len(),
            verdict matches Some(ExprVerdict::Matches(m)) ==> m.len() == cache.items.len(),
            opts.filter is Some ==> !(verdict matches Some(ExprVerdict::Invalid(_))),
            pid matches Some(p) ==> gpid == Some(p@),
            pid is None ==> gpid is None,
            sid matches Some(p) ==> gsid == Some(p@),
            sid is None ==> gsid is None,
            label_lower matches Some(x) ==> (opts.label matches Some(l) && x@ == lowercase(l@)),
            label_lower is None <==> opts.label is None,
            api_priority matches Some(a) ==> (opts.priority matches Some(p) && a == 5 - p),
            api_priority is None <==> opts.priority is None,
            today_n as int == today.num(),
            keep == (|k: int, i: Item| list_keep(i, k, *opts, *verdict, gpid, gsid, today.num())),
            derefs(out@) == kept(cache.items@, keep, k as int),
        decreases cache.items.len() - k,
    {
        let item = &cache.items[k];
        let mut ok = !item.is_deleted && !item.checked;
        if ok && opts.filter.is_some() {
            match verdict {
                Some(ExprVerdict::Matches(m)) => {
                    ok = m[k];
                },
                _ => {
                    ok = false;
                },
            }
        }
        if ok {
            if let Some(p) = &pid {
                ok = str_eq(item.project_id.as_str(), p.as_str());
            }
        }
        if ok {
            if let Some(ll) = &label_lower {
                let ghost l = opts.label->0@;
                ok = item_has_label(item, ll.as_str(), Ghost(l));
            }
        }
        if ok {
            if let Some(a) = api_priority {
                ok = item.priority == a;
            }
        }
        if ok {
            if let Some(s) = &sid {
                ok = match &item.section_id {
                    Some(x) => str_eq(x.as_str(), s.as_str()),
                    None => false,
                };
            }
        }
        if ok && opts.overdue {
            ok = match &item.due {
                Some(d) => match CalDate::parse(d.date.as_str()) {
                    Some(dd) => dd.day_number() < today_n,
                    None => false,
                },
                None => false,
            };
        }
        if ok && opts.no_due {
            ok = item.due.is_none();
        }
        assert(ok == keep(k as int, cache.items@[k as int]));
        let ghost old_out = out@;
        if ok {
            out.push(item);
            assert(derefs(out@) =~= derefs(old_out).push(*item));
        }
        k = k + 1;
    }
    Ok(out)
}

/// The sort key of a task for a sort field: tasks without a due (or
/// creation) date go last; higher priority comes first.
pub open spec fn list_key(item: Item, field: SortField) -> KeyView {
    match field {
        SortField::Due => match item.due {
            Some(d) => (0u8, d.date@, 0i64),
            None => (1u8, Seq::empty(), 0i64),
        },
        SortField::Priority => (0u8, Seq::empty(), (-item.priority) as i64),
        SortField::Created => match item.added_at {
            Some(a) => (0u8, a@, 0i64),
            None => (1u8, Seq::empty(), 0i64),
        },
        SortField::Project => (0u8, item.project_id@, 0i64),
    }
}

/// The keys of a list of tasks.
pub open spec fn list_keys(items: Seq<Item>, field: SortField) -> Seq<KeyView> {
    items.map_values(|i: Item| list_key(i, field))
}

/// `s` reversed where `rev` holds.
pub open spec fn maybe_reversed<T>(s: Seq<T>, rev: bool) -> Seq<T> {
    if rev {
        s.reverse()
    } else {
        s
    }
}

/// The elements of `s` in the order of `perm`.
pub open spec fn permuted<T>(s: Seq<T>, perm: Seq<int>) -> Seq<T> {
    perm.map_values(|k: int| s[k])
}

/// `sorted` is `items` sorted stably by the sort field of `opts` (if any),
/// then reversed if `opts` asks for it.
pub open spec fn sorted_as(items: Seq<Item>, opts: ListOptions, sorted: Seq<Item>) -> bool {
    match opts.sort {
        None => sorted == maybe_reversed(items, opts.reverse),
        Some(f) => exists|perm: Seq<int>|
            is_stable_order(list_keys(items, f), perm) && sorted == maybe_reversed(
                #[trigger] permuted(items, perm),
                opts.reverse,
            ),
    }
}

/// The first `limit` tasks, or all of them with `--all`.
pub open spec fn limited<T>(items: Seq<T>, opts: ListOptions) -> Seq<T> {
    if opts.all || items.len() <= opts.limit {
        items
    } else {
        items.take(opts.limit as int)
    }
}

/// What `td list` shows, as of day `today`.
pub open spec fn list_shows(cache: Cache, opts: ListOptions, verdict: Option<ExprVerdict>, today: int, r: Result<Vec<&Item>>) -> bool {
    match list_selection(cache, opts, verdict, today) {
        Ok(sel) => r matches Ok(v) && exists|sorted: Seq<Item>|
            sorted_as(sel, opts, sorted) && derefs(v@) == limited(sorted, opts),
        Err(m) => r matches Err(CommandError::Filter(x)) && x@ == m,
    }
}

/// The key of a task for a sort field.
pub fn item_key(item: &Item, field: SortField) -> (k: SortKey)
    ensures
        k.kv() == list_key(*item, field),
{
    match field {
        SortField::Due => match &item.due {
            Some(d) => SortKey { group: 0, text: chars_of(d.date.as_str()), num: 0 },
            None => SortKey { group: 1, text: Vec::new(), num: 0 },
        },
        SortField::Priority => SortKey { group: 0, text: Vec::new(), num: -(item.priority as i64) },
        SortField::Created => match &item.added_at {
            Some(a) => SortKey { group: 0, text: chars_of(a.as_str()), num: 0 },
            None => SortKey { group: 1, text: Vec::new(), num: 0 },
        },
        SortField::Project => SortKey { group: 0, text: chars_of(item.project_id.as_str()), num: 0 },
    }
}

/// Reverses a vector.
pub fn reversed<T: Copy>(v: Vec<T>) -> (r: Vec<T>)
    ensures
        r@ == v@.reverse(),
{
    let mut r: Vec<T> = Vec::new();
    let mut i: usize = v.len();
    while i > 0
        invariant
            i <= v.len(),
            r@ == v@.subrange(i as int, v.len() as int).reverse(),
        decreases i,
    {
        i = i - 1;
        r.push(v[i]);
        assert(v@.subrange(i as int, v.len() as int).reverse() =~= v@.subrange(i + 1, v.len() as int).reverse().push(v@[i as int]));
    }
    assert(v@.subrange(0, v.len() as int) =~= v@);
    r
}

/// Sorts tasks stably by the sort field, then reverses them if asked.
pub fn sort_items<'a>(items: Vec<&'a Item>, opts: &ListOptions) -> (r: Vec<&'a Item>)
    ensures
        sorted_as(derefs(items@), *opts, derefs(r@)),
{
    let ghost its = derefs(items@);
    let sorted = match opts.sort {
        None => items,
        Some(f) => {
            let mut keys: Vec<SortKey> = Vec::new();
            let mut i: usize = 0;
            while i < items.len()
                invariant
                    i <= items.len(),
                    its == derefs(items@),
                    keys@.len() == i,
                    forall|k: int| 0 <= k < i ==> (#[trigger] keys@[k]).kv() == list_key(its[k], f),
                decreases items.len() - i,
            {
                keys.push(item_key(items[i], f));
                i = i + 1;
            }
            assert(key_views(keys@) =~= list_keys(its, f));
            let perm = stable_order(&keys);
            let ghost p = as_ints(perm@);
            let mut out: Vec<&'a Item> = Vec::new();
            let mut j: usize = 0;
            while j < perm.len()
                invariant
                    j <= perm.len(),
                    perm.len() == items.len(),
                    its == derefs(items@),
                    p == as_ints(perm@),
                    is_stable_order(key_views(keys@), p),
                    keys@.len() == items@.len(),
                    derefs(out@) == permuted(its, p).take(j as int),
                decreases perm.len() - j,
            {
                assert(0 <= p[j as int] < keys@.len());
                let ghost before = out@;
                out.push(items[perm[j]]);
                assert(derefs(out@) =~= derefs(before).push(its[p[j as int]]));
                assert(permuted(its, p).take(j + 1) =~= permuted(its, p).take(j as int).push(its[p[j as int]]));
                j = j + 1;
            }
            assert(permuted(its, p).take(perm.len() as int) =~= permuted(its, p));
            assert(is_stable_order(list_keys(its, f), p));
            out
        },
    };
    let r = if opts.reverse {
        reversed(sorted)
    } else {
        sorted
    };
    assert(derefs(sorted@.reverse()) =~= derefs(sorted@).reverse());
    r
}

/// The first `limit` tasks, or all of them with `--all`.
pub fn apply_limit<'a>(items: Vec<&'a Item>, opts: &ListOptions) -> (r: Vec<&'a Item>)
    ensures
        r@ == limited(items@, *opts),
        derefs(r@) == limited(derefs(items@), *opts),
{
    proof {
        if opts.limit <= items@.len() {
            assert(derefs(items@.take(opts.limit as int)) =~= derefs(items@).take(opts.limit as int));
        }
    }
    if opts.all || items.len() <= opts.limit as usize {
        items
    } else {
        let mut out: Vec<&'a Item> = Vec::new();
        let mut i: usize = 0;
        while i < opts.limit as usize
            invariant
                i <= opts.limit,
                opts.limit < items.len(),
                out@ == items@.take(i as int),
            decreases opts.limit - i,
        {
            out.push(items[i]);
            assert(items@.take(i + 1) =~= items@.take(i as int).push(items@[i as int]));
            i = i + 1;
        }
        out
    }
}

/// The tasks `td list` shows, in order: filtered by the options as of
/// today's local date, sorted, and cut to the limit.
pub fn list_tasks<'a>(cache: &'a Cache, opts: &ListOptions, verdict: &Option<ExprVerdict>) -> (r: Result<Vec<&'a Item>>)
    requires
        verdict matches Some(ExprVerdict::Matches(m)) ==> m.len() == cache.items.len(),
    ensures
        exists|today: int| list_shows(*cache, *opts, *verdict, today, r),
{
    let today = local_today();
    let items = match filter_items(cache, opts, verdict, &today) {
        Ok(v) => v,
        Err(e) => {
            assert(list_shows(*cache, *opts, *verdict, today.num(), Err(e)));
            return Err(e);
        },
    };
    let ghost sel = derefs(items@);
    let items = sort_items(items, opts);
    let ghost sorted = derefs(items@);
    let r = apply_limit(items, opts);
    assert(list_shows(*cache, *opts, *verdict, today.num(), Ok(r)));
    Ok(r)
}

} // verus!

verus! {

/// `items` in the stable order of `keys`.
pub fn arrange<T: Copy>(items: Vec<T>, keys: &Vec<SortKey>) -> (r: Vec<T>)
    requires
        keys.len() == items.len(),
    ensures
        exists|perm: Seq<int>|
            is_stable_order(key_views(keys@), perm) && r@ == #[trigger] permuted(items@, perm),
{
    let perm = stable_order(keys);
    let ghost p = as_ints(perm@);
    let mut out: Vec<T> = Vec::new();
    let mut j: usize = 0;
    while j < perm.len()
        invariant
            j <= perm.len(),
            perm.len() == items.len(),
            p == as_ints(perm@),
            is_stable_order(key_views(keys@), p),
            keys@.len() == items@.len(),
            out@ == permuted(items@, p).take(j as int),
        decreases perm.len() - j,
    {
        assert(0 <= p[j as int] < keys@.len());
        out.push(items[perm[j]]);
        assert(permuted(items@, p).take(j + 1) =~= permuted(items@, p).take(j as int).push(items@[p[j as int]]));
        j = j + 1;
    }
    assert(permuted(items@, p).take(perm.len() as int) =~= permuted(items@, p));
    out
}

/// Dereferencing commutes with rearranging.
pub proof fn lemma_derefs_permuted<T>(s: Seq<&T>, p: Seq<int>)
    requires
        forall|k: int| 0 <= k < p.len() ==> 0 <= #[trigger] p[k] < s.len(),
    ensures
        derefs(permuted(s, p)) == permuted(derefs(s), p),
{
    assert(derefs(permuted(s, p)) =~= permuted(derefs(s), p));
}

} // verus!

verus! {

/// None of the tasks is deleted or completed.
pub open spec fn all_open(s: Seq<Item>) -> bool {
    forall|j: int| 0 <= j < s.len() ==> !(#[trigger] s[j]).is_deleted && !s[j].checked
}

proof fn lemma_kept_open(items: Seq<Item>, keep: spec_fn(int, Item) -> bool, n: int)
    requires
        n <= items.len(),
        forall|k: int, x: Item| #[trigger] keep(k, x) ==> !x.is_deleted && !x.checked,
    ensures
        all_open(kept(items, keep, n)),
    decreases n,
{
    if n > 0 {
        lemma_kept_open(items, keep, n - 1);
        let prev = kept(items, keep, n - 1);
        if keep(n - 1, items[n - 1]) {
            assert forall|j: int| 0 <= j < prev.push(items[n - 1]).len() implies !(
            #[trigger] prev.push(items[n - 1])[j]).is_deleted && !prev.push(items[n - 1])[j].checked by {
                if j < prev.len() {
                    assert(prev.push(items[n - 1])[j] == prev[j]);
                }
            }
        }
    }
}

proof fn lemma_arranged_open(sel: Seq<Item>, opts: ListOptions, sorted: Seq<Item>)
    requires
        all_open(sel),
        sorted_as(sel, opts, sorted),
    ensures
        all_open(sorted),
{
    let base = match opts.sort {
        None => sel,
        Some(f) => {
            let perm = choose|perm: Seq<int>|
                is_stable_order(list_keys(sel, f), perm) && sorted == maybe_reversed(
                    #[trigger] permuted(sel, perm),
                    opts.reverse,
                );
            assert forall|j: int| 0 <= j < permuted(sel, perm).len() implies !(
            #[trigger] permuted(sel, perm)[j]).is_deleted && !permuted(sel, perm)[j].checked by {
                assert(0 <= perm[j] < list_keys(sel, f).len());
                assert(permuted(sel, perm)[j] == sel[perm[j]]);
            }
            permuted(sel, perm)
        },
    };
    assert(sorted == maybe_reversed(base, opts.reverse));
    if opts.reverse {
        assert forall|j: int| 0 <= j < sorted.len() implies !(#[trigger] sorted[j]).is_deleted && !sorted[j].checked by {
            assert(sorted[j] == base[base.len() - 1 - j]);
        }
    }
}

/// Everything `td list` shows is an open task (neither deleted nor
/// completed), and without `--all` it shows at most `--limit` tasks.
pub proof fn law_list_shows_open_tasks(
    cache: Cache,
    opts: ListOptions,
    verdict: Option<ExprVerdict>,
    today: int,
    r: Result<Vec<&Item>>,
)
    requires
        list_shows(cache, opts, verdict, today, r),
    ensures
        r matches Ok(v) ==> all_open(derefs(v@)) && (!opts.all ==> v@.len() <= opts.limit),
{
    match list_selection(cache, opts, verdict, today) {
        Ok(sel) => {
            let v = r->Ok_0;
            let sorted = choose|sorted: Seq<Item>| sorted_as(sel, opts, sorted) && derefs(v@) == limited(sorted, opts);
            if opts.filter is Some && verdict matches Some(ExprVerdict::Invalid(_)) {
            } else if opts.project is Some && list_project(cache, opts) is None {
                assert(all_open(sel));
            } else if opts.section is Some && list_section(cache, opts) is None {
                assert(all_open(sel));
            } else {
                let pid = list_project(cache, opts);
                let sid = list_section(cache, opts);
                let keep = |k: int, i: Item| list_keep(i, k, opts, verdict, pid, sid, today);
                lemma_kept_open(cache.items@, keep, cache.items@.len() as int);
            }
            lemma_arranged_open(sel, opts, sorted);
            let shown = limited(sorted, opts);
            assert forall|j: int| 0 <= j < shown.len() implies !(#[trigger] shown[j]).is_deleted && !shown[j].checked by {
                assert(shown[j] == sorted[j]);
            }
            assert(derefs(v@).len() == v@.len());
        },
        Err(_) => {},
    }
}

/// Sorted by priority, highest first: with `--sort priority` and no
/// `--reverse`, the API priority never rises along the sorted tasks (p1,
/// API priority 4, before p4, API priority 1); with `--reverse` it never falls.
pub proof fn law_priority_sort(items: Seq<Item>, opts: ListOptions, sorted: Seq<Item>)
    requires
        sorted_as(items, opts, sorted),
        opts.sort matches Some(SortField::Priority),
    ensures
        !opts.reverse ==> forall|j: int, k: int|
            0 <= j < k < sorted.len() ==> (#[trigger] sorted[j]).priority >= (#[trigger] sorted[k]).priority,
        opts.reverse ==> forall|j: int, k: int|
            0 <= j < k < sorted.len() ==> (#[trigger] sorted[j]).priority <= (#[trigger] sorted[k]).priority,
{
    let keys = list_keys(items, SortField::Priority);
    let perm = choose|perm: Seq<int>|
        is_stable_order(keys, perm) && sorted == maybe_reversed(#[trigger] permuted(items, perm), opts.reverse);
    let p = permuted(items, perm);
    assert forall|j: int, k: int| 0 <= j < k < p.len() implies (#[trigger] p[j]).priority >= (#[trigger] p[k]).priority by {
        assert(before(keys, perm[j], perm[k]));
        assert(0 <= perm[j] < keys.len() && 0 <= perm[k] < keys.len());
        assert(p[j] == items[perm[j]]);
        assert(p[k] == items[perm[k]]);
    }
    if opts.reverse {
        assert forall|j: int, k: int|
            0 <= j < k < sorted.len() implies (#[trigger] sorted[j]).priority <= (#[trigger] sorted[k]).priority by {
            let n = p.len() as int;
            assert(sorted[j] == p[n - 1 - j]);
            assert(sorted[k] == p[n - 1 - k]);
        }
    }
}

/// `td list --sort priority` shows the highest priority first: without
/// `--reverse`, the API priority never rises along the tasks shown.
pub proof fn law_list_by_priority(
    cache: Cache,
    opts: ListOptions,
    verdict: Option<ExprVerdict>,
    today: int,
    r: Result<Vec<&Item>>,
)
    requires
        list_shows(cache, opts, verdict, today, r),
        opts.sort matches Some(SortField::Priority),
        !opts.reverse,
    ensures
        r matches Ok(v) ==> forall|j: int, k: int|
            0 <= j < k < v@.len() ==> (#[trigger] v@[j]).priority >= (#[trigger] v@[k]).priority,
{
    match list_selection(cache, opts, verdict, today) {
        Ok(sel) => {
            let v = r->Ok_0;
            let sorted = choose|sorted: Seq<Item>| sorted_as(sel, opts, sorted) && derefs(v@) == limited(sorted, opts);
            law_priority_sort(sel, opts, sorted);
            let shown = limited(sorted, opts);
            assert forall|j: int, k: int|
                0 <= j < k < v@.len() implies (#[trigger] v@[j]).priority >= (#[trigger] v@[k]).priority by {
                assert(derefs(v@).len() == v@.len());
                assert(*v@[j] == shown[j] && shown[j] == sorted[j]);
                assert(*v@[k] == shown[k] && shown[k] == sorted[k]);
            }
        },
        Err(_) => {},
    }
}

} // verus!

verus! {

/// What every kept element satisfies, where keeping implies it.
pub proof fn lemma_kept_sat<T>(items: Seq<T>, keep: spec_fn(int, T) -> bool, n: int, p: spec_fn(T) -> bool)
    requires
        n <= items.len(),
        forall|k: int, x: T| #[trigger] keep(k, x) ==> p(x),
    ensures
        forall|j: int| 0 <= j < kept(items, keep, n).len() ==> p(#[trigger] kept(items, keep, n)[j]),
    decreases n,
{
    if n > 0 {
        lemma_kept_sat(items, keep, n - 1, p);
        let prev = kept(items, keep, n - 1);
        if keep(n - 1, items[n - 1]) {
            assert forall|j: int| 0 <= j < prev.push(items[n - 1]).len() implies p(
                #[trigger] prev.push(items[n - 1])[j],
            ) by {
                if j < prev.len() {
                    assert(prev.push(items[n - 1])[j] == prev[j]);
                }
            }
        }
    }
}

} // verus!
