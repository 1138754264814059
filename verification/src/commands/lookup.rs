//! Finding entities of the cache by full ID or unique ID prefix, with the
//! messages the commands give when that fails.

use vstd::prelude::*;
use crate::commands::CommandError;
use crate::resolve::{
    ambiguous_message, ambiguous_message_text, ids_of, keys_of, lookup, prefix_hits, resolved,
    Keyed, Lookup,
};
use crate::text::{push_str, string_of};

verus! {

/// An entity that is listed, one line each, when a prefix is ambiguous.
pub trait Listed: Keyed {
    /// The line that describes the entity.
    spec fn line(&self) -> Seq<char>;

    fn line_string(&self) -> (r: String)
        ensures
            r@ == self.line(),
    ;
}

/// At most this many matches are listed.
pub const LISTED_MATCHES: usize = 5;

/// The lines of the first five matches.
pub open spec fn shown_lines<T: Listed>(xs: Seq<T>, hits: Seq<int>) -> Seq<Seq<char>> {
    let shown = if hits.len() > 5 {
        hits.take(5)
    } else {
        hits
    };
    shown.map_values(|i: int| xs[i].line())
}

/// The outcome of finding `q` among `xs`: the entity found, or the
/// not-found message, or the list of ambiguous matches.
pub open spec fn found_spec<T: Listed>(
    xs: Seq<T>,
    live: Seq<bool>,
    q: Seq<char>,
    kind: Seq<char>,
    plural: Seq<char>,
    not_found: Seq<char>,
    r: core::result::Result<&T, CommandError>,
) -> bool {
    let hits = prefix_hits(keys_of(xs), live, q);
    match resolved(keys_of(xs), live, q) {
        Some(i) => r matches Ok(x) && *x == xs[i],
        None => r matches Err(CommandError::Config(m)) && m@ == (if hits.len() == 0 {
            not_found + ": "@ + q
        } else {
            ambiguous_message(kind, plural, q, shown_lines(xs, hits), hits.len())
        }),
    }
}

/// Finds an entity by full ID or unique prefix among the live ones.
pub fn find_by_id_or_prefix<'a, T: Listed>(
    xs: &'a Vec<T>,
    live: &Vec<bool>,
    q: &str,
    kind: &str,
    plural: &str,
    not_found: &str,
) -> (r: core::result::Result<&'a T, CommandError>)
    requires
        xs.len() == live.len(),
    ensures
        found_spec(xs@, live@, q@, kind@, plural@, not_found@, r),
{
    let ids = ids_of(xs);
    let ghost keys = keys_of(xs@);
    let out = lookup(&ids, live, q);
    proof {
        crate::resolve::lemma_prefix_hits_upto(keys, live@, q@, keys.len() as int);
        crate::resolve::lemma_first_exact(keys, live@, q@, keys.len() as int);
    }
    match out {
        Lookup::Found(i) => Ok(&xs[i]),
        Lookup::NotFound => {
            let mut m = string_of(not_found);
            push_str(&mut m, ": ");
            push_str(&mut m, q);
            Err(CommandError::Config(m))
        },
        Lookup::Ambiguous(hits) => {
            let ghost hv = prefix_hits(keys, live@, q@);
            proof {
                crate::resolve::lemma_prefix_hits_upto(keys, live@, q@, keys.len() as int);
            }
            let n = if hits.len() > LISTED_MATCHES {
                LISTED_MATCHES
            } else {
                hits.len()
            };
            let mut lines: Vec<String> = Vec::new();
            let mut k: usize = 0;
            while k < n
                invariant
                    n <= hits@.len(),
                    n <= 5,
                    hits@.len() == hv.len(),
                    hv.len() > 1,
                    forall|j: int| 0 <= j < hits@.len() ==> hits@[j] as int == #[trigger] hv[j],
                    forall|j: int| 0 <= j < hv.len() ==> 0 <= #[trigger] hv[j] < xs@.len(),
                    hv == prefix_hits(keys_of(xs@), live@, q@),
                    k <= n,
                    lines@.len() == k,
                    forall|j: int| 0 <= j < k ==> (#[trigger] lines@[j])@ == xs@[hv[j]].line(),
                decreases n - k,
            {
                let idx = hits[k];
                assert(hits@[k as int] as int == hv[k as int]);
                let line = xs[idx].line_string();
                lines.push(line);
                k = k + 1;
            }
            let msg = ambiguous_message_text(kind, plural, q, &lines, hits.len());
            assert(lines@.map_values(|s: String| s@) =~= shown_lines(xs@, hv));
            Err(CommandError::Config(msg))
        },
    }
}

} // verus!

verus! {

use crate::model::{Item, Label, Section, Filter, Project, Note, ProjectNote};
use crate::output::helpers::{truncate_id, truncate_id_spec};

impl Keyed for Item {
    open spec fn key(&self) -> Seq<char> {
        self.id@
    }

    fn key_str(&self) -> (r: &str) {
        self.id.as_str()
    }
}

impl Listed for Item {
    open spec fn line(&self) -> Seq<char> {
        truncate_id_spec(self.id@) + "  "@ + self.content@
    }

    fn line_string(&self) -> (r: String) {
        let mut r = truncate_id(self.id.as_str());
        push_str(&mut r, "  ");
        push_str(&mut r, self.content.as_str());
        r
    }
}

impl Keyed for Label {
    open spec fn key(&self) -> Seq<char> {
        self.id@
    }

    fn key_str(&self) -> (r: &str) {
        self.id.as_str()
    }
}

impl Listed for Label {
    open spec fn line(&self) -> Seq<char> {
        truncate_id_spec(self.id@) + "  @"@ + self.name@
    }

    fn line_string(&self) -> (r: String) {
        let mut r = truncate_id(self.id.as_str());
        push_str(&mut r, "  @");
        push_str(&mut r, self.name.as_str());
        r
    }
}

impl Keyed for Section {
    open spec fn key(&self) -> Seq<char> {
        self.id@
    }

    fn key_str(&self) -> (r: &str) {
        self.id.as_str()
    }
}

impl Listed for Section {
    open spec fn line(&self) -> Seq<char> {
        truncate_id_spec(self.id@) + "  "@ + self.name@
    }

    fn line_string(&self) -> (r: String) {
        let mut r = truncate_id(self.id.as_str());
        push_str(&mut r, "  ");
        push_str(&mut r, self.name.as_str());
        r
    }
}

impl Keyed for Filter {
    open spec fn key(&self) -> Seq<char> {
        self.id@
    }

    fn key_str(&self) -> (r: &str) {
        self.id.as_str()
    }
}

impl Listed for Filter {
    open spec fn line(&self) -> Seq<char> {
        truncate_id_spec(self.id@) + "  "@ + self.name@
    }

    fn line_string(&self) -> (r: String) {
        let mut r = truncate_id(self.id.as_str());
        push_str(&mut r, "  ");
        push_str(&mut r, self.name.as_str());
        r
    }
}

impl Keyed for Project {
    open spec fn key(&self) -> Seq<char> {
        self.id@
    }

    fn key_str(&self) -> (r: &str) {
        self.id.as_str()
    }
}

impl Keyed for Note {
    open spec fn key(&self) -> Seq<char> {
        self.id@
    }

    fn key_str(&self) -> (r: &str) {
        self.id.as_str()
    }
}

impl Keyed for ProjectNote {
    open spec fn key(&self) -> Seq<char> {
        self.id@
    }

    fn key_str(&self) -> (r: &str) {
        self.id.as_str()
    }
}

/// Items that are neither deleted nor completed.
pub open spec fn open_items(items: Seq<Item>) -> Seq<bool> {
    items.map_values(|i: Item| !i.is_deleted && !i.checked)
}

/// Items that are not deleted.
pub open spec fn present_items(items: Seq<Item>) -> Seq<bool> {
    items.map_values(|i: Item| !i.is_deleted)
}

/// Flags of the items that are neither deleted nor completed.
pub fn open_item_flags(items: &Vec<Item>) -> (r: Vec<bool>)
    ensures
        r@ == open_items(items@),
{
    let mut r: Vec<bool> = Vec::new();
    let mut i: usize = 0;
    while i < items.len()
        invariant
            i <= items.len(),
            r@ =~= open_items(items@.take(i as int)),
        decreases items.len() - i,
    {
        r.push(!items[i].is_deleted && !items[i].checked);
        assert(open_items(items@.take(i + 1)) =~= open_items(items@.take(i as int)).push(
            !items@[i as int].is_deleted && !items@[i as int].checked,
        ));
        i = i + 1;
    }
    assert(items@.take(items.len() as int) =~= items@);
    r
}

/// Flags of the items that are not deleted.
pub fn present_item_flags(items: &Vec<Item>) -> (r: Vec<bool>)
    ensures
        r@ == present_items(items@),
{
    let mut r: Vec<bool> = Vec::new();
    let mut i: usize = 0;
    while i < items.len()
        invariant
            i <= items.len(),
            r@ =~= present_items(items@.take(i as int)),
        decreases items.len() - i,
    {
        r.push(!items[i].is_deleted);
        assert(present_items(items@.take(i + 1)) =~= present_items(items@.take(i as int)).push(
            !items@[i as int].is_deleted,
        ));
        i = i + 1;
    }
    assert(items@.take(items.len() as int) =~= items@);
    r
}

} // verus!

verus! {

use crate::resolve::{find_first, first_where, lemma_first_where, lemma_first_where_stays};
use crate::model::Reminder;

/// The name of the first project with this ID.
pub open spec fn project_name_of(projects: Seq<Project>, id: Seq<char>) -> Option<Seq<char>> {
    match find_first(projects, |p: Project| p.id@ == id) {
        Some(p) => Some(p.name@),
        None => None,
    }
}

/// The name of the first project with this ID.
pub fn project_name_by_id(projects: &Vec<Project>, id: &str) -> (r: Option<String>)
    ensures
        r matches Some(n) ==> project_name_of(projects@, id@) == Some(n@),
        r is None ==> project_name_of(projects@, id@) is None,
{
    let ghost p = |x: Project| x.id@ == id@;
    let mut i: usize = 0;
    while i < projects.len()
        invariant
            i <= projects.len(),
            p == (|x: Project| x.id@ == id@),
            first_where(projects@, p, i as int) is None,
        decreases projects.len() - i,
    {
        if crate::text::str_eq(projects[i].id.as_str(), id) {
            assert(first_where(projects@, p, i + 1) == Some(i as int));
            proof {
                lemma_first_where_stays(projects@, p, i + 1, projects@.len() as int);
            }
            return Some(projects[i].name.clone());
        }
        i = i + 1;
    }
    None
}

/// The first project with this ID, borrowed.
pub fn project_by_id<'a>(projects: &'a Vec<Project>, id: &str) -> (r: Option<&'a Project>)
    ensures
        r matches Some(x) ==> project_name_of(projects@, id@) == Some(x.name@) && x.id@ == id@,
        r is None ==> project_name_of(projects@, id@) is None,
{
    let ghost p = |x: Project| x.id@ == id@;
    let mut i: usize = 0;
    while i < projects.len()
        invariant
            i <= projects.len(),
            p == (|x: Project| x.id@ == id@),
            first_where(projects@, p, i as int) is None,
        decreases projects.len() - i,
    {
        if crate::text::str_eq(projects[i].id.as_str(), id) {
            assert(first_where(projects@, p, i + 1) == Some(i as int));
            proof {
                lemma_first_where_stays(projects@, p, i + 1, projects@.len() as int);
            }
            return Some(&projects[i]);
        }
        i = i + 1;
    }
    None
}

/// The first task with this ID, borrowed.
pub fn item_by_id<'a>(items: &'a Vec<Item>, id: &str) -> (r: Option<&'a Item>)
    ensures
        r matches Some(x) ==> item_content_of(items@, id@) == Some(x.content@) && x.id@ == id@,
        r is None ==> item_content_of(items@, id@) is None,
{
    let ghost p = |x: Item| x.id@ == id@;
    let mut i: usize = 0;
    while i < items.len()
        invariant
            i <= items.len(),
            p == (|x: Item| x.id@ == id@),
            first_where(items@, p, i as int) is None,
        decreases items.len() - i,
    {
        if crate::text::str_eq(items[i].id.as_str(), id) {
            assert(first_where(items@, p, i + 1) == Some(i as int));
            proof {
                lemma_first_where_stays(items@, p, i + 1, items@.len() as int);
            }
            return Some(&items[i]);
        }
        i = i + 1;
    }
    None
}

/// The content of the first task with this ID.
pub open spec fn item_content_of(items: Seq<Item>, id: Seq<char>) -> Option<Seq<char>> {
    match find_first(items, |x: Item| x.id@ == id) {
        Some(x) => Some(x.content@),
        None => None,
    }
}

/// The content of the first task with this ID.
pub fn item_content_by_id(items: &Vec<Item>, id: &str) -> (r: Option<String>)
    ensures
        r matches Some(n) ==> item_content_of(items@, id@) == Some(n@),
        r is None ==> item_content_of(items@, id@) is None,
{
    let ghost p = |x: Item| x.id@ == id@;
    let mut i: usize = 0;
    while i < items.len()
        invariant
            i <= items.len(),
            p == (|x: Item| x.id@ == id@),
            first_where(items@, p, i as int) is None,
        decreases items.len() - i,
    {
        if crate::text::str_eq(items[i].id.as_str(), id) {
            assert(first_where(items@, p, i + 1) == Some(i as int));
            proof {
                lemma_first_where_stays(items@, p, i + 1, items@.len() as int);
            }
            return Some(items[i].content.clone());
        }
        i = i + 1;
    }
    None
}

/// The name of the first section with this ID.
pub open spec fn section_name_of(sections: Seq<Section>, id: Seq<char>) -> Option<Seq<char>> {
    match find_first(sections, |x: Section| x.id@ == id) {
        Some(x) => Some(x.name@),
        None => None,
    }
}

/// The name of the first section with this ID.
pub fn section_name_by_id(sections: &Vec<Section>, id: &str) -> (r: Option<String>)
    ensures
        r matches Some(n) ==> section_name_of(sections@, id@) == Some(n@),
        r is None ==> section_name_of(sections@, id@) is None,
{
    let ghost p = |x: Section| x.id@ == id@;
    let mut i: usize = 0;
    while i < sections.len()
        invariant
            i <= sections.len(),
            p == (|x: Section| x.id@ == id@),
            first_where(sections@, p, i as int) is None,
        decreases sections.len() - i,
    {
        if crate::text::str_eq(sections[i].id.as_str(), id) {
            assert(first_where(sections@, p, i + 1) == Some(i as int));
            proof {
                lemma_first_where_stays(sections@, p, i + 1, sections@.len() as int);
            }
            return Some(sections[i].name.clone());
        }
        i = i + 1;
    }
    None
}

} // verus!
