//! What the entity commands (projects, labels, sections, filters,
//! reminders, comments) share: the live entities of the cache in display
//! order, colour names, and reading the API's reply to a command.

use vstd::prelude::*;
use crate::commands::{CommandError, Result};
use crate::commands::bulk::SyncCommandError;
use crate::commands::list::{arrange, kept, lemma_derefs_permuted, permuted};
use crate::commands::show::derefs;
use crate::model::{Filter, Label, Note, Project, ProjectNote, Reminder, Section};
use crate::resolve::{first_where, lemma_first_where_stays};
use crate::sort::{KeyView, SortKey, is_stable_order, key_views};
use crate::text::{int_text, push_i64, push_str, str_eq, string_of};

verus! {

/// An entity of the cache that can be marked deleted.
pub trait Deletable {
    /// The entity is marked deleted.
    spec fn deleted(&self) -> bool;

    fn is_deleted_flag(&self) -> (r: bool)
        ensures
            r == self.deleted(),
    ;
}

/// An entity listed in a fixed order.
pub trait Ordered {
    /// Its place in the order.
    spec fn order(&self) -> int;

    fn order_value(&self) -> (r: i64)
        ensures
            r as int == self.order(),
    ;
}

impl Deletable for Label {
    open spec fn deleted(&self) -> bool {
        self.is_deleted
    }

    fn is_deleted_flag(&self) -> (r: bool) {
        self.is_deleted
    }
}

impl Ordered for Label {
    open spec fn order(&self) -> int {
        self.item_order as int
    }

    fn order_value(&self) -> (r: i64) {
        self.item_order as i64
    }
}

impl Deletable for Section {
    open spec fn deleted(&self) -> bool {
        self.is_deleted
    }

    fn is_deleted_flag(&self) -> (r: bool) {
        self.is_deleted
    }
}

impl Ordered for Section {
    open spec fn order(&self) -> int {
        self.section_order as int
    }

    fn order_value(&self) -> (r: i64) {
        self.section_order as i64
    }
}

impl Deletable for Filter {
    open spec fn deleted(&self) -> bool {
        self.is_deleted
    }

    fn is_deleted_flag(&self) -> (r: bool) {
        self.is_deleted
    }
}

impl Ordered for Filter {
    open spec fn order(&self) -> int {
        self.item_order as int
    }

    fn order_value(&self) -> (r: i64) {
        self.item_order as i64
    }
}

impl Deletable for Project {
    open spec fn deleted(&self) -> bool {
        self.is_deleted
    }

    fn is_deleted_flag(&self) -> (r: bool) {
        self.is_deleted
    }
}

impl Ordered for Project {
    open spec fn order(&self) -> int {
        self.child_order as int
    }

    fn order_value(&self) -> (r: i64) {
        self.child_order as i64
    }
}

impl Deletable for Reminder {
    open spec fn deleted(&self) -> bool {
        self.is_deleted
    }

    fn is_deleted_flag(&self) -> (r: bool) {
        self.is_deleted
    }
}

impl Deletable for Note {
    open spec fn deleted(&self) -> bool {
        self.is_deleted
    }

    fn is_deleted_flag(&self) -> (r: bool) {
        self.is_deleted
    }
}

impl Deletable for ProjectNote {
    open spec fn deleted(&self) -> bool {
        self.is_deleted
    }

    fn is_deleted_flag(&self) -> (r: bool) {
        self.is_deleted
    }
}

/// Which entities are not deleted.
pub open spec fn live_of<T: Deletable>(xs: Seq<T>) -> Seq<bool> {
    xs.map_values(|x: T| !x.deleted())
}

/// Which entities are not deleted.
pub fn live_flags<T: Deletable>(xs: &Vec<T>) -> (r: Vec<bool>)
    ensures
        r@ == live_of(xs@),
{
    let mut r: Vec<bool> = Vec::new();
    let mut i: usize = 0;
    while i < xs.len()
        invariant
            i <= xs.len(),
            r@ == live_of(xs@).take(i as int),
        decreases xs.len() - i,
    {
        r.push(!xs[i].is_deleted_flag());
        assert(live_of(xs@).take(i + 1) =~= live_of(xs@).take(i as int).push(!xs@[i as int].deleted()));
        i = i + 1;
    }
    assert(live_of(xs@).take(xs.len() as int) =~= live_of(xs@));
    r
}

/// The entities that are not deleted, in cache order.
pub open spec fn live_entities<T: Deletable>(xs: Seq<T>) -> Seq<T> {
    kept(xs, |k: int, x: T| !x.deleted(), xs.len() as int)
}

/// The key by which entities are listed.
pub open spec fn order_key<T: Ordered>(x: T) -> KeyView {
    (0u8, Seq::empty(), x.order() as i64)
}

/// `shown` is `sel` sorted stably by their order.
pub open spec fn in_order<T: Ordered>(sel: Seq<T>, shown: Seq<T>) -> bool {
    exists|perm: Seq<int>|
        is_stable_order(sel.map_values(|x: T| order_key(x)), perm) && shown == #[trigger] permuted(sel, perm)
}

/// The entities that are not deleted, sorted stably by their order.
pub fn live_in_order<'a, T: Deletable + Ordered>(xs: &'a Vec<T>) -> (r: Vec<&'a T>)
    ensures
        in_order(live_entities(xs@), derefs(r@)),
{
    let mut sel: Vec<&'a T> = Vec::new();
    let mut keys: Vec<SortKey> = Vec::new();
    assert(derefs(sel@) =~= Seq::<T>::empty());
    let mut i: usize = 0;
    while i < xs.len()
        invariant
            i <= xs.len(),
            derefs(sel@) == kept(xs@, |k: int, x: T| !x.deleted(), i as int),
            keys.len() == sel.len(),
            forall|j: int| 0 <= j < keys.len() ==> (#[trigger] keys@[j]).kv() == order_key(derefs(sel@)[j]),
        decreases xs.len() - i,
    {
        if !xs[i].is_deleted_flag() {
            let ghost before = sel@;
            sel.push(&xs[i]);
            keys.push(SortKey { group: 0, text: Vec::new(), num: xs[i].order_value() });
            assert(derefs(sel@) =~= derefs(before).push(xs@[i as int]));
        }
        i = i + 1;
    }
    let ghost s = derefs(sel@);
    assert(key_views(keys@) =~= s.map_values(|x: T| order_key(x)));
    let r = arrange(sel, &keys);
    let ghost perm = choose|perm: Seq<int>| is_stable_order(key_views(keys@), perm) && r@ == #[trigger] permuted(sel@, perm);
    proof {
        lemma_derefs_permuted(sel@, perm);
    }
    assert(is_stable_order(s.map_values(|x: T| order_key(x)), perm) && derefs(r@) == permuted(s, perm));
    r
}

/// The first `limit` entities, or all of them without a limit.
pub open spec fn first_n<T>(xs: Seq<T>, limit: Option<u32>) -> Seq<T> {
    match limit {
        Some(n) => if xs.len() <= n {
            xs
        } else {
            xs.take(n as int)
        },
        None => xs,
    }
}

/// Keeps the first `limit` entities.
pub fn limit_to<T: Copy>(xs: Vec<T>, limit: Option<u32>) -> (r: Vec<T>)
    ensures
        r@ == first_n(xs@, limit),
{
    match limit {
        None => xs,
        Some(n) => {
            if xs.len() <= n as usize {
                return xs;
            }
            let mut out: Vec<T> = Vec::new();
            let mut i: usize = 0;
            while i < n as usize
                invariant
                    i <= n,
                    n < xs.len(),
                    out@ == xs@.take(i as int),
                decreases n - i,
            {
                out.push(xs[i]);
                assert(xs@.take(i + 1) =~= xs@.take(i as int).push(xs@[i as int]));
                i = i + 1;
            }
            out
        },
    }
}

/// The colour names the API accepts.
pub open spec fn valid_color(c: Seq<char>) -> bool {
    c == "berry_red"@ || c == "red"@ || c == "orange"@ || c == "yellow"@ || c == "olive_green"@ || c
        == "lime_green"@ || c == "green"@ || c == "mint_green"@ || c == "teal"@ || c == "sky_blue"@ || c
        == "light_blue"@ || c == "blue"@ || c == "grape"@ || c == "violet"@ || c == "lavender"@ || c
        == "magenta"@ || c == "salmon"@ || c == "charcoal"@ || c == "grey"@ || c == "taupe"@
}

/// Whether `color` is one of the colour names the API accepts (case matters).
pub fn is_valid_color(color: &str) -> (r: bool)
    ensures
        r == valid_color(color@),
{
    str_eq(color, "berry_red") || str_eq(color, "red") || str_eq(color, "orange") || str_eq(color, "yellow")
        || str_eq(color, "olive_green") || str_eq(color, "lime_green") || str_eq(color, "green") || str_eq(
        color,
        "mint_green",
    ) || str_eq(color, "teal") || str_eq(color, "sky_blue") || str_eq(color, "light_blue") || str_eq(
        color,
        "blue",
    ) || str_eq(color, "grape") || str_eq(color, "violet") || str_eq(color, "lavender") || str_eq(
        color,
        "magenta",
    ) || str_eq(color, "salmon") || str_eq(color, "charcoal") || str_eq(color, "grey") || str_eq(
        color,
        "taupe",
    )
}

/// The message for a colour the API does not accept.
pub open spec fn color_error(c: Seq<char>) -> Seq<char> {
    "Invalid color: "@ + c
        + ". Valid colors: berry_red, red, orange, yellow, olive_green, lime_green, green, mint_green, teal, sky_blue, light_blue, blue, grape, violet, lavender, magenta, salmon, charcoal, grey, taupe"@
}

/// No colour, or one the API accepts.
pub open spec fn color_ok(o: Option<String>) -> bool {
    match o {
        Some(c) => valid_color(c@),
        None => true,
    }
}

/// Checks an optional colour.
pub fn check_color(color: &Option<String>) -> (r: Result<()>)
    ensures
        match color {
            Some(c) => if valid_color(c@) {
                r is Ok
            } else {
                r matches Err(CommandError::Config(m)) && m@ == color_error(c@)
            },
            None => r is Ok,
        },
{
    if let Some(c) = color {
        if !is_valid_color(c.as_str()) {
            let mut m = string_of("Invalid color: ");
            push_str(&mut m, c.as_str());
            push_str(
                &mut m,
                ". Valid colors: berry_red, red, orange, yellow, olive_green, lime_green, green, mint_green, teal, sky_blue, light_blue, blue, grape, violet, lavender, magenta, salmon, charcoal, grey, taupe",
            );
            return Err(CommandError::Config(m));
        }
    }
    Ok(())
}

/// What the API answered to a batch of commands: the errors it reported
/// (in the order it lists them) and the IDs it gave to temporary IDs.
#[derive(Debug)]
pub struct SyncReply {
    pub errors: Vec<SyncCommandError>,
    pub temp_id_mapping: Vec<(String, String)>,
}

/// `Error <code>: <error>`.
pub open spec fn api_error_message(e: SyncCommandError) -> Seq<char> {
    "Error "@ + int_text(e.error_code as int) + ": "@ + e.error@
}

/// The API reported no error; else the first error it reported.
pub open spec fn applied_spec(reply: SyncReply, r: Result<()>) -> bool {
    if reply.errors@.len() == 0 {
        r is Ok
    } else {
        r matches Err(CommandError::Api(m)) && m@ == api_error_message(reply.errors@[0])
    }
}

/// Whether the API applied the batch: the first error it reported, if any.
pub fn applied(reply: &SyncReply) -> (r: Result<()>)
    ensures
        applied_spec(*reply, r),
{
    if reply.errors.len() == 0 {
        Ok(())
    } else {
        let e = &reply.errors[0];
        let mut m = string_of("Error ");
        push_i64(&mut m, e.error_code);
        push_str(&mut m, ": ");
        push_str(&mut m, e.error.as_str());
        Err(CommandError::Api(m))
    }
}

/// A mapping entry for the temporary ID `temp`.
pub open spec fn maps_temp(temp: Seq<char>) -> spec_fn((String, String)) -> bool {
    |p: (String, String)| p.0@ == temp
}

/// The real ID the API gave to a temporary ID.
pub open spec fn real_id_spec(mapping: Seq<(String, String)>, temp: Seq<char>) -> Option<Seq<char>> {
    match first_where(mapping, maps_temp(temp), mapping.len() as int) {
        Some(i) => Some(mapping[i].1@),
        None => None,
    }
}

/// The real ID the API gave to a temporary ID.
pub fn real_id(reply: &SyncReply, temp: &str) -> (r: Option<String>)
    ensures
        match real_id_spec(reply.temp_id_mapping@, temp@) {
            Some(id) => r matches Some(x) && x@ == id,
            None => r is None,
        },
{
    let ghost p = maps_temp(temp@);
    let m = &reply.temp_id_mapping;
    let mut i: usize = 0;
    while i < m.len()
        invariant
            i <= m.len(),
            m@ == reply.temp_id_mapping@,
            p == maps_temp(temp@),
            first_where(m@, p, i as int) is None,
        decreases m.len() - i,
    {
        if str_eq(m[i].0.as_str(), temp) {
            assert(first_where(m@, p, i + 1) == Some(i as int));
            proof {
                lemma_first_where_stays(m@, p, i + 1, m@.len() as int);
            }
            let x = string_of(m[i].1.as_str());
            assert(maps_temp(temp@)(m@[i as int]));
            assert(real_id_spec(m@, temp@) == Some(m@[i as int].1@));
            return Some(x);
        }
        i = i + 1;
    }
    None
}

/// The ID of a created entity: the first reported error, or the real ID of
/// the temporary ID, or the message that none came back.
pub open spec fn created_as(reply: SyncReply, temp: Seq<char>, what: Seq<char>, r: core::result::Result<
    Seq<char>,
    CommandError,
>) -> bool {
    if reply.errors@.len() > 0 {
        r matches Err(CommandError::Api(m)) && m@ == api_error_message(reply.errors@[0])
    } else {
        match real_id_spec(reply.temp_id_mapping@, temp) {
            Some(id) => r == Ok::<Seq<char>, CommandError>(id),
            None => r matches Err(CommandError::Config(m)) && m@ == what
                + " created but no ID returned in response"@,
        }
    }
}

/// `created_as` for an ID held in a string.
pub open spec fn created_spec(reply: SyncReply, temp: Seq<char>, what: Seq<char>, r: Result<String>) -> bool {
    created_as(
        reply,
        temp,
        what,
        match r {
            Ok(x) => Ok(x@),
            Err(e) => Err(e),
        },
    )
}

/// The characters of an optional string.
pub open spec fn opt_chars(o: Option<String>) -> Option<Seq<char>> {
    match o {
        Some(s) => Some(s@),
        None => None,
    }
}

/// A copy of an optional string.
pub fn copy_opt(o: &Option<String>) -> (r: Option<String>)
    ensures
        opt_chars(r) == opt_chars(*o),
{
    match o {
        Some(s) => Some(string_of(s.as_str())),
        None => None,
    }
}

/// The ID the API gave to an entity created under `temp`; `what` names it
/// in the message for a reply without one.
pub fn created_id(reply: &SyncReply, temp: &str, what: &str) -> (r: Result<String>)
    ensures
        created_spec(*reply, temp@, what@, r),
{
    applied(reply)?;
    match real_id(reply, temp) {
        Some(id) => Ok(id),
        None => {
            let mut m = string_of(what);
            push_str(&mut m, " created but no ID returned in response");
            Err(CommandError::Config(m))
        },
    }
}

/// A fresh temporary ID for a created entity (`uuid::Uuid::new_v4()`).
/// It is random, so nothing is stated of it.
#[verifier::external_body]
pub(crate) fn new_temp_id() -> (r: String) {
    uuid::Uuid::new_v4().to_string()
}

} // verus!

verus! {

use crate::model::{Cache, Item};
use crate::resolve::{Lookup, first_exact, keys_of, lookup, prefix_hits, resolved, ids_of, lemma_prefix_hits_upto, lemma_first_exact};
use crate::commands::lookup::{find_by_id_or_prefix, found_spec};
use crate::text::{byte_len, chars_of, str_byte_len};

/// A character with ASCII upper-case letters folded to lower case, as a number.
pub open spec fn ascii_fold(c: char) -> u32 {
    if 65 <= (c as u32) <= 90 {
        (c as u32 + 32) as u32
    } else {
        c as u32
    }
}

/// `a.eq_ignore_ascii_case(b)`: equal once ASCII letters are folded.
pub open spec fn eq_ignore_ascii(a: Seq<char>, b: Seq<char>) -> bool {
    a.len() == b.len() && forall|i: int| 0 <= i < a.len() ==> ascii_fold(#[trigger] a[i]) == ascii_fold(b[i])
}

fn fold(c: char) -> (r: u32)
    ensures
        r == ascii_fold(c),
{
    let x = c as u32;
    if 65 <= x && x <= 90 {
        x + 32
    } else {
        x
    }
}

/// Exec `eq_ignore_ascii`.
pub fn eq_ignore_ascii_case(a: &str, b: &str) -> (r: bool)
    ensures
        r == eq_ignore_ascii(a@, b@),
{
    let av = chars_of(a);
    let bv = chars_of(b);
    if av.len() != bv.len() {
        return false;
    }
    let mut i: usize = 0;
    while i < av.len()
        invariant
            av@ == a@,
            bv@ == b@,
            av.len() == bv.len(),
            i <= av.len(),
            forall|j: int| 0 <= j < i ==> ascii_fold(#[trigger] a@[j]) == ascii_fold(b@[j]),
        decreases av.len() - i,
    {
        if fold(av[i]) != fold(bv[i]) {
            return false;
        }
        i = i + 1;
    }
    true
}

/// The live projects whose name equals `q` ignoring ASCII case (below `n`, in order).
pub open spec fn name_hits_upto(projects: Seq<Project>, q: Seq<char>, n: int) -> Seq<int>
    decreases n,
{
    if n <= 0 {
        Seq::empty()
    } else {
        let m = name_hits_upto(projects, q, n - 1);
        if !projects[n - 1].is_deleted && eq_ignore_ascii(projects[n - 1].name@, q) {
            m.push(n - 1)
        } else {
            m
        }
    }
}

/// The project a reference names: the live project with this ID, else the
/// only live one whose ID starts with it, else the only live one with this
/// name (ignoring ASCII case); several matches make it ambiguous.
pub open spec fn project_ref_spec(projects: Seq<Project>, q: Seq<char>, r: Result<String>) -> bool {
    let ids = keys_of(projects);
    let live = live_of(projects);
    let names = name_hits_upto(projects, q, projects.len() as int);
    match resolved(ids, live, q) {
        Some(i) => r matches Ok(id) && id@ == projects[i].id@,
        None => if names.len() == 1 {
            r matches Ok(id) && id@ == projects[names[0]].id@
        } else if names.len() > 1 || prefix_hits(ids, live, q).len() > 1 {
            r matches Err(CommandError::Config(m)) && m@ == "Ambiguous project: '"@ + q
                + "'. Multiple projects match."@
        } else {
            r matches Err(CommandError::Config(m)) && m@ == "Project not found: "@ + q
        },
    }
}

/// Resolves a project name or ID to a project ID.
pub fn resolve_project_id(cache: &Cache, project: &str) -> (r: Result<String>)
    ensures
        project_ref_spec(cache.projects@, project@, r),
{
    let live = live_flags(&cache.projects);
    let ids = ids_of(&cache.projects);
    let out = lookup(&ids, &live, project);
    let ghost keys = keys_of(cache.projects@);
    proof {
        lemma_prefix_hits_upto(keys, live@, project@, keys.len() as int);
        lemma_first_exact(keys, live@, project@, keys.len() as int);
    }
    let prefix_many = match out {
        Lookup::Found(i) => {
            return Ok(string_of(cache.projects[i].id.as_str()));
        },
        Lookup::NotFound => false,
        Lookup::Ambiguous(_) => true,
    };
    let mut first: usize = 0;
    let mut count: usize = 0;
    let mut i: usize = 0;
    while i < cache.projects.len()
        invariant
            i <= cache.projects.len(),
            count == name_hits_upto(cache.projects@, project@, i as int).len(),
            count <= i,
            count > 0 ==> first == name_hits_upto(cache.projects@, project@, i as int)[0],
            count > 0 ==> first < i,
        decreases cache.projects.len() - i,
    {
        if !cache.projects[i].is_deleted && eq_ignore_ascii_case(cache.projects[i].name.as_str(), project) {
            if count == 0 {
                first = i;
            }
            count = count + 1;
        }
        i = i + 1;
    }
    if count == 1 {
        return Ok(string_of(cache.projects[first].id.as_str()));
    }
    if count > 1 || prefix_many {
        let mut m = string_of("Ambiguous project: '");
        push_str(&mut m, project);
        push_str(&mut m, "'. Multiple projects match.");
        Err(CommandError::Config(m))
    } else {
        let mut m = string_of("Project not found: ");
        push_str(&mut m, project);
        Err(CommandError::Config(m))
    }
}

/// Whether a task is not deleted (completed ones count).
pub open spec fn not_deleted_items(items: Seq<Item>) -> Seq<bool> {
    items.map_values(|i: Item| !i.is_deleted)
}

/// Which tasks are not deleted.
pub fn not_deleted_item_flags(items: &Vec<Item>) -> (r: Vec<bool>)
    ensures
        r@ == not_deleted_items(items@),
{
    let mut r: Vec<bool> = Vec::new();
    let mut i: usize = 0;
    while i < items.len()
        invariant
            i <= items.len(),
            r@ == not_deleted_items(items@).take(i as int),
        decreases items.len() - i,
    {
        r.push(!items[i].is_deleted);
        assert(not_deleted_items(items@).take(i + 1) =~= not_deleted_items(items@).take(i as int).push(!items@[i as int].is_deleted));
        i = i + 1;
    }
    assert(not_deleted_items(items@).take(items.len() as int) =~= not_deleted_items(items@));
    r
}

/// The task a reference names: the task (not deleted) with this ID, or for
/// references of six bytes or more the only one whose ID starts with it.
pub open spec fn task_ref_spec(items: Seq<Item>, q: Seq<char>, r: Result<String>) -> bool {
    let live = not_deleted_items(items);
    if byte_len(q) >= 6 {
        exists|f: core::result::Result<&Item, CommandError>| #[trigger]
            found_spec(items, live, q, "task"@, "tasks"@, "Task not found"@, f) && match f {
                Ok(x) => r matches Ok(id) && id@ == x.id@,
                Err(e) => r == Err::<String, CommandError>(e),
            }
    } else {
        match first_exact(keys_of(items), live, q, items.len() as int) {
            Some(i) => r matches Ok(id) && id@ == items[i].id@,
            None => r matches Err(CommandError::Config(m)) && m@ == "Task not found: "@ + q,
        }
    }
}

/// Resolves a task reference (full ID, or a prefix of six bytes or more) to a task ID.
pub fn resolve_task_id(cache: &Cache, task: &str) -> (r: Result<String>)
    ensures
        task_ref_spec(cache.items@, task@, r),
{
    let live = not_deleted_item_flags(&cache.items);
    if str_byte_len(task) >= 6 {
        let f = find_by_id_or_prefix(&cache.items, &live, task, "task", "tasks", "Task not found");
        let r = match f {
            Ok(x) => Ok(string_of(x.id.as_str())),
            Err(e) => Err(e),
        };
        assert(found_spec(cache.items@, live@, task@, "task"@, "tasks"@, "Task not found"@, f));
        return r;
    }
    let ghost keys = keys_of(cache.items@);
    proof {
        lemma_first_exact(keys, live@, task@, keys.len() as int);
    }
    let mut i: usize = 0;
    while i < cache.items.len()
        invariant
            i <= cache.items.len(),
            live@ == not_deleted_items(cache.items@),
            keys == keys_of(cache.items@),
            byte_len(task@) < 6,
            first_exact(keys, live@, task@, i as int) is None,
        decreases cache.items.len() - i,
    {
        if live[i] && str_eq(cache.items[i].id.as_str(), task) {
            assert(first_exact(keys, live@, task@, i + 1) == Some(i as int));
            proof {
                crate::resolve::lemma_first_exact_stays(keys, live@, task@, i + 1, keys.len() as int);
            }
            assert(first_exact(keys_of(cache.items@), not_deleted_items(cache.items@), task@, cache.items@.len() as int) == Some(i as int));
            let r = string_of(cache.items[i].id.as_str());
            assert(r@ == cache.items@[i as int].id@);
            return Ok(r);
        }
        i = i + 1;
    }
    let mut m = string_of("Task not found: ");
    push_str(&mut m, task);
    Err(CommandError::Config(m))
}

} // verus!

verus! {

/// The entities whose flag is set, in cache order.
pub open spec fn flagged<T>(xs: Seq<T>, flags: Seq<bool>) -> Seq<T> {
    kept(xs, |k: int, x: T| flags[k], xs.len() as int)
}

/// The entities whose flag is set, sorted stably by their order.
pub fn flagged_in_order<'a, T: Ordered>(xs: &'a Vec<T>, flags: &Vec<bool>) -> (r: Vec<&'a T>)
    requires
        flags.len() == xs.len(),
    ensures
        in_order(flagged(xs@, flags@), derefs(r@)),
{
    let mut sel: Vec<&'a T> = Vec::new();
    let mut keys: Vec<SortKey> = Vec::new();
    assert(derefs(sel@) =~= Seq::<T>::empty());
    let mut i: usize = 0;
    while i < xs.len()
        invariant
            i <= xs.len(),
            flags.len() == xs.len(),
            derefs(sel@) == kept(xs@, |k: int, x: T| flags@[k], i as int),
            keys.len() == sel.len(),
            forall|j: int| 0 <= j < keys.len() ==> (#[trigger] keys@[j]).kv() == order_key(derefs(sel@)[j]),
        decreases xs.len() - i,
    {
        if flags[i] {
            let ghost before = sel@;
            sel.push(&xs[i]);
            keys.push(SortKey { group: 0, text: Vec::new(), num: xs[i].order_value() });
            assert(derefs(sel@) =~= derefs(before).push(xs@[i as int]));
        }
        i = i + 1;
    }
    let ghost s = derefs(sel@);
    assert(key_views(keys@) =~= s.map_values(|x: T| order_key(x)));
    let r = arrange(sel, &keys);
    let ghost perm = choose|perm: Seq<int>| is_stable_order(key_views(keys@), perm) && r@ == #[trigger] permuted(sel@, perm);
    proof {
        lemma_derefs_permuted(sel@, perm);
    }
    assert(is_stable_order(s.map_values(|x: T| order_key(x)), perm) && derefs(r@) == permuted(s, perm));
    r
}

/// The first `n` entities, those whose flag is set.
pub open spec fn flagged_upto<T>(xs: Seq<T>, flags: Seq<bool>, n: int) -> Seq<T> {
    kept(xs, |k: int, x: T| flags[k], n)
}

/// Every entity kept by flags satisfies what every flagged entity satisfies.
pub proof fn lemma_flagged_sat<T>(xs: Seq<T>, flags: Seq<bool>, n: int, p: spec_fn(T) -> bool)
    requires
        n <= xs.len(),
        flags.len() == xs.len(),
        forall|k: int| 0 <= k < xs.len() && #[trigger] flags[k] ==> p(xs[k]),
    ensures
        forall|j: int| 0 <= j < flagged_upto(xs, flags, n).len() ==> p(#[trigger] flagged_upto(xs, flags, n)[j]),
    decreases n,
{
    if n > 0 {
        lemma_flagged_sat(xs, flags, n - 1, p);
        let keep = |k: int, x: T| flags[k];
        let prev = kept(xs, keep, n - 1);
        assert(prev == flagged_upto(xs, flags, n - 1));
        if keep(n - 1, xs[n - 1]) {
            assert(flags[n - 1]);
            assert(flagged_upto(xs, flags, n) == prev.push(xs[n - 1]));
            assert forall|j: int| 0 <= j < prev.push(xs[n - 1]).len() implies p(#[trigger] prev.push(xs[n - 1])[j]) by {
                if j < prev.len() {
                    assert(prev.push(xs[n - 1])[j] == prev[j]);
                }
            }
        } else {
            assert(flagged_upto(xs, flags, n) == prev);
        }
    }
}

/// Sorting keeps what holds of every entity selected.
pub proof fn lemma_in_order_sat<T: Ordered>(sel: Seq<T>, shown: Seq<T>, p: spec_fn(T) -> bool)
    requires
        in_order(sel, shown),
        forall|j: int| 0 <= j < sel.len() ==> p(#[trigger] sel[j]),
    ensures
        forall|j: int| 0 <= j < shown.len() ==> p(#[trigger] shown[j]),
{
    let perm = choose|perm: Seq<int>|
        is_stable_order(sel.map_values(|x: T| order_key(x)), perm) && shown == #[trigger] permuted(sel, perm);
    assert forall|j: int| 0 <= j < shown.len() implies p(#[trigger] shown[j]) by {
        assert(0 <= perm[j] < sel.map_values(|x: T| order_key(x)).len());
        assert(shown[j] == sel[perm[j]]);
    }
}

} // verus!
