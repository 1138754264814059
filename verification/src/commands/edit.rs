//! The edit command: updates and moves a task.

use vstd::prelude::*;
use crate::commands::lookup::{find_by_id_or_prefix, found_spec, present_item_flags, present_items};
use crate::commands::{CommandError, Result};
use crate::model::{Cache, Item, Project, Section};
use crate::resolve::{find_first, first_where, lemma_first_where, lemma_first_where_stays};
use crate::text::{lowercase, str_eq, push_str, string_of, to_lower, views};

verus! {

/// Options for the edit command.
#[derive(Debug)]
pub struct EditOptions {
    /// Task ID (full ID or prefix).
    pub task_id: String,
    /// New content/title.
    pub content: Option<String>,
    /// Move to project (name or ID).
    pub project: Option<String>,
    /// New priority level (1=highest, 4=lowest).
    pub priority: Option<u8>,
    /// New due date (natural language or ISO).
    pub due: Option<String>,
    /// Remove due date.
    pub no_due: bool,
    /// Set labels (replaces existing).
    pub labels: Vec<String>,
    /// Add a single label.
    pub add_label: Option<String>,
    /// Remove a single label.
    pub remove_label: Option<String>,
    /// Move to section within project.
    pub section: Option<String>,
    /// New description.
    pub description: Option<String>,
}

/// Result of a successful edit operation.
#[derive(Debug)]
pub struct EditResult {
    /// The task ID.
    pub id: String,
    /// The updated content (if changed).
    pub content: Option<String>,
    /// Fields that were updated.
    pub updated_fields: Vec<String>,
}

/// Finds a task that is not deleted by full ID or unique prefix.
pub fn find_item_by_id_or_prefix<'a>(cache: &'a Cache, id: &str) -> (r: Result<&'a Item>)
    ensures
        found_spec(cache.items@, present_items(cache.items@), id@, "task"@, "tasks"@, "Task not found"@, r),
{
    let live = present_item_flags(&cache.items);
    find_by_id_or_prefix(&cache.items, &live, id, "task", "tasks", "Task not found")
}

/// How the due date changes.
#[derive(Debug)]
pub enum DueChange {
    /// The due date is removed.
    Remove,
    /// The due date is set from this (natural-language) text.
    SetTo(String),
}

/// The fields an `item_update` command sets.
#[derive(Debug)]
pub struct ItemUpdate {
    pub content: Option<String>,
    /// The API priority (4 is the highest).
    pub priority: Option<i32>,
    pub due: Option<DueChange>,
    pub labels: Option<Vec<String>>,
    pub description: Option<String>,
}

/// The destination of an `item_move` command.
#[derive(Debug)]
pub struct ItemMove {
    pub project_id: Option<String>,
    pub section_id: Option<String>,
}

/// What an edit sends: an update, a move, and the names of the changed fields.
#[derive(Debug)]
pub struct EditPlan {
    pub update: Option<ItemUpdate>,
    pub move_to: Option<ItemMove>,
    pub updated_fields: Vec<String>,
}

/// Any of the update options is given.
pub open spec fn has_updates(o: EditOptions) -> bool {
    o.content is Some || o.priority is Some || o.due is Some || o.no_due || o.labels@.len() > 0
        || o.add_label is Some || o.remove_label is Some || o.description is Some
}

/// The first position of `x` in `s`.
pub open spec fn position_of(s: Seq<Seq<char>>, x: Seq<char>) -> Option<int> {
    first_where(s, |y: Seq<char>| y == x, s.len() as int)
}

/// The labels after adding a label (when it is missing).
pub open spec fn labels_after_add(current: Seq<Seq<char>>, add: Option<String>) -> Seq<Seq<char>> {
    match add {
        Some(a) => if current.contains(a@) {
            current
        } else {
            current.push(a@)
        },
        None => current,
    }
}

/// The labels after removing the first occurrence of a label.
pub open spec fn labels_after_remove(current: Seq<Seq<char>>, remove: Option<String>) -> Seq<Seq<char>> {
    match remove {
        Some(r) => match position_of(current, r@) {
            Some(p) => current.remove(p),
            None => current,
        },
        None => current,
    }
}

/// The field names that the label edits add.
pub open spec fn label_edit_fields(current: Seq<Seq<char>>, add: Option<String>, remove: Option<String>) -> Seq<
    Seq<char>,
> {
    let after_add = labels_after_add(current, add);
    (match add {
        Some(a) => if current.contains(a@) {
            Seq::empty()
        } else {
            seq!["label +"@ + a@]
        },
        None => Seq::empty(),
    }) + (match remove {
        Some(r) => if position_of(after_add, r@) is Some {
            seq!["label -"@ + r@]
        } else {
            Seq::empty()
        },
        None => Seq::empty(),
    })
}

/// A field name when the condition holds.
pub open spec fn field_if(c: bool, name: Seq<char>) -> Seq<Seq<char>> {
    if c {
        seq![name]
    } else {
        Seq::empty()
    }
}

/// The field names of the due change.
pub open spec fn due_fields(o: EditOptions) -> Seq<Seq<char>> {
    if o.no_due {
        seq!["due (removed)"@]
    } else {
        field_if(o.due is Some, "due"@)
    }
}

/// The field names of the label change.
pub open spec fn labels_fields(o: EditOptions, current: Seq<Seq<char>>) -> Seq<Seq<char>> {
    if o.labels@.len() > 0 {
        seq!["labels"@]
    } else if o.add_label is Some || o.remove_label is Some {
        label_edit_fields(current, o.add_label, o.remove_label)
    } else {
        Seq::empty()
    }
}

/// The fields that an update names, in the order the command lists them.
pub open spec fn update_fields(o: EditOptions, current: Seq<Seq<char>>) -> Seq<Seq<char>> {
    field_if(o.content is Some, "content"@) + field_if(o.priority is Some, "priority"@) + due_fields(o)
        + labels_fields(o, current) + field_if(o.description is Some, "description"@)
}

/// The labels an update sets, if any.
pub open spec fn update_labels(o: EditOptions, current: Seq<Seq<char>>) -> Option<Seq<Seq<char>>> {
    if o.labels@.len() > 0 {
        Some(views(o.labels@))
    } else if o.add_label is Some || o.remove_label is Some {
        Some(labels_after_remove(labels_after_add(current, o.add_label), o.remove_label))
    } else {
        None
    }
}

/// The update a plan sends, field by field.
pub open spec fn update_ok(o: EditOptions, item: Item, u: ItemUpdate) -> bool {
    &&& u.content == o.content
    &&& (match o.priority {
        Some(p) => u.priority matches Some(x) && x == 5 - p,
        None => u.priority is None,
    })
    &&& (if o.no_due {
        u.due matches Some(DueChange::Remove)
    } else {
        match o.due {
            Some(d) => u.due matches Some(DueChange::SetTo(s)) && s == d,
            None => u.due is None,
        }
    })
    &&& (match update_labels(o, views(item.labels@)) {
        Some(ls) => u.labels matches Some(v) && views(v@) == ls,
        None => u.labels is None,
    })
    &&& u.description == o.description
}

/// A project answers to `q` by its name (ignoring case) or its ID.
pub open spec fn project_answers(p: Project, q: Seq<char>) -> bool {
    lowercase(p.name@) == lowercase(q) || p.id@ == q
}

/// The ID of the first project that answers to `q`.
pub open spec fn project_id_for(projects: Seq<Project>, q: Seq<char>) -> Option<Seq<char>> {
    match find_first(projects, |p: Project| project_answers(p, q)) {
        Some(p) => Some(p.id@),
        None => None,
    }
}

/// A section of `project_id` answers to `q` by its name (ignoring case) or its ID.
pub open spec fn section_answers(s: Section, q: Seq<char>, project_id: Seq<char>) -> bool {
    (lowercase(s.name@) == lowercase(q) || s.id@ == q) && s.project_id@ == project_id
}

/// The ID of the first section of the project that answers to `q`.
pub open spec fn section_id_for(sections: Seq<Section>, q: Seq<char>, project_id: Seq<char>) -> Option<
    Seq<char>,
> {
    match find_first(sections, |s: Section| section_answers(s, q, project_id)) {
        Some(s) => Some(s.id@),
        None => None,
    }
}

/// The ID of the first project that answers to `q`.
pub fn find_project_id(projects: &Vec<Project>, q: &str) -> (r: Option<String>)
    ensures
        r matches Some(id) ==> project_id_for(projects@, q@) == Some(id@),
        r is None ==> project_id_for(projects@, q@) is None,
{
    let ghost p = |x: Project| project_answers(x, q@);
    let ql = to_lower(q);
    let mut i: usize = 0;
    while i < projects.len()
        invariant
            i <= projects.len(),
            ql@ == lowercase(q@),
            p == (|x: Project| project_answers(x, q@)),
            first_where(projects@, p, i as int) is None,
        decreases projects.len() - i,
    {
        let nl = to_lower(projects[i].name.as_str());
        if str_eq(nl.as_str(), ql.as_str()) || str_eq(projects[i].id.as_str(), q) {
            assert(first_where(projects@, p, i + 1) == Some(i as int));
            proof {
                lemma_first_where_stays(projects@, p, i + 1, projects@.len() as int);
            }
            return Some(projects[i].id.clone());
        }
        i = i + 1;
    }
    None
}

/// The ID of the first section of the project that answers to `q`.
pub fn find_section_id(sections: &Vec<Section>, q: &str, project_id: &str) -> (r: Option<String>)
    ensures
        r matches Some(id) ==> section_id_for(sections@, q@, project_id@) == Some(id@),
        r is None ==> section_id_for(sections@, q@, project_id@) is None,
{
    let ghost p = |x: Section| section_answers(x, q@, project_id@);
    let ql = to_lower(q);
    let mut i: usize = 0;
    while i < sections.len()
        invariant
            i <= sections.len(),
            ql@ == lowercase(q@),
            p == (|x: Section| section_answers(x, q@, project_id@)),
            first_where(sections@, p, i as int) is None,
        decreases sections.len() - i,
    {
        let nl = to_lower(sections[i].name.as_str());
        if (str_eq(nl.as_str(), ql.as_str()) || str_eq(sections[i].id.as_str(), q)) && str_eq(
            sections[i].project_id.as_str(),
            project_id,
        ) {
            assert(first_where(sections@, p, i + 1) == Some(i as int));
            proof {
                lemma_first_where_stays(sections@, p, i + 1, sections@.len() as int);
            }
            return Some(sections[i].id.clone());
        }
        i = i + 1;
    }
    None
}

/// Where an edit moves the task, or the error that stops it.
pub open spec fn move_ok(o: EditOptions, item: Item, cache: Cache, r: Result<Option<ItemMove>>, fields: Seq<
    Seq<char>,
>) -> bool {
    let project_target = match o.project {
        Some(q) => project_id_for(cache.projects@, q@),
        None => None,
    };
    if o.project is None && o.section is None {
        r matches Ok(m) && m is None && fields.len() == 0
    } else if o.project is Some && project_target is None {
        r matches Err(CommandError::Config(msg)) && msg@ == "Project not found: "@ + o.project->0@
    } else {
        let target = match project_target {
            Some(pid) => pid,
            None => item.project_id@,
        };
        let new_project = match project_target {
            Some(pid) => if pid != item.project_id@ {
                Some(pid)
            } else {
                None
            },
            None => None,
        };
        let section_target = match o.section {
            Some(q) => section_id_for(cache.sections@, q@, target),
            None => None,
        };
        if o.section is Some && section_target is None {
            r matches Err(CommandError::Config(msg)) && msg@ == "Section not found: "@ + o.section->0@
                + " (in project)"@
        } else {
            let new_section = match section_target {
                Some(sid) => if (item.section_id matches Some(cur) && cur@ == sid) {
                    None
                } else {
                    Some(sid)
                },
                None => None,
            };
            &&& fields == (if new_project is Some {
                seq!["project"@]
            } else {
                Seq::empty()
            }) + (if new_section is Some {
                seq!["section"@]
            } else {
                Seq::empty()
            })
            &&& if new_project is None && new_section is None {
                r matches Ok(m) && m is None
            } else {
                r matches Ok(Some(m)) && (match new_project {
                    Some(p) => m.project_id matches Some(x) && x@ == p,
                    None => m.project_id is None,
                }) && (match new_section {
                    Some(s) => m.section_id matches Some(x) && x@ == s,
                    None => m.section_id is None,
                })
            }
        }
    }
}

/// The complete plan of an edit, or the error that stops it.
pub open spec fn plan_edit_spec(o: EditOptions, item: Item, cache: Cache, r: Result<EditPlan>) -> bool {
    let ufields = if has_updates(o) {
        update_fields(o, views(item.labels@))
    } else {
        Seq::empty()
    };
    match r {
        Ok(plan) => {
            &&& (if has_updates(o) {
                plan.update matches Some(u) && update_ok(o, item, u)
            } else {
                plan.update is None
            })
            &&& views(plan.updated_fields@).len() >= ufields.len()
            &&& views(plan.updated_fields@).take(ufields.len() as int) == ufields
            &&& move_ok(
                o,
                item,
                cache,
                Ok(plan.move_to),
                views(plan.updated_fields@).skip(ufields.len() as int),
            )
        },
        Err(e) => move_ok(o, item, cache, Err(e), Seq::empty()),
    }
}

fn field(s: &str) -> (r: String)
    ensures
        r@ == s@,
{
    string_of(s)
}

fn contains_label(labels: &Vec<String>, x: &str) -> (r: bool)
    ensures
        r == views(labels@).contains(x@),
{
    let mut i: usize = 0;
    while i < labels.len()
        invariant
            i <= labels.len(),
            forall|j: int| 0 <= j < i ==> labels@[j]@ != x@,
        decreases labels.len() - i,
    {
        if str_eq(labels[i].as_str(), x) {
            assert(views(labels@)[i as int] == x@);
            return true;
        }
        i = i + 1;
    }
    assert forall|j: int| 0 <= j < views(labels@).len() implies views(labels@)[j] != x@ by {
        assert(labels@[j]@ != x@);
    }
    false
}

fn label_position(labels: &Vec<String>, x: &str) -> (r: Option<usize>)
    ensures
        r matches Some(p) ==> position_of(views(labels@), x@) == Some(p as int) && p < labels@.len(),
        r is None ==> position_of(views(labels@), x@) is None,
{
    let ghost vs = views(labels@);
    let ghost p = |y: Seq<char>| y == x@;
    let mut i: usize = 0;
    while i < labels.len()
        invariant
            i <= labels.len(),
            vs == views(labels@),
            p == (|y: Seq<char>| y == x@),
            first_where(vs, p, i as int) is None,
        decreases labels.len() - i,
    {
        if str_eq(labels[i].as_str(), x) {
            assert(first_where(vs, p, i + 1) == Some(i as int));
            proof {
                lemma_first_where_stays(vs, p, i + 1, vs.len() as int);
            }
            return Some(i);
        }
        i = i + 1;
    }
    None
}

fn push_field(fields: &mut Vec<String>, s: String)
    ensures
        views(final(fields)@) == views(old(fields)@).push(s@),
{
    fields.push(s);
    assert(views(fields@) =~= views(old(fields)@).push(s@));
}

/// The labels and field names of an add/remove label edit.
fn plan_label_edit(opts: &EditOptions, current: &Vec<String>) -> (r: (Vec<String>, Vec<String>))
    ensures
        views(r.0@) == labels_after_remove(labels_after_add(views(current@), opts.add_label), opts.remove_label),
        views(r.1@) == label_edit_fields(views(current@), opts.add_label, opts.remove_label),
{
    let ghost cur = views(current@);
    let mut fields: Vec<String> = Vec::new();
    let mut new_labels = current.clone();
    assert(views(new_labels@) == cur);
    if let Some(a) = &opts.add_label {
        if !contains_label(&new_labels, a.as_str()) {
            new_labels.push(a.clone());
            assert(views(new_labels@) =~= cur.push(a@));
            let mut f = field("label +");
            push_str(&mut f, a.as_str());
            push_field(&mut fields, f);
        }
    }
    assert(views(new_labels@) == labels_after_add(cur, opts.add_label));
    let ghost after_add = views(new_labels@);
    let ghost mid = views(fields@);
    if let Some(rm) = &opts.remove_label {
        match label_position(&new_labels, rm.as_str()) {
            Some(pos) => {
                new_labels.remove(pos);
                assert(views(new_labels@) =~= after_add.remove(pos as int));
                let mut f = field("label -");
                push_str(&mut f, rm.as_str());
                push_field(&mut fields, f);
            },
            None => {},
        }
    }
    assert(views(fields@) =~= label_edit_fields(cur, opts.add_label, opts.remove_label));
    (new_labels, fields)
}

fn append_fields(fields: &mut Vec<String>, more: Vec<String>)
    ensures
        views(final(fields)@) == views(old(fields)@) + views(more@),
{
    let mut k: usize = 0;
    while k < more.len()
        invariant
            k <= more.len(),
            views(fields@) == views(old(fields)@) + views(more@).take(k as int),
        decreases more.len() - k,
    {
        push_field(fields, more[k].clone());
        assert(views(more@).take(k + 1) =~= views(more@).take(k as int).push(more@[k as int]@));
        assert(views(fields@) =~= views(old(fields)@) + views(more@).take(k + 1));
        k = k + 1;
    }
    assert(views(more@).take(more@.len() as int) =~= views(more@));
}

fn field_vec_if(c: bool, name: &str) -> (r: Vec<String>)
    ensures
        views(r@) == field_if(c, name@),
{
    let mut r: Vec<String> = Vec::new();
    if c {
        push_field(&mut r, field(name));
    }
    assert(views(r@) =~= field_if(c, name@));
    r
}

fn plan_due(opts: &EditOptions) -> (r: (Option<DueChange>, Vec<String>))
    ensures
        if opts.no_due {
            r.0 matches Some(DueChange::Remove)
        } else {
            match opts.due {
                Some(d) => r.0 matches Some(DueChange::SetTo(s)) && s == d,
                None => r.0 is None,
            }
        },
        views(r.1@) == due_fields(*opts),
{
    if opts.no_due {
        (Some(DueChange::Remove), field_vec_if(true, "due (removed)"))
    } else if let Some(d) = &opts.due {
        (Some(DueChange::SetTo(d.clone())), field_vec_if(true, "due"))
    } else {
        (None, field_vec_if(false, "due"))
    }
}

fn plan_labels(opts: &EditOptions, item: &Item) -> (r: (Option<Vec<String>>, Vec<String>))
    ensures
        match update_labels(*opts, views(item.labels@)) {
            Some(ls) => r.0 matches Some(v) && views(v@) == ls,
            None => r.0 is None,
        },
        views(r.1@) == labels_fields(*opts, views(item.labels@)),
{
    if opts.labels.len() > 0 {
        (Some(opts.labels.clone()), field_vec_if(true, "labels"))
    } else if opts.add_label.is_some() || opts.remove_label.is_some() {
        let (ls, fs) = plan_label_edit(opts, &item.labels);
        (Some(ls), fs)
    } else {
        (None, field_vec_if(false, "labels"))
    }
}

/// The `item_update` fields of an edit and their names.
fn plan_update(opts: &EditOptions, item: &Item) -> (r: (Option<ItemUpdate>, Vec<String>))
    requires
        opts.priority matches Some(p) ==> p <= 5,
    ensures
        if has_updates(*opts) {
            r.0 matches Some(u) && update_ok(*opts, *item, u)
        } else {
            r.0 is None
        },
        views(r.1@) == (if has_updates(*opts) {
            update_fields(*opts, views(item.labels@))
        } else {
            Seq::empty()
        }),
{
    if !(opts.content.is_some() || opts.priority.is_some() || opts.due.is_some() || opts.no_due
        || opts.labels.len() > 0 || opts.add_label.is_some() || opts.remove_label.is_some()
        || opts.description.is_some()) {
        let fields: Vec<String> = Vec::new();
        assert(views(fields@) =~= Seq::<Seq<char>>::empty());
        return (None, fields);
    }
    let mut fields = field_vec_if(opts.content.is_some(), "content");
    append_fields(&mut fields, field_vec_if(opts.priority.is_some(), "priority"));
    let (due, df) = plan_due(opts);
    append_fields(&mut fields, df);
    let (labels, lf) = plan_labels(opts, item);
    append_fields(&mut fields, lf);
    append_fields(&mut fields, field_vec_if(opts.description.is_some(), "description"));
    let priority = match opts.priority {
        Some(p) => Some(5 - p as i32),
        None => None,
    };
    let u = ItemUpdate {
        content: opts.content.clone(),
        priority,
        due,
        labels,
        description: opts.description.clone(),
    };
    (Some(u), fields)
}

/// The `item_move` destination of an edit and its field names, or the error that stops it.
fn plan_move(opts: &EditOptions, item: &Item, cache: &Cache) -> (r: Result<(Option<ItemMove>, Vec<String>)>)
    ensures
        match r {
            Ok(p) => move_ok(*opts, *item, *cache, Ok(p.0), views(p.1@)),
            Err(e) => move_ok(*opts, *item, *cache, Err(e), Seq::empty()),
        },
{
    let mut fields: Vec<String> = Vec::new();
    if opts.project.is_none() && opts.section.is_none() {
        assert(views(fields@) =~= Seq::<Seq<char>>::empty());
        return Ok((None, fields));
    }
    let mut new_project: Option<String> = None;
    let mut target = item.project_id.clone();
    if let Some(q) = &opts.project {
        match find_project_id(&cache.projects, q.as_str()) {
            Some(pid) => {
                if !str_eq(pid.as_str(), item.project_id.as_str()) {
                    new_project = Some(pid.clone());
                    push_field(&mut fields, field("project"));
                }
                target = pid;
            },
            None => {
                let mut m = string_of("Project not found: ");
                push_str(&mut m, q.as_str());
                return Err(CommandError::Config(m));
            },
        }
    }
    let mut new_section: Option<String> = None;
    if let Some(q) = &opts.section {
        match find_section_id(&cache.sections, q.as_str(), target.as_str()) {
            Some(sid) => {
                let same = match &item.section_id {
                    Some(cur_s) => str_eq(cur_s.as_str(), sid.as_str()),
                    None => false,
                };
                if !same {
                    new_section = Some(sid);
                    push_field(&mut fields, field("section"));
                }
            },
            None => {
                let mut m = string_of("Section not found: ");
                push_str(&mut m, q.as_str());
                push_str(&mut m, " (in project)");
                return Err(CommandError::Config(m));
            },
        }
    }
    let move_to = if new_project.is_some() || new_section.is_some() {
        Some(ItemMove { project_id: new_project, section_id: new_section })
    } else {
        None
    };
    assert(views(fields@) =~= (if new_project is Some {
        seq!["project"@]
    } else {
        Seq::<Seq<char>>::empty()
    }) + (if new_section is Some {
        seq!["section"@]
    } else {
        Seq::<Seq<char>>::empty()
    }));
    Ok((move_to, fields))
}

/// Computes what an edit sends: the `item_update` fields, the `item_move`
/// destination, and the names of the changed fields.
pub fn plan_edit(opts: &EditOptions, item: &Item, cache: &Cache) -> (r: Result<EditPlan>)
    requires
        opts.priority matches Some(p) ==> p <= 5,
    ensures
        plan_edit_spec(*opts, *item, *cache, r),
{
    let (update, mut fields) = plan_update(opts, item);
    let ghost ufields = views(fields@);
    match plan_move(opts, item, cache) {
        Err(e) => Err(e),
        Ok((move_to, mf)) => {
            let mut k: usize = 0;
            while k < mf.len()
                invariant
                    k <= mf.len(),
                    views(fields@) == ufields + views(mf@).take(k as int),
                decreases mf.len() - k,
            {
                push_field(&mut fields, mf[k].clone());
                assert(views(mf@).take(k + 1) =~= views(mf@).take(k as int).push(mf@[k as int]@));
                assert(views(fields@) =~= ufields + views(mf@).take(k + 1));
                k = k + 1;
            }
            assert(views(mf@).take(mf@.len() as int) =~= views(mf@));
            assert(views(fields@).take(ufields.len() as int) =~= ufields);
            assert(views(fields@).skip(ufields.len() as int) =~= views(mf@));
            Ok(EditPlan { update, move_to, updated_fields: fields })
        },
    }
}

/// The content an edit reports: the new content where one was given, else
/// the task's current content.
pub fn edited_content(opts: &EditOptions, item: &Item) -> (r: String)
    ensures
        r@ == match opts.content {
            Some(c) => c@,
            None => item.content@,
        },
{
    match &opts.content {
        Some(c) => string_of(c.as_str()),
        None => string_of(item.content.as_str()),
    }
}

/// `--add-label L` keeps every label the task has and appends `L` when the
/// task lacks it; the task's labels are sent unchanged when it already has it.
pub proof fn law_add_label_keeps_labels(o: EditOptions, item: Item, cache: Cache, plan: EditPlan)
    requires
        plan_edit_spec(o, item, cache, Ok(plan)),
        o.labels@.len() == 0,
        o.add_label is Some,
        o.remove_label is None,
    ensures
        plan.update matches Some(u) && u.labels matches Some(v) && ({
            let current = views(item.labels@);
            let l = o.add_label->0@;
            &&& forall|k: int| 0 <= k < current.len() ==> views(v@).contains(#[trigger] current[k])
            &&& views(v@).contains(l)
            &&& !current.contains(l) ==> views(v@) == current + seq![l]
            &&& current.contains(l) ==> views(v@) == current
        }),
{
    let current = views(item.labels@);
    let l = o.add_label->0@;
    let u = plan.update->0;
    let v = u.labels->0;
    assert(views(v@) == labels_after_add(current, o.add_label));
    if !current.contains(l) {
        assert(current.push(l) =~= current + seq![l]);
        assert(views(v@)[current.len() as int] == l);
        assert forall|k: int| 0 <= k < current.len() implies views(v@).contains(#[trigger] current[k]) by {
            assert(views(v@)[k] == current[k]);
        }
    } else {
        assert forall|k: int| 0 <= k < current.len() implies views(v@).contains(#[trigger] current[k]) by {
            assert(views(v@)[k] == current[k]);
        }
    }
}

} // verus!
