//! `td comments`: the comments (notes) of tasks and projects.

use vstd::prelude::*;
use crate::commands::{CommandError, Result};
use crate::commands::entities::{
    SyncReply, copy_opt, created_as, created_id, live_flags, live_of, new_temp_id, not_deleted_items, opt_chars,
    project_ref_spec, task_ref_spec,
};
pub use crate::commands::entities::{resolve_project_id, resolve_task_id};
use crate::commands::lookup::{item_content_by_id, item_content_of, project_name_by_id, project_name_of};
use crate::model::{Cache, FileAttachment, Item, Note, Project, ProjectNote};
use crate::output::helpers::{truncate_id, truncate_id_spec, truncate_spec, truncate_str};
use crate::resolve::{Keyed, first_exact, ids_of, keys_of, prefix_hits, str_views, exact_index, prefix_hit_list, find_first, first_where, lemma_first_where_stays, lemma_prefix_hits_upto};
use crate::text::{byte_len, decimal, push_str, push_u64, str_byte_len, str_eq, string_of};

verus! {

/// Options for the comments list command.
#[derive(Debug)]
pub struct CommentsListOptions {
    /// Task whose comments are listed (ID or prefix).
    pub task: Option<String>,
    /// Project whose comments are listed (name or ID).
    pub project: Option<String>,
}

impl Default for CommentsListOptions {
    fn default() -> (r: Self)
        ensures
            r.task is None,
            r.project is None,
    {
        CommentsListOptions { task: None, project: None }
    }
}

/// A comment on a task or on a project.
#[derive(Debug, Clone)]
pub enum Comment {
    Task(Note),
    Project(ProjectNote),
}

impl Comment {
    /// The comment's ID.
    pub fn id(&self) -> (r: &str)
        ensures
            r@ == match self {
                Comment::Task(n) => n.id@,
                Comment::Project(n) => n.id@,
            },
    {
        match self {
            Comment::Task(n) => n.id.as_str(),
            Comment::Project(n) => n.id.as_str(),
        }
    }

    /// The comment's text.
    pub fn content(&self) -> (r: &str)
        ensures
            r@ == match self {
                Comment::Task(n) => n.content@,
                Comment::Project(n) => n.content@,
            },
    {
        match self {
            Comment::Task(n) => n.content.as_str(),
            Comment::Project(n) => n.content.as_str(),
        }
    }

    /// When the comment was posted.
    pub fn posted_at(&self) -> (r: Option<&str>)
        ensures
            match r {
                Some(x) => opt_chars(self.posted_spec()) == Some(x@),
                None => self.posted_spec() is None,
            },
    {
        match self {
            Comment::Task(n) => match &n.posted_at {
                Some(p) => Some(p.as_str()),
                None => None,
            },
            Comment::Project(n) => match &n.posted_at {
                Some(p) => Some(p.as_str()),
                None => None,
            },
        }
    }

    /// When the comment was posted.
    pub open spec fn posted_spec(&self) -> Option<String> {
        match self {
            Comment::Task(n) => n.posted_at,
            Comment::Project(n) => n.posted_at,
        }
    }

    /// The task or project the comment belongs to.
    pub fn parent_id(&self) -> (r: &str)
        ensures
            r@ == match self {
                Comment::Task(n) => n.item_id@,
                Comment::Project(n) => n.project_id@,
            },
    {
        match self {
            Comment::Task(n) => n.item_id.as_str(),
            Comment::Project(n) => n.project_id.as_str(),
        }
    }

    /// Whether the comment belongs to a task.
    pub fn is_task_comment(&self) -> (r: bool)
        ensures
            r == (self is Task),
    {
        match self {
            Comment::Task(_) => true,
            Comment::Project(_) => false,
        }
    }
}

/// The message for listing comments of nothing.
pub open spec fn list_target_required() -> Seq<char> {
    "Either --task or --project is required to list comments."@
}

/// Listing needs a task or a project.
pub fn check_list_target(opts: &CommentsListOptions) -> (r: Result<()>)
    ensures
        opts.task is None && opts.project is None ==> (r matches Err(CommandError::Config(m)) && m@
            == list_target_required()),
        !(opts.task is None && opts.project is None) ==> r is Ok,
{
    if opts.task.is_none() && opts.project.is_none() {
        return Err(CommandError::Config(string_of("Either --task or --project is required to list comments.")));
    }
    Ok(())
}

/// The content of the first task comment, else project comment, with this ID; else nothing.
pub open spec fn comment_content_spec(cache: Cache, id: Seq<char>) -> Seq<char> {
    match find_first(cache.notes@, |n: Note| n.id@ == id) {
        Some(n) => n.content@,
        None => match find_first(cache.project_notes@, |n: ProjectNote| n.id@ == id) {
            Some(n) => n.content@,
            None => Seq::empty(),
        },
    }
}

/// Gets the content of a comment by ID (deleted ones included), or an empty string.
pub fn get_comment_content(cache: &Cache, comment_id: &str) -> (r: String)
    ensures
        r@ == comment_content_spec(*cache, comment_id@),
{
    let ghost p = |n: Note| n.id@ == comment_id@;
    let mut i: usize = 0;
    while i < cache.notes.len()
        invariant
            i <= cache.notes.len(),
            p == (|n: Note| n.id@ == comment_id@),
            first_where(cache.notes@, p, i as int) is None,
        decreases cache.notes.len() - i,
    {
        if str_eq(cache.notes[i].id.as_str(), comment_id) {
            assert(first_where(cache.notes@, p, i + 1) == Some(i as int));
            proof {
                lemma_first_where_stays(cache.notes@, p, i + 1, cache.notes@.len() as int);
            }
            return string_of(cache.notes[i].content.as_str());
        }
        i = i + 1;
    }
    let ghost q = |n: ProjectNote| n.id@ == comment_id@;
    let mut j: usize = 0;
    while j < cache.project_notes.len()
        invariant
            j <= cache.project_notes.len(),
            q == (|n: ProjectNote| n.id@ == comment_id@),
            first_where(cache.notes@, p, cache.notes@.len() as int) is None,
            p == (|n: Note| n.id@ == comment_id@),
            first_where(cache.project_notes@, q, j as int) is None,
        decreases cache.project_notes.len() - j,
    {
        if str_eq(cache.project_notes[j].id.as_str(), comment_id) {
            assert(first_where(cache.project_notes@, q, j + 1) == Some(j as int));
            proof {
                lemma_first_where_stays(cache.project_notes@, q, j + 1, cache.project_notes@.len() as int);
            }
            return string_of(cache.project_notes[j].content.as_str());
        }
        j = j + 1;
    }
    String::new()
}

} // verus!

verus! {

/// The content of the first task with this ID that is not deleted.
pub open spec fn live_task_content(items: Seq<Item>, id: Seq<char>) -> Option<Seq<char>> {
    match find_first(items, |i: Item| i.id@ == id && !i.is_deleted) {
        Some(i) => Some(i.content@),
        None => None,
    }
}

/// The name of the first project with this ID that is not deleted.
pub open spec fn live_project_name(projects: Seq<Project>, id: Seq<char>) -> Option<Seq<char>> {
    match find_first(projects, |p: Project| p.id@ == id && !p.is_deleted) {
        Some(p) => Some(p.name@),
        None => None,
    }
}

/// The content of the first task with this ID that is not deleted.
pub fn live_task_content_of(items: &Vec<Item>, id: &str) -> (r: Option<String>)
    ensures
        opt_chars(r) == live_task_content(items@, id@),
{
    let ghost p = |i: Item| i.id@ == id@ && !i.is_deleted;
    let mut k: usize = 0;
    while k < items.len()
        invariant
            k <= items.len(),
            p == (|i: Item| i.id@ == id@ && !i.is_deleted),
            first_where(items@, p, k as int) is None,
        decreases items.len() - k,
    {
        if str_eq(items[k].id.as_str(), id) && !items[k].is_deleted {
            assert(first_where(items@, p, k + 1) == Some(k as int));
            proof {
                lemma_first_where_stays(items@, p, k + 1, items@.len() as int);
            }
            return Some(string_of(items[k].content.as_str()));
        }
        k = k + 1;
    }
    None
}

/// The name of the first project with this ID that is not deleted.
pub fn live_project_name_of(projects: &Vec<Project>, id: &str) -> (r: Option<String>)
    ensures
        opt_chars(r) == live_project_name(projects@, id@),
{
    let ghost p = |x: Project| x.id@ == id@ && !x.is_deleted;
    let mut k: usize = 0;
    while k < projects.len()
        invariant
            k <= projects.len(),
            p == (|x: Project| x.id@ == id@ && !x.is_deleted),
            first_where(projects@, p, k as int) is None,
        decreases projects.len() - k,
    {
        if str_eq(projects[k].id.as_str(), id) && !projects[k].is_deleted {
            assert(first_where(projects@, p, k + 1) == Some(k as int));
            proof {
                lemma_first_where_stays(projects@, p, k + 1, projects@.len() as int);
            }
            return Some(string_of(projects[k].name.as_str()));
        }
        k = k + 1;
    }
    None
}

/// A resolved comment: its ID, whether it is a task comment, its parent's
/// ID and its parent's name.
pub type CommentRef = (String, bool, String, Option<String>);

/// A resolved comment as values.
pub open spec fn ref_view(x: CommentRef) -> (Seq<char>, bool, Seq<char>, Option<Seq<char>>) {
    (x.0@, x.1, x.2@, opt_chars(x.3))
}

/// The reference to a task comment.
pub open spec fn task_note_ref(cache: Cache, n: Note) -> (Seq<char>, bool, Seq<char>, Option<Seq<char>>) {
    (n.id@, true, n.item_id@, live_task_content(cache.items@, n.item_id@))
}

/// The reference to a project comment.
pub open spec fn project_note_ref(cache: Cache, n: ProjectNote) -> (Seq<char>, bool, Seq<char>, Option<Seq<char>>) {
    (n.id@, false, n.project_id@, live_project_name(cache.projects@, n.project_id@))
}

/// One line of the ambiguity message.
pub open spec fn note_line(id: Seq<char>, tag: Seq<char>, content: Seq<char>) -> Seq<char> {
    "\n  "@ + truncate_id_spec(id) + " ("@ + tag + "): "@ + truncate_spec(content, 30)
}

/// At most the first three of some matches.
pub open spec fn first3(h: Seq<int>) -> Seq<int> {
    if h.len() > 3 {
        h.take(3)
    } else {
        h
    }
}

/// The lines for matching task comments.
pub open spec fn task_note_lines(notes: Seq<Note>, hits: Seq<int>) -> Seq<char>
    decreases hits.len(),
{
    if hits.len() == 0 {
        Seq::empty()
    } else {
        task_note_lines(notes, hits.drop_last()) + note_line(notes[hits.last()].id@, "task"@, notes[hits.last()].content@)
    }
}

/// The lines for matching project comments.
pub open spec fn project_note_lines(notes: Seq<ProjectNote>, hits: Seq<int>) -> Seq<char>
    decreases hits.len(),
{
    if hits.len() == 0 {
        Seq::empty()
    } else {
        project_note_lines(notes, hits.drop_last()) + note_line(
            notes[hits.last()].id@,
            "project"@,
            notes[hits.last()].content@,
        )
    }
}

/// The message for a comment prefix that several comments match.
pub open spec fn ambiguous_comment(cache: Cache, q: Seq<char>, th: Seq<int>, ph: Seq<int>) -> Seq<char> {
    let total = th.len() + ph.len();
    "Ambiguous comment ID \""@ + q + "\"\n\nMultiple comments match this prefix:"@ + task_note_lines(
        cache.notes@,
        first3(th),
    ) + project_note_lines(cache.project_notes@, first3(ph)) + (if total > 6 {
        "\n  ... and "@ + decimal((total - 6) as nat) + " more"@
    } else {
        Seq::empty()
    }) + "\n\nPlease use a longer prefix."@
}

/// The comment a reference names: a live task comment, then a live project
/// comment, with this ID; else, for references of six bytes or more, the
/// only live comment whose ID starts with it.
pub open spec fn comment_ref_spec(cache: Cache, q: Seq<char>) -> core::result::Result<
    (Seq<char>, bool, Seq<char>, Option<Seq<char>>),
    Seq<char>,
> {
    let tkeys = keys_of(cache.notes@);
    let tlive = live_of(cache.notes@);
    let pkeys = keys_of(cache.project_notes@);
    let plive = live_of(cache.project_notes@);
    match first_exact(tkeys, tlive, q, tkeys.len() as int) {
        Some(i) => Ok(task_note_ref(cache, cache.notes@[i])),
        None => match first_exact(pkeys, plive, q, pkeys.len() as int) {
            Some(i) => Ok(project_note_ref(cache, cache.project_notes@[i])),
            None => {
                let th = prefix_hits(tkeys, tlive, q);
                let ph = prefix_hits(pkeys, plive, q);
                if byte_len(q) >= 6 && th.len() + ph.len() == 1 {
                    if th.len() == 1 {
                        Ok(task_note_ref(cache, cache.notes@[th[0]]))
                    } else {
                        Ok(project_note_ref(cache, cache.project_notes@[ph[0]]))
                    }
                } else if byte_len(q) >= 6 && th.len() + ph.len() > 1 {
                    Err(ambiguous_comment(cache, q, th, ph))
                } else {
                    Err("Comment not found: "@ + q)
                }
            },
        },
    }
}

fn task_ref(cache: &Cache, n: &Note) -> (r: CommentRef)
    ensures
        ref_view(r) == task_note_ref(*cache, *n),
{
    (string_of(n.id.as_str()), true, string_of(n.item_id.as_str()), live_task_content_of(&cache.items, n.item_id.as_str()))
}

fn project_ref(cache: &Cache, n: &ProjectNote) -> (r: CommentRef)
    ensures
        ref_view(r) == project_note_ref(*cache, *n),
{
    (
        string_of(n.id.as_str()),
        false,
        string_of(n.project_id.as_str()),
        live_project_name_of(&cache.projects, n.project_id.as_str()),
    )
}

/// Appends the lines for the first three matching task comments.
fn push_task_note_lines(out: &mut String, notes: &Vec<Note>, hits: &Vec<usize>, Ghost(h): Ghost<Seq<int>>)
    requires
        hits@.len() == h.len(),
        forall|k: int| 0 <= k < hits@.len() ==> hits@[k] as int == #[trigger] h[k],
        forall|k: int| 0 <= k < h.len() ==> 0 <= #[trigger] h[k] < notes@.len(),
    ensures
        final(out)@ == old(out)@ + task_note_lines(notes@, first3(h)),
{
    let n = if hits.len() > 3 {
        3
    } else {
        hits.len()
    };
    let mut k: usize = 0;
    while k < n
        invariant
            n <= hits@.len(),
            n == first3(h).len(),
            hits@.len() == h.len(),
            forall|j: int| 0 <= j < hits@.len() ==> hits@[j] as int == #[trigger] h[j],
            forall|j: int| 0 <= j < h.len() ==> 0 <= #[trigger] h[j] < notes@.len(),
            k <= n,
            out@ == old(out)@ + task_note_lines(notes@, first3(h).take(k as int)),
        decreases n - k,
    {
        assert(hits@[k as int] as int == h[k as int]);
        assert(first3(h)[k as int] == h[k as int]);
        let x = &notes[hits[k]];
        let ghost before = out@;
        push_str(out, "\n  ");
        let idp = truncate_id(x.id.as_str());
        push_str(out, idp.as_str());
        push_str(out, " (");
        push_str(out, "task");
        push_str(out, "): ");
        let c = truncate_str(x.content.as_str(), 30);
        push_str(out, c.as_str());
        assert(first3(h).take(k + 1).drop_last() =~= first3(h).take(k as int));
        assert(first3(h).take(k + 1).last() == h[k as int]);
        assert(out@ =~= before + note_line(x.id@, "task"@, x.content@));
        k = k + 1;
    }
    assert(first3(h).take(n as int) =~= first3(h));
}

/// Appends the lines for the first three matching project comments.
fn push_project_note_lines(out: &mut String, notes: &Vec<ProjectNote>, hits: &Vec<usize>, Ghost(h): Ghost<Seq<int>>)
    requires
        hits@.len() == h.len(),
        forall|k: int| 0 <= k < hits@.len() ==> hits@[k] as int == #[trigger] h[k],
        forall|k: int| 0 <= k < h.len() ==> 0 <= #[trigger] h[k] < notes@.len(),
    ensures
        final(out)@ == old(out)@ + project_note_lines(notes@, first3(h)),
{
    let n = if hits.len() > 3 {
        3
    } else {
        hits.len()
    };
    let mut k: usize = 0;
    while k < n
        invariant
            n <= hits@.len(),
            n == first3(h).len(),
            hits@.len() == h.len(),
            forall|j: int| 0 <= j < hits@.len() ==> hits@[j] as int == #[trigger] h[j],
            forall|j: int| 0 <= j < h.len() ==> 0 <= #[trigger] h[j] < notes@.len(),
            k <= n,
            out@ == old(out)@ + project_note_lines(notes@, first3(h).take(k as int)),
        decreases n - k,
    {
        assert(hits@[k as int] as int == h[k as int]);
        assert(first3(h)[k as int] == h[k as int]);
        let x = &notes[hits[k]];
        let ghost before = out@;
        push_str(out, "\n  ");
        let idp = truncate_id(x.id.as_str());
        push_str(out, idp.as_str());
        push_str(out, " (");
        push_str(out, "project");
        push_str(out, "): ");
        let c = truncate_str(x.content.as_str(), 30);
        push_str(out, c.as_str());
        assert(first3(h).take(k + 1).drop_last() =~= first3(h).take(k as int));
        assert(first3(h).take(k + 1).last() == h[k as int]);
        assert(out@ =~= before + note_line(x.id@, "project"@, x.content@));
        k = k + 1;
    }
    assert(first3(h).take(n as int) =~= first3(h));
}

/// Resolves a comment ID among task and project comments.
pub fn resolve_comment(cache: &Cache, comment_id: &str) -> (r: Result<CommentRef>)
    ensures
        match comment_ref_spec(*cache, comment_id@) {
            Ok(t) => r matches Ok(x) && ref_view(x) == t,
            Err(m) => r matches Err(CommandError::Config(e)) && e@ == m,
        },
{
    let tids = ids_of(&cache.notes);
    let tlive = live_flags(&cache.notes);
    let pids = ids_of(&cache.project_notes);
    let plive = live_flags(&cache.project_notes);
    assert(str_views(tids@) =~= keys_of(cache.notes@));
    assert(str_views(pids@) =~= keys_of(cache.project_notes@));
    proof {
        crate::resolve::lemma_first_exact(keys_of(cache.notes@), live_of(cache.notes@), comment_id@, cache.notes@.len() as int);
        crate::resolve::lemma_first_exact(
            keys_of(cache.project_notes@),
            live_of(cache.project_notes@),
            comment_id@,
            cache.project_notes@.len() as int,
        );
    }
    if let Some(i) = exact_index(&tids, &tlive, comment_id) {
        return Ok(task_ref(cache, &cache.notes[i]));
    }
    if let Some(i) = exact_index(&pids, &plive, comment_id) {
        return Ok(project_ref(cache, &cache.project_notes[i]));
    }
    let long = str_byte_len(comment_id) >= 6;
    let th = prefix_hit_list(&tids, &tlive, comment_id);
    let ph = prefix_hit_list(&pids, &plive, comment_id);
    let ghost gth = prefix_hits(keys_of(cache.notes@), live_of(cache.notes@), comment_id@);
    let ghost gph = prefix_hits(keys_of(cache.project_notes@), live_of(cache.project_notes@), comment_id@);
    proof {
        lemma_prefix_hits_upto(keys_of(cache.notes@), live_of(cache.notes@), comment_id@, cache.notes@.len() as int);
        lemma_prefix_hits_upto(
            keys_of(cache.project_notes@),
            live_of(cache.project_notes@),
            comment_id@,
            cache.project_notes@.len() as int,
        );
    }
    if long && th.len() as u128 + ph.len() as u128 == 1 {
        if th.len() == 1 {
            return Ok(task_ref(cache, &cache.notes[th[0]]));
        } else {
            return Ok(project_ref(cache, &cache.project_notes[ph[0]]));
        }
    }
    if long && th.len() as u128 + ph.len() as u128 > 1 {
        let mut m = string_of("Ambiguous comment ID \"");
        push_str(&mut m, comment_id);
        push_str(&mut m, "\"\n\nMultiple comments match this prefix:");
        push_task_note_lines(&mut m, &cache.notes, &th, Ghost(gth));
        push_project_note_lines(&mut m, &cache.project_notes, &ph, Ghost(gph));
        let total: u128 = th.len() as u128 + ph.len() as u128;
        if total > 6 {
            push_str(&mut m, "\n  ... and ");
            crate::text::push_u128(&mut m, total - 6);
            push_str(&mut m, " more");
        }
        push_str(&mut m, "\n\nPlease use a longer prefix.");
        return Err(CommandError::Config(m));
    }
    let mut m = string_of("Comment not found: ");
    push_str(&mut m, comment_id);
    Err(CommandError::Config(m))
}

} // verus!

verus! {

use crate::commands::list::{arrange, permuted, kept, reversed};
use crate::sort::{KeyView, SortKey, is_stable_order, key_views};
use crate::text::chars_of;

/// Two optional attachments with the same fields.
pub open spec fn same_attachment(a: Option<FileAttachment>, b: Option<FileAttachment>) -> bool {
    match (a, b) {
        (Some(x), Some(y)) => opt_chars(x.file_name) == opt_chars(y.file_name) && opt_chars(x.file_type) == opt_chars(
            y.file_type,
        ) && opt_chars(x.file_url) == opt_chars(y.file_url),
        (None, None) => true,
        _ => false,
    }
}

/// Two task comments with the same fields.
pub open spec fn same_note(a: Note, b: Note) -> bool {
    a.id@ == b.id@ && a.item_id@ == b.item_id@ && a.content@ == b.content@ && opt_chars(a.posted_at) == opt_chars(
        b.posted_at,
    ) && a.is_deleted == b.is_deleted && opt_chars(a.posted_uid) == opt_chars(b.posted_uid) && same_attachment(
        a.file_attachment,
        b.file_attachment,
    )
}

/// Two project comments with the same fields.
pub open spec fn same_project_note(a: ProjectNote, b: ProjectNote) -> bool {
    a.id@ == b.id@ && a.project_id@ == b.project_id@ && a.content@ == b.content@ && opt_chars(a.posted_at)
        == opt_chars(b.posted_at) && a.is_deleted == b.is_deleted && opt_chars(a.posted_uid) == opt_chars(
        b.posted_uid,
    ) && same_attachment(a.file_attachment, b.file_attachment)
}

/// Two comments with the same fields.
pub open spec fn same_comment(a: Comment, b: Comment) -> bool {
    match (a, b) {
        (Comment::Task(x), Comment::Task(y)) => same_note(x, y),
        (Comment::Project(x), Comment::Project(y)) => same_project_note(x, y),
        _ => false,
    }
}

fn copy_attachment(a: &Option<FileAttachment>) -> (r: Option<FileAttachment>)
    ensures
        same_attachment(r, *a),
{
    match a {
        Some(x) => Some(
            FileAttachment {
                file_name: copy_opt(&x.file_name),
                file_type: copy_opt(&x.file_type),
                file_url: copy_opt(&x.file_url),
            },
        ),
        None => None,
    }
}

/// A copy of a comment.
pub fn copy_comment(c: &Comment) -> (r: Comment)
    ensures
        same_comment(r, *c),
{
    match c {
        Comment::Task(n) => Comment::Task(
            Note {
                id: string_of(n.id.as_str()),
                item_id: string_of(n.item_id.as_str()),
                content: string_of(n.content.as_str()),
                posted_at: copy_opt(&n.posted_at),
                is_deleted: n.is_deleted,
                posted_uid: copy_opt(&n.posted_uid),
                file_attachment: copy_attachment(&n.file_attachment),
            },
        ),
        Comment::Project(n) => Comment::Project(
            ProjectNote {
                id: string_of(n.id.as_str()),
                project_id: string_of(n.project_id.as_str()),
                content: string_of(n.content.as_str()),
                posted_at: copy_opt(&n.posted_at),
                is_deleted: n.is_deleted,
                posted_uid: copy_opt(&n.posted_uid),
                file_attachment: copy_attachment(&n.file_attachment),
            },
        ),
    }
}

/// A live comment of task `t`.
pub open spec fn on_task(t: Seq<char>) -> spec_fn(int, Note) -> bool {
    |k: int, n: Note| !n.is_deleted && n.item_id@ == t
}

/// A live comment of project `p`.
pub open spec fn on_project(p: Seq<char>) -> spec_fn(int, ProjectNote) -> bool {
    |k: int, n: ProjectNote| !n.is_deleted && n.project_id@ == p
}

/// The live comments of a task, then those of a project, in cache order.
pub open spec fn comment_selection(cache: Cache, task_id: Option<Seq<char>>, project_id: Option<Seq<char>>) -> Seq<Comment> {
    (match task_id {
        Some(t) => kept(cache.notes@, on_task(t), cache.notes@.len() as int).map_values(|n: Note| Comment::Task(n)),
        None => Seq::empty(),
    }) + (match project_id {
        Some(p) => kept(cache.project_notes@, on_project(p), cache.project_notes@.len() as int).map_values(
            |n: ProjectNote| Comment::Project(n),
        ),
        None => Seq::empty(),
    })
}

/// The key by which comments are ordered: their posting time (none as empty).
pub open spec fn posted_key(c: Comment) -> KeyView {
    match c.posted_spec() {
        Some(p) => (0u8, p@, 0i64),
        None => (0u8, Seq::empty(), 0i64),
    }
}

/// `shown` lists `sel` newest first, equal times keeping their order: the
/// reverse of a stable ascending sort of the reversed selection.
pub open spec fn newest_first(sel: Seq<Comment>, shown: Seq<Comment>) -> bool {
    exists|perm: Seq<int>| #[trigger]
        is_stable_order(posted_keys(sel.reverse()), perm) && shown.len() == sel.len() && forall|k: int|
            0 <= k < shown.len() ==> same_comment(#[trigger] shown[k], permuted(sel.reverse(), perm).reverse()[k])
}

/// The keys of a list of comments.
pub open spec fn posted_keys(s: Seq<Comment>) -> Seq<KeyView> {
    s.map_values(|c: Comment| posted_key(c))
}

/// The characters of an optional string slice.
pub open spec fn str_opt(o: Option<&str>) -> Option<Seq<char>> {
    match o {
        Some(p) => Some(p@),
        None => None,
    }
}

fn comment_key(c: &Comment) -> (k: SortKey)
    ensures
        k.kv() == posted_key(*c),
{
    match c.posted_at() {
        Some(p) => SortKey { group: 0, text: chars_of(p), num: 0 },
        None => SortKey { group: 0, text: Vec::new(), num: 0 },
    }
}

/// The comments of a task and/or a project, newest first.
pub fn filter_comments(cache: &Cache, task_id: Option<&str>, project_id: Option<&str>) -> (r: Vec<Comment>)
    ensures
        newest_first(comment_selection(*cache, str_opt(task_id), str_opt(project_id)), r@),
{
    let ghost sel = comment_selection(*cache, str_opt(task_id), str_opt(project_id));
    let mut list: Vec<Comment> = Vec::new();
    let ghost mut tsel: Seq<Note> = Seq::empty();
    if let Some(tid) = task_id {
        let mut i: usize = 0;
        while i < cache.notes.len()
            invariant
                i <= cache.notes.len(),
                tsel == kept(cache.notes@, on_task(tid@), i as int),
                list@.len() == tsel.len(),
                forall|k: int| 0 <= k < list@.len() ==> same_comment(#[trigger] list@[k], Comment::Task(tsel[k])),
            decreases cache.notes.len() - i,
        {
            let n = &cache.notes[i];
            if !n.is_deleted && str_eq(n.item_id.as_str(), tid) {
                list.push(copy_comment(&Comment::Task(
                    Note {
                        id: string_of(n.id.as_str()),
                        item_id: string_of(n.item_id.as_str()),
                        content: string_of(n.content.as_str()),
                        posted_at: copy_opt(&n.posted_at),
                        is_deleted: n.is_deleted,
                        posted_uid: copy_opt(&n.posted_uid),
                        file_attachment: copy_attachment(&n.file_attachment),
                    },
                )));
                proof {
                    tsel = tsel.push(*n);
                }
            }
            i = i + 1;
        }
    }
    let nt = list.len();
    let ghost mut psel: Seq<ProjectNote> = Seq::empty();
    if let Some(pid) = project_id {
        let mut i: usize = 0;
        while i < cache.project_notes.len()
            invariant
                i <= cache.project_notes.len(),
                nt <= list@.len(),
                psel == kept(cache.project_notes@, on_project(pid@), i as int),
                list@.len() == nt + psel.len(),
                forall|k: int| 0 <= k < nt ==> same_comment(#[trigger] list@[k], Comment::Task(tsel[k])),
                forall|k: int| 0 <= k < psel.len() ==> same_comment(#[trigger] list@[nt + k], Comment::Project(psel[k])),
            decreases cache.project_notes.len() - i,
        {
            let n = &cache.project_notes[i];
            if !n.is_deleted && str_eq(n.project_id.as_str(), pid) {
                list.push(copy_comment(&Comment::Project(
                    ProjectNote {
                        id: string_of(n.id.as_str()),
                        project_id: string_of(n.project_id.as_str()),
                        content: string_of(n.content.as_str()),
                        posted_at: copy_opt(&n.posted_at),
                        is_deleted: n.is_deleted,
                        posted_uid: copy_opt(&n.posted_uid),
                        file_attachment: copy_attachment(&n.file_attachment),
                    },
                )));
                proof {
                    psel = psel.push(*n);
                }
            }
            i = i + 1;
        }
    }
    // `list` holds copies of the selection.
    let ghost tpart = match task_id {
        Some(t) => kept(cache.notes@, on_task(t@), cache.notes@.len() as int),
        None => Seq::empty(),
    };
    let ghost ppart = match project_id {
        Some(p) => kept(cache.project_notes@, on_project(p@), cache.project_notes@.len() as int),
        None => Seq::empty(),
    };
    assert(tsel == tpart);
    assert(psel == ppart);
    assert(sel =~= tsel.map_values(|n: Note| Comment::Task(n)) + psel.map_values(|n: ProjectNote| Comment::Project(n)));
    assert forall|k: int| 0 <= k < list@.len() implies same_comment(#[trigger] list@[k], sel[k]) by {
        if k >= nt {
            assert(same_comment(list@[nt + (k - nt)], Comment::Project(psel[k - nt])));
        }
    }
    let n = list.len();
    let mut rev_idx: Vec<usize> = Vec::new();
    let mut keys: Vec<SortKey> = Vec::new();
    let mut j: usize = 0;
    while j < n
        invariant
            j <= n,
            n == list@.len(),
            n == sel.len(),
            forall|k: int| 0 <= k < list@.len() ==> same_comment(#[trigger] list@[k], sel[k]),
            rev_idx@.len() == j,
            keys@.len() == j,
            forall|k: int| 0 <= k < j ==> #[trigger] rev_idx@[k] == n - 1 - k,
            forall|k: int| 0 <= k < j ==> (#[trigger] keys@[k]).kv() == posted_key(sel.reverse()[k]),
        decreases n - j,
    {
        let idx = n - 1 - j;
        rev_idx.push(idx);
        assert(same_comment(list@[idx as int], sel[idx as int]));
        keys.push(comment_key(&list[idx]));
        j = j + 1;
    }
    assert(key_views(keys@) =~= posted_keys(sel.reverse()));
    let ord = arrange(rev_idx, &keys);
    let ghost perm = choose|perm: Seq<int>| is_stable_order(key_views(keys@), perm) && ord@ == #[trigger] permuted(rev_idx@, perm);
    assert(is_stable_order(posted_keys(sel.reverse()), perm));
    let mut out: Vec<Comment> = Vec::new();
    let mut k: usize = n;
    while k > 0
        invariant
            k <= n,
            n == list@.len(),
            n == sel.len(),
            ord@.len() == n,
            ord@ == permuted(rev_idx@, perm),
            is_stable_order(posted_keys(sel.reverse()), perm),
            forall|i: int| 0 <= i < n ==> #[trigger] rev_idx@[i] == n - 1 - i,
            forall|i: int| 0 <= i < list@.len() ==> same_comment(#[trigger] list@[i], sel[i]),
            out@.len() == n - k,
            forall|i: int| 0 <= i < out@.len() ==> same_comment(#[trigger] out@[i], permuted(sel.reverse(), perm).reverse()[i]),
        decreases k,
    {
        k = k - 1;

        assert(0 <= perm[k as int] < n);
        let src = ord[k];
        assert(src == n - 1 - perm[k as int]);
        out.push(copy_comment(&list[src]));
        assert(permuted(sel.reverse(), perm).reverse()[(n - 1 - k) as int] == sel[n - 1 - perm[k as int]]);
    }
    out
}

} // verus!

verus! {

/// Options for the comments add command.
#[derive(Debug)]
pub struct CommentsAddOptions {
    /// Comment text.
    pub content: String,
    /// Task to comment on (ID or prefix).
    pub task: Option<String>,
    /// Project to comment on (name or ID).
    pub project: Option<String>,
}

/// Result of a successful comment add operation.
#[derive(Debug)]
pub struct CommentAddResult {
    /// The real ID of the created comment.
    pub id: String,
    /// The content of the comment.
    pub content: String,
    /// Whether this is a task comment (vs project comment).
    pub is_task_comment: bool,
    /// The parent ID (task_id or project_id).
    pub parent_id: String,
    /// The parent name (task content or project name).
    pub parent_name: Option<String>,
}

/// The arguments of a `note_add` command: on a task (`item_id`) or on a
/// project (`project_id`).
#[derive(Debug)]
pub struct NoteAdd {
    pub temp_id: String,
    pub is_task_comment: bool,
    pub parent_id: String,
    pub content: String,
    /// The parent's name, for the report.
    pub parent_name: Option<String>,
}

/// What `td comments add` sends: a comment on the task, or on the project.
pub open spec fn note_add_spec(
    cache: Cache,
    o: CommentsAddOptions,
    parent: Result<String>,
    r: Result<NoteAdd>,
) -> bool {
    if o.task is None && o.project is None {
        r matches Err(CommandError::Config(m)) && m@ == "Either --task or --project is required to add a comment."@
    } else if o.task is Some && o.project is Some {
        r matches Err(CommandError::Config(m)) && m@ == "Cannot specify both --task and --project. Choose one."@
    } else {
        &&& (match o.task {
            Some(t) => task_ref_spec(cache.items@, t@, parent),
            None => project_ref_spec(cache.projects@, o.project->0@, parent),
        })
        &&& match parent {
            Err(e) => r == Err::<NoteAdd, CommandError>(e),
            Ok(pid) => r matches Ok(a) && a.is_task_comment == (o.task is Some) && a.parent_id@ == pid@
                && a.content@ == o.content@ && opt_chars(a.parent_name) == (if o.task is Some {
                item_content_of(cache.items@, pid@)
            } else {
                project_name_of(cache.projects@, pid@)
            }),
        }
    }
}

/// Plans `td comments add` against the cache.
pub fn plan_note_add(cache: &Cache, opts: &CommentsAddOptions) -> (r: Result<NoteAdd>)
    ensures
        exists|parent: Result<String>| #[trigger] note_add_spec(*cache, *opts, parent, r),
{
    if opts.task.is_none() && opts.project.is_none() {
        let r: Result<NoteAdd> = Err(
            CommandError::Config(string_of("Either --task or --project is required to add a comment.")),
        );
        assert(note_add_spec(*cache, *opts, vstd::pervasive::arbitrary(), r));
        return r;
    }
    if opts.task.is_some() && opts.project.is_some() {
        let r: Result<NoteAdd> = Err(
            CommandError::Config(string_of("Cannot specify both --task and --project. Choose one.")),
        );
        assert(note_add_spec(*cache, *opts, vstd::pervasive::arbitrary(), r));
        return r;
    }
    let is_task = opts.task.is_some();
    let parent = match &opts.task {
        Some(t) => resolve_task_id(cache, t.as_str()),
        None => match &opts.project {
            Some(p) => resolve_project_id(cache, p.as_str()),
            None => Err(CommandError::Config(String::new())),
        },
    };
    let ghost gp = parent;
    let r = match parent {
        Err(e) => Err(e),
        Ok(pid) => {
            let name = if is_task {
                item_content_by_id(&cache.items, pid.as_str())
            } else {
                project_name_by_id(&cache.projects, pid.as_str())
            };
            Ok(
                NoteAdd {
                    temp_id: new_temp_id(),
                    is_task_comment: is_task,
                    parent_id: pid,
                    content: string_of(opts.content.as_str()),
                    parent_name: name,
                },
            )
        },
    };
    assert(note_add_spec(*cache, *opts, gp, r));
    r
}

/// The created comment, from the API's reply to its `note_add` command.
pub fn note_added(cmd: &NoteAdd, reply: &SyncReply) -> (r: Result<CommentAddResult>)
    ensures
        created_as(
            *reply,
            cmd.temp_id@,
            "Comment"@,
            match r {
                Ok(x) => Ok(x.id@),
                Err(e) => Err(e),
            },
        ),
        r matches Ok(x) ==> x.content@ == cmd.content@ && x.is_task_comment == cmd.is_task_comment && x.parent_id@
            == cmd.parent_id@ && opt_chars(x.parent_name) == opt_chars(cmd.parent_name),
{
    match created_id(reply, cmd.temp_id.as_str(), "Comment") {
        Ok(id) => Ok(
            CommentAddResult {
                id,
                content: string_of(cmd.content.as_str()),
                is_task_comment: cmd.is_task_comment,
                parent_id: string_of(cmd.parent_id.as_str()),
                parent_name: copy_opt(&cmd.parent_name),
            },
        ),
        Err(e) => Err(e),
    }
}

/// Options for the comments edit command.
#[derive(Debug)]
pub struct CommentsEditOptions {
    /// Comment ID (full ID or prefix).
    pub comment_id: String,
    /// New content.
    pub content: String,
}

/// Result of a successful comment edit operation.
#[derive(Debug)]
pub struct CommentEditResult {
    /// The comment ID.
    pub id: String,
    /// The new content.
    pub content: String,
    /// Whether this is a task comment (vs project comment).
    pub is_task_comment: bool,
    /// The parent ID (task_id or project_id).
    pub parent_id: String,
    /// The parent name (task content or project name).
    pub parent_name: Option<String>,
}

/// The report of an edit of a resolved comment to `content`; the
/// `note_update` command sends the comment's ID and the new content.
pub fn comment_edited(c: &CommentRef, opts: &CommentsEditOptions) -> (r: CommentEditResult)
    ensures
        r.id@ == c.0@,
        r.content@ == opts.content@,
        r.is_task_comment == c.1,
        r.parent_id@ == c.2@,
        opt_chars(r.parent_name) == opt_chars(c.3),
{
    CommentEditResult {
        id: string_of(c.0.as_str()),
        content: string_of(opts.content.as_str()),
        is_task_comment: c.1,
        parent_id: string_of(c.2.as_str()),
        parent_name: copy_opt(&c.3),
    }
}

/// Options for the comments delete command.
#[derive(Debug)]
pub struct CommentsDeleteOptions {
    /// Comment ID (full ID or prefix).
    pub comment_id: String,
    /// Skip confirmation.
    pub force: bool,
}

/// Result of a successful comment delete operation.
#[derive(Debug)]
pub struct CommentDeleteResult {
    /// The comment ID.
    pub id: String,
    /// A preview of the deleted comment's content.
    pub content: String,
    /// Whether this was a task comment (vs project comment).
    pub is_task_comment: bool,
    /// The parent ID (task_id or project_id).
    pub parent_id: String,
    /// The parent name (task content or project name).
    pub parent_name: Option<String>,
}

/// The deletion of a resolved comment: without `--force` (and not quiet) it
/// is cancelled; else it goes ahead, reporting the comment with a preview of
/// its content: at most 40 characters, cut with `...`.
pub fn plan_comment_delete(cache: &Cache, c: &CommentRef, opts: &CommentsDeleteOptions, quiet: bool) -> (r: Result<
    CommentDeleteResult,
>)
    ensures
        !opts.force && !quiet ==> (r matches Err(CommandError::Config(m)) && m@ == crate::commands::labels::cancelled_message()),
        opts.force || quiet ==> (r matches Ok(d) && d.id@ == c.0@ && d.content@ == truncate_spec(comment_content_spec(*cache, c.0@), 40)
            && d.is_task_comment == c.1 && d.parent_id@ == c.2@ && opt_chars(d.parent_name) == opt_chars(c.3)),
{
    if !opts.force && !quiet {
        return Err(CommandError::Config(string_of("Operation cancelled. Use --force to confirm.")));
    }
    Ok(
        CommentDeleteResult {
            id: string_of(c.0.as_str()),
            content: truncate_str(get_comment_content(cache, c.0.as_str()).as_str(), 40),
            is_task_comment: c.1,
            parent_id: string_of(c.2.as_str()),
            parent_name: copy_opt(&c.3),
        },
    )
}

/// What a comments command does to a comment.
#[derive(Debug, Clone, Copy, PartialEq, Eq, Structural)]
pub enum NoteAction {
    Add,
    Update,
    Delete,
}

/// The name of the sync command for `action`: the same for task and for
/// project comments.
pub open spec fn note_command_name(action: NoteAction) -> Seq<char> {
    match action {
        NoteAction::Add => "note_add"@,
        NoteAction::Update => "note_update"@,
        NoteAction::Delete => "note_delete"@,
    }
}

/// The sync command a comments command sends for `action`.
pub fn note_command(action: NoteAction) -> (r: &'static str)
    ensures
        r@ == note_command_name(action),
{
    match action {
        NoteAction::Add => "note_add",
        NoteAction::Update => "note_update",
        NoteAction::Delete => "note_delete",
    }
}

} // verus!
