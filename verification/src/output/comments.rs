//! Comment output: the table, and the records behind the JSON output.

use vstd::prelude::*;
use crate::commands::comments::{Comment, CommentAddResult, CommentDeleteResult, CommentEditResult, str_opt};
use crate::commands::entities::opt_chars;
use crate::commands::lookup::{item_by_id, item_content_of, project_by_id, project_name_of};
use crate::dates::{find_char, find_char_in, format_datetime, is_rfc3339};
use crate::model::Cache;
use crate::output::helpers::{
    attached_line, attached_line_spec, context_line, header_line, opt_str, push_context, push_header, truncate_id,
    truncate_id_spec, truncate_spec, truncate_str,
};
use crate::text::{
    byte_len, chars_of, is_ascii_text, lemma_ascii_byte_len, pad_right, push_padded, push_range, push_str, string_of,
};

verus! {

/// JSON record of the comments list.
pub struct CommentsListOutput<'a> {
    pub comments: Vec<CommentListOutput<'a>>,
}

/// JSON record of one comment, with what it belongs to.
pub struct CommentListOutput<'a> {
    pub id: &'a str,
    pub content: &'a str,
    pub posted_at: Option<&'a str>,
    pub parent_id: &'a str,
    pub parent_type: &'static str,
    pub parent_name: Option<&'a str>,
}

/// The ID of a comment.
pub open spec fn comment_id(c: Comment) -> Seq<char> {
    match c {
        Comment::Task(n) => n.id@,
        Comment::Project(n) => n.id@,
    }
}

/// The text of a comment.
pub open spec fn comment_text(c: Comment) -> Seq<char> {
    match c {
        Comment::Task(n) => n.content@,
        Comment::Project(n) => n.content@,
    }
}

/// The ID of what a comment belongs to.
pub open spec fn comment_parent(c: Comment) -> Seq<char> {
    match c {
        Comment::Task(n) => n.item_id@,
        Comment::Project(n) => n.project_id@,
    }
}

/// `task` or `project`.
pub open spec fn parent_kind(is_task: bool) -> Seq<char> {
    if is_task {
        "task"@
    } else {
        "project"@
    }
}

/// `o` is the record of comment `c`: a task comment names its task's
/// content, a project comment its project's name, as found in the cache.
pub open spec fn comment_output_of(o: CommentListOutput, c: Comment, cache: Cache) -> bool {
    &&& o.id@ == comment_id(c)
    &&& o.content@ == comment_text(c)
    &&& str_opt(o.posted_at) == opt_chars(c.posted_spec())
    &&& o.parent_id@ == comment_parent(c)
    &&& o.parent_type@ == parent_kind(c is Task)
    &&& str_opt(o.parent_name) == if c is Task {
        item_content_of(cache.items@, comment_parent(c))
    } else {
        project_name_of(cache.projects@, comment_parent(c))
    }
}

fn kind_str(is_task: bool) -> (r: &'static str)
    ensures
        r@ == parent_kind(is_task),
{
    if is_task {
        "task"
    } else {
        "project"
    }
}

/// The record of one comment.
pub fn comment_list_output<'a>(c: &'a Comment, cache: &'a Cache) -> (r: CommentListOutput<'a>)
    ensures
        comment_output_of(r, *c, *cache),
{
    let is_task = c.is_task_comment();
    let parent_name = if is_task {
        match item_by_id(&cache.items, c.parent_id()) {
            Some(i) => Some(i.content.as_str()),
            None => None,
        }
    } else {
        match project_by_id(&cache.projects, c.parent_id()) {
            Some(p) => Some(p.name.as_str()),
            None => None,
        }
    };
    CommentListOutput {
        id: c.id(),
        content: c.content(),
        posted_at: c.posted_at(),
        parent_id: c.parent_id(),
        parent_type: kind_str(is_task),
        parent_name,
    }
}

/// The record of a comments list: one record per comment, in order.
pub fn comments_list_output<'a>(comments: &'a [Comment], cache: &'a Cache) -> (r: CommentsListOutput<'a>)
    ensures
        r.comments@.len() == comments@.len(),
        forall|k: int| 0 <= k < comments@.len() ==> comment_output_of(#[trigger] r.comments@[k], comments@[k], *cache),
{
    let mut out: Vec<CommentListOutput<'a>> = Vec::new();
    let mut i: usize = 0;
    while i < comments.len()
        invariant
            i <= comments@.len(),
            out@.len() == i,
            forall|k: int| 0 <= k < i ==> comment_output_of(#[trigger] out@[k], comments@[k], *cache),
        decreases comments.len() - i,
    {
        out.push(comment_list_output(&comments[i], cache));
        i = i + 1;
    }
    CommentsListOutput { comments: out }
}

/// JSON record of a created comment.
pub struct CreatedCommentOutput<'a> {
    pub id: &'a str,
    pub content: &'a str,
    pub parent_id: &'a str,
    pub parent_type: &'static str,
    pub parent_name: Option<&'a str>,
}

/// The record of a created comment.
pub fn created_comment_output<'a>(result: &'a CommentAddResult) -> (r: CreatedCommentOutput<'a>)
    ensures
        r.id@ == result.id@,
        r.content@ == result.content@,
        r.parent_id@ == result.parent_id@,
        r.parent_type@ == parent_kind(result.is_task_comment),
        str_opt(r.parent_name) == opt_chars(result.parent_name),
{
    CreatedCommentOutput {
        id: result.id.as_str(),
        content: result.content.as_str(),
        parent_id: result.parent_id.as_str(),
        parent_type: kind_str(result.is_task_comment),
        parent_name: opt_str(&result.parent_name),
    }
}

/// JSON record of an edited comment.
pub struct EditedCommentOutput<'a> {
    pub id: &'a str,
    pub content: &'a str,
    pub parent_id: &'a str,
    pub parent_type: &'static str,
    pub parent_name: Option<&'a str>,
}

/// The record of an edited comment.
pub fn edited_comment_output<'a>(result: &'a CommentEditResult) -> (r: EditedCommentOutput<'a>)
    ensures
        r.id@ == result.id@,
        r.content@ == result.content@,
        r.parent_id@ == result.parent_id@,
        r.parent_type@ == parent_kind(result.is_task_comment),
        str_opt(r.parent_name) == opt_chars(result.parent_name),
{
    EditedCommentOutput {
        id: result.id.as_str(),
        content: result.content.as_str(),
        parent_id: result.parent_id.as_str(),
        parent_type: kind_str(result.is_task_comment),
        parent_name: opt_str(&result.parent_name),
    }
}

/// JSON record of a deleted comment.
pub struct DeletedCommentOutput<'a> {
    pub id: &'a str,
    pub content: &'a str,
    pub parent_id: &'a str,
    pub parent_type: &'static str,
    pub parent_name: Option<&'a str>,
    pub status: &'static str,
}

/// The record of a deleted comment, with status `deleted`.
pub fn deleted_comment_output<'a>(result: &'a CommentDeleteResult) -> (r: DeletedCommentOutput<'a>)
    ensures
        r.id@ == result.id@,
        r.content@ == result.content@,
        r.parent_id@ == result.parent_id@,
        r.parent_type@ == parent_kind(result.is_task_comment),
        str_opt(r.parent_name) == opt_chars(result.parent_name),
        r.status@ == "deleted"@,
{
    DeletedCommentOutput {
        id: result.id.as_str(),
        content: result.content.as_str(),
        parent_id: result.parent_id.as_str(),
        parent_type: kind_str(result.is_task_comment),
        parent_name: opt_str(&result.parent_name),
        status: "deleted",
    }
}

/// The first line of a text (`lines().next()`, or nothing): up to the first
/// line feed, without a carriage return just before it.
pub open spec fn first_line(s: Seq<char>) -> Seq<char> {
    let i = find_char(s, '\n', 0);
    if 0 < i < s.len() && s[i - 1] == '\r' {
        s.take(i - 1)
    } else {
        s.take(i)
    }
}

/// The first line of a text.
pub fn first_line_of(s: &str) -> (r: String)
    ensures
        r@ == first_line(s@),
{
    let v = chars_of(s);
    let i = find_char_in(&v, '\n', 0);
    let mut r = String::new();
    if 0 < i && i < v.len() && v[i - 1] == '\r' {
        push_range(&mut r, &v, 0, i - 1);
    } else {
        push_range(&mut r, &v, 0, i);
    }
    assert(v@.subrange(0, i as int) =~= v@.take(i as int));
    assert(i > 0 ==> v@.subrange(0, i - 1) =~= v@.take(i - 1));
    r
}

/// The column header of the comments table.
pub open spec fn comments_header() -> Seq<char> {
    "ID       Posted               Content"@
}

/// One row of the comments table: ID, the posting time as shown (`posted`),
/// cut to 20 bytes, and the first line of the text cut to 50.
pub open spec fn comment_row(c: Comment, posted: Seq<char>) -> Seq<char> {
    pad_right(truncate_id_spec(comment_id(c)), 8) + " "@ + pad_right(truncate_spec(posted, 20), 20) + " "@
        + truncate_spec(first_line(comment_text(c)), 50) + "\n"@
}

/// The rows of the comments table.
pub open spec fn comment_rows(cs: Seq<Comment>, posted: Seq<Seq<char>>) -> Seq<char>
    decreases cs.len(),
{
    if cs.len() == 0 {
        Seq::empty()
    } else {
        comment_rows(cs.drop_last(), posted) + comment_row(cs.last(), posted[cs.len() - 1])
    }
}

/// The comments table, with `posted[k]` shown as the time of comment `k`:
/// a notice when there are none, else the context line when a parent name
/// is given, the header, and a row per comment in the order given.
pub open spec fn comments_table(
    cs: Seq<Comment>,
    parent_name: Option<Seq<char>>,
    posted: Seq<Seq<char>>,
    use_colors: bool,
) -> Seq<char> {
    if cs.len() == 0 {
        "No comments found.\n"@
    } else {
        (match parent_name {
            Some(n) => context_line("Comments for: "@ + n, use_colors),
            None => Seq::empty(),
        }) + header_line(comments_header(), use_colors) + comment_rows(cs, posted)
    }
}


fn comment_row_text(c: &Comment, posted: &str) -> (r: String)
    ensures
        r@ == comment_row(*c, posted@),
{
    let mut r = String::new();
    let idp = truncate_id(c.id());
    push_padded(&mut r, idp.as_str(), 8);
    push_str(&mut r, " ");
    let p = truncate_str(posted, 20);
    push_padded(&mut r, p.as_str(), 20);
    push_str(&mut r, " ");
    let line = first_line_of(c.content());
    let shown = truncate_str(line.as_str(), 50);
    push_str(&mut r, shown.as_str());
    push_str(&mut r, "\n");
    r
}

/// Formats comments as a table, with `posted[k]` shown as the time of
/// comment `k`.
pub fn format_comments_table_with(
    comments: &[Comment],
    parent_name: Option<&str>,
    posted: &Vec<String>,
    use_colors: bool,
) -> (s: String)
    requires
        posted@.len() == comments@.len(),
    ensures
        s@ == comments_table(comments@, str_opt(parent_name), posted@.map_values(|p: String| p@), use_colors),
{
    let ghost ps = posted@.map_values(|p: String| p@);
    if comments.len() == 0 {
        return string_of("No comments found.\n");
    }
    let mut s = String::new();
    if let Some(n) = parent_name {
        push_context(&mut s, "Comments for: ", n, use_colors);
    }
    push_header(&mut s, "ID       Posted               Content", use_colors);
    let ghost head = s@;
    let mut i: usize = 0;
    while i < comments.len()
        invariant
            i <= comments@.len(),
            posted@.len() == comments@.len(),
            ps == posted@.map_values(|p: String| p@),
            s@ == head + comment_rows(comments@.take(i as int), ps),
        decreases comments.len() - i,
    {
        let row = comment_row_text(&comments[i], posted[i].as_str());
        push_str(&mut s, row.as_str());
        assert(comments@.take(i + 1).drop_last() =~= comments@.take(i as int));
        i = i + 1;
    }
    assert(comments@.take(comments.len() as int) =~= comments@);
    s
}

/// How the table may show the posting time `t`: nothing when there is none;
/// the text as it is unless chrono reads it as RFC 3339; else a local time
/// of at most 19 ASCII characters.
pub open spec fn stamp_shown(t: Option<String>, p: Seq<char>) -> bool {
    match t {
        None => p == Seq::<char>::empty(),
        Some(x) => if is_rfc3339(x@) {
            p.len() <= 19 && is_ascii_text(p)
        } else {
            p == x@
        },
    }
}


fn posted_text(c: &Comment) -> (p: String)
    ensures
        stamp_shown(c.posted_spec(), p@),
{
    match c.posted_at() {
        Some(t) => format_datetime(t),
        None => String::new(),
    }
}

/// Formats comments as a table, posting times shown in local time.
pub fn format_comments_table(comments: &[Comment], parent_name: Option<&str>, use_colors: bool) -> (s: String)
    ensures
        exists|posted: Seq<Seq<char>>|
            posted.len() == comments@.len() && (forall|k: int|
                0 <= k < comments@.len() ==> stamp_shown(comments@[k].posted_spec(), #[trigger] posted[k]))
                && s@ == comments_table(comments@, str_opt(parent_name), posted, use_colors),
{
    let mut posted: Vec<String> = Vec::new();
    let mut i: usize = 0;
    while i < comments.len()
        invariant
            i <= comments@.len(),
            posted@.len() == i,
            forall|k: int|
                0 <= k < i ==> stamp_shown(comments@[k].posted_spec(), #[trigger] posted@[k]@)
        decreases comments.len() - i,
    {
        let p = posted_text(&comments[i]);
        proof {
            if is_ascii_text(p@) {
                lemma_ascii_byte_len(p@);
            }
        }
        posted.push(p);
        i = i + 1;
    }
    let s = format_comments_table_with(comments, parent_name, &posted, use_colors);
    let ghost ps = posted@.map_values(|p: String| p@);
    assert forall|k: int| 0 <= k < comments@.len() implies stamp_shown(comments@[k].posted_spec(), #[trigger] ps[k]) by {}
    s
}

/// How the parent of a comment is shown: its name, else its ID.
pub open spec fn parent_shown(parent_name: Option<String>, parent_id: String) -> Seq<char> {
    match parent_name {
        Some(n) => n@,
        None => parent_id@,
    }
}

fn parent_text<'a>(parent_name: &'a Option<String>, parent_id: &'a String) -> (r: &'a str)
    ensures
        r@ == parent_shown(*parent_name, *parent_id),
{
    match parent_name {
        Some(n) => n.as_str(),
        None => parent_id.as_str(),
    }
}

/// The short line after adding a comment: its short ID, where it went, and a
/// preview of at most 40 bytes of its content.
pub fn comment_added_line(r: &CommentAddResult) -> (s: String)
    ensures
        s@ == attached_line_spec(
            "Added comment"@,
            r.id@,
            "to "@,
            parent_shown(r.parent_name, r.parent_id),
            Some(truncate_spec(r.content@, 40)),
        ),
{
    let preview = truncate_str(r.content.as_str(), 40);
    attached_line("Added comment", r.id.as_str(), "to ", parent_text(&r.parent_name, &r.parent_id), Some(preview.as_str()))
}

/// The short line after editing a comment: its short ID, where it is, and a
/// preview of at most 40 bytes of its new content.
pub fn comment_updated_line(r: &CommentEditResult) -> (s: String)
    ensures
        s@ == attached_line_spec(
            "Updated comment"@,
            r.id@,
            "on "@,
            parent_shown(r.parent_name, r.parent_id),
            Some(truncate_spec(r.content@, 40)),
        ),
{
    let preview = truncate_str(r.content.as_str(), 40);
    attached_line("Updated comment", r.id.as_str(), "on ", parent_text(&r.parent_name, &r.parent_id), Some(preview.as_str()))
}

} // verus!
