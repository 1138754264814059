//! Label output: the table, and the records behind the JSON output.

use vstd::prelude::*;
use crate::commands::comments::str_opt;
use crate::commands::entities::opt_chars;
use crate::commands::labels::{LabelAddResult, LabelDeleteResult, LabelEditResult};
use crate::model::Label;
use crate::output::helpers::{
    fav_mark, fav_mark_text, header_line, opt_str, or_empty, push_header, truncate_id,
    truncate_id_spec, truncate_spec, truncate_str,
};
use crate::text::{pad_right, push_padded, push_str, string_of, views};

verus! {

/// JSON record of the labels list.
pub struct LabelsListOutput<'a> {
    pub labels: Vec<LabelOutput<'a>>,
}

/// JSON record of one label.
pub struct LabelOutput<'a> {
    pub id: &'a str,
    pub name: &'a str,
    pub color: Option<&'a str>,
    pub is_favorite: bool,
    pub item_order: i32,
}

/// `o` is the record of label `l`.
pub open spec fn label_output_of(o: LabelOutput, l: Label) -> bool {
    &&& o.id@ == l.id@
    &&& o.name@ == l.name@
    &&& str_opt(o.color) == opt_chars(l.color)
    &&& o.is_favorite == l.is_favorite
    &&& o.item_order == l.item_order
}

/// The record of one label.
pub fn label_output<'a>(l: &'a Label) -> (r: LabelOutput<'a>)
    ensures
        label_output_of(r, *l),
{
    LabelOutput {
        id: l.id.as_str(),
        name: l.name.as_str(),
        color: opt_str(&l.color),
        is_favorite: l.is_favorite,
        item_order: l.item_order,
    }
}

/// The record of a labels list: one record per label, in order.
pub fn labels_list_output<'a>(labels: &[&'a Label]) -> (r: LabelsListOutput<'a>)
    ensures
        r.labels@.len() == labels@.len(),
        forall|k: int| 0 <= k < labels@.len() ==> label_output_of(#[trigger] r.labels@[k], *labels@[k]),
{
    let mut out: Vec<LabelOutput<'a>> = Vec::new();
    let mut i: usize = 0;
    while i < labels.len()
        invariant
            i <= labels@.len(),
            out@.len() == i,
            forall|k: int| 0 <= k < i ==> label_output_of(#[trigger] out@[k], *labels@[k]),
        decreases labels.len() - i,
    {
        out.push(label_output(labels[i]));
        i = i + 1;
    }
    LabelsListOutput { labels: out }
}

/// The column header of the labels table.
pub open spec fn labels_header() -> Seq<char> {
    "ID       Fav  Name                 Color"@
}

/// One row of the labels table: ID, favourite mark, `@name` cut to 20
/// bytes, colour.
pub open spec fn label_row(l: Label, use_colors: bool) -> Seq<char> {
    pad_right(truncate_id_spec(l.id@), 8) + " "@ + pad_right(fav_mark(l.is_favorite, use_colors), 4) + " "@
        + pad_right(truncate_spec("@"@ + l.name@, 20), 20) + " "@ + or_empty(l.color) + "\n"@
}

/// The rows of the labels table.
pub open spec fn label_rows(ls: Seq<&Label>, use_colors: bool) -> Seq<char>
    decreases ls.len(),
{
    if ls.len() == 0 {
        Seq::empty()
    } else {
        label_rows(ls.drop_last(), use_colors) + label_row(*ls.last(), use_colors)
    }
}

/// The labels table: a notice when there are none, else the header and a
/// row per label, in the order given.
pub open spec fn labels_table(ls: Seq<&Label>, use_colors: bool) -> Seq<char> {
    if ls.len() == 0 {
        "No labels found.\n"@
    } else {
        header_line(labels_header(), use_colors) + label_rows(ls, use_colors)
    }
}


fn label_row_text(l: &Label, use_colors: bool) -> (s: String)
    ensures
        s@ == label_row(*l, use_colors),
{
    let mut s = String::new();
    let idp = truncate_id(l.id.as_str());
    push_padded(&mut s, idp.as_str(), 8);
    push_str(&mut s, " ");
    let fav = fav_mark_text(l.is_favorite, use_colors);
    push_padded(&mut s, fav.as_str(), 4);
    push_str(&mut s, " ");
    let mut name = string_of("@");
    push_str(&mut name, l.name.as_str());
    let shown = truncate_str(name.as_str(), 20);
    push_padded(&mut s, shown.as_str(), 20);
    push_str(&mut s, " ");
    match &l.color {
        Some(c) => push_str(&mut s, c.as_str()),
        None => {},
    }
    push_str(&mut s, "\n");
    s
}

/// Formats labels as a table.
pub fn format_labels_table(labels: &[&Label], use_colors: bool) -> (s: String)
    ensures
        s@ == labels_table(labels@, use_colors),
{
    if labels.len() == 0 {
        return string_of("No labels found.\n");
    }
    let mut s = String::new();
    push_header(&mut s, "ID       Fav  Name                 Color", use_colors);
    let ghost head = s@;
    let mut i: usize = 0;
    while i < labels.len()
        invariant
            i <= labels@.len(),
            s@ == head + label_rows(labels@.take(i as int), use_colors),
        decreases labels.len() - i,
    {
        let row = label_row_text(labels[i], use_colors);
        push_str(&mut s, row.as_str());
        assert(labels@.take(i + 1).drop_last() =~= labels@.take(i as int));
        i = i + 1;
    }
    assert(labels@.take(labels.len() as int) =~= labels@);
    s
}

/// JSON record of a created label.
pub struct CreatedLabelOutput<'a> {
    pub id: &'a str,
    pub name: &'a str,
    pub color: Option<&'a str>,
    pub is_favorite: bool,
}

/// The record of a created label.
pub fn created_label_output<'a>(result: &'a LabelAddResult) -> (r: CreatedLabelOutput<'a>)
    ensures
        r.id@ == result.id@,
        r.name@ == result.name@,
        str_opt(r.color) == opt_chars(result.color),
        r.is_favorite == result.is_favorite,
{
    CreatedLabelOutput {
        id: result.id.as_str(),
        name: result.name.as_str(),
        color: opt_str(&result.color),
        is_favorite: result.is_favorite,
    }
}

/// JSON record of an edited label.
pub struct EditedLabelOutput<'a> {
    pub id: &'a str,
    pub name: &'a str,
    pub updated_fields: &'a [String],
}

/// The record of an edited label.
pub fn edited_label_output<'a>(result: &'a LabelEditResult) -> (r: EditedLabelOutput<'a>)
    ensures
        r.id@ == result.id@,
        r.name@ == result.name@,
        views(r.updated_fields@) == views(result.updated_fields@),
{
    EditedLabelOutput {
        id: result.id.as_str(),
        name: result.name.as_str(),
        updated_fields: result.updated_fields.as_slice(),
    }
}

/// JSON record of a deleted label.
pub struct DeletedLabelOutput<'a> {
    pub id: &'a str,
    pub name: &'a str,
    pub status: &'static str,
}

/// The record of a deleted label, with status `deleted`.
pub fn deleted_label_output<'a>(result: &'a LabelDeleteResult) -> (r: DeletedLabelOutput<'a>)
    ensures
        r.id@ == result.id@,
        r.name@ == result.name@,
        r.status@ == "deleted"@,
{
    DeletedLabelOutput { id: result.id.as_str(), name: result.name.as_str(), status: "deleted" }
}

} // verus!
