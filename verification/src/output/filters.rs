//! Filter output: the tables, and the records behind the JSON output.

use vstd::prelude::*;
use crate::commands::comments::str_opt;
use crate::commands::entities::opt_chars;
use crate::commands::filters::{FilterAddResult, FilterDeleteResult, FilterEditResult, FilterShowResult};
use crate::model::Filter;
use crate::output::helpers::{
    fav_mark, fav_mark_text, header_line, opt_str, push_header, truncate_id,
    truncate_id_spec, truncate_spec, truncate_str,
};
use crate::style::{bold, bold_text, yellow, yellow_text};
use crate::text::{int_text, pad_right, push_i64, push_padded, push_str, string_of, views};

verus! {

/// JSON record of the filters list.
pub struct FiltersListOutput<'a> {
    pub filters: Vec<FilterOutput<'a>>,
}

/// JSON record of one filter.
pub struct FilterOutput<'a> {
    pub id: &'a str,
    pub name: &'a str,
    pub query: &'a str,
    pub color: Option<&'a str>,
    pub is_favorite: bool,
    pub item_order: i32,
}

/// `o` is the record of filter `f`.
pub open spec fn filter_output_of(o: FilterOutput, f: Filter) -> bool {
    &&& o.id@ == f.id@
    &&& o.name@ == f.name@
    &&& o.query@ == f.query@
    &&& str_opt(o.color) == opt_chars(f.color)
    &&& o.is_favorite == f.is_favorite
    &&& o.item_order == f.item_order
}

/// The record of one filter.
pub fn filter_output<'a>(f: &'a Filter) -> (r: FilterOutput<'a>)
    ensures
        filter_output_of(r, *f),
{
    FilterOutput {
        id: f.id.as_str(),
        name: f.name.as_str(),
        query: f.query.as_str(),
        color: opt_str(&f.color),
        is_favorite: f.is_favorite,
        item_order: f.item_order,
    }
}

/// The record of a filters list: one record per filter, in order.
pub fn filters_list_output<'a>(filters: &[&'a Filter]) -> (r: FiltersListOutput<'a>)
    ensures
        r.filters@.len() == filters@.len(),
        forall|k: int| 0 <= k < filters@.len() ==> filter_output_of(#[trigger] r.filters@[k], *filters@[k]),
{
    let mut out: Vec<FilterOutput<'a>> = Vec::new();
    let mut i: usize = 0;
    while i < filters.len()
        invariant
            i <= filters@.len(),
            out@.len() == i,
            forall|k: int| 0 <= k < i ==> filter_output_of(#[trigger] out@[k], *filters@[k]),
        decreases filters.len() - i,
    {
        out.push(filter_output(filters[i]));
        i = i + 1;
    }
    FiltersListOutput { filters: out }
}

/// The column header of the filters table.
pub open spec fn filters_header() -> Seq<char> {
    "ID       Fav  Name                      Query"@
}

/// One row of the filters table: ID, favourite mark, name cut to 25
/// bytes, query cut to 40.
pub open spec fn filter_row(f: Filter, use_colors: bool) -> Seq<char> {
    pad_right(truncate_id_spec(f.id@), 8) + " "@ + pad_right(fav_mark(f.is_favorite, use_colors), 4) + " "@
        + pad_right(truncate_spec(f.name@, 25), 25) + " "@ + truncate_spec(f.query@, 40) + "\n"@
}

/// The rows of the filters table.
pub open spec fn filter_rows(fs: Seq<&Filter>, use_colors: bool) -> Seq<char>
    decreases fs.len(),
{
    if fs.len() == 0 {
        Seq::empty()
    } else {
        filter_rows(fs.drop_last(), use_colors) + filter_row(*fs.last(), use_colors)
    }
}

/// The filters table: a notice when there are none, else the header and a
/// row per filter, in the order given.
pub open spec fn filters_table(fs: Seq<&Filter>, use_colors: bool) -> Seq<char> {
    if fs.len() == 0 {
        "No filters found.\n"@
    } else {
        header_line(filters_header(), use_colors) + filter_rows(fs, use_colors)
    }
}


fn filter_row_text(f: &Filter, use_colors: bool) -> (s: String)
    ensures
        s@ == filter_row(*f, use_colors),
{
    let mut s = String::new();
    let idp = truncate_id(f.id.as_str());
    push_padded(&mut s, idp.as_str(), 8);
    push_str(&mut s, " ");
    let fav = fav_mark_text(f.is_favorite, use_colors);
    push_padded(&mut s, fav.as_str(), 4);
    push_str(&mut s, " ");
    let name = truncate_str(f.name.as_str(), 25);
    push_padded(&mut s, name.as_str(), 25);
    push_str(&mut s, " ");
    let query = truncate_str(f.query.as_str(), 40);
    push_str(&mut s, query.as_str());
    push_str(&mut s, "\n");
    s
}

/// Formats filters as a table.
pub fn format_filters_table(filters: &[&Filter], use_colors: bool) -> (s: String)
    ensures
        s@ == filters_table(filters@, use_colors),
{
    if filters.len() == 0 {
        return string_of("No filters found.\n");
    }
    let mut s = String::new();
    push_header(&mut s, "ID       Fav  Name                      Query", use_colors);
    let ghost head = s@;
    let mut i: usize = 0;
    while i < filters.len()
        invariant
            i <= filters@.len(),
            s@ == head + filter_rows(filters@.take(i as int), use_colors),
        decreases filters.len() - i,
    {
        let row = filter_row_text(filters[i], use_colors);
        push_str(&mut s, row.as_str());
        assert(filters@.take(i + 1).drop_last() =~= filters@.take(i as int));
        i = i + 1;
    }
    assert(filters@.take(filters.len() as int) =~= filters@);
    s
}

/// JSON record of a created filter.
pub struct CreatedFilterOutput<'a> {
    pub id: &'a str,
    pub name: &'a str,
    pub query: &'a str,
    pub color: Option<&'a str>,
    pub is_favorite: bool,
}

/// The record of a created filter.
pub fn created_filter_output<'a>(result: &'a FilterAddResult) -> (r: CreatedFilterOutput<'a>)
    ensures
        r.id@ == result.id@,
        r.name@ == result.name@,
        r.query@ == result.query@,
        str_opt(r.color) == opt_chars(result.color),
        r.is_favorite == result.is_favorite,
{
    CreatedFilterOutput {
        id: result.id.as_str(),
        name: result.name.as_str(),
        query: result.query.as_str(),
        color: opt_str(&result.color),
        is_favorite: result.is_favorite,
    }
}

/// JSON record of a filter's details.
pub struct FilterDetailsOutput<'a> {
    pub id: &'a str,
    pub name: &'a str,
    pub query: &'a str,
    pub color: Option<&'a str>,
    pub is_favorite: bool,
    pub item_order: i32,
}

/// The record of a filter's details.
pub fn filter_details_output<'a>(result: &'a FilterShowResult) -> (r: FilterDetailsOutput<'a>)
    ensures
        r.id@ == result.filter.id@,
        r.name@ == result.filter.name@,
        r.query@ == result.filter.query@,
        str_opt(r.color) == opt_chars(result.filter.color),
        r.is_favorite == result.filter.is_favorite,
        r.item_order == result.filter.item_order,
{
    let f = &result.filter;
    FilterDetailsOutput {
        id: f.id.as_str(),
        name: f.name.as_str(),
        query: f.query.as_str(),
        color: opt_str(&f.color),
        is_favorite: f.is_favorite,
        item_order: f.item_order,
    }
}

/// The details of a filter: name (label bold when colours are on), ID,
/// query, colour if any, favourite mark if set, and order.
pub open spec fn filter_details(f: Filter, use_colors: bool) -> Seq<char> {
    (if use_colors {
        bold_text("Filter:"@)
    } else {
        "Filter:"@
    }) + " "@ + f.name@ + "\n"@ + "ID: "@ + f.id@ + "\n"@ + "Query: "@ + f.query@ + "\n"@ + (match f.color {
        Some(c) => "Color: "@ + c@ + "\n"@,
        None => Seq::empty(),
    }) + (if f.is_favorite {
        "Favorite: "@ + (if use_colors {
            yellow_text("★ Yes"@)
        } else {
            "Yes"@
        }) + "\n"@
    } else {
        Seq::empty()
    }) + "Order: "@ + int_text(f.item_order as int) + "\n"@
}

/// Formats filter details as a human-readable table.
pub fn format_filter_details_table(result: &FilterShowResult, use_colors: bool) -> (s: String)
    ensures
        s@ == filter_details(result.filter, use_colors),
{
    let f = &result.filter;
    let mut s = if use_colors {
        bold("Filter:")
    } else {
        string_of("Filter:")
    };
    push_str(&mut s, " ");
    push_str(&mut s, f.name.as_str());
    push_str(&mut s, "\nID: ");
    push_str(&mut s, f.id.as_str());
    push_str(&mut s, "\nQuery: ");
    push_str(&mut s, f.query.as_str());
    push_str(&mut s, "\n");
    let ghost a = s@;
    if let Some(c) = &f.color {
        push_str(&mut s, "Color: ");
        push_str(&mut s, c.as_str());
        push_str(&mut s, "\n");
    }
    let ghost b = s@;
    if f.is_favorite {
        push_str(&mut s, "Favorite: ");
        let v = if use_colors {
            yellow("★ Yes")
        } else {
            string_of("Yes")
        };
        push_str(&mut s, v.as_str());
        push_str(&mut s, "\n");
    }
    push_str(&mut s, "Order: ");
    push_i64(&mut s, f.item_order as i64);
    push_str(&mut s, "\n");
    proof {
        reveal_strlit("\nID: ");
        reveal_strlit("ID: ");
        reveal_strlit("\nQuery: ");
        reveal_strlit("Query: ");
        reveal_strlit("\n");
    }
    assert(s@ =~= filter_details(*f, use_colors));
    s
}

/// JSON record of an edited filter.
pub struct EditedFilterOutput<'a> {
    pub id: &'a str,
    pub name: &'a str,
    pub updated_fields: &'a [String],
}

/// The record of an edited filter.
pub fn edited_filter_output<'a>(result: &'a FilterEditResult) -> (r: EditedFilterOutput<'a>)
    ensures
        r.id@ == result.id@,
        r.name@ == result.name@,
        views(r.updated_fields@) == views(result.updated_fields@),
{
    EditedFilterOutput {
        id: result.id.as_str(),
        name: result.name.as_str(),
        updated_fields: result.updated_fields.as_slice(),
    }
}

/// JSON record of a deleted filter.
pub struct DeletedFilterOutput<'a> {
    pub id: &'a str,
    pub name: &'a str,
    pub status: &'static str,
}

/// The record of a deleted filter, with status `deleted`.
pub fn deleted_filter_output<'a>(result: &'a FilterDeleteResult) -> (r: DeletedFilterOutput<'a>)
    ensures
        r.id@ == result.id@,
        r.name@ == result.name@,
        r.status@ == "deleted"@,
{
    DeletedFilterOutput { id: result.id.as_str(), name: result.name.as_str(), status: "deleted" }
}

} // verus!
