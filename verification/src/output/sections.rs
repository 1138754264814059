//! Section output: the table, and the records behind the JSON output.

use vstd::prelude::*;
use crate::commands::comments::str_opt;
use crate::commands::entities::opt_chars;
use crate::commands::lookup::{project_by_id, project_name_of};
use crate::commands::sections::{SectionAddResult, SectionDeleteResult, SectionEditResult};
use crate::model::{Cache, Project, Section};
use crate::output::helpers::{
    header_line, opt_str, push_header, truncate_id, truncate_id_spec, truncate_spec,
    truncate_str,
};
use crate::style::{dimmed, dimmed_text};
use crate::text::{pad_right, push_padded, push_str, string_of, views};

verus! {

/// JSON record of the sections list.
pub struct SectionsListOutput<'a> {
    pub sections: Vec<SectionListOutput<'a>>,
}

/// JSON record of one section, with the name of its project when the
/// cache has it.
pub struct SectionListOutput<'a> {
    pub id: &'a str,
    pub name: &'a str,
    pub project_id: &'a str,
    pub project_name: Option<&'a str>,
    pub section_order: i32,
    pub is_archived: bool,
}

/// `o` is the record of section `s`, among `projects`.
pub open spec fn section_output_of(o: SectionListOutput, s: Section, projects: Seq<Project>) -> bool {
    &&& o.id@ == s.id@
    &&& o.name@ == s.name@
    &&& o.project_id@ == s.project_id@
    &&& str_opt(o.project_name) == project_name_of(projects, s.project_id@)
    &&& o.section_order == s.section_order
    &&& o.is_archived == s.is_archived
}

/// The record of one section.
pub fn section_list_output<'a>(s: &'a Section, cache: &'a Cache) -> (r: SectionListOutput<'a>)
    ensures
        section_output_of(r, *s, cache.projects@),
{
    let project_name = match project_by_id(&cache.projects, s.project_id.as_str()) {
        Some(p) => Some(p.name.as_str()),
        None => None,
    };
    SectionListOutput {
        id: s.id.as_str(),
        name: s.name.as_str(),
        project_id: s.project_id.as_str(),
        project_name,
        section_order: s.section_order,
        is_archived: s.is_archived,
    }
}

/// The record of a sections list: one record per section, in order.
pub fn sections_list_output<'a>(sections: &[&'a Section], cache: &'a Cache) -> (r: SectionsListOutput<'a>)
    ensures
        r.sections@.len() == sections@.len(),
        forall|k: int|
            0 <= k < sections@.len() ==> section_output_of(#[trigger] r.sections@[k], *sections@[k], cache.projects@),
{
    let mut out: Vec<SectionListOutput<'a>> = Vec::new();
    let mut i: usize = 0;
    while i < sections.len()
        invariant
            i <= sections@.len(),
            out@.len() == i,
            forall|k: int| 0 <= k < i ==> section_output_of(#[trigger] out@[k], *sections@[k], cache.projects@),
        decreases sections.len() - i,
    {
        out.push(section_list_output(sections[i], cache));
        i = i + 1;
    }
    SectionsListOutput { sections: out }
}

/// The column header of the sections table.
pub open spec fn sections_header() -> Seq<char> {
    "ID       Name                      Project             "@
}

/// The name column before cutting: archived sections are marked, and
/// dimmed when colours are on.
pub open spec fn section_name_shown(s: Section, use_colors: bool) -> Seq<char> {
    if s.is_archived {
        if use_colors {
            dimmed_text(s.name@ + " [archived]"@)
        } else {
            s.name@ + " [archived]"@
        }
    } else {
        s.name@
    }
}

/// The project column: the project's name cut to 20 bytes, or nothing.
pub open spec fn project_column(s: Section, projects: Seq<Project>) -> Seq<char> {
    match project_name_of(projects, s.project_id@) {
        Some(n) => truncate_spec(n, 20),
        None => Seq::empty(),
    }
}

/// One row of the sections table.
pub open spec fn section_row(s: Section, projects: Seq<Project>, use_colors: bool) -> Seq<char> {
    pad_right(truncate_id_spec(s.id@), 8) + " "@ + pad_right(truncate_spec(section_name_shown(s, use_colors), 25), 25)
        + " "@ + pad_right(project_column(s, projects), 20) + "\n"@
}

/// The rows of the sections table.
pub open spec fn section_rows(ss: Seq<&Section>, projects: Seq<Project>, use_colors: bool) -> Seq<char>
    decreases ss.len(),
{
    if ss.len() == 0 {
        Seq::empty()
    } else {
        section_rows(ss.drop_last(), projects, use_colors) + section_row(*ss.last(), projects, use_colors)
    }
}

/// The sections table: a notice when there are none, else the header and a
/// row per section, in the order given.
pub open spec fn sections_table(ss: Seq<&Section>, projects: Seq<Project>, use_colors: bool) -> Seq<char> {
    if ss.len() == 0 {
        "No sections found.\n"@
    } else {
        header_line(sections_header(), use_colors) + section_rows(ss, projects, use_colors)
    }
}


fn section_row_text(s: &Section, cache: &Cache, use_colors: bool) -> (r: String)
    ensures
        r@ == section_row(*s, cache.projects@, use_colors),
{
    let mut r = String::new();
    let idp = truncate_id(s.id.as_str());
    push_padded(&mut r, idp.as_str(), 8);
    push_str(&mut r, " ");
    let name = if s.is_archived {
        let mut n = string_of(s.name.as_str());
        push_str(&mut n, " [archived]");
        if use_colors {
            dimmed(n.as_str())
        } else {
            n
        }
    } else {
        string_of(s.name.as_str())
    };
    let shown = truncate_str(name.as_str(), 25);
    push_padded(&mut r, shown.as_str(), 25);
    push_str(&mut r, " ");
    let project = match project_by_id(&cache.projects, s.project_id.as_str()) {
        Some(p) => truncate_str(p.name.as_str(), 20),
        None => String::new(),
    };
    push_padded(&mut r, project.as_str(), 20);
    push_str(&mut r, "\n");
    r
}

/// Formats sections as a table.
pub fn format_sections_table(sections: &[&Section], cache: &Cache, use_colors: bool) -> (s: String)
    ensures
        s@ == sections_table(sections@, cache.projects@, use_colors),
{
    if sections.len() == 0 {
        return string_of("No sections found.\n");
    }
    let mut s = String::new();
    push_header(&mut s, "ID       Name                      Project             ", use_colors);
    let ghost head = s@;
    let mut i: usize = 0;
    while i < sections.len()
        invariant
            i <= sections@.len(),
            s@ == head + section_rows(sections@.take(i as int), cache.projects@, use_colors),
        decreases sections.len() - i,
    {
        let row = section_row_text(sections[i], cache, use_colors);
        push_str(&mut s, row.as_str());
        assert(sections@.take(i + 1).drop_last() =~= sections@.take(i as int));
        i = i + 1;
    }
    assert(sections@.take(sections.len() as int) =~= sections@);
    s
}

/// JSON record of a created section.
pub struct CreatedSectionOutput<'a> {
    pub id: &'a str,
    pub name: &'a str,
    pub project_id: &'a str,
    pub project_name: Option<&'a str>,
}

/// The record of a created section.
pub fn created_section_output<'a>(result: &'a SectionAddResult) -> (r: CreatedSectionOutput<'a>)
    ensures
        r.id@ == result.id@,
        r.name@ == result.name@,
        r.project_id@ == result.project_id@,
        str_opt(r.project_name) == opt_chars(result.project_name),
{
    CreatedSectionOutput {
        id: result.id.as_str(),
        name: result.name.as_str(),
        project_id: result.project_id.as_str(),
        project_name: opt_str(&result.project_name),
    }
}

/// JSON record of an edited section.
pub struct EditedSectionOutput<'a> {
    pub id: &'a str,
    pub name: &'a str,
    pub updated_fields: &'a [String],
}

/// The record of an edited section.
pub fn edited_section_output<'a>(result: &'a SectionEditResult) -> (r: EditedSectionOutput<'a>)
    ensures
        r.id@ == result.id@,
        r.name@ == result.name@,
        views(r.updated_fields@) == views(result.updated_fields@),
{
    EditedSectionOutput {
        id: result.id.as_str(),
        name: result.name.as_str(),
        updated_fields: result.updated_fields.as_slice(),
    }
}

/// JSON record of a deleted section.
pub struct DeletedSectionOutput<'a> {
    pub id: &'a str,
    pub name: &'a str,
    pub status: &'static str,
}

/// The record of a deleted section, with status `deleted`.
pub fn deleted_section_output<'a>(result: &'a SectionDeleteResult) -> (r: DeletedSectionOutput<'a>)
    ensures
        r.id@ == result.id@,
        r.name@ == result.name@,
        r.status@ == "deleted"@,
{
    DeletedSectionOutput { id: result.id.as_str(), name: result.name.as_str(), status: "deleted" }
}

} // verus!
