//! `td sections`: listing, adding, editing and deleting sections.

use vstd::prelude::*;
use crate::commands::{CommandError, Result};
use crate::commands::entities::{
    SyncReply, copy_opt, created_as, created_id, first_n, flagged, flagged_in_order, in_order, limit_to,
    live_of, new_temp_id, opt_chars, project_ref_spec, resolve_project_id,
};
use crate::commands::lookup::{find_by_id_or_prefix, found_spec, project_name_by_id, project_name_of};
use crate::commands::show::derefs;
use crate::model::{Cache, Section};
use crate::text::{str_eq, string_of};
use crate::commands::entities::live_flags;

verus! {

/// Options for the sections list command.
#[derive(Debug)]
pub struct SectionsListOptions {
    /// Filter by project (name or ID).
    pub project: Option<String>,
    /// Limit results.
    pub limit: Option<u32>,
}

impl Default for SectionsListOptions {
    fn default() -> (r: Self)
        ensures
            r.project is None,
            r.limit is None,
    {
        SectionsListOptions { project: None, limit: None }
    }
}

/// Whether a section is listed: not deleted, and in the project if one is given.
pub open spec fn section_listed(s: Section, project_id: Option<Seq<char>>) -> bool {
    !s.is_deleted && match project_id {
        Some(p) => s.project_id@ == p,
        None => true,
    }
}

/// The characters of an optional string slice.
pub open spec fn str_opt(o: Option<&str>) -> Option<Seq<char>> {
    match o {
        Some(p) => Some(p@),
        None => None,
    }
}

/// Which sections are listed.
pub open spec fn listed_flags(sections: Seq<Section>, pid: Option<Seq<char>>) -> Seq<bool> {
    sections.map_values(|s: Section| section_listed(s, pid))
}

/// The sections listed, by their order.
pub fn filter_sections<'a>(cache: &'a Cache, project_id: Option<&str>) -> (r: Vec<&'a Section>)
    ensures
        in_order(flagged(cache.sections@, listed_flags(cache.sections@, str_opt(project_id))), derefs(r@)),
{
    let ghost pid = str_opt(project_id);
    let mut flags: Vec<bool> = Vec::new();
    let mut i: usize = 0;
    while i < cache.sections.len()
        invariant
            i <= cache.sections.len(),
            pid == str_opt(project_id),
            flags@ == listed_flags(cache.sections@, pid).take(i as int),
        decreases cache.sections.len() - i,
    {
        let s = &cache.sections[i];
        let keep = !s.is_deleted && match project_id {
            Some(p) => str_eq(s.project_id.as_str(), p),
            None => true,
        };
        flags.push(keep);
        assert(listed_flags(cache.sections@, pid).take(i + 1) =~= listed_flags(cache.sections@, pid).take(i as int).push(keep));
        i = i + 1;
    }
    assert(listed_flags(cache.sections@, pid).take(cache.sections.len() as int) =~= listed_flags(cache.sections@, pid));
    flagged_in_order(&cache.sections, &flags)
}

/// The first `limit` sections.
pub fn apply_limit<'a>(sections: Vec<&'a Section>, opts: &SectionsListOptions) -> (r: Vec<&'a Section>)
    ensures
        r@ == first_n(sections@, opts.limit),
{
    limit_to(sections, opts.limit)
}

/// Finds a section that is not deleted by full ID or unique prefix.
pub fn find_section_by_id_or_prefix<'a>(cache: &'a Cache, id: &str) -> (r: Result<&'a Section>)
    ensures
        found_spec(cache.sections@, live_of(cache.sections@), id@, "section"@, "sections"@, "Section not found"@, r),
{
    let live = live_flags(&cache.sections);
    find_by_id_or_prefix(&cache.sections, &live, id, "section", "sections", "Section not found")
}

/// Options for the sections add command.
#[derive(Debug)]
pub struct SectionsAddOptions {
    /// Section name.
    pub name: String,
    /// Project (name or ID).
    pub project: String,
}

/// Result of a successful section add operation.
#[derive(Debug)]
pub struct SectionAddResult {
    /// The real ID of the created section.
    pub id: String,
    /// The section name.
    pub name: String,
    /// The project ID.
    pub project_id: String,
    /// The project name.
    pub project_name: Option<String>,
}

/// The arguments of a `section_add` command.
#[derive(Debug)]
pub struct SectionAdd {
    pub temp_id: String,
    pub name: String,
    pub project_id: String,
    /// The project's name, for the report.
    pub project_name: Option<String>,
}

/// The `section_add` command: the project is resolved by ID, prefix or name.
pub fn plan_section_add(cache: &Cache, opts: &SectionsAddOptions) -> (r: Result<SectionAdd>)
    ensures
        exists|p: Result<String>| #[trigger] project_ref_spec(cache.projects@, opts.project@, p) && match p {
            Ok(pid) => r matches Ok(a) && a.name@ == opts.name@ && a.project_id@ == pid@ && opt_chars(a.project_name)
                == project_name_of(cache.projects@, pid@),
            Err(e) => r == Err::<SectionAdd, CommandError>(e),
        },
{
    let p = resolve_project_id(cache, opts.project.as_str());
    let ghost gp = p;
    let r = match p {
        Ok(pid) => {
            let name = project_name_by_id(&cache.projects, pid.as_str());
            Ok(SectionAdd { temp_id: new_temp_id(), name: string_of(opts.name.as_str()), project_id: pid, project_name: name })
        },
        Err(e) => Err(e),
    };
    assert(project_ref_spec(cache.projects@, opts.project@, gp));
    r
}

} // verus!

verus! {

/// The created section, from the API's reply to its `section_add` command.
pub fn section_added(cmd: &SectionAdd, reply: &SyncReply) -> (r: Result<SectionAddResult>)
    ensures
        created_as(
            *reply,
            cmd.temp_id@,
            "Section"@,
            match r {
                Ok(x) => Ok(x.id@),
                Err(e) => Err(e),
            },
        ),
        r matches Ok(x) ==> x.name@ == cmd.name@ && x.project_id@ == cmd.project_id@ && opt_chars(x.project_name)
            == opt_chars(cmd.project_name),
{
    match created_id(reply, cmd.temp_id.as_str(), "Section") {
        Ok(id) => Ok(
            SectionAddResult {
                id,
                name: string_of(cmd.name.as_str()),
                project_id: string_of(cmd.project_id.as_str()),
                project_name: copy_opt(&cmd.project_name),
            },
        ),
        Err(e) => Err(e),
    }
}

/// Options for the sections edit command.
#[derive(Debug)]
pub struct SectionsEditOptions {
    /// Section ID (full ID or prefix).
    pub section_id: String,
    /// New name.
    pub name: Option<String>,
}

/// Result of a successful section edit operation.
#[derive(Debug)]
pub struct SectionEditResult {
    /// The section ID.
    pub id: String,
    /// The section name (after edit).
    pub name: String,
    /// Fields that were updated.
    pub updated_fields: Vec<String>,
}

/// The arguments of a `section_update` command.
#[derive(Debug)]
pub struct SectionUpdate {
    pub id: String,
    pub name: Option<String>,
}

/// What `td sections edit` decides before it sends anything.
pub open spec fn section_edit_spec(
    sections: Seq<Section>,
    o: SectionsEditOptions,
    found: core::result::Result<&Section, CommandError>,
    r: Result<(SectionUpdate, SectionEditResult)>,
) -> bool {
    if o.name is None {
        r matches Err(CommandError::Config(m)) && m@ == "No changes specified. Use --name to change the section name."@
    } else {
        &&& found_spec(sections, live_of(sections), o.section_id@, "section"@, "sections"@, "Section not found"@, found)
        &&& match found {
            Err(e) => r == Err::<(SectionUpdate, SectionEditResult), CommandError>(e),
            Ok(s) => r matches Ok(p) && p.0.id@ == s.id@ && opt_chars(p.0.name) == opt_chars(o.name) && p.1.id@
                == s.id@ && p.1.name@ == o.name->0@ && crate::text::views(p.1.updated_fields@) == seq!["name"@],
        }
    }
}

/// Plans `td sections edit` against the cache.
pub fn section_edit(cache: &Cache, opts: &SectionsEditOptions) -> (r: Result<(SectionUpdate, SectionEditResult)>)
    ensures
        exists|found: core::result::Result<&Section, CommandError>| #[trigger]
            section_edit_spec(cache.sections@, *opts, found, r),
{
    let name = match &opts.name {
        None => {
            let r: Result<(SectionUpdate, SectionEditResult)> = Err(
                CommandError::Config(string_of("No changes specified. Use --name to change the section name.")),
            );
            assert(section_edit_spec(cache.sections@, *opts, vstd::pervasive::arbitrary(), r));
            return r;
        },
        Some(n) => n,
    };
    let found = find_section_by_id_or_prefix(cache, opts.section_id.as_str());
    let r = match found {
        Ok(s) => {
            let mut fields: Vec<String> = Vec::new();
            fields.push(string_of("name"));
            assert(crate::text::views(fields@) =~= seq!["name"@]);
            Ok(
                (
                    SectionUpdate { id: string_of(s.id.as_str()), name: copy_opt(&opts.name) },
                    SectionEditResult { id: string_of(s.id.as_str()), name: string_of(name.as_str()), updated_fields: fields },
                ),
            )
        },
        Err(e) => Err(e),
    };
    assert(section_edit_spec(cache.sections@, *opts, found, r));
    r
}

/// Options for the sections delete command.
#[derive(Debug)]
pub struct SectionsDeleteOptions {
    /// Section ID (full ID or prefix).
    pub section_id: String,
    /// Skip confirmation.
    pub force: bool,
}

/// Result of a successful section delete operation.
#[derive(Debug)]
pub struct SectionDeleteResult {
    /// The section ID.
    pub id: String,
    /// The section name.
    pub name: String,
}

/// The deletion of a found section: without `--force` (and not quiet) it
/// is cancelled; else it goes ahead for that section.
pub fn plan_section_delete(s: &Section, opts: &SectionsDeleteOptions, quiet: bool) -> (r: Result<SectionDeleteResult>)
    ensures
        !opts.force && !quiet ==> (r matches Err(CommandError::Config(m)) && m@ == crate::commands::labels::cancelled_message()),
        opts.force || quiet ==> (r matches Ok(d) && d.id@ == s.id@ && d.name@ == s.name@),
{
    if !opts.force && !quiet {
        return Err(CommandError::Config(string_of("Operation cancelled. Use --force to confirm.")));
    }
    Ok(SectionDeleteResult { id: string_of(s.id.as_str()), name: string_of(s.name.as_str()) })
}

/// `td sections list` shows only live sections, and with a project given,
/// only the sections of that project.
pub proof fn law_sections_of_project(sections: Seq<Section>, project_id: Option<Seq<char>>, shown: Seq<Section>)
    requires
        in_order(flagged(sections, listed_flags(sections, project_id)), shown),
    ensures
        forall|j: int| 0 <= j < shown.len() ==> !(#[trigger] shown[j]).is_deleted,
        project_id matches Some(pid) ==> forall|j: int| 0 <= j < shown.len() ==> (#[trigger] shown[j]).project_id@ == pid,
{
    let flags = listed_flags(sections, project_id);
    let p = |s: Section| section_listed(s, project_id);
    crate::commands::entities::lemma_flagged_sat(sections, flags, sections.len() as int, p);
    let sel = flagged(sections, flags);
    assert(sel == crate::commands::entities::flagged_upto(sections, flags, sections.len() as int));
    crate::commands::entities::lemma_in_order_sat(sel, shown, p);
}

} // verus!
