//! `td projects`: listing and adding projects, and the results of the
//! project commands.

use vstd::prelude::*;
use crate::commands::{CommandError, Result};
use crate::commands::edit::{find_project_id, project_id_for};
use crate::commands::entities::{
    SyncReply, check_color, color_error, color_ok, copy_opt, created_as, created_id, first_n, flagged, flagged_in_order,
    in_order, limit_to, new_temp_id, opt_chars,
};
pub use crate::commands::entities::is_valid_color;
use crate::commands::lookup::{project_name_by_id, project_name_of};
use crate::commands::show::derefs;
use crate::model::{Cache, Item, Project, Section};
use crate::text::{push_str, string_of};

verus! {

/// Options for the projects list command.
#[derive(Debug)]
pub struct ProjectsListOptions {
    /// Show as a tree.
    pub tree: bool,
    /// Include archived projects.
    pub archived: bool,
    /// Limit results.
    pub limit: Option<u32>,
}

impl Default for ProjectsListOptions {
    fn default() -> (r: Self)
        ensures
            !r.tree,
            !r.archived,
            r.limit is None,
    {
        ProjectsListOptions { tree: false, archived: false, limit: None }
    }
}

/// Whether a project is listed: never when deleted, archived ones only on request.
pub open spec fn project_listed(p: Project, archived: bool) -> bool {
    !p.is_deleted && (archived || !p.is_archived)
}

/// Which projects are listed.
pub open spec fn listed_projects(projects: Seq<Project>, archived: bool) -> Seq<bool> {
    projects.map_values(|p: Project| project_listed(p, archived))
}

/// The projects listed, by their order.
pub fn filter_projects<'a>(cache: &'a Cache, opts: &ProjectsListOptions) -> (r: Vec<&'a Project>)
    ensures
        in_order(flagged(cache.projects@, listed_projects(cache.projects@, opts.archived)), derefs(r@)),
{
    let mut flags: Vec<bool> = Vec::new();
    let mut i: usize = 0;
    while i < cache.projects.len()
        invariant
            i <= cache.projects.len(),
            flags@ == listed_projects(cache.projects@, opts.archived).take(i as int),
        decreases cache.projects.len() - i,
    {
        let p = &cache.projects[i];
        let keep = !p.is_deleted && (opts.archived || !p.is_archived);
        flags.push(keep);
        assert(listed_projects(cache.projects@, opts.archived).take(i + 1) =~= listed_projects(
            cache.projects@,
            opts.archived,
        ).take(i as int).push(keep));
        i = i + 1;
    }
    assert(listed_projects(cache.projects@, opts.archived).take(cache.projects.len() as int) =~= listed_projects(
        cache.projects@,
        opts.archived,
    ));
    flagged_in_order(&cache.projects, &flags)
}

/// The first `limit` projects.
pub fn apply_limit<'a>(projects: Vec<&'a Project>, opts: &ProjectsListOptions) -> (r: Vec<&'a Project>)
    ensures
        r@ == first_n(projects@, opts.limit),
{
    limit_to(projects, opts.limit)
}

/// Options for the projects add command.
#[derive(Debug)]
pub struct ProjectsAddOptions {
    /// Project name.
    pub name: String,
    /// Project color.
    pub color: Option<String>,
    /// Parent project (name or ID).
    pub parent: Option<String>,
    /// Mark as favorite.
    pub favorite: bool,
}

/// Result of a successful project add operation.
#[derive(Debug)]
pub struct ProjectAddResult {
    /// The real ID of the created project.
    pub id: String,
    /// The project name.
    pub name: String,
    /// The project color.
    pub color: Option<String>,
    /// The parent project ID.
    pub parent_id: Option<String>,
    /// The parent project name.
    pub parent_name: Option<String>,
    /// Whether the project is a favorite.
    pub is_favorite: bool,
}

/// The arguments of a `project_add` command.
#[derive(Debug)]
pub struct ProjectAdd {
    pub temp_id: String,
    pub name: String,
    pub color: Option<String>,
    pub parent_id: Option<String>,
    /// `is_favorite: true` is sent only for a favourite.
    pub is_favorite: bool,
    /// The parent's name, for the report.
    pub parent_name: Option<String>,
}

/// What `td projects add` sends: the parent is found first (by name,
/// ignoring case, or ID), then the colour checked.
pub open spec fn project_add_spec(projects: Seq<Project>, o: ProjectsAddOptions, r: Result<ProjectAdd>) -> bool {
    let parent = match o.parent {
        Some(q) => project_id_for(projects, q@),
        None => None,
    };
    if o.parent is Some && parent is None {
        r matches Err(CommandError::Config(m)) && m@ == "Parent project not found: "@ + o.parent->0@
    } else if !color_ok(o.color) {
        r matches Err(CommandError::Config(m)) && m@ == color_error(o.color->0@)
    } else {
        r matches Ok(a) && a.name@ == o.name@ && opt_chars(a.color) == opt_chars(o.color) && opt_chars(a.parent_id)
            == parent && a.is_favorite == o.favorite && opt_chars(a.parent_name) == match parent {
            Some(pid) => project_name_of(projects, pid),
            None => None,
        }
    }
}

/// Plans `td projects add` against the cache.
pub fn plan_project_add(cache: &Cache, opts: &ProjectsAddOptions) -> (r: Result<ProjectAdd>)
    ensures
        project_add_spec(cache.projects@, *opts, r),
{
    let parent_id = match &opts.parent {
        Some(q) => match find_project_id(&cache.projects, q.as_str()) {
            Some(id) => Some(id),
            None => {
                let mut m = string_of("Parent project not found: ");
                push_str(&mut m, q.as_str());
                return Err(CommandError::Config(m));
            },
        },
        None => None,
    };
    check_color(&opts.color)?;
    let parent_name = match &parent_id {
        Some(pid) => project_name_by_id(&cache.projects, pid.as_str()),
        None => None,
    };
    Ok(
        ProjectAdd {
            temp_id: new_temp_id(),
            name: string_of(opts.name.as_str()),
            color: copy_opt(&opts.color),
            parent_id,
            is_favorite: opts.favorite,
            parent_name,
        },
    )
}

/// The created project, from the API's reply to its `project_add` command.
pub fn project_added(cmd: &ProjectAdd, reply: &SyncReply) -> (r: Result<ProjectAddResult>)
    ensures
        created_as(
            *reply,
            cmd.temp_id@,
            "Project"@,
            match r {
                Ok(x) => Ok(x.id@),
                Err(e) => Err(e),
            },
        ),
        r matches Ok(x) ==> x.name@ == cmd.name@ && opt_chars(x.color) == opt_chars(cmd.color) && opt_chars(x.parent_id)
            == opt_chars(cmd.parent_id) && opt_chars(x.parent_name) == opt_chars(cmd.parent_name) && x.is_favorite
            == cmd.is_favorite,
{
    match created_id(reply, cmd.temp_id.as_str(), "Project") {
        Ok(id) => Ok(
            ProjectAddResult {
                id,
                name: string_of(cmd.name.as_str()),
                color: copy_opt(&cmd.color),
                parent_id: copy_opt(&cmd.parent_id),
                parent_name: copy_opt(&cmd.parent_name),
                is_favorite: cmd.is_favorite,
            },
        ),
        Err(e) => Err(e),
    }
}

/// Options for the projects show command.
#[derive(Debug)]
pub struct ProjectsShowOptions {
    pub project_id: String,
    pub sections: bool,
    pub tasks: bool,
}

/// Options for the projects edit command.
#[derive(Debug)]
pub struct ProjectsEditOptions {
    pub project_id: String,
    pub name: Option<String>,
    pub color: Option<String>,
    pub favorite: Option<bool>,
    pub view_style: Option<String>,
}

/// Options for the projects archive command.
#[derive(Debug)]
pub struct ProjectsArchiveOptions {
    pub project_id: String,
    pub force: bool,
}

/// Options for the projects unarchive command.
#[derive(Debug)]
pub struct ProjectsUnarchiveOptions {
    pub project_id: String,
}

/// Options for the projects delete command.
#[derive(Debug)]
pub struct ProjectsDeleteOptions {
    pub project_id: String,
    pub force: bool,
}

/// Result of a project edit.
#[derive(Debug)]
pub struct ProjectEditResult {
    pub id: String,
    pub name: String,
    pub updated_fields: Vec<String>,
}

/// Result of archiving a project.
#[derive(Debug)]
pub struct ProjectArchiveResult {
    pub id: String,
    pub name: String,
}

/// Result of unarchiving a project.
#[derive(Debug)]
pub struct ProjectUnarchiveResult {
    pub id: String,
    pub name: String,
}

/// Result of deleting a project.
#[derive(Debug)]
pub struct ProjectDeleteResult {
    pub id: String,
    pub name: String,
}

/// What `td projects show` gathers about a project.
#[derive(Debug)]
pub struct ProjectsShowResult {
    /// The project.
    pub project: Project,
    /// The parent project's name.
    pub parent_name: Option<String>,
    /// Number of tasks in the project.
    pub task_count: usize,
    /// Number of sections in the project.
    pub section_count: usize,
    /// The sections (when asked for).
    pub sections: Vec<Section>,
    /// The tasks (when asked for).
    pub tasks: Vec<Item>,
}

/// `td projects list` never shows a deleted project, and without
/// `--archived` never an archived one.
pub proof fn law_projects_listed(projects: Seq<Project>, archived: bool, shown: Seq<Project>)
    requires
        in_order(flagged(projects, listed_projects(projects, archived)), shown),
    ensures
        forall|j: int| 0 <= j < shown.len() ==> !(#[trigger] shown[j]).is_deleted,
        !archived ==> forall|j: int| 0 <= j < shown.len() ==> !(#[trigger] shown[j]).is_archived,
{
    let flags = listed_projects(projects, archived);
    let p = |x: Project| project_listed(x, archived);
    crate::commands::entities::lemma_flagged_sat(projects, flags, projects.len() as int, p);
    let sel = flagged(projects, flags);
    assert(sel == crate::commands::entities::flagged_upto(projects, flags, projects.len() as int));
    crate::commands::entities::lemma_in_order_sat(sel, shown, p);
}

} // verus!
