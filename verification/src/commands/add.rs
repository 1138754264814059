//! `td add`: creating a task.

use vstd::prelude::*;
use crate::commands::{CommandError, Result};
use crate::commands::entities::{SyncReply, copy_opt, created_as, created_id, new_temp_id, opt_chars};
use crate::commands::lookup::{project_name_by_id, project_name_of};
use crate::model::{Cache, Project};
use crate::resolve::{find_first, first_where, lemma_first_where_stays};
use crate::text::{string_of, views};

verus! {

/// Options for the add command.
#[derive(Debug)]
pub struct AddOptions {
    /// Task content.
    pub content: String,
    /// Project (name or ID).
    pub project: Option<String>,
    /// Priority (1 highest, 4 lowest).
    pub priority: Option<u8>,
    /// Due date (natural language).
    pub due: Option<String>,
    /// Labels.
    pub labels: Vec<String>,
    /// Section (name or ID).
    pub section: Option<String>,
    /// Parent task ID.
    pub parent: Option<String>,
    /// Task description.
    pub description: Option<String>,
}

/// Result of a successful add operation.
#[derive(Debug)]
pub struct AddResult {
    /// The real ID of the created task.
    pub id: String,
    /// The task content.
    pub content: String,
    /// The project ID.
    pub project_id: String,
    /// The project name.
    pub project_name: Option<String>,
}

/// The ID of the first inbox project that is not deleted.
pub open spec fn inbox_id(projects: Seq<Project>) -> Option<Seq<char>> {
    match find_first(projects, |p: Project| p.inbox_project && !p.is_deleted) {
        Some(p) => Some(p.id@),
        None => None,
    }
}

/// The project a task goes to without `--project`: the inbox.
pub fn inbox_project_id(cache: &Cache) -> (r: Result<String>)
    ensures
        match inbox_id(cache.projects@) {
            Some(id) => r matches Ok(x) && x@ == id,
            None => r matches Err(CommandError::Config(m)) && m@ == "Inbox project not found"@,
        },
{
    let ghost p = |x: Project| x.inbox_project && !x.is_deleted;
    let mut i: usize = 0;
    while i < cache.projects.len()
        invariant
            i <= cache.projects.len(),
            p == (|x: Project| x.inbox_project && !x.is_deleted),
            first_where(cache.projects@, p, i as int) is None,
        decreases cache.projects.len() - i,
    {
        if cache.projects[i].inbox_project && !cache.projects[i].is_deleted {
            assert(first_where(cache.projects@, p, i + 1) == Some(i as int));
            proof {
                lemma_first_where_stays(cache.projects@, p, i + 1, cache.projects@.len() as int);
            }
            return Ok(string_of(cache.projects[i].id.as_str()));
        }
        i = i + 1;
    }
    Err(CommandError::Config(string_of("Inbox project not found")))
}

/// The arguments of an `item_add` command.
#[derive(Debug)]
pub struct ItemAdd {
    pub temp_id: String,
    pub content: String,
    pub project_id: String,
    pub description: Option<String>,
    /// The API priority (4 is the highest).
    pub priority: Option<i32>,
    /// Natural-language due date, sent as `due.string`.
    pub due_string: Option<String>,
    /// Sent only when there are labels.
    pub labels: Option<Vec<String>>,
    pub section_id: Option<String>,
    pub parent_id: Option<String>,
}

/// The `item_add` command for the options, in the project and section given.
pub fn plan_item_add(opts: &AddOptions, project_id: &str, section_id: Option<&str>) -> (r: ItemAdd)
    ensures
        r.content@ == opts.content@,
        r.project_id@ == project_id@,
        opt_chars(r.description) == opt_chars(opts.description),
        r.priority == match opts.priority {
            Some(p) => Some((5 - p) as i32),
            None => None::<i32>,
        },
        opt_chars(r.due_string) == opt_chars(opts.due),
        match r.labels {
            Some(l) => opts.labels@.len() > 0 && views(l@) == views(opts.labels@),
            None => opts.labels@.len() == 0,
        },
        opt_chars(r.section_id) == match section_id {
            Some(s) => Some(s@),
            None => None,
        },
        opt_chars(r.parent_id) == opt_chars(opts.parent),
{
    let labels = if opts.labels.len() == 0 {
        None
    } else {
        let mut v: Vec<String> = Vec::new();
        let mut i: usize = 0;
        while i < opts.labels.len()
            invariant
                i <= opts.labels.len(),
                views(v@) == views(opts.labels@.take(i as int)),
            decreases opts.labels.len() - i,
        {
            v.push(string_of(opts.labels[i].as_str()));
            assert(views(opts.labels@.take(i + 1)) =~= views(opts.labels@.take(i as int)).push(opts.labels@[i as int]@));
            assert(views(v@) =~= views(v@.drop_last()).push(v@.last()@));
            i = i + 1;
        }
        assert(opts.labels@.take(opts.labels.len() as int) =~= opts.labels@);
        Some(v)
    };
    ItemAdd {
        temp_id: new_temp_id(),
        content: string_of(opts.content.as_str()),
        project_id: string_of(project_id),
        description: copy_opt(&opts.description),
        priority: match opts.priority {
            Some(p) => Some(5 - p as i32),
            None => None,
        },
        due_string: copy_opt(&opts.due),
        labels,
        section_id: match section_id {
            Some(s) => Some(string_of(s)),
            None => None,
        },
        parent_id: copy_opt(&opts.parent),
    }
}

/// The created task, from the API's reply to its `item_add` command; the
/// project's name is looked up in the cache.
pub fn item_added(cmd: &ItemAdd, reply: &SyncReply, cache: &Cache) -> (r: Result<AddResult>)
    ensures
        created_as(
            *reply,
            cmd.temp_id@,
            "Task"@,
            match r {
                Ok(x) => Ok(x.id@),
                Err(e) => Err(e),
            },
        ),
        r matches Ok(x) ==> x.content@ == cmd.content@ && x.project_id@ == cmd.project_id@ && opt_chars(
            x.project_name,
        ) == project_name_of(cache.projects@, cmd.project_id@),
{
    match created_id(reply, cmd.temp_id.as_str(), "Task") {
        Ok(id) => Ok(
            AddResult {
                id,
                content: string_of(cmd.content.as_str()),
                project_id: string_of(cmd.project_id.as_str()),
                project_name: project_name_by_id(&cache.projects, cmd.project_id.as_str()),
            },
        ),
        Err(e) => Err(e),
    }
}

} // verus!
