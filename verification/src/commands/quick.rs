//! `td quick`: adding a task from one line of text, which the server parses.

use vstd::prelude::*;
use crate::commands::entities::{copy_opt, opt_chars};
use crate::commands::lookup::{project_name_by_id, project_name_of};
use crate::model::{Cache, Due};
use crate::text::{string_of, views};

verus! {

/// Options for the quick command.
#[derive(Debug)]
pub struct QuickOptions {
    /// The text to parse.
    pub text: String,
    /// Add a default reminder when the text has a due time.
    pub auto_reminder: bool,
    /// A comment to attach.
    pub note: Option<String>,
}

/// What the Quick Add endpoint answers: the created task.
#[derive(Debug)]
pub struct QuickAddResponse {
    pub id: String,
    pub v2_id: Option<String>,
    pub project_id: String,
    pub v2_project_id: Option<String>,
    pub content: String,
    pub description: String,
    pub priority: i32,
    pub due: Option<Due>,
    pub section_id: Option<String>,
    pub parent_id: Option<String>,
    pub child_order: i32,
    pub labels: Vec<String>,
    pub added_by_uid: Option<String>,
    pub assigned_by_uid: Option<String>,
    pub responsible_uid: Option<String>,
    pub checked: bool,
    pub is_deleted: bool,
    pub added_at: Option<String>,
    pub resolved_project_name: Option<String>,
    pub resolved_assignee_name: Option<String>,
}

/// The result of a quick add.
#[derive(Debug)]
pub struct QuickResult {
    /// The task ID.
    pub id: String,
    /// The task content.
    pub content: String,
    /// The project ID.
    pub project_id: String,
    /// The project name.
    pub project_name: Option<String>,
    /// The due date as the server read it.
    pub due_string: Option<String>,
    /// User priority (1 highest).
    pub priority: u8,
    /// Labels.
    pub labels: Vec<String>,
}

/// The current ID of a task or project: the v2 ID where there is one.
pub open spec fn current_id(v2: Option<String>, legacy: String) -> Seq<char> {
    match v2 {
        Some(x) => x@,
        None => legacy@,
    }
}

/// The project's current ID.
pub fn api_project_id(response: &QuickAddResponse) -> (r: &str)
    ensures
        r@ == current_id(response.v2_project_id, response.project_id),
{
    match &response.v2_project_id {
        Some(x) => x.as_str(),
        None => response.project_id.as_str(),
    }
}

impl QuickResult {
    /// The result of a quick add from the server's answer.
    pub fn from_response(response: QuickAddResponse, project_name: Option<String>) -> (r: Self)
        ensures
            r.id@ == current_id(response.v2_id, response.id),
            r.content@ == response.content@,
            r.project_id@ == current_id(response.v2_project_id, response.project_id),
            r.project_name == project_name,
            opt_chars(r.due_string) == match response.due {
                Some(d) => opt_chars(d.string),
                None => None,
            },
            r.priority == (5 - response.priority) as u8,
            r.labels == response.labels,
    {
        let priority = (5i64 - response.priority as i64) as u8;
        let due_string = match &response.due {
            Some(d) => copy_opt(&d.string),
            None => None,
        };
        let id = match response.v2_id {
            Some(x) => x,
            None => response.id,
        };
        let project_id = match response.v2_project_id {
            Some(x) => x,
            None => response.project_id,
        };
        QuickResult {
            id,
            content: response.content,
            project_id,
            project_name,
            due_string,
            priority,
            labels: response.labels,
        }
    }
}

/// The project name shown for a quick add: the server's, else the cache's.
pub fn quick_project_name(response: &QuickAddResponse, cache: Option<&Cache>) -> (r: Option<String>)
    ensures
        match response.resolved_project_name {
            Some(n) => opt_chars(r) == Some(n@),
            None => match cache {
                Some(c) => opt_chars(r) == project_name_of(
                    c.projects@,
                    current_id(response.v2_project_id, response.project_id),
                ),
                None => r is None,
            },
        },
{
    if let Some(n) = &response.resolved_project_name {
        return Some(string_of(n.as_str()));
    }
    match cache {
        Some(c) => project_name_by_id(&c.projects, api_project_id(response)),
        None => None,
    }
}

} // verus!
