//! The data model of the Todoist Sync API as the local cache holds it.

use vstd::prelude::*;

verus! {

/// A due date: `date` is `YYYY-MM-DD`, `datetime` an RFC 3339 time when the
/// task has a time of day, `string` the human phrasing it was set with.
#[derive(Debug, Clone)]
pub struct Due {
    pub date: String,
    pub datetime: Option<String>,
    pub timezone: Option<String>,
    pub string: Option<String>,
    pub is_recurring: bool,
    pub lang: Option<String>,
}

/// A deadline of a task.
#[derive(Debug, Clone)]
pub struct Deadline {
    pub date: String,
    pub lang: Option<String>,
}

/// The estimated duration of a task.
#[derive(Debug, Clone)]
pub struct TaskDuration {
    pub amount: i32,
    pub unit: String,
}

/// A task. `priority` is the API priority: 4 is the highest, 1 the lowest.
#[derive(Debug, Clone)]
pub struct Item {
    pub id: String,
    pub user_id: Option<String>,
    pub project_id: String,
    pub content: String,
    pub description: String,
    pub priority: i32,
    pub due: Option<Due>,
    pub deadline: Option<Deadline>,
    pub parent_id: Option<String>,
    pub child_order: i32,
    pub section_id: Option<String>,
    pub day_order: i32,
    pub is_collapsed: bool,
    pub labels: Vec<String>,
    pub added_by_uid: Option<String>,
    pub assigned_by_uid: Option<String>,
    pub responsible_uid: Option<String>,
    pub checked: bool,
    pub is_deleted: bool,
    pub added_at: Option<String>,
    pub updated_at: Option<String>,
    pub completed_at: Option<String>,
    pub duration: Option<TaskDuration>,
}

/// A project.
#[derive(Debug, Clone)]
pub struct Project {
    pub id: String,
    pub name: String,
    pub color: Option<String>,
    pub parent_id: Option<String>,
    pub child_order: i32,
    pub is_collapsed: bool,
    pub shared: bool,
    pub can_assign_tasks: bool,
    pub is_deleted: bool,
    pub is_archived: bool,
    pub is_favorite: bool,
    pub view_style: Option<String>,
    pub inbox_project: bool,
    pub folder_id: Option<String>,
    pub created_at: Option<String>,
    pub updated_at: Option<String>,
}

/// A personal label.
#[derive(Debug, Clone)]
pub struct Label {
    pub id: String,
    pub name: String,
    pub color: Option<String>,
    pub item_order: i32,
    pub is_deleted: bool,
    pub is_favorite: bool,
}

/// A section of a project.
#[derive(Debug, Clone)]
pub struct Section {
    pub id: String,
    pub name: String,
    pub project_id: String,
    pub section_order: i32,
    pub is_collapsed: bool,
    pub is_deleted: bool,
    pub is_archived: bool,
    pub archived_at: Option<String>,
    pub added_at: Option<String>,
    pub updated_at: Option<String>,
}

/// A file attached to a comment.
#[derive(Debug, Clone)]
pub struct FileAttachment {
    pub file_name: Option<String>,
    pub file_type: Option<String>,
    pub file_url: Option<String>,
}

/// A comment on a task.
#[derive(Debug, Clone)]
pub struct Note {
    pub id: String,
    pub item_id: String,
    pub content: String,
    pub posted_at: Option<String>,
    pub is_deleted: bool,
    pub posted_uid: Option<String>,
    pub file_attachment: Option<FileAttachment>,
}

/// A comment on a project.
#[derive(Debug, Clone)]
pub struct ProjectNote {
    pub id: String,
    pub project_id: String,
    pub content: String,
    pub posted_at: Option<String>,
    pub is_deleted: bool,
    pub posted_uid: Option<String>,
    pub file_attachment: Option<FileAttachment>,
}

/// The kind of a reminder.
#[derive(Debug, Clone, Copy, PartialEq, Eq, Structural)]
pub enum ReminderType {
    Relative,
    Absolute,
    Location,
}

/// The API name of a reminder kind.
pub open spec fn reminder_type_name(t: ReminderType) -> Seq<char> {
    match t {
        ReminderType::Relative => "relative"@,
        ReminderType::Absolute => "absolute"@,
        ReminderType::Location => "location"@,
    }
}

impl ReminderType {
    /// The API name of this reminder kind.
    pub fn as_str(&self) -> (r: &'static str)
        ensures
            r@ == reminder_type_name(*self),
    {
        match self {
            ReminderType::Relative => "relative",
            ReminderType::Absolute => "absolute",
            ReminderType::Location => "location",
        }
    }
}

/// A reminder of a task.
#[derive(Debug, Clone)]
pub struct Reminder {
    pub id: String,
    pub item_id: String,
    pub reminder_type: ReminderType,
    pub due: Option<Due>,
    pub minute_offset: Option<i32>,
    pub is_deleted: bool,
    pub notify_uid: Option<String>,
    pub name: Option<String>,
    pub loc_lat: Option<String>,
    pub loc_long: Option<String>,
    pub loc_trigger: Option<String>,
    pub radius: Option<i32>,
}

/// A saved filter.
#[derive(Debug, Clone)]
pub struct Filter {
    pub id: String,
    pub name: String,
    pub query: String,
    pub color: Option<String>,
    pub item_order: i32,
    pub is_deleted: bool,
    pub is_favorite: bool,
}

/// The account the cache belongs to.
#[derive(Debug, Clone)]
pub struct User {
    pub id: String,
    pub email: Option<String>,
    pub full_name: Option<String>,
}

/// The local cache: everything the last sync brought.
/// Times are seconds since the Unix epoch.
#[derive(Debug, Clone)]
pub struct Cache {
    pub sync_token: String,
    pub full_sync_date_utc: Option<i64>,
    pub last_sync: Option<i64>,
    pub items: Vec<Item>,
    pub projects: Vec<Project>,
    pub labels: Vec<Label>,
    pub sections: Vec<Section>,
    pub notes: Vec<Note>,
    pub project_notes: Vec<ProjectNote>,
    pub reminders: Vec<Reminder>,
    pub filters: Vec<Filter>,
    pub user: Option<User>,
}

/// A person a project is shared with.
#[derive(Debug, Clone)]
pub struct Collaborator {
    pub id: String,
    pub email: Option<String>,
    pub full_name: Option<String>,
}

/// The membership of a collaborator in a project.
#[derive(Debug, Clone)]
pub struct CollaboratorState {
    pub project_id: String,
    pub user_id: String,
    pub state: String,
}

/// Who the shared projects are shared with, as the last sync brought it.
#[derive(Debug, Clone)]
pub struct Sharing {
    pub collaborators: Vec<Collaborator>,
    pub states: Vec<CollaboratorState>,
}

impl Cache {
    /// A cache holding the given data.
    pub fn with_data(
        sync_token: String,
        full_sync_date_utc: Option<i64>,
        last_sync: Option<i64>,
        items: Vec<Item>,
        projects: Vec<Project>,
        labels: Vec<Label>,
        sections: Vec<Section>,
        notes: Vec<Note>,
        project_notes: Vec<ProjectNote>,
        reminders: Vec<Reminder>,
        filters: Vec<Filter>,
        user: Option<User>,
    ) -> (c: Cache)
        ensures
            c.sync_token == sync_token,
            c.full_sync_date_utc == full_sync_date_utc,
            c.last_sync == last_sync,
            c.items == items,
            c.projects == projects,
            c.labels == labels,
            c.sections == sections,
            c.notes == notes,
            c.project_notes == project_notes,
            c.reminders == reminders,
            c.filters == filters,
            c.user == user,
    {
        Cache {
            sync_token,
            full_sync_date_utc,
            last_sync,
            items,
            projects,
            labels,
            sections,
            notes,
            project_notes,
            reminders,
            filters,
            user,
        }
    }
}

} // verus!
