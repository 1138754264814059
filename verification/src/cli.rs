//! The command line of `td`, as values: what the argument parser produces.

use vstd::prelude::*;

verus! {

/// The parsed command line.
#[derive(Debug)]
pub struct Cli {
    /// Verbose output (show debug information).
    pub verbose: bool,
    /// Quiet mode (errors only).
    pub quiet: bool,
    /// Force JSON output.
    pub json: bool,
    /// Disable colors in output.
    pub no_color: bool,
    /// Override API token.
    pub token: Option<String>,
    /// Sync with Todoist before running a read command.
    pub sync: bool,
    /// The subcommand, if any.
    pub command: Option<Commands>,
}

/// Available commands.
#[derive(Debug)]
pub enum Commands {
    /// List tasks.
    List {
        filter: Option<String>,
        project: Option<String>,
        label: Option<String>,
        priority: Option<u8>,
        section: Option<String>,
        overdue: bool,
        no_due: bool,
        limit: u32,
        all: bool,
        cursor: Option<String>,
        sort: Option<SortField>,
        reverse: bool,
    },
    /// Add a new task.
    Add {
        content: String,
        project: Option<String>,
        priority: Option<u8>,
        due: Option<String>,
        label: Vec<String>,
        section: Option<String>,
        parent: Option<String>,
        description: Option<String>,
    },
    /// Show task details.
    Show { task_id: String, comments: bool, reminders: bool },
    /// Edit a task.
    Edit {
        task_id: String,
        content: Option<String>,
        project: Option<String>,
        priority: Option<u8>,
        due: Option<String>,
        no_due: bool,
        label: Vec<String>,
        add_label: Option<String>,
        remove_label: Option<String>,
        section: Option<String>,
        description: Option<String>,
    },
    /// Complete task(s).
    Done { task_ids: Vec<String>, all_occurrences: bool, force: bool },
    /// Reopen completed task(s).
    Reopen { task_ids: Vec<String>, force: bool },
    /// Delete task(s).
    Delete { task_ids: Vec<String>, force: bool },
    /// Show today's agenda.
    Today { no_overdue: bool, include_upcoming: Option<u32> },
    /// Quick add with natural language.
    Quick { text: String, auto_reminder: bool, note: Option<String> },
    /// Sync local cache with Todoist.
    Sync { full: bool },
    /// List and manage projects.
    Projects { command: Option<ProjectsCommands> },
    /// List and manage labels.
    Labels { command: Option<LabelsCommands> },
    /// List and manage sections.
    Sections { project: Option<String>, command: Option<SectionsCommands> },
    /// List and manage comments.
    Comments { task: Option<String>, project: Option<String>, command: Option<CommentsCommands> },
    /// List and manage reminders.
    Reminders { task: Option<String>, command: Option<RemindersCommands> },
    /// List and manage saved filters.
    Filters { command: Option<FiltersCommands> },
    /// View and edit configuration.
    Config { command: Option<ConfigCommands> },
    /// Generate shell completions.
    Completions { shell: Shell },
}

/// Sort fields for the list command.
#[derive(Debug, Clone, Copy, PartialEq, Eq, Structural)]
pub enum SortField {
    Due,
    Priority,
    Created,
    Project,
}

/// Shells for completions.
#[derive(Debug, Clone, Copy, PartialEq, Eq, Structural)]
pub enum Shell {
    Bash,
    Zsh,
    Fish,
    Powershell,
}

/// Project subcommands.
#[derive(Debug)]
pub enum ProjectsCommands {
    List { tree: bool, archived: bool, limit: Option<u32> },
    Add { name: String, color: Option<String>, parent: Option<String>, favorite: bool },
    Show { project_id: String, sections: bool, tasks: bool },
    Edit {
        project_id: String,
        name: Option<String>,
        color: Option<String>,
        favorite: Option<bool>,
        view_style: Option<String>,
    },
    Archive { project_id: String, force: bool },
    Unarchive { project_id: String },
    Delete { project_id: String, force: bool },
}

/// Label subcommands.
#[derive(Debug)]
pub enum LabelsCommands {
    List,
    Add { name: String, color: Option<String>, favorite: bool },
    Edit { label_id: String, name: Option<String>, color: Option<String>, favorite: Option<bool> },
    Delete { label_id: String, force: bool },
}

/// Section subcommands.
#[derive(Debug)]
pub enum SectionsCommands {
    List,
    Add { name: String, project: String },
    Edit { section_id: String, name: Option<String> },
    Delete { section_id: String, force: bool },
}

/// Comment subcommands.
#[derive(Debug)]
pub enum CommentsCommands {
    List,
    Add { text: String, task: Option<String>, project: Option<String> },
    Edit { comment_id: String, text: String },
    Delete { comment_id: String, force: bool },
    Attach { file: String, task: Option<String>, project: Option<String> },
    Download { attachment_id: String, output: Option<String> },
}

/// Reminder subcommands.
#[derive(Debug)]
pub enum RemindersCommands {
    List,
    Add { task: String, due: Option<String>, offset: Option<i32> },
    Delete { reminder_id: String, force: bool },
}

/// Filter subcommands.
#[derive(Debug)]
pub enum FiltersCommands {
    List,
    Add { name: String, query: String, color: Option<String>, favorite: bool },
    Show { filter_id: String },
    Edit {
        filter_id: String,
        name: Option<String>,
        query: Option<String>,
        color: Option<String>,
        favorite: Option<bool>,
    },
    Delete { filter_id: String, force: bool },
}

/// Config subcommands.
#[derive(Debug)]
pub enum ConfigCommands {
    Show,
    Edit,
    SetKey { key: String, value: String },
    Path,
}

} // verus!
