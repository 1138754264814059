//! Routing a parsed command line: commands that need no API token, and
//! those that do, with the options each command runs with.

use vstd::prelude::*;
use crate::cli::{
    Cli, Commands, CommentsCommands, ConfigCommands, FiltersCommands, LabelsCommands, ProjectsCommands,
    RemindersCommands, SectionsCommands, Shell, SortField,
};

verus! {

/// Commands that don't require authentication.
pub enum NoAuthDispatch<'a> {
    Config(&'a Option<ConfigCommands>),
    Completions(&'a Shell),
    Help,
}

/// The command needs no token: `config` (shown, set, edited or its path),
/// `completions`, or no command at all (help).
pub open spec fn no_auth_spec(command: Option<Commands>, r: Option<NoAuthDispatch>) -> bool {
    match command {
        Some(Commands::Config { command }) => r matches Some(NoAuthDispatch::Config(c)) && *c == command,
        Some(Commands::Completions { shell }) => r matches Some(NoAuthDispatch::Completions(s)) && *s == shell,
        None => r matches Some(NoAuthDispatch::Help),
        _ => r is None,
    }
}

impl<'a> NoAuthDispatch<'a> {
    /// The no-auth command of a command line, if it is one.
    pub fn try_from_cli(cli: &'a Cli) -> (r: Option<Self>)
        ensures
            no_auth_spec(cli.command, r),
    {
        match &cli.command {
            Some(Commands::Config { command }) => Some(NoAuthDispatch::Config(command)),
            Some(Commands::Completions { shell }) => Some(NoAuthDispatch::Completions(shell)),
            None => Some(NoAuthDispatch::Help),
            _ => None,
        }
    }
}

/// Commands that require authentication.
pub enum AuthDispatch<'a> {
    List {
        filter: &'a Option<String>,
        project: &'a Option<String>,
        label: &'a Option<String>,
        priority: Option<u8>,
        section: &'a Option<String>,
        overdue: bool,
        no_due: bool,
        limit: u32,
        all: bool,
        cursor: &'a Option<String>,
        sort: &'a Option<SortField>,
        reverse: bool,
    },
    Add {
        content: &'a str,
        project: &'a Option<String>,
        priority: Option<u8>,
        due: &'a Option<String>,
        labels: &'a [String],
        section: &'a Option<String>,
        parent: &'a Option<String>,
        description: &'a Option<String>,
    },
    Show { task_id: &'a str, comments: bool, reminders: bool },
    Edit {
        task_id: &'a str,
        content: &'a Option<String>,
        project: &'a Option<String>,
        priority: Option<u8>,
        due: &'a Option<String>,
        no_due: bool,
        labels: &'a [String],
        add_label: &'a Option<String>,
        remove_label: &'a Option<String>,
        section: &'a Option<String>,
        description: &'a Option<String>,
    },
    Done { task_ids: &'a [String], all_occurrences: bool, force: bool },
    Reopen { task_ids: &'a [String], force: bool },
    Delete { task_ids: &'a [String], force: bool },
    Today { include_overdue: bool, include_upcoming: Option<u32> },
    Quick { text: &'a str, auto_reminder: bool, note: &'a Option<String> },
    Sync { full: bool },
    ConfigEdit,
    Projects(&'a Option<ProjectsCommands>),
    Labels(&'a Option<LabelsCommands>),
    Sections { project: &'a Option<String>, command: &'a Option<SectionsCommands> },
    Comments { task: &'a Option<String>, project: &'a Option<String>, command: &'a Option<CommentsCommands> },
    Reminders { task: &'a Option<String>, command: &'a Option<RemindersCommands> },
    Filters(&'a Option<FiltersCommands>),
}

/// The authenticated command of a command: every command but `config`
/// (other than `config edit`), `completions` and none; `today` shows
/// overdue tasks unless told not to.
pub open spec fn auth_spec(command: Option<Commands>, r: Option<AuthDispatch>) -> bool {
    match command {
        Some(Commands::List { filter, project, label, priority, section, overdue, no_due, limit, all, cursor, sort, reverse }) => {
            r matches Some(AuthDispatch::List { filter: f, project: p, label: l, priority: pr, section: s, overdue: o, no_due: n, limit: li, all: a, cursor: c, sort: so, reverse: re })
                && *f == filter && *p == project && *l == label && pr == priority && *s == section && o == overdue && n
                == no_due && li == limit && a == all && *c == cursor && *so == sort && re == reverse
        },
        Some(Commands::Add { content, project, priority, due, label, section, parent, description }) => {
            r matches Some(AuthDispatch::Add { content: c, project: p, priority: pr, due: d, labels: l, section: s, parent: pa, description: de })
                && c@ == content@ && *p == project && pr == priority && *d == due && l@ == label@ && *s == section && *pa
                == parent && *de == description
        },
        Some(Commands::Show { task_id, comments, reminders }) => {
            r matches Some(AuthDispatch::Show { task_id: t, comments: c, reminders: re }) && t@ == task_id@ && c
                == comments && re == reminders
        },
        Some(Commands::Edit { task_id, content, project, priority, due, no_due, label, add_label, remove_label, section, description }) => {
            r matches Some(AuthDispatch::Edit { task_id: t, content: c, project: p, priority: pr, due: d, no_due: n, labels: l, add_label: al, remove_label: rl, section: s, description: de })
                && t@ == task_id@ && *c == content && *p == project && pr == priority && *d == due && n == no_due && l@
                == label@ && *al == add_label && *rl == remove_label && *s == section && *de == description
        },
        Some(Commands::Done { task_ids, all_occurrences, force }) => {
            r matches Some(AuthDispatch::Done { task_ids: t, all_occurrences: a, force: f }) && t@ == task_ids@ && a
                == all_occurrences && f == force
        },
        Some(Commands::Reopen { task_ids, force }) => {
            r matches Some(AuthDispatch::Reopen { task_ids: t, force: f }) && t@ == task_ids@ && f == force
        },
        Some(Commands::Delete { task_ids, force }) => {
            r matches Some(AuthDispatch::Delete { task_ids: t, force: f }) && t@ == task_ids@ && f == force
        },
        Some(Commands::Today { no_overdue, include_upcoming }) => {
            r matches Some(AuthDispatch::Today { include_overdue: o, include_upcoming: u }) && o == !no_overdue && u
                == include_upcoming
        },
        Some(Commands::Quick { text, auto_reminder, note }) => {
            r matches Some(AuthDispatch::Quick { text: t, auto_reminder: a, note: n }) && t@ == text@ && a
                == auto_reminder && *n == note
        },
        Some(Commands::Sync { full }) => r matches Some(AuthDispatch::Sync { full: f }) && f == full,
        Some(Commands::Config { command }) => if command matches Some(ConfigCommands::Edit) {
            r matches Some(AuthDispatch::ConfigEdit)
        } else {
            r is None
        },
        Some(Commands::Projects { command }) => r matches Some(AuthDispatch::Projects(c)) && *c == command,
        Some(Commands::Labels { command }) => r matches Some(AuthDispatch::Labels(c)) && *c == command,
        Some(Commands::Sections { project, command }) => {
            r matches Some(AuthDispatch::Sections { project: p, command: c }) && *p == project && *c == command
        },
        Some(Commands::Comments { task, project, command }) => {
            r matches Some(AuthDispatch::Comments { task: t, project: p, command: c }) && *t == task && *p == project
                && *c == command
        },
        Some(Commands::Reminders { task, command }) => {
            r matches Some(AuthDispatch::Reminders { task: t, command: c }) && *t == task && *c == command
        },
        Some(Commands::Filters { command }) => r matches Some(AuthDispatch::Filters(c)) && *c == command,
        Some(Commands::Completions { .. }) => r is None,
        None => r is None,
    }
}

impl<'a> AuthDispatch<'a> {
    /// The authenticated command of a command line, if it is one.
    pub fn from_cli(cli: &'a Cli) -> (r: Option<Self>)
        ensures
            auth_spec(cli.command, r),
    {
        match &cli.command {
            Some(Commands::List { filter, project, label, priority, section, overdue, no_due, limit, all, cursor, sort, reverse }) => Some(
                AuthDispatch::List {
                    filter,
                    project,
                    label,
                    priority: *priority,
                    section,
                    overdue: *overdue,
                    no_due: *no_due,
                    limit: *limit,
                    all: *all,
                    cursor,
                    sort,
                    reverse: *reverse,
                },
            ),
            Some(Commands::Add { content, project, priority, due, label, section, parent, description }) => Some(
                AuthDispatch::Add {
                    content: content.as_str(),
                    project,
                    priority: *priority,
                    due,
                    labels: label.as_slice(),
                    section,
                    parent,
                    description,
                },
            ),
            Some(Commands::Show { task_id, comments, reminders }) => Some(
                AuthDispatch::Show { task_id: task_id.as_str(), comments: *comments, reminders: *reminders },
            ),
            Some(Commands::Edit { task_id, content, project, priority, due, no_due, label, add_label, remove_label, section, description }) => Some(
                AuthDispatch::Edit {
                    task_id: task_id.as_str(),
                    content,
                    project,
                    priority: *priority,
                    due,
                    no_due: *no_due,
                    labels: label.as_slice(),
                    add_label,
                    remove_label,
                    section,
                    description,
                },
            ),
            Some(Commands::Done { task_ids, all_occurrences, force }) => Some(
                AuthDispatch::Done { task_ids: task_ids.as_slice(), all_occurrences: *all_occurrences, force: *force },
            ),
            Some(Commands::Reopen { task_ids, force }) => Some(
                AuthDispatch::Reopen { task_ids: task_ids.as_slice(), force: *force },
            ),
            Some(Commands::Delete { task_ids, force }) => Some(
                AuthDispatch::Delete { task_ids: task_ids.as_slice(), force: *force },
            ),
            Some(Commands::Today { no_overdue, include_upcoming }) => Some(
                AuthDispatch::Today { include_overdue: !*no_overdue, include_upcoming: *include_upcoming },
            ),
            Some(Commands::Quick { text, auto_reminder, note }) => Some(
                AuthDispatch::Quick { text: text.as_str(), auto_reminder: *auto_reminder, note },
            ),
            Some(Commands::Sync { full }) => Some(AuthDispatch::Sync { full: *full }),
            Some(Commands::Config { command }) => match command {
                Some(ConfigCommands::Edit) => Some(AuthDispatch::ConfigEdit),
                _ => None,
            },
            Some(Commands::Projects { command }) => Some(AuthDispatch::Projects(command)),
            Some(Commands::Labels { command }) => Some(AuthDispatch::Labels(command)),
            Some(Commands::Sections { project, command }) => Some(AuthDispatch::Sections { project, command }),
            Some(Commands::Comments { task, project, command }) => Some(
                AuthDispatch::Comments { task, project, command },
            ),
            Some(Commands::Reminders { task, command }) => Some(AuthDispatch::Reminders { task, command }),
            Some(Commands::Filters { command }) => Some(AuthDispatch::Filters(command)),
            Some(Commands::Completions { .. }) => None,
            None => None,
        }
    }
}

} // verus!

verus! {

use crate::commands::{CommandError, Result};
use crate::commands::config::ConfigSetOptions;
use crate::commands::entities::{copy_opt, opt_chars};
use crate::text::{string_of, views};

/// What a `config` command does without a token.
#[derive(Debug)]
pub enum ConfigAction {
    Show,
    SetValue(ConfigSetOptions),
    Path,
}

/// The config action of a command: showing is the default; editing needs
/// the asynchronous runner and fails here.
pub fn dispatch_config(command: &Option<ConfigCommands>) -> (r: Result<ConfigAction>)
    ensures
        match command {
            None => r matches Ok(ConfigAction::Show),
            Some(ConfigCommands::Show) => r matches Ok(ConfigAction::Show),
            Some(ConfigCommands::SetKey { key, value }) => r matches Ok(ConfigAction::SetValue(o)) && o.key@ == key@
                && o.value@ == value@,
            Some(ConfigCommands::Path) => r matches Ok(ConfigAction::Path),
            Some(ConfigCommands::Edit) => r matches Err(CommandError::Config(m)) && m@
                == "edit requires async context"@,
        },
{
    match command {
        None => Ok(ConfigAction::Show),
        Some(ConfigCommands::Show) => Ok(ConfigAction::Show),
        Some(ConfigCommands::SetKey { key, value }) => Ok(
            ConfigAction::SetValue(ConfigSetOptions { key: string_of(key.as_str()), value: string_of(value.as_str()) }),
        ),
        Some(ConfigCommands::Path) => Ok(ConfigAction::Path),
        Some(ConfigCommands::Edit) => Err(CommandError::Config(string_of("edit requires async context"))),
    }
}

/// Copies of a list of strings.
pub fn copy_strings(v: &[String]) -> (r: Vec<String>)
    ensures
        views(r@) == views(v@),
{
    let mut r: Vec<String> = Vec::new();
    let mut i: usize = 0;
    while i < v.len()
        invariant
            i <= v@.len(),
            views(r@) == views(v@.take(i as int)),
        decreases v@.len() - i,
    {
        r.push(string_of(v[i].as_str()));
        assert(views(v@.take(i + 1)) =~= views(v@.take(i as int)).push(v@[i as int]@));
        assert(views(r@) =~= views(r@.drop_last()).push(r@.last()@));
        i = i + 1;
    }
    assert(v@.take(v@.len() as int) =~= v@);
    r
}

} // verus!

verus! {

use crate::commands::list::ListOptions;
use crate::commands::add::AddOptions;
use crate::commands::show::ShowOptions;
use crate::commands::edit::EditOptions;
use crate::commands::done::DoneOptions;
use crate::commands::reopen::ReopenOptions;
use crate::commands::delete::DeleteOptions;
use crate::commands::today::TodayOptions;
use crate::commands::quick::QuickOptions;
use crate::commands::sync::SyncOptions;
use crate::commands::projects::{
    ProjectsAddOptions, ProjectsArchiveOptions, ProjectsDeleteOptions, ProjectsEditOptions, ProjectsListOptions,
    ProjectsShowOptions, ProjectsUnarchiveOptions,
};
use crate::commands::labels::{LabelsAddOptions, LabelsDeleteOptions, LabelsEditOptions, LabelsListOptions};
use crate::commands::sections::{SectionsAddOptions, SectionsDeleteOptions, SectionsEditOptions, SectionsListOptions};
use crate::commands::comments::{CommentsAddOptions, CommentsDeleteOptions, CommentsEditOptions, CommentsListOptions};
use crate::commands::reminders::{RemindersAddOptions, RemindersDeleteOptions, RemindersListOptions};
use crate::commands::filters::{
    FiltersAddOptions, FiltersDeleteOptions, FiltersEditOptions, FiltersListOptions, FiltersShowOptions,
};

/// An authenticated command with the options it runs with.
#[derive(Debug)]
pub enum AuthRequest {
    List(ListOptions),
    Add(AddOptions),
    Show(ShowOptions),
    Edit(EditOptions),
    Done(DoneOptions),
    Reopen(ReopenOptions),
    Delete(DeleteOptions),
    Today(TodayOptions),
    Quick(QuickOptions),
    Sync(SyncOptions),
    ConfigEdit,
    ProjectsList(ProjectsListOptions),
    ProjectsAdd(ProjectsAddOptions),
    ProjectsShow(ProjectsShowOptions),
    ProjectsEdit(ProjectsEditOptions),
    ProjectsArchive(ProjectsArchiveOptions),
    ProjectsUnarchive(ProjectsUnarchiveOptions),
    ProjectsDelete(ProjectsDeleteOptions),
    LabelsList(LabelsListOptions),
    LabelsAdd(LabelsAddOptions),
    LabelsEdit(LabelsEditOptions),
    LabelsDelete(LabelsDeleteOptions),
    SectionsList(SectionsListOptions),
    SectionsAdd(SectionsAddOptions),
    SectionsEdit(SectionsEditOptions),
    SectionsDelete(SectionsDeleteOptions),
    CommentsList(CommentsListOptions),
    CommentsAdd(CommentsAddOptions),
    CommentsEdit(CommentsEditOptions),
    CommentsDelete(CommentsDeleteOptions),
    /// `comments attach` and `comments download` are not implemented.
    CommentsNotImplemented,
    RemindersList(RemindersListOptions),
    RemindersAdd(RemindersAddOptions),
    RemindersDelete(RemindersDeleteOptions),
    FiltersList(FiltersListOptions),
    FiltersAdd(FiltersAddOptions),
    FiltersShow(FiltersShowOptions),
    FiltersEdit(FiltersEditOptions),
    FiltersDelete(FiltersDeleteOptions),
}

/// The request for a subcommand group with no subcommand given lists; a
/// comment added without its own task or project takes the group's.
pub open spec fn group_request_spec(d: AuthDispatch, r: AuthRequest) -> bool {
    match d {
        AuthDispatch::Projects(c) => match *c {
            None => r matches AuthRequest::ProjectsList(o) && !o.tree && !o.archived && o.limit is None,
            Some(ProjectsCommands::List { tree, archived, limit }) => r matches AuthRequest::ProjectsList(o) && o.tree
                == tree && o.archived == archived && o.limit == limit,
            Some(ProjectsCommands::Add { name, color, parent, favorite }) => r matches AuthRequest::ProjectsAdd(o)
                && o.name@ == name@ && opt_chars(o.color) == opt_chars(color) && opt_chars(o.parent) == opt_chars(
                parent,
            ) && o.favorite == favorite,
            Some(ProjectsCommands::Show { project_id, sections, tasks }) => r matches AuthRequest::ProjectsShow(o)
                && o.project_id@ == project_id@ && o.sections == sections && o.tasks == tasks,
            Some(ProjectsCommands::Edit { project_id, name, color, favorite, view_style }) => r matches AuthRequest::ProjectsEdit(o)
                && o.project_id@ == project_id@ && opt_chars(o.name) == opt_chars(name) && opt_chars(o.color)
                == opt_chars(color) && o.favorite == favorite && opt_chars(o.view_style) == opt_chars(view_style),
            Some(ProjectsCommands::Archive { project_id, force }) => r matches AuthRequest::ProjectsArchive(o)
                && o.project_id@ == project_id@ && o.force == force,
            Some(ProjectsCommands::Unarchive { project_id }) => r matches AuthRequest::ProjectsUnarchive(o)
                && o.project_id@ == project_id@,
            Some(ProjectsCommands::Delete { project_id, force }) => r matches AuthRequest::ProjectsDelete(o)
                && o.project_id@ == project_id@ && o.force == force,
        },
        AuthDispatch::Labels(c) => match *c {
            None => r matches AuthRequest::LabelsList(o) && o.limit is None,
            Some(LabelsCommands::List) => r matches AuthRequest::LabelsList(o) && o.limit is None,
            Some(LabelsCommands::Add { name, color, favorite }) => r matches AuthRequest::LabelsAdd(o) && o.name@
                == name@ && opt_chars(o.color) == opt_chars(color) && o.favorite == favorite,
            Some(LabelsCommands::Edit { label_id, name, color, favorite }) => r matches AuthRequest::LabelsEdit(o)
                && o.label_id@ == label_id@ && opt_chars(o.name) == opt_chars(name) && opt_chars(o.color) == opt_chars(
                color,
            ) && o.favorite == favorite,
            Some(LabelsCommands::Delete { label_id, force }) => r matches AuthRequest::LabelsDelete(o) && o.label_id@
                == label_id@ && o.force == force,
        },
        AuthDispatch::Sections { project, command } => match *command {
            None => r matches AuthRequest::SectionsList(o) && opt_chars(o.project) == opt_chars(*project)
                && o.limit is None,
            Some(SectionsCommands::List) => r matches AuthRequest::SectionsList(o) && opt_chars(o.project) == opt_chars(
                *project,
            ) && o.limit is None,
            Some(SectionsCommands::Add { name, project: proj }) => r matches AuthRequest::SectionsAdd(o) && o.name@
                == name@ && o.project@ == proj@,
            Some(SectionsCommands::Edit { section_id, name }) => r matches AuthRequest::SectionsEdit(o) && o.section_id@
                == section_id@ && opt_chars(o.name) == opt_chars(name),
            Some(SectionsCommands::Delete { section_id, force }) => r matches AuthRequest::SectionsDelete(o)
                && o.section_id@ == section_id@ && o.force == force,
        },
        AuthDispatch::Comments { task, project, command } => match *command {
            None => r matches AuthRequest::CommentsList(o) && opt_chars(o.task) == opt_chars(*task) && opt_chars(
                o.project,
            ) == opt_chars(*project),
            Some(CommentsCommands::List) => r matches AuthRequest::CommentsList(o) && opt_chars(o.task) == opt_chars(
                *task,
            ) && opt_chars(o.project) == opt_chars(*project),
            Some(CommentsCommands::Add { text, task: t, project: p }) => r matches AuthRequest::CommentsAdd(o)
                && o.content@ == text@ && opt_chars(o.task) == (if t is Some {
                opt_chars(t)
            } else {
                opt_chars(*task)
            }) && opt_chars(o.project) == (if p is Some {
                opt_chars(p)
            } else {
                opt_chars(*project)
            }),
            Some(CommentsCommands::Edit { comment_id, text }) => r matches AuthRequest::CommentsEdit(o)
                && o.comment_id@ == comment_id@ && o.content@ == text@,
            Some(CommentsCommands::Delete { comment_id, force }) => r matches AuthRequest::CommentsDelete(o)
                && o.comment_id@ == comment_id@ && o.force == force,
            Some(CommentsCommands::Attach { .. }) => r matches AuthRequest::CommentsNotImplemented,
            Some(CommentsCommands::Download { .. }) => r matches AuthRequest::CommentsNotImplemented,
        },
        AuthDispatch::Reminders { task, command } => match *command {
            None => r matches AuthRequest::RemindersList(o) && opt_chars(o.task) == opt_chars(*task),
            Some(RemindersCommands::List) => r matches AuthRequest::RemindersList(o) && opt_chars(o.task) == opt_chars(
                *task,
            ),
            Some(RemindersCommands::Add { task: t, due, offset }) => r matches AuthRequest::RemindersAdd(o) && o.task@
                == t@ && opt_chars(o.due) == opt_chars(due) && o.offset == offset,
            Some(RemindersCommands::Delete { reminder_id, force }) => r matches AuthRequest::RemindersDelete(o)
                && o.reminder_id@ == reminder_id@ && o.force == force,
        },
        AuthDispatch::Filters(c) => match *c {
            None => r matches AuthRequest::FiltersList(o) && o.limit is None,
            Some(FiltersCommands::List) => r matches AuthRequest::FiltersList(o) && o.limit is None,
            Some(FiltersCommands::Add { name, query, color, favorite }) => r matches AuthRequest::FiltersAdd(o)
                && o.name@ == name@ && o.query@ == query@ && opt_chars(o.color) == opt_chars(color) && o.favorite
                == favorite,
            Some(FiltersCommands::Show { filter_id }) => r matches AuthRequest::FiltersShow(o) && o.filter_id@
                == filter_id@,
            Some(FiltersCommands::Edit { filter_id, name, query, color, favorite }) => r matches AuthRequest::FiltersEdit(o)
                && o.filter_id@ == filter_id@ && opt_chars(o.name) == opt_chars(name) && opt_chars(o.query)
                == opt_chars(query) && opt_chars(o.color) == opt_chars(color) && o.favorite == favorite,
            Some(FiltersCommands::Delete { filter_id, force }) => r matches AuthRequest::FiltersDelete(o)
                && o.filter_id@ == filter_id@ && o.force == force,
        },
        _ => true,
    }
}

/// The request for a task command: its options, field for field.
pub open spec fn task_request_spec(d: AuthDispatch, r: AuthRequest) -> bool {
    match d {
        AuthDispatch::List { filter, project, label, priority, section, overdue, no_due, limit, all, cursor, sort, reverse } => {
            r matches AuthRequest::List(o) && opt_chars(o.filter) == opt_chars(*filter) && opt_chars(o.project)
                == opt_chars(*project) && opt_chars(o.label) == opt_chars(*label) && o.priority == priority && opt_chars(
                o.section,
            ) == opt_chars(*section) && o.overdue == overdue && o.no_due == no_due && o.limit == limit && o.all == all
                && opt_chars(o.cursor) == opt_chars(*cursor) && o.sort == *sort && o.reverse == reverse
        },
        AuthDispatch::Add { content, project, priority, due, labels, section, parent, description } => {
            r matches AuthRequest::Add(o) && o.content@ == content@ && opt_chars(o.project) == opt_chars(*project)
                && o.priority == priority && opt_chars(o.due) == opt_chars(*due) && views(o.labels@) == views(labels@)
                && opt_chars(o.section) == opt_chars(*section) && opt_chars(o.parent) == opt_chars(*parent) && opt_chars(
                o.description,
            ) == opt_chars(*description)
        },
        AuthDispatch::Show { task_id, comments, reminders } => r matches AuthRequest::Show(o) && o.task_id@
            == task_id@ && o.comments == comments && o.reminders == reminders,
        AuthDispatch::Edit { task_id, content, project, priority, due, no_due, labels, add_label, remove_label, section, description } => {
            r matches AuthRequest::Edit(o) && o.task_id@ == task_id@ && opt_chars(o.content) == opt_chars(*content)
                && opt_chars(o.project) == opt_chars(*project) && o.priority == priority && opt_chars(o.due)
                == opt_chars(*due) && o.no_due == no_due && views(o.labels@) == views(labels@) && opt_chars(
                o.add_label,
            ) == opt_chars(*add_label) && opt_chars(o.remove_label) == opt_chars(*remove_label) && opt_chars(o.section)
                == opt_chars(*section) && opt_chars(o.description) == opt_chars(*description)
        },
        AuthDispatch::Done { task_ids, all_occurrences, force } => r matches AuthRequest::Done(o) && views(
            o.task_ids@,
        ) == views(task_ids@) && o.all_occurrences == all_occurrences && o.force == force,
        AuthDispatch::Reopen { task_ids, force } => r matches AuthRequest::Reopen(o) && views(o.task_ids@) == views(
            task_ids@,
        ) && o.force == force,
        AuthDispatch::Delete { task_ids, force } => r matches AuthRequest::Delete(o) && views(o.task_ids@) == views(
            task_ids@,
        ) && o.force == force,
        AuthDispatch::Today { include_overdue, include_upcoming } => r matches AuthRequest::Today(o)
            && o.include_overdue == include_overdue && o.include_upcoming == include_upcoming,
        AuthDispatch::Quick { text, auto_reminder, note } => r matches AuthRequest::Quick(o) && o.text@ == text@
            && o.auto_reminder == auto_reminder && opt_chars(o.note) == opt_chars(*note),
        AuthDispatch::Sync { full } => r matches AuthRequest::Sync(o) && o.full == full,
        AuthDispatch::ConfigEdit => r matches AuthRequest::ConfigEdit,
        _ => true,
    }
}

} // verus!

verus! {

fn projects_request(c: &Option<ProjectsCommands>) -> (r: AuthRequest)
    ensures
        group_request_spec(AuthDispatch::Projects(c), r),
{
    match c {
        None => AuthRequest::ProjectsList(ProjectsListOptions { tree: false, archived: false, limit: None }),
        Some(ProjectsCommands::List { tree, archived, limit }) => AuthRequest::ProjectsList(
            ProjectsListOptions { tree: *tree, archived: *archived, limit: *limit },
        ),
        Some(ProjectsCommands::Add { name, color, parent, favorite }) => AuthRequest::ProjectsAdd(
            ProjectsAddOptions {
                name: string_of(name.as_str()),
                color: copy_opt(color),
                parent: copy_opt(parent),
                favorite: *favorite,
            },
        ),
        Some(ProjectsCommands::Show { project_id, sections, tasks }) => AuthRequest::ProjectsShow(
            ProjectsShowOptions { project_id: string_of(project_id.as_str()), sections: *sections, tasks: *tasks },
        ),
        Some(ProjectsCommands::Edit { project_id, name, color, favorite, view_style }) => AuthRequest::ProjectsEdit(
            ProjectsEditOptions {
                project_id: string_of(project_id.as_str()),
                name: copy_opt(name),
                color: copy_opt(color),
                favorite: *favorite,
                view_style: copy_opt(view_style),
            },
        ),
        Some(ProjectsCommands::Archive { project_id, force }) => AuthRequest::ProjectsArchive(
            ProjectsArchiveOptions { project_id: string_of(project_id.as_str()), force: *force },
        ),
        Some(ProjectsCommands::Unarchive { project_id }) => AuthRequest::ProjectsUnarchive(
            ProjectsUnarchiveOptions { project_id: string_of(project_id.as_str()) },
        ),
        Some(ProjectsCommands::Delete { project_id, force }) => AuthRequest::ProjectsDelete(
            ProjectsDeleteOptions { project_id: string_of(project_id.as_str()), force: *force },
        ),
    }
}

fn labels_request(c: &Option<LabelsCommands>) -> (r: AuthRequest)
    ensures
        group_request_spec(AuthDispatch::Labels(c), r),
{
    match c {
        None => AuthRequest::LabelsList(LabelsListOptions { limit: None }),
        Some(LabelsCommands::List) => AuthRequest::LabelsList(LabelsListOptions { limit: None }),
        Some(LabelsCommands::Add { name, color, favorite }) => AuthRequest::LabelsAdd(
            LabelsAddOptions { name: string_of(name.as_str()), color: copy_opt(color), favorite: *favorite },
        ),
        Some(LabelsCommands::Edit { label_id, name, color, favorite }) => AuthRequest::LabelsEdit(
            LabelsEditOptions {
                label_id: string_of(label_id.as_str()),
                name: copy_opt(name),
                color: copy_opt(color),
                favorite: *favorite,
            },
        ),
        Some(LabelsCommands::Delete { label_id, force }) => AuthRequest::LabelsDelete(
            LabelsDeleteOptions { label_id: string_of(label_id.as_str()), force: *force },
        ),
    }
}

fn sections_request(project: &Option<String>, c: &Option<SectionsCommands>) -> (r: AuthRequest)
    ensures
        group_request_spec(AuthDispatch::Sections { project, command: c }, r),
{
    match c {
        None => AuthRequest::SectionsList(SectionsListOptions { project: copy_opt(project), limit: None }),
        Some(SectionsCommands::List) => AuthRequest::SectionsList(
            SectionsListOptions { project: copy_opt(project), limit: None },
        ),
        Some(SectionsCommands::Add { name, project: proj }) => AuthRequest::SectionsAdd(
            SectionsAddOptions { name: string_of(name.as_str()), project: string_of(proj.as_str()) },
        ),
        Some(SectionsCommands::Edit { section_id, name }) => AuthRequest::SectionsEdit(
            SectionsEditOptions { section_id: string_of(section_id.as_str()), name: copy_opt(name) },
        ),
        Some(SectionsCommands::Delete { section_id, force }) => AuthRequest::SectionsDelete(
            SectionsDeleteOptions { section_id: string_of(section_id.as_str()), force: *force },
        ),
    }
}

fn comments_request(task: &Option<String>, project: &Option<String>, c: &Option<CommentsCommands>) -> (r: AuthRequest)
    ensures
        group_request_spec(AuthDispatch::Comments { task, project, command: c }, r),
{
    match c {
        None => AuthRequest::CommentsList(CommentsListOptions { task: copy_opt(task), project: copy_opt(project) }),
        Some(CommentsCommands::List) => AuthRequest::CommentsList(
            CommentsListOptions { task: copy_opt(task), project: copy_opt(project) },
        ),
        Some(CommentsCommands::Add { text, task: t, project: p }) => {
            let task_ref = if t.is_some() {
                copy_opt(t)
            } else {
                copy_opt(task)
            };
            let project_ref = if p.is_some() {
                copy_opt(p)
            } else {
                copy_opt(project)
            };
            AuthRequest::CommentsAdd(
                CommentsAddOptions { content: string_of(text.as_str()), task: task_ref, project: project_ref },
            )
        },
        Some(CommentsCommands::Edit { comment_id, text }) => AuthRequest::CommentsEdit(
            CommentsEditOptions { comment_id: string_of(comment_id.as_str()), content: string_of(text.as_str()) },
        ),
        Some(CommentsCommands::Delete { comment_id, force }) => AuthRequest::CommentsDelete(
            CommentsDeleteOptions { comment_id: string_of(comment_id.as_str()), force: *force },
        ),
        Some(CommentsCommands::Attach { .. }) => AuthRequest::CommentsNotImplemented,
        Some(CommentsCommands::Download { .. }) => AuthRequest::CommentsNotImplemented,
    }
}

fn reminders_request(task: &Option<String>, c: &Option<RemindersCommands>) -> (r: AuthRequest)
    ensures
        group_request_spec(AuthDispatch::Reminders { task, command: c }, r),
{
    match c {
        None => AuthRequest::RemindersList(RemindersListOptions { task: copy_opt(task) }),
        Some(RemindersCommands::List) => AuthRequest::RemindersList(RemindersListOptions { task: copy_opt(task) }),
        Some(RemindersCommands::Add { task: t, due, offset }) => AuthRequest::RemindersAdd(
            RemindersAddOptions { task: string_of(t.as_str()), due: copy_opt(due), offset: *offset },
        ),
        Some(RemindersCommands::Delete { reminder_id, force }) => AuthRequest::RemindersDelete(
            RemindersDeleteOptions { reminder_id: string_of(reminder_id.as_str()), force: *force },
        ),
    }
}

fn filters_request(c: &Option<FiltersCommands>) -> (r: AuthRequest)
    ensures
        group_request_spec(AuthDispatch::Filters(c), r),
{
    match c {
        None => AuthRequest::FiltersList(FiltersListOptions { limit: None }),
        Some(FiltersCommands::List) => AuthRequest::FiltersList(FiltersListOptions { limit: None }),
        Some(FiltersCommands::Add { name, query, color, favorite }) => AuthRequest::FiltersAdd(
            FiltersAddOptions {
                name: string_of(name.as_str()),
                query: string_of(query.as_str()),
                color: copy_opt(color),
                favorite: *favorite,
            },
        ),
        Some(FiltersCommands::Show { filter_id }) => AuthRequest::FiltersShow(
            FiltersShowOptions { filter_id: string_of(filter_id.as_str()) },
        ),
        Some(FiltersCommands::Edit { filter_id, name, query, color, favorite }) => AuthRequest::FiltersEdit(
            FiltersEditOptions {
                filter_id: string_of(filter_id.as_str()),
                name: copy_opt(name),
                query: copy_opt(query),
                color: copy_opt(color),
                favorite: *favorite,
            },
        ),
        Some(FiltersCommands::Delete { filter_id, force }) => AuthRequest::FiltersDelete(
            FiltersDeleteOptions { filter_id: string_of(filter_id.as_str()), force: *force },
        ),
    }
}

impl<'a> AuthDispatch<'a> {
    /// The command and the options it runs with.
    pub fn request(&self) -> (r: AuthRequest)
        ensures
            task_request_spec(*self, r),
            group_request_spec(*self, r),
    {
        match self {
            AuthDispatch::List { filter, project, label, priority, section, overdue, no_due, limit, all, cursor, sort, reverse } => AuthRequest::List(
                ListOptions {
                    filter: copy_opt(filter),
                    project: copy_opt(project),
                    label: copy_opt(label),
                    priority: *priority,
                    section: copy_opt(section),
                    overdue: *overdue,
                    no_due: *no_due,
                    limit: *limit,
                    all: *all,
                    cursor: copy_opt(cursor),
                    sort: match sort {
                        Some(s) => Some(*s),
                        None => None,
                    },
                    reverse: *reverse,
                },
            ),
            AuthDispatch::Add { content, project, priority, due, labels, section, parent, description } => AuthRequest::Add(
                AddOptions {
                    content: string_of(content),
                    project: copy_opt(project),
                    priority: *priority,
                    due: copy_opt(due),
                    labels: copy_strings(labels),
                    section: copy_opt(section),
                    parent: copy_opt(parent),
                    description: copy_opt(description),
                },
            ),
            AuthDispatch::Show { task_id, comments, reminders } => AuthRequest::Show(
                ShowOptions { task_id: string_of(task_id), comments: *comments, reminders: *reminders },
            ),
            AuthDispatch::Edit { task_id, content, project, priority, due, no_due, labels, add_label, remove_label, section, description } => AuthRequest::Edit(
                EditOptions {
                    task_id: string_of(task_id),
                    content: copy_opt(content),
                    project: copy_opt(project),
                    priority: *priority,
                    due: copy_opt(due),
                    no_due: *no_due,
                    labels: copy_strings(labels),
                    add_label: copy_opt(add_label),
                    remove_label: copy_opt(remove_label),
                    section: copy_opt(section),
                    description: copy_opt(description),
                },
            ),
            AuthDispatch::Done { task_ids, all_occurrences, force } => AuthRequest::Done(
                DoneOptions { task_ids: copy_strings(task_ids), all_occurrences: *all_occurrences, force: *force },
            ),
            AuthDispatch::Reopen { task_ids, force } => AuthRequest::Reopen(
                ReopenOptions { task_ids: copy_strings(task_ids), force: *force },
            ),
            AuthDispatch::Delete { task_ids, force } => AuthRequest::Delete(
                DeleteOptions { task_ids: copy_strings(task_ids), force: *force },
            ),
            AuthDispatch::Today { include_overdue, include_upcoming } => AuthRequest::Today(
                TodayOptions { include_overdue: *include_overdue, include_upcoming: *include_upcoming },
            ),
            AuthDispatch::Quick { text, auto_reminder, note } => AuthRequest::Quick(
                QuickOptions { text: string_of(text), auto_reminder: *auto_reminder, note: copy_opt(note) },
            ),
            AuthDispatch::Sync { full } => AuthRequest::Sync(SyncOptions { full: *full }),
            AuthDispatch::ConfigEdit => AuthRequest::ConfigEdit,
            AuthDispatch::Projects(c) => projects_request(c),
            AuthDispatch::Labels(c) => labels_request(c),
            AuthDispatch::Sections { project, command } => sections_request(project, command),
            AuthDispatch::Comments { task, project, command } => comments_request(task, project, command),
            AuthDispatch::Reminders { task, command } => reminders_request(task, command),
            AuthDispatch::Filters(c) => filters_request(c),
        }
    }
}

} // verus!

verus! {

/// `config edit`: the one command that both routes take.
pub open spec fn is_config_edit(command: Option<Commands>) -> bool {
    command matches Some(Commands::Config { command: Some(ConfigCommands::Edit) })
}

/// Every command line is routed: without a token or with one, never both,
/// but for `config edit`, which needs the token for the keyring.
pub proof fn law_dispatch_partition(command: Option<Commands>, n: Option<NoAuthDispatch>, a: Option<AuthDispatch>)
    requires
        no_auth_spec(command, n),
        auth_spec(command, a),
    ensures
        n is Some || a is Some,
        (n is Some && a is Some) <==> is_config_edit(command),
{
}

} // verus!
