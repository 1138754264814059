//! Command implementations: options, results and the decisions they make.

use vstd::prelude::*;
use crate::cli::Cli;
use crate::text::{decimal, push_str, push_u64, string_of};

pub mod lookup;
pub mod bulk;
pub mod done;
pub mod delete;
pub mod reopen;
pub mod show;
pub mod edit;
pub mod keyring;
pub mod config;
pub mod setup;
pub mod list;
pub mod today;
pub mod entities;
pub mod labels;
pub mod sections;
pub mod filters;
pub mod reminders;
pub mod comments;
pub mod projects;
pub mod add;
pub mod quick;
pub mod sync;
pub mod collaborators;

verus! {

/// Kinds of failure of a sync with the Todoist API.
#[derive(Debug, Clone, Copy, PartialEq, Eq, Structural)]
pub enum SyncErrorKind {
    /// The API refused or failed the request.
    Api,
    /// The local cache could not be read or written.
    Cache,
    /// A resource was not found.
    NotFound,
    /// The sync token was rejected.
    SyncTokenInvalid,
}

/// A failed sync: its kind and the message it came with.
#[derive(Debug, Clone)]
pub struct SyncError {
    pub kind: SyncErrorKind,
    pub message: String,
}

/// Error type for command execution.
#[derive(Debug, Clone)]
pub enum CommandError {
    /// Cache/sync error.
    Sync(SyncError),
    /// Cache store error.
    CacheStore(String),
    /// Filter parsing error.
    Filter(String),
    /// API error.
    Api(String),
    /// Configuration error.
    Config(String),
    /// I/O error.
    Io(String),
    /// Serialization error.
    Json(String),
}

/// The text of an error as it is shown to the user.
pub open spec fn error_text(e: CommandError) -> Seq<char> {
    match e {
        CommandError::Sync(s) => "sync error: "@ + s.message@,
        CommandError::CacheStore(m) => "cache error: "@ + m@,
        CommandError::Filter(m) => "filter error: "@ + m@,
        CommandError::Api(m) => "API error: "@ + m@,
        CommandError::Config(m) => "configuration error: "@ + m@,
        CommandError::Io(m) => "I/O error: "@ + m@,
        CommandError::Json(m) => "serialization error: "@ + m@,
    }
}

impl CommandError {
    /// The text of the error as it is shown to the user.
    pub fn to_string(&self) -> (r: String)
        ensures
            r@ == error_text(*self),
    {
        let (prefix, m): (&str, &String) = match self {
            CommandError::Sync(s) => ("sync error: ", &s.message),
            CommandError::CacheStore(m) => ("cache error: ", m),
            CommandError::Filter(m) => ("filter error: ", m),
            CommandError::Api(m) => ("API error: ", m),
            CommandError::Config(m) => ("configuration error: ", m),
            CommandError::Io(m) => ("I/O error: ", m),
            CommandError::Json(m) => ("serialization error: ", m),
        };
        let mut r = string_of(prefix);
        push_str(&mut r, m.as_str());
        r
    }
}

/// Result type for command execution.
pub type Result<T> = core::result::Result<T, CommandError>;

/// Confirmation result for bulk operations.
#[derive(Debug, Clone, Copy, PartialEq, Eq, Structural)]
pub enum ConfirmResult {
    /// User confirmed the operation.
    Confirmed,
    /// Operation was aborted by user.
    Aborted,
}

/// What a bulk operation does before it runs.
#[derive(Debug)]
pub enum BulkConfirmation {
    /// Proceed without a word.
    Proceed,
    /// Proceed, after printing this warning to standard error.
    ProceedWithWarning(String),
    /// Print `listing` to standard error and ask `question`; proceed only on yes.
    Ask { listing: String, question: String },
}

/// `About to <action> <n> tasks`.
pub open spec fn about_to(action: Seq<char>, n: nat) -> Seq<char> {
    "About to "@ + action + " "@ + decimal(n) + " tasks"@
}

/// The listing of the items a bulk operation affects.
pub open spec fn bulk_listing(items: Seq<(Seq<char>, Seq<char>)>) -> Seq<char>
    decreases items.len(),
{
    if items.len() == 0 {
        Seq::empty()
    } else {
        bulk_listing(items.drop_last()) + "  "@ + items.last().0 + "  "@ + items.last().1 + "\n"@
    }
}

/// The views of `(id_prefix, content)` pairs.
pub open spec fn pair_views(items: Seq<(&str, &str)>) -> Seq<(Seq<char>, Seq<char>)> {
    items.map_values(|p: (&str, &str)| (p.0@, p.1@))
}

/// When a bulk operation asks, proceeds with a warning, or proceeds silently.
///
/// A single item (or none), `force` and `quiet` skip the question; without a
/// terminal on standard input the operation proceeds with a warning.
pub open spec fn bulk_confirmation_spec(
    action: Seq<char>,
    items: Seq<(Seq<char>, Seq<char>)>,
    force: bool,
    quiet: bool,
    stdin_is_tty: bool,
    r: BulkConfirmation,
) -> bool {
    if items.len() <= 1 || force || quiet {
        r is Proceed
    } else if !stdin_is_tty {
        r matches BulkConfirmation::ProceedWithWarning(w) && w@ == "Warning: "@ + about_to(
            action,
            items.len(),
        ) + " (non-interactive mode, proceeding automatically)"@
    } else {
        r matches BulkConfirmation::Ask { listing, question } && listing@ == about_to(
            action,
            items.len(),
        ) + ":\n"@ + bulk_listing(items) + "\n"@ && question@ == "Continue with "@ + action + " "@
            + decimal(items.len()) + " tasks?"@
    }
}

fn push_about_to(out: &mut String, action: &str, n: usize)
    ensures
        final(out)@ == old(out)@ + about_to(action@, n as nat),
{
    push_str(out, "About to ");
    push_str(out, action);
    push_str(out, " ");
    push_u64(out, n as u64);
    push_str(out, " tasks");
    assert(out@ =~= old(out)@ + about_to(action@, n as nat));
}

/// Decides how a bulk destructive operation is confirmed.
pub fn plan_bulk_confirmation(
    action: &str,
    items: &[(&str, &str)],
    force: bool,
    quiet: bool,
    stdin_is_tty: bool,
) -> (r: BulkConfirmation)
    ensures
        bulk_confirmation_spec(action@, pair_views(items@), force, quiet, stdin_is_tty, r),
{
    if items.len() <= 1 || force || quiet {
        return BulkConfirmation::Proceed;
    }
    if !stdin_is_tty {
        let mut w = string_of("Warning: ");
        push_about_to(&mut w, action, items.len());
        push_str(&mut w, " (non-interactive mode, proceeding automatically)");
        return BulkConfirmation::ProceedWithWarning(w);
    }
    let ghost pv = pair_views(items@);
    let mut listing = String::new();
    push_about_to(&mut listing, action, items.len());
    push_str(&mut listing, ":\n");
    let ghost head = listing@;
    let mut i: usize = 0;
    while i < items.len()
        invariant
            pv == pair_views(items@),
            i <= items@.len(),
            listing@ == head + bulk_listing(pv.take(i as int)),
        decreases items.len() - i,
    {
        let (id, content) = items[i];
        push_str(&mut listing, "  ");
        push_str(&mut listing, id);
        push_str(&mut listing, "  ");
        push_str(&mut listing, content);
        push_str(&mut listing, "\n");
        assert(pv.take(i + 1).drop_last() =~= pv.take(i as int));
        assert(listing@ =~= head + bulk_listing(pv.take(i + 1)));
        i = i + 1;
    }
    assert(pv.take(items@.len() as int) =~= pv);
    push_str(&mut listing, "\n");
    let mut question = string_of("Continue with ");
    push_str(&mut question, action);
    push_str(&mut question, " ");
    push_u64(&mut question, items.len() as u64);
    push_str(&mut question, " tasks?");
    BulkConfirmation::Ask { listing, question }
}

/// The answer to the confirmation question, as a result.
pub fn confirmation_answer(confirmed: bool) -> (r: ConfirmResult)
    ensures
        r == (if confirmed {
            ConfirmResult::Confirmed
        } else {
            ConfirmResult::Aborted
        }),
{
    if confirmed {
        ConfirmResult::Confirmed
    } else {
        ConfirmResult::Aborted
    }
}

/// Context for command execution, containing common dependencies.
pub struct CommandContext {
    /// Whether to output JSON.
    pub json_output: bool,
    /// Whether to use colors.
    pub use_colors: bool,
    /// Whether to be quiet (errors only).
    pub quiet: bool,
    /// Whether to be verbose.
    pub verbose: bool,
    /// Whether to sync before executing the command.
    pub sync_first: bool,
}

impl CommandContext {
    /// Creates a new command context from CLI arguments.
    pub fn from_cli(cli: &Cli) -> (r: Self)
        ensures
            r.json_output == cli.json,
            r.use_colors == !cli.no_color,
            r.quiet == cli.quiet,
            r.verbose == cli.verbose,
            r.sync_first == cli.sync,
    {
        CommandContext {
            json_output: cli.json,
            use_colors: !cli.no_color,
            quiet: cli.quiet,
            verbose: cli.verbose,
            sync_first: cli.sync,
        }
    }
}

} // verus!
