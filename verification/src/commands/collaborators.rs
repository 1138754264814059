//! `td collaborators`: the people a shared project is shared with.

use vstd::prelude::*;
use crate::commands::{CommandError, Result};
use crate::commands::entities::opt_chars;
use crate::model::{Cache, Collaborator, CollaboratorState, Project, Sharing, User};
use crate::resolve::{first_where, lemma_first_where_stays};
use crate::text::{lowercase, pad_right, push_padded, push_str, str_eq, string_of, to_lower};

verus! {

/// Options for the collaborators command.
#[derive(Debug)]
pub struct CollaboratorsOptions {
    /// Project name or ID.
    pub project: String,
}

/// A project answers to `q`: not deleted, and named `q` ignoring case or
/// with ID `q`.
pub open spec fn answers(p: Project, q: Seq<char>) -> bool {
    !p.is_deleted && (lowercase(p.name@) == lowercase(q) || p.id@ == q)
}

/// The first project answering to `q`.
pub open spec fn shared_project_index(projects: Seq<Project>, q: Seq<char>) -> Option<int> {
    first_where(projects, |p: Project| answers(p, q), projects.len() as int)
}

/// Finds the project whose collaborators are listed: the first one that
/// answers to the option, or the not-found error.
pub fn find_shared_project<'a>(cache: &'a Cache, opts: &CollaboratorsOptions) -> (r: Result<&'a Project>)
    ensures
        match shared_project_index(cache.projects@, opts.project@) {
            Some(i) => r matches Ok(p) && *p == cache.projects@[i],
            None => r matches Err(CommandError::Config(m)) && m@ == "Project not found: "@ + opts.project@,
        },
{
    let ghost pred = |p: Project| answers(p, opts.project@);
    let q = to_lower(opts.project.as_str());
    let mut i: usize = 0;
    while i < cache.projects.len()
        invariant
            i <= cache.projects@.len(),
            q@ == lowercase(opts.project@),
            pred == (|p: Project| answers(p, opts.project@)),
            first_where(cache.projects@, pred, i as int) is None,
        decreases cache.projects.len() - i,
    {
        let p = &cache.projects[i];
        let name = to_lower(p.name.as_str());
        if !p.is_deleted && (str_eq(name.as_str(), q.as_str()) || str_eq(p.id.as_str(), opts.project.as_str())) {
            assert(first_where(cache.projects@, pred, i + 1) == Some(i as int));
            proof {
                lemma_first_where_stays(cache.projects@, pred, i + 1, cache.projects@.len() as int);
            }
            return Ok(p);
        }
        i = i + 1;
    }
    let mut m = string_of("Project not found: ");
    push_str(&mut m, opts.project.as_str());
    Err(CommandError::Config(m))
}

/// The memberships of project `pid`, in order.
pub open spec fn states_of(states: Seq<CollaboratorState>, pid: Seq<char>) -> Seq<CollaboratorState>
    decreases states.len(),
{
    if states.len() == 0 {
        Seq::empty()
    } else if states.last().project_id@ == pid {
        states_of(states.drop_last(), pid).push(states.last())
    } else {
        states_of(states.drop_last(), pid)
    }
}

/// The memberships of a project.
pub fn project_states<'a>(sharing: &'a Sharing, pid: &str) -> (r: Vec<&'a CollaboratorState>)
    ensures
        r@.len() == states_of(sharing.states@, pid@).len(),
        forall|k: int| 0 <= k < r@.len() ==> *(#[trigger] r@[k]) == states_of(sharing.states@, pid@)[k],
{
    let mut r: Vec<&'a CollaboratorState> = Vec::new();
    let mut i: usize = 0;
    while i < sharing.states.len()
        invariant
            i <= sharing.states@.len(),
            r@.len() == states_of(sharing.states@.take(i as int), pid@).len(),
            forall|k: int|
                0 <= k < r@.len() ==> *(#[trigger] r@[k]) == states_of(sharing.states@.take(i as int), pid@)[k],
        decreases sharing.states.len() - i,
    {
        assert(sharing.states@.take(i + 1).drop_last() =~= sharing.states@.take(i as int));
        let s = &sharing.states[i];
        if str_eq(s.project_id.as_str(), pid) {
            r.push(s);
        }
        i = i + 1;
    }
    assert(sharing.states@.take(sharing.states@.len() as int) =~= sharing.states@);
    r
}

/// The message when a project has no collaborators.
pub open spec fn no_collaborators(name: Seq<char>) -> Seq<char> {
    "No collaborators found for project \""@ + name + "\" — it may be a personal project."@
}

/// The message when a project has no collaborators.
pub fn no_collaborators_message(name: &str) -> (r: String)
    ensures
        r@ == no_collaborators(name@),
{
    let mut r = string_of("No collaborators found for project \"");
    push_str(&mut r, name);
    push_str(&mut r, "\" — it may be a personal project.");
    r
}

/// The collaborator a membership names: the first with its user ID.
pub open spec fn member_of(collaborators: Seq<Collaborator>, s: CollaboratorState) -> Option<int> {
    first_where(collaborators, |c: Collaborator| c.id@ == s.user_id@, collaborators.len() as int)
}

/// Finds the collaborator a membership names.
pub fn find_member<'a>(sharing: &'a Sharing, s: &CollaboratorState) -> (r: Option<&'a Collaborator>)
    ensures
        match member_of(sharing.collaborators@, *s) {
            Some(i) => r matches Some(c) && *c == sharing.collaborators@[i],
            None => r is None,
        },
{
    let ghost pred = |c: Collaborator| c.id@ == s.user_id@;
    let mut i: usize = 0;
    while i < sharing.collaborators.len()
        invariant
            i <= sharing.collaborators@.len(),
            pred == (|c: Collaborator| c.id@ == s.user_id@),
            first_where(sharing.collaborators@, pred, i as int) is None,
        decreases sharing.collaborators.len() - i,
    {
        if str_eq(sharing.collaborators[i].id.as_str(), s.user_id.as_str()) {
            assert(first_where(sharing.collaborators@, pred, i + 1) == Some(i as int));
            proof {
                lemma_first_where_stays(sharing.collaborators@, pred, i + 1, sharing.collaborators@.len() as int);
            }
            return Some(&sharing.collaborators[i]);
        }
        i = i + 1;
    }
    None
}

/// The status shown for a membership: its state, marked `(you)` for the
/// account's own.
pub open spec fn status_shown(user: Option<User>, c: Collaborator, s: CollaboratorState) -> Seq<char> {
    if user matches Some(u) && u.id@ == c.id@ {
        s.state@ + " (you)"@
    } else {
        s.state@
    }
}

/// One row of the collaborators table, for a membership whose collaborator
/// is known: name (or `(unknown)`), email, status.
pub open spec fn member_row(user: Option<User>, c: Collaborator, s: CollaboratorState) -> Seq<char> {
    let name = match opt_chars(c.full_name) {
        Some(n) => n,
        None => "(unknown)"@,
    };
    let email = match opt_chars(c.email) {
        Some(e) => e,
        None => Seq::empty(),
    };
    pad_right(name, 25) + " "@ + pad_right(email, 30) + " "@ + status_shown(user, c, s) + "\n"@
}

/// The rows for the memberships, skipping those whose collaborator is unknown.
pub open spec fn member_rows(sharing: Sharing, user: Option<User>, states: Seq<CollaboratorState>) -> Seq<char>
    decreases states.len(),
{
    if states.len() == 0 {
        Seq::empty()
    } else {
        member_rows(sharing, user, states.drop_last()) + match member_of(sharing.collaborators@, states.last()) {
            Some(i) => member_row(user, sharing.collaborators@[i], states.last()),
            None => Seq::empty(),
        }
    }
}

/// The collaborators table: the header, then a row per membership whose
/// collaborator is known.
pub open spec fn collaborators_table(sharing: Sharing, user: Option<User>, states: Seq<CollaboratorState>) -> Seq<char> {
    "Name                      Email                          Status\n"@ + member_rows(sharing, user, states)
}

fn member_row_text(user: &Option<User>, c: &Collaborator, s: &CollaboratorState) -> (r: String)
    ensures
        r@ == member_row(*user, *c, *s),
{
    let mut r = String::new();
    match &c.full_name {
        Some(n) => push_padded(&mut r, n.as_str(), 25),
        None => push_padded(&mut r, "(unknown)", 25),
    }
    push_str(&mut r, " ");
    match &c.email {
        Some(e) => push_padded(&mut r, e.as_str(), 30),
        None => push_padded(&mut r, "", 30),
    }
    push_str(&mut r, " ");
    push_str(&mut r, s.state.as_str());
    let me = match user {
        Some(u) => str_eq(u.id.as_str(), c.id.as_str()),
        None => false,
    };
    if me {
        push_str(&mut r, " (you)");
    }
    push_str(&mut r, "\n");
    proof {
        reveal_strlit("");
    }
    r
}

/// Formats the memberships of a project as a table.
pub fn format_collaborators_table(sharing: &Sharing, user: &Option<User>, states: &Vec<&CollaboratorState>) -> (r: String)
    ensures
        r@ == collaborators_table(*sharing, *user, states@.map_values(|s: &CollaboratorState| *s)),
{
    let ghost ss = states@.map_values(|s: &CollaboratorState| *s);
    let mut r = string_of("Name                      Email                          Status\n");
    let ghost head = r@;
    let mut i: usize = 0;
    while i < states.len()
        invariant
            i <= states@.len(),
            ss == states@.map_values(|s: &CollaboratorState| *s),
            r@ == head + member_rows(*sharing, *user, ss.take(i as int)),
        decreases states.len() - i,
    {
        assert(ss.take(i + 1).drop_last() =~= ss.take(i as int));
        let s = states[i];
        match find_member(sharing, s) {
            Some(c) => {
                let row = member_row_text(user, c, s);
                push_str(&mut r, row.as_str());
            },
            None => {},
        }
        i = i + 1;
    }
    assert(ss.take(states.len() as int) =~= ss);
    r
}

/// JSON record of one collaborator of a project.
pub struct CollaboratorOutput<'a> {
    pub id: &'a str,
    pub name: Option<&'a str>,
    pub email: Option<&'a str>,
    pub status: &'a str,
}

/// The records of the memberships whose collaborator is known, in order.
pub open spec fn member_records(sharing: Sharing, states: Seq<CollaboratorState>) -> Seq<(Seq<char>, CollaboratorState)>
    decreases states.len(),
{
    if states.len() == 0 {
        Seq::empty()
    } else {
        let prev = member_records(sharing, states.drop_last());
        match member_of(sharing.collaborators@, states.last()) {
            Some(i) => prev.push((sharing.collaborators@[i].id@, states.last())),
            None => prev,
        }
    }
}

/// The JSON records of the memberships whose collaborator is known.
pub fn collaborator_records<'a>(sharing: &'a Sharing, states: &Vec<&'a CollaboratorState>) -> (r: Vec<CollaboratorOutput<'a>>)
    ensures
        r@.len() == member_records(*sharing, states@.map_values(|s: &CollaboratorState| *s)).len(),
        forall|k: int|
            0 <= k < r@.len() ==> (#[trigger] r@[k]).id@ == member_records(
                *sharing,
                states@.map_values(|s: &CollaboratorState| *s),
            )[k].0 && r@[k].status@ == member_records(*sharing, states@.map_values(|s: &CollaboratorState| *s))[k].1.state@,
{
    let ghost ss = states@.map_values(|s: &CollaboratorState| *s);
    let mut r: Vec<CollaboratorOutput<'a>> = Vec::new();
    let mut i: usize = 0;
    while i < states.len()
        invariant
            i <= states@.len(),
            ss == states@.map_values(|s: &CollaboratorState| *s),
            r@.len() == member_records(*sharing, ss.take(i as int)).len(),
            forall|k: int|
                0 <= k < r@.len() ==> (#[trigger] r@[k]).id@ == member_records(*sharing, ss.take(i as int))[k].0
                    && r@[k].status@ == member_records(*sharing, ss.take(i as int))[k].1.state@,
        decreases states.len() - i,
    {
        assert(ss.take(i + 1).drop_last() =~= ss.take(i as int));
        let s: &'a CollaboratorState = states[i];
        match find_member(sharing, s) {
            Some(c) => {
                let name = match &c.full_name {
                    Some(n) => Some(n.as_str()),
                    None => None,
                };
                let email = match &c.email {
                    Some(e) => Some(e.as_str()),
                    None => None,
                };
                r.push(CollaboratorOutput { id: c.id.as_str(), name, email, status: s.state.as_str() });
            },
            None => {},
        }
        i = i + 1;
    }
    assert(ss.take(states.len() as int) =~= ss);
    r
}

} // verus!
