//! `td labels`: listing, adding, editing and deleting labels.

use vstd::prelude::*;
use crate::commands::{CommandError, Result};
use crate::commands::entities::{
    SyncReply, applied, applied_spec, check_color, color_error, color_ok, copy_opt, created_as, created_id, first_n, opt_chars,
    in_order, limit_to, live_entities, live_flags, live_in_order, live_of, new_temp_id, valid_color,
};
pub use crate::commands::entities::is_valid_color;
use crate::commands::lookup::{find_by_id_or_prefix, found_spec};
use crate::commands::show::derefs;
use crate::model::{Cache, Label};
use crate::text::string_of;

verus! {

/// Options for the labels list command.
#[derive(Debug)]
pub struct LabelsListOptions {
    /// Limit results.
    pub limit: Option<u32>,
}

impl Default for LabelsListOptions {
    fn default() -> (r: Self)
        ensures
            r.limit is None,
    {
        LabelsListOptions { limit: None }
    }
}

/// The labels that are not deleted, by their order.
pub fn filter_labels(cache: &Cache) -> (r: Vec<&Label>)
    ensures
        in_order(live_entities(cache.labels@), derefs(r@)),
{
    live_in_order(&cache.labels)
}

/// The first `limit` labels.
pub fn apply_limit<'a>(labels: Vec<&'a Label>, opts: &LabelsListOptions) -> (r: Vec<&'a Label>)
    ensures
        r@ == first_n(labels@, opts.limit),
{
    limit_to(labels, opts.limit)
}

/// Finds a label that is not deleted by full ID or unique prefix.
pub fn find_label_by_id_or_prefix<'a>(cache: &'a Cache, id: &str) -> (r: Result<&'a Label>)
    ensures
        found_spec(cache.labels@, live_of(cache.labels@), id@, "label"@, "labels"@, "Label not found"@, r),
{
    let live = live_flags(&cache.labels);
    find_by_id_or_prefix(&cache.labels, &live, id, "label", "labels", "Label not found")
}

/// Options for the labels add command.
#[derive(Debug)]
pub struct LabelsAddOptions {
    /// Label name.
    pub name: String,
    /// Label color.
    pub color: Option<String>,
    /// Mark as favorite.
    pub favorite: bool,
}

/// Result of a successful label add operation.
#[derive(Debug)]
pub struct LabelAddResult {
    /// The real ID of the created label.
    pub id: String,
    /// The label name.
    pub name: String,
    /// The label color.
    pub color: Option<String>,
    /// Whether the label is a favorite.
    pub is_favorite: bool,
}

/// The arguments of a `label_add` command.
#[derive(Debug)]
pub struct LabelAdd {
    pub temp_id: String,
    pub name: String,
    pub color: Option<String>,
    /// `is_favorite: true` is sent only for a favourite.
    pub is_favorite: bool,
}

/// The `label_add` command for the options, once the colour is valid.
pub fn plan_label_add(opts: &LabelsAddOptions) -> (r: Result<LabelAdd>)
    ensures
        !color_ok(opts.color) ==> (r matches Err(CommandError::Config(m)) && m@ == color_error(opts.color->0@)),
        color_ok(opts.color) ==> (r matches Ok(a) && a.name@ == opts.name@ && opt_chars(a.color) == opt_chars(
            opts.color,
        ) && a.is_favorite == opts.favorite),
{
    check_color(&opts.color)?;
    Ok(LabelAdd { temp_id: new_temp_id(), name: string_of(opts.name.as_str()), color: copy_opt(&opts.color), is_favorite: opts.favorite })
}

/// The created label, from the API's reply to its `label_add` command.
pub fn label_added(cmd: &LabelAdd, reply: &SyncReply) -> (r: Result<LabelAddResult>)
    ensures
        created_as(
            *reply,
            cmd.temp_id@,
            "Label"@,
            match r {
                Ok(x) => Ok(x.id@),
                Err(e) => Err(e),
            },
        ),
        r matches Ok(x) ==> x.name@ == cmd.name@ && opt_chars(x.color) == opt_chars(cmd.color) && x.is_favorite
            == cmd.is_favorite,
{
    let id = created_id(reply, cmd.temp_id.as_str(), "Label");
    match id {
        Ok(id) => Ok(
            LabelAddResult {
                id,
                name: string_of(cmd.name.as_str()),
                color: copy_opt(&cmd.color),
                is_favorite: cmd.is_favorite,
            },
        ),
        Err(e) => Err(e),
    }
}

} // verus!

verus! {

/// Options for the labels edit command.
#[derive(Debug)]
pub struct LabelsEditOptions {
    /// Label ID (full ID or prefix).
    pub label_id: String,
    /// New name.
    pub name: Option<String>,
    /// New color.
    pub color: Option<String>,
    /// Set favorite status.
    pub favorite: Option<bool>,
}

/// Result of a successful label edit operation.
#[derive(Debug)]
pub struct LabelEditResult {
    /// The label ID.
    pub id: String,
    /// The label name (after edit).
    pub name: String,
    /// Fields that were updated.
    pub updated_fields: Vec<String>,
}

/// The arguments of a `label_update` command.
#[derive(Debug)]
pub struct LabelUpdate {
    pub id: String,
    pub name: Option<String>,
    pub color: Option<String>,
    pub is_favorite: Option<bool>,
}

/// The names of the fields an edit changes, in the order name, color, favorite.
pub open spec fn edit_fields(name: bool, color: bool, favorite: bool) -> Seq<Seq<char>> {
    (if name {
        seq!["name"@]
    } else {
        Seq::empty()
    }) + (if color {
        seq!["color"@]
    } else {
        Seq::empty()
    }) + (if favorite {
        seq!["favorite"@]
    } else {
        Seq::empty()
    })
}

/// The names of the changed fields.
pub fn edit_field_names(name: bool, color: bool, favorite: bool) -> (r: Vec<String>)
    ensures
        crate::text::views(r@) == edit_fields(name, color, favorite),
{
    let mut r: Vec<String> = Vec::new();
    if name {
        r.push(string_of("name"));
    }
    if color {
        r.push(string_of("color"));
    }
    if favorite {
        r.push(string_of("favorite"));
    }
    assert(crate::text::views(r@) =~= edit_fields(name, color, favorite));
    r
}

/// The update of label `l` the options ask for, and what the edit reports.
pub open spec fn label_edit_ok(l: Label, o: LabelsEditOptions, u: LabelUpdate, res: LabelEditResult) -> bool {
    &&& u.id@ == l.id@
    &&& opt_chars(u.name) == opt_chars(o.name)
    &&& opt_chars(u.color) == opt_chars(o.color)
    &&& u.is_favorite == o.favorite
    &&& res.id@ == l.id@
    &&& res.name@ == match o.name {
        Some(n) => n@,
        None => l.name@,
    }
    &&& crate::text::views(res.updated_fields@) == edit_fields(o.name is Some, o.color is Some, o.favorite is Some)
}

/// The message for an edit that changes nothing.
pub open spec fn no_label_changes() -> Seq<char> {
    "No changes specified. Use --name, --color, or --favorite."@
}

/// Plans the edit of label `l`.
pub fn plan_label_edit(l: &Label, opts: &LabelsEditOptions) -> (r: Result<(LabelUpdate, LabelEditResult)>)
    ensures
        !color_ok(opts.color) ==> (r matches Err(CommandError::Config(m)) && m@ == color_error(opts.color->0@)),
        color_ok(opts.color) ==> (r matches Ok(p) && label_edit_ok(*l, *opts, p.0, p.1)),
{
    check_color(&opts.color)?;
    let u = LabelUpdate {
        id: string_of(l.id.as_str()),
        name: copy_opt(&opts.name),
        color: copy_opt(&opts.color),
        is_favorite: opts.favorite,
    };
    let name = match &opts.name {
        Some(n) => string_of(n.as_str()),
        None => string_of(l.name.as_str()),
    };
    let res = LabelEditResult {
        id: string_of(l.id.as_str()),
        name,
        updated_fields: edit_field_names(opts.name.is_some(), opts.color.is_some(), opts.favorite.is_some()),
    };
    Ok((u, res))
}

/// What `td labels edit` decides before it sends anything: an edit without
/// changes fails first, then the label is found, then the colour checked.
pub open spec fn label_edit_spec(
    labels: Seq<Label>,
    o: LabelsEditOptions,
    found: core::result::Result<&Label, CommandError>,
    r: Result<(LabelUpdate, LabelEditResult)>,
) -> bool {
    if o.name is None && o.color is None && o.favorite is None {
        r matches Err(CommandError::Config(m)) && m@ == no_label_changes()
    } else {
        &&& found_spec(labels, live_of(labels), o.label_id@, "label"@, "labels"@, "Label not found"@, found)
        &&& match found {
            Err(e) => r == Err::<(LabelUpdate, LabelEditResult), CommandError>(e),
            Ok(l) => if !color_ok(o.color) {
                r matches Err(CommandError::Config(m)) && m@ == color_error(o.color->0@)
            } else {
                r matches Ok(p) && label_edit_ok(*l, o, p.0, p.1)
            },
        }
    }
}

/// Plans `td labels edit` against the cache.
pub fn label_edit(cache: &Cache, opts: &LabelsEditOptions) -> (r: Result<(LabelUpdate, LabelEditResult)>)
    ensures
        exists|found: core::result::Result<&Label, CommandError>| #[trigger]
            label_edit_spec(cache.labels@, *opts, found, r),
{
    if opts.name.is_none() && opts.color.is_none() && opts.favorite.is_none() {
        let r: Result<(LabelUpdate, LabelEditResult)> = Err(
            CommandError::Config(string_of("No changes specified. Use --name, --color, or --favorite.")),
        );
        assert(label_edit_spec(cache.labels@, *opts, vstd::pervasive::arbitrary(), r));
        return r;
    }
    let found = find_label_by_id_or_prefix(cache, opts.label_id.as_str());
    let r = match found {
        Ok(l) => plan_label_edit(l, opts),
        Err(e) => Err(e),
    };
    assert(label_edit_spec(cache.labels@, *opts, found, r));
    r
}

/// Options for the labels delete command.
#[derive(Debug)]
pub struct LabelsDeleteOptions {
    /// Label ID (full ID or prefix).
    pub label_id: String,
    /// Skip confirmation.
    pub force: bool,
}

/// Result of a successful label delete operation.
#[derive(Debug)]
pub struct LabelDeleteResult {
    /// The label ID.
    pub id: String,
    /// The label name.
    pub name: String,
}

/// The message when a deletion is not confirmed.
pub open spec fn cancelled_message() -> Seq<char> {
    "Operation cancelled. Use --force to confirm."@
}

/// The deletion of a found label: without `--force` (and not quiet) it is
/// cancelled; else it goes ahead for that label.
pub fn plan_label_delete(l: &Label, opts: &LabelsDeleteOptions, quiet: bool) -> (r: Result<LabelDeleteResult>)
    ensures
        !opts.force && !quiet ==> (r matches Err(CommandError::Config(m)) && m@ == cancelled_message()),
        opts.force || quiet ==> (r matches Ok(d) && d.id@ == l.id@ && d.name@ == l.name@),
{
    if !opts.force && !quiet {
        return Err(CommandError::Config(string_of("Operation cancelled. Use --force to confirm.")));
    }
    Ok(LabelDeleteResult { id: string_of(l.id.as_str()), name: string_of(l.name.as_str()) })
}

} // verus!
