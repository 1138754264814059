//! `td filters`: listing, showing, adding, editing and deleting saved filters.

use vstd::prelude::*;
use crate::commands::{CommandError, Result};
use crate::commands::entities::{
    SyncReply, check_color, color_error, color_ok, copy_opt, created_as, created_id, first_n, in_order, limit_to,
    live_entities, live_flags, live_in_order, live_of, new_temp_id, opt_chars,
};
pub use crate::commands::entities::is_valid_color;
use crate::commands::lookup::{find_by_id_or_prefix, found_spec};
use crate::commands::show::derefs;
use crate::model::{Cache, Filter};
use crate::text::{string_of, views};

verus! {

/// Options for the filters list command.
#[derive(Debug)]
pub struct FiltersListOptions {
    /// Limit results.
    pub limit: Option<u32>,
}

impl Default for FiltersListOptions {
    fn default() -> (r: Self)
        ensures
            r.limit is None,
    {
        FiltersListOptions { limit: None }
    }
}

/// The filters that are not deleted, by their order.
pub fn filter_filters(cache: &Cache) -> (r: Vec<&Filter>)
    ensures
        in_order(live_entities(cache.filters@), derefs(r@)),
{
    live_in_order(&cache.filters)
}

/// The first `limit` filters.
pub fn apply_limit<'a>(filters: Vec<&'a Filter>, opts: &FiltersListOptions) -> (r: Vec<&'a Filter>)
    ensures
        r@ == first_n(filters@, opts.limit),
{
    limit_to(filters, opts.limit)
}

/// Finds a filter that is not deleted by full ID or unique prefix.
pub fn find_filter_by_id_or_prefix<'a>(cache: &'a Cache, id: &str) -> (r: Result<&'a Filter>)
    ensures
        found_spec(cache.filters@, live_of(cache.filters@), id@, "filter"@, "filters"@, "Filter not found"@, r),
{
    let live = live_flags(&cache.filters);
    find_by_id_or_prefix(&cache.filters, &live, id, "filter", "filters", "Filter not found")
}

/// Options for the filters add command.
#[derive(Debug)]
pub struct FiltersAddOptions {
    /// Filter name.
    pub name: String,
    /// Filter query.
    pub query: String,
    /// Filter color.
    pub color: Option<String>,
    /// Mark as favorite.
    pub favorite: bool,
}

/// Result of a successful filter add operation.
#[derive(Debug)]
pub struct FilterAddResult {
    /// The real ID of the created filter.
    pub id: String,
    /// The filter name.
    pub name: String,
    /// The filter query.
    pub query: String,
    /// The filter color.
    pub color: Option<String>,
    /// Whether the filter is a favorite.
    pub is_favorite: bool,
}

/// The arguments of a `filter_add` command.
#[derive(Debug)]
pub struct FilterAdd {
    pub temp_id: String,
    pub name: String,
    pub query: String,
    pub color: Option<String>,
    /// `is_favorite: true` is sent only for a favourite.
    pub is_favorite: bool,
}

/// The `filter_add` command for the options, once the colour is valid.
pub fn plan_filter_add(opts: &FiltersAddOptions) -> (r: Result<FilterAdd>)
    ensures
        !color_ok(opts.color) ==> (r matches Err(CommandError::Config(m)) && m@ == color_error(opts.color->0@)),
        color_ok(opts.color) ==> (r matches Ok(a) && a.name@ == opts.name@ && a.query@ == opts.query@ && opt_chars(
            a.color,
        ) == opt_chars(opts.color) && a.is_favorite == opts.favorite),
{
    check_color(&opts.color)?;
    Ok(
        FilterAdd {
            temp_id: new_temp_id(),
            name: string_of(opts.name.as_str()),
            query: string_of(opts.query.as_str()),
            color: copy_opt(&opts.color),
            is_favorite: opts.favorite,
        },
    )
}

/// The created filter, from the API's reply to its `filter_add` command.
pub fn filter_added(cmd: &FilterAdd, reply: &SyncReply) -> (r: Result<FilterAddResult>)
    ensures
        created_as(
            *reply,
            cmd.temp_id@,
            "Filter"@,
            match r {
                Ok(x) => Ok(x.id@),
                Err(e) => Err(e),
            },
        ),
        r matches Ok(x) ==> x.name@ == cmd.name@ && x.query@ == cmd.query@ && opt_chars(x.color) == opt_chars(
            cmd.color,
        ) && x.is_favorite == cmd.is_favorite,
{
    match created_id(reply, cmd.temp_id.as_str(), "Filter") {
        Ok(id) => Ok(
            FilterAddResult {
                id,
                name: string_of(cmd.name.as_str()),
                query: string_of(cmd.query.as_str()),
                color: copy_opt(&cmd.color),
                is_favorite: cmd.is_favorite,
            },
        ),
        Err(e) => Err(e),
    }
}

/// Options for the filters show command.
#[derive(Debug)]
pub struct FiltersShowOptions {
    /// Filter ID (full ID or prefix).
    pub filter_id: String,
}

/// Result of the filters show command.
#[derive(Debug)]
pub struct FilterShowResult {
    /// The filter shown.
    pub filter: Filter,
}

/// Options for the filters edit command.
#[derive(Debug)]
pub struct FiltersEditOptions {
    /// Filter ID (full ID or prefix).
    pub filter_id: String,
    /// New name.
    pub name: Option<String>,
    /// New query.
    pub query: Option<String>,
    /// New color.
    pub color: Option<String>,
    /// Set favorite status.
    pub favorite: Option<bool>,
}

/// Result of a successful filter edit operation.
#[derive(Debug)]
pub struct FilterEditResult {
    /// The filter ID.
    pub id: String,
    /// The filter name (after edit).
    pub name: String,
    /// Fields that were updated.
    pub updated_fields: Vec<String>,
}

/// The arguments of a `filter_update` command.
#[derive(Debug)]
pub struct FilterUpdate {
    pub id: String,
    pub name: Option<String>,
    pub query: Option<String>,
    pub color: Option<String>,
    pub is_favorite: Option<bool>,
}

/// The names of the fields an edit changes, in the order name, query, color, favorite.
pub open spec fn filter_edit_fields(o: FiltersEditOptions) -> Seq<Seq<char>> {
    (if o.name is Some {
        seq!["name"@]
    } else {
        Seq::empty()
    }) + (if o.query is Some {
        seq!["query"@]
    } else {
        Seq::empty()
    }) + (if o.color is Some {
        seq!["color"@]
    } else {
        Seq::empty()
    }) + (if o.favorite is Some {
        seq!["favorite"@]
    } else {
        Seq::empty()
    })
}

/// The update of filter `f` the options ask for, and what the edit reports.
pub open spec fn filter_edit_ok(f: Filter, o: FiltersEditOptions, u: FilterUpdate, res: FilterEditResult) -> bool {
    &&& u.id@ == f.id@
    &&& opt_chars(u.name) == opt_chars(o.name)
    &&& opt_chars(u.query) == opt_chars(o.query)
    &&& opt_chars(u.color) == opt_chars(o.color)
    &&& u.is_favorite == o.favorite
    &&& res.id@ == f.id@
    &&& res.name@ == match o.name {
        Some(n) => n@,
        None => f.name@,
    }
    &&& views(res.updated_fields@) == filter_edit_fields(o)
}

/// What `td filters edit` decides before it sends anything: an edit without
/// changes fails first, then the filter is found, then the colour checked.
pub open spec fn filter_edit_spec(
    filters: Seq<Filter>,
    o: FiltersEditOptions,
    found: core::result::Result<&Filter, CommandError>,
    r: Result<(FilterUpdate, FilterEditResult)>,
) -> bool {
    if o.name is None && o.query is None && o.color is None && o.favorite is None {
        r matches Err(CommandError::Config(m)) && m@ == "No changes specified. Use --name, --query, --color, or --favorite."@
    } else {
        &&& found_spec(filters, live_of(filters), o.filter_id@, "filter"@, "filters"@, "Filter not found"@, found)
        &&& match found {
            Err(e) => r == Err::<(FilterUpdate, FilterEditResult), CommandError>(e),
            Ok(f) => if !color_ok(o.color) {
                r matches Err(CommandError::Config(m)) && m@ == color_error(o.color->0@)
            } else {
                r matches Ok(p) && filter_edit_ok(*f, o, p.0, p.1)
            },
        }
    }
}

fn filter_field_names(o: &FiltersEditOptions) -> (r: Vec<String>)
    ensures
        views(r@) == filter_edit_fields(*o),
{
    let mut r: Vec<String> = Vec::new();
    if o.name.is_some() {
        r.push(string_of("name"));
    }
    if o.query.is_some() {
        r.push(string_of("query"));
    }
    if o.color.is_some() {
        r.push(string_of("color"));
    }
    if o.favorite.is_some() {
        r.push(string_of("favorite"));
    }
    assert(views(r@) =~= filter_edit_fields(*o));
    r
}

/// Plans `td filters edit` against the cache.
pub fn filter_edit(cache: &Cache, opts: &FiltersEditOptions) -> (r: Result<(FilterUpdate, FilterEditResult)>)
    ensures
        exists|found: core::result::Result<&Filter, CommandError>| #[trigger]
            filter_edit_spec(cache.filters@, *opts, found, r),
{
    if opts.name.is_none() && opts.query.is_none() && opts.color.is_none() && opts.favorite.is_none() {
        let r: Result<(FilterUpdate, FilterEditResult)> = Err(
            CommandError::Config(string_of("No changes specified. Use --name, --query, --color, or --favorite.")),
        );
        assert(filter_edit_spec(cache.filters@, *opts, vstd::pervasive::arbitrary(), r));
        return r;
    }
    let found = find_filter_by_id_or_prefix(cache, opts.filter_id.as_str());
    let r = match found {
        Ok(f) => match check_color(&opts.color) {
            Err(e) => Err(e),
            Ok(()) => {
                let name = match &opts.name {
                    Some(n) => string_of(n.as_str()),
                    None => string_of(f.name.as_str()),
                };
                Ok(
                    (
                        FilterUpdate {
                            id: string_of(f.id.as_str()),
                            name: copy_opt(&opts.name),
                            query: copy_opt(&opts.query),
                            color: copy_opt(&opts.color),
                            is_favorite: opts.favorite,
                        },
                        FilterEditResult { id: string_of(f.id.as_str()), name, updated_fields: filter_field_names(opts) },
                    ),
                )
            },
        },
        Err(e) => Err(e),
    };
    assert(filter_edit_spec(cache.filters@, *opts, found, r));
    r
}

/// Options for the filters delete command.
#[derive(Debug)]
pub struct FiltersDeleteOptions {
    /// Filter ID (full ID or prefix).
    pub filter_id: String,
    /// Skip confirmation.
    pub force: bool,
}

/// Result of a successful filter delete operation.
#[derive(Debug)]
pub struct FilterDeleteResult {
    /// The filter ID.
    pub id: String,
    /// The filter name.
    pub name: String,
}

/// The deletion of a found filter: without `--force` (and not quiet) it
/// is cancelled; else it goes ahead for that filter.
pub fn plan_filter_delete(f: &Filter, opts: &FiltersDeleteOptions, quiet: bool) -> (r: Result<FilterDeleteResult>)
    ensures
        !opts.force && !quiet ==> (r matches Err(CommandError::Config(m)) && m@ == crate::commands::labels::cancelled_message()),
        opts.force || quiet ==> (r matches Ok(d) && d.id@ == f.id@ && d.name@ == f.name@),
{
    if !opts.force && !quiet {
        return Err(CommandError::Config(string_of("Operation cancelled. Use --force to confirm.")));
    }
    Ok(FilterDeleteResult { id: string_of(f.id.as_str()), name: string_of(f.name.as_str()) })
}

} // verus!
