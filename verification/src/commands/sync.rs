//! `td sync`: what a sync reports about the cache.

use vstd::prelude::*;
use crate::commands::entities::{Deletable, live_entities};
use crate::commands::list::kept;
use crate::model::{Cache, Item};
use crate::style::{bold, bold_text, green, green_text};
use crate::text::{decimal, push_str, push_u64, string_of};

verus! {

/// Options for the sync command.
#[derive(Debug)]
pub struct SyncOptions {
    /// Perform a full sync.
    pub full: bool,
}

/// What a sync reports: whether it was full, and the live entities of the cache.
#[derive(Debug)]
pub struct SyncSummary {
    pub full_sync: bool,
    pub tasks: usize,
    pub projects: usize,
    pub labels: usize,
    pub sections: usize,
    pub comments: usize,
    pub reminders: usize,
    pub filters: usize,
}

/// How many entities are not deleted.
pub fn count_live<T: Deletable>(xs: &Vec<T>) -> (n: usize)
    ensures
        n == live_entities(xs@).len(),
{
    let mut n: usize = 0;
    let mut i: usize = 0;
    while i < xs.len()
        invariant
            i <= xs.len(),
            n == kept(xs@, |k: int, x: T| !x.deleted(), i as int).len(),
            n <= i,
        decreases xs.len() - i,
    {
        if !xs[i].is_deleted_flag() {
            n = n + 1;
        }
        i = i + 1;
    }
    n
}

/// The open tasks: neither deleted nor completed.
pub open spec fn open_tasks(items: Seq<Item>) -> Seq<Item> {
    kept(items, |k: int, i: Item| !i.is_deleted && !i.checked, items.len() as int)
}

/// How many tasks are open.
pub fn count_open_tasks(items: &Vec<Item>) -> (n: usize)
    ensures
        n == open_tasks(items@).len(),
{
    let mut n: usize = 0;
    let mut i: usize = 0;
    while i < items.len()
        invariant
            i <= items.len(),
            n == kept(items@, |k: int, x: Item| !x.is_deleted && !x.checked, i as int).len(),
            n <= i,
        decreases items.len() - i,
    {
        if !items[i].is_deleted && !items[i].checked {
            n = n + 1;
        }
        i = i + 1;
    }
    n
}

/// The sync was full: asked for, or the cache's last full sync is within
/// five seconds of `now` (both in seconds).
pub open spec fn was_full(full: bool, full_sync_date: Option<i64>, now: i64) -> bool {
    full || match full_sync_date {
        Some(d) => -5 < now - d < 5,
        None => false,
    }
}

/// The summary of the cache after a sync, as of `now` (in seconds).
pub fn summary_at(cache: &Cache, full: bool, now: i64) -> (s: SyncSummary)
    requires
        live_entities(cache.notes@).len() + live_entities(cache.project_notes@).len() <= usize::MAX,
    ensures
        s.full_sync == was_full(full, cache.full_sync_date_utc, now),
        s.tasks == open_tasks(cache.items@).len(),
        s.projects == live_entities(cache.projects@).len(),
        s.labels == live_entities(cache.labels@).len(),
        s.sections == live_entities(cache.sections@).len(),
        s.comments == live_entities(cache.notes@).len() + live_entities(cache.project_notes@).len(),
        s.reminders == live_entities(cache.reminders@).len(),
        s.filters == live_entities(cache.filters@).len(),
{
    let recent = match cache.full_sync_date_utc {
        Some(d) => {
            let diff: i128 = now as i128 - d as i128;
            -5 < diff && diff < 5
        },
        None => false,
    };
    SyncSummary {
        full_sync: full || recent,
        tasks: count_open_tasks(&cache.items),
        projects: count_live(&cache.projects),
        labels: count_live(&cache.labels),
        sections: count_live(&cache.sections),
        comments: count_live(&cache.notes) + count_live(&cache.project_notes),
        reminders: count_live(&cache.reminders),
        filters: count_live(&cache.filters),
    }
}

/// The current time in seconds since the Unix epoch (`chrono::Utc::now()`);
/// it depends on the clock, so nothing is stated of it.
#[verifier::external_body]
pub(crate) fn utc_now_seconds() -> (t: i64) {
    chrono::Utc::now().timestamp()
}

/// The summary of the cache right after a sync.
pub fn sync_summary(cache: &Cache, full: bool) -> (s: SyncSummary)
    requires
        live_entities(cache.notes@).len() + live_entities(cache.project_notes@).len() <= usize::MAX,
    ensures
        exists|now: i64| s.full_sync == #[trigger] was_full(full, cache.full_sync_date_utc, now),
        s.tasks == open_tasks(cache.items@).len(),
        s.projects == live_entities(cache.projects@).len(),
        s.labels == live_entities(cache.labels@).len(),
        s.sections == live_entities(cache.sections@).len(),
        s.comments == live_entities(cache.notes@).len() + live_entities(cache.project_notes@).len(),
        s.reminders == live_entities(cache.reminders@).len(),
        s.filters == live_entities(cache.filters@).len(),
{
    let now = utc_now_seconds();
    let s = summary_at(cache, full, now);
    assert(s.full_sync == was_full(full, cache.full_sync_date_utc, now));
    s
}

/// The counts of the sync report's JSON form.
#[derive(Debug)]
pub struct SyncCounts {
    pub tasks: usize,
    pub projects: usize,
    pub labels: usize,
    pub sections: usize,
    pub comments: usize,
    pub reminders: usize,
    pub filters: usize,
}

/// The sync report's JSON form.
#[derive(Debug)]
pub struct SyncOutput {
    pub status: &'static str,
    pub sync_type: &'static str,
    pub summary: SyncCounts,
}

/// Builds the sync report's JSON form: a success, the kind of sync, and
/// the counts of the summary.
pub fn sync_output(summary: &SyncSummary) -> (r: SyncOutput)
    ensures
        r.status@ == "success"@,
        r.sync_type@ == (if summary.full_sync { "full"@ } else { "incremental"@ }),
        r.summary.tasks == summary.tasks,
        r.summary.projects == summary.projects,
        r.summary.labels == summary.labels,
        r.summary.sections == summary.sections,
        r.summary.comments == summary.comments,
        r.summary.reminders == summary.reminders,
        r.summary.filters == summary.filters,
{
    SyncOutput {
        status: "success",
        sync_type: if summary.full_sync { "full" } else { "incremental" },
        summary: SyncCounts {
            tasks: summary.tasks,
            projects: summary.projects,
            labels: summary.labels,
            sections: summary.sections,
            comments: summary.comments,
            reminders: summary.reminders,
            filters: summary.filters,
        },
    }
}

/// The sync report as a table.
pub open spec fn sync_table(s: SyncSummary, use_colors: bool) -> Seq<char> {
    let header = (if s.full_sync {
        "Full"@
    } else {
        "Incremental"@
    }) + " sync completed"@;
    (if use_colors {
        bold_text(green_text(header))
    } else {
        header
    }) + "\n\n"@ + "Cache summary:\n"@ + "  Tasks:     "@ + decimal(s.tasks as nat) + "\n"@ + "  Projects:  "@
        + decimal(s.projects as nat) + "\n"@ + "  Labels:    "@ + decimal(s.labels as nat) + "\n"@ + "  Sections:  "@
        + decimal(s.sections as nat) + "\n"@ + "  Comments:  "@ + decimal(s.comments as nat) + "\n"@
        + "  Reminders: "@ + decimal(s.reminders as nat) + "\n"@ + "  Filters:   "@ + decimal(s.filters as nat)
        + "\n"@
}

/// Formats the sync report as a table.
pub fn format_sync_table(summary: &SyncSummary, use_colors: bool) -> (r: String)
    ensures
        r@ == sync_table(*summary, use_colors),
{
    let mut header = if summary.full_sync {
        string_of("Full")
    } else {
        string_of("Incremental")
    };
    push_str(&mut header, " sync completed");
    let mut out = if use_colors {
        let g = green(header.as_str());
        bold(g.as_str())
    } else {
        header
    };
    push_str(&mut out, "\n\n");
    push_str(&mut out, "Cache summary:\n");
    push_str(&mut out, "  Tasks:     ");
    push_u64(&mut out, summary.tasks as u64);
    push_str(&mut out, "\n");
    push_str(&mut out, "  Projects:  ");
    push_u64(&mut out, summary.projects as u64);
    push_str(&mut out, "\n");
    push_str(&mut out, "  Labels:    ");
    push_u64(&mut out, summary.labels as u64);
    push_str(&mut out, "\n");
    push_str(&mut out, "  Sections:  ");
    push_u64(&mut out, summary.sections as u64);
    push_str(&mut out, "\n");
    push_str(&mut out, "  Comments:  ");
    push_u64(&mut out, summary.comments as u64);
    push_str(&mut out, "\n");
    push_str(&mut out, "  Reminders: ");
    push_u64(&mut out, summary.reminders as u64);
    push_str(&mut out, "\n");
    push_str(&mut out, "  Filters:   ");
    push_u64(&mut out, summary.filters as u64);
    push_str(&mut out, "\n");
    out
}

} // verus!
