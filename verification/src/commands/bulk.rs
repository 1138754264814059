//! Results of commands that act on several tasks at once (done, delete, reopen).

use vstd::prelude::*;
use crate::commands::CommandError;
use crate::output::helpers::{truncate_id, truncate_id_spec};
use crate::text::{chars_of, decimal, int_text, push_i64, push_str, push_u64, string_of};

verus! {

/// Result of acting on a single task.
#[derive(Debug, Clone)]
pub struct TaskResult {
    /// The task ID.
    pub id: String,
    /// The task content.
    pub content: String,
    /// Whether the operation succeeded.
    pub success: bool,
    /// Error message if failed.
    pub error: Option<String>,
}

/// An error the Sync API reported for one command of a batch.
#[derive(Debug, Clone)]
pub struct SyncCommandError {
    pub error_code: i64,
    pub error: String,
}

/// `needle` occurs in `hay`.
pub open spec fn contains_seq(hay: Seq<char>, needle: Seq<char>) -> bool {
    exists|i: int| 0 <= i && i + needle.len() <= hay.len() && #[trigger] hay.subrange(i, i + needle.len()) == needle
}

/// Exec substring test.
pub fn contains_str(hay: &str, needle: &str) -> (r: bool)
    ensures
        r == contains_seq(hay@, needle@),
{
    let h = chars_of(hay);
    let n = chars_of(needle);
    if n.len() > h.len() {
        return false;
    }
    let mut i: usize = 0;
    while i <= h.len() - n.len()
        invariant
            h@ == hay@,
            n@ == needle@,
            n.len() <= h.len(),
            i <= h.len() - n.len() + 1,
            forall|j: int| 0 <= j < i ==> #[trigger] hay@.subrange(j, j + needle@.len()) != needle@,
        decreases h.len() - i,
    {
        let mut k: usize = 0;
        let mut same = true;
        while k < n.len()
            invariant
                h@ == hay@,
                n@ == needle@,
                i + n.len() <= h.len(),
                k <= n.len(),
                same == (forall|j: int| 0 <= j < k ==> h@[i + j] == n@[j]),
            decreases n.len() - k,
        {
            if h[i + k] != n[k] {
                same = false;
            }
            k = k + 1;
        }
        if same {
            assert(hay@.subrange(i as int, i + needle@.len()) =~= needle@);
            return true;
        }
        proof {
            let j = choose|j: int| 0 <= j < n.len() && h@[i + j] != n@[j];
            assert(hay@.subrange(i as int, i + needle@.len())[j] != needle@[j]);
        }
        i = i + 1;
    }
    assert forall|j: int| 0 <= j && j + needle@.len() <= hay@.len() implies #[trigger] hay@.subrange(
        j,
        j + needle@.len(),
    ) != needle@ by {
        assert(j < i);
    }
    false
}

/// The first reported error whose text mentions `id`.
pub open spec fn first_error_for(errors: Seq<SyncCommandError>, id: Seq<char>, n: int) -> Option<int>
    decreases n,
{
    if n <= 0 {
        None
    } else {
        match first_error_for(errors, id, n - 1) {
            Some(j) => Some(j),
            None => if contains_seq(errors[n - 1].error@, id) {
                Some(n - 1)
            } else {
                None
            },
        }
    }
}

/// `<code>: <error>`.
pub open spec fn error_line(e: SyncCommandError) -> Seq<char> {
    int_text(e.error_code as int) + ": "@ + e.error@
}

/// The result for a task, given the errors of the batch.
pub open spec fn task_result_ok(
    id: Seq<char>,
    content: Seq<char>,
    errors: Seq<SyncCommandError>,
    r: TaskResult,
) -> bool {
    &&& r.id@ == id
    &&& r.content@ == content
    &&& match first_error_for(errors, id, errors.len() as int) {
        Some(j) => !r.success && (r.error matches Some(m) && m@ == error_line(errors[j])),
        None => r.success && r.error is None,
    }
}

fn first_error_index(errors: &Vec<SyncCommandError>, id: &str) -> (r: Option<usize>)
    ensures
        r matches Some(j) ==> first_error_for(errors@, id@, errors@.len() as int) == Some(j as int),
        r is None ==> first_error_for(errors@, id@, errors@.len() as int) is None,
        r matches Some(j) ==> j < errors@.len(),
{
    let mut j: usize = 0;
    while j < errors.len()
        invariant
            j <= errors.len(),
            first_error_for(errors@, id@, j as int) is None,
        decreases errors.len() - j,
    {
        if contains_str(errors[j].error.as_str(), id) {
            assert(first_error_for(errors@, id@, j + 1) == Some(j as int));
            proof {
                lemma_first_error_stays(errors@, id@, j + 1, errors@.len() as int);
            }
            return Some(j);
        }
        j = j + 1;
    }
    None
}

proof fn lemma_first_error_range(errors: Seq<SyncCommandError>, id: Seq<char>, n: int)
    ensures
        first_error_for(errors, id, n) matches Some(j) ==> 0 <= j < n,
    decreases n,
{
    if n > 0 {
        lemma_first_error_range(errors, id, n - 1);
    }
}

proof fn lemma_first_error_stays(errors: Seq<SyncCommandError>, id: Seq<char>, m: int, n: int)
    requires
        0 <= m <= n,
        first_error_for(errors, id, m) is Some,
    ensures
        first_error_for(errors, id, n) == first_error_for(errors, id, m),
    decreases n - m,
{
    if m < n {
        lemma_first_error_stays(errors, id, m, n - 1);
    }
}

/// Pairs each resolved task with the outcome the batch reported for it.
pub fn task_results(resolved: &Vec<(String, String)>, errors: &Vec<SyncCommandError>) -> (r: Vec<
    TaskResult,
>)
    ensures
        r@.len() == resolved@.len(),
        forall|k: int|
            0 <= k < r@.len() ==> task_result_ok(
                resolved@[k].0@,
                resolved@[k].1@,
                errors@,
                #[trigger] r@[k],
            ),
{
    let mut r: Vec<TaskResult> = Vec::new();
    let mut k: usize = 0;
    while k < resolved.len()
        invariant
            k <= resolved.len(),
            r@.len() == k,
            forall|j: int|
                0 <= j < k ==> task_result_ok(
                    resolved@[j].0@,
                    resolved@[j].1@,
                    errors@,
                    #[trigger] r@[j],
                ),
        decreases resolved.len() - k,
    {
        let id = resolved[k].0.clone();
        let content = resolved[k].1.clone();
        proof {
            lemma_first_error_range(errors@, id@, errors@.len() as int);
        }
        match first_error_index(errors, id.as_str()) {
            Some(j) => {
                let mut m = String::new();
                push_i64(&mut m, errors[j].error_code);
                push_str(&mut m, ": ");
                push_str(&mut m, errors[j].error.as_str());
                assert(m@ =~= error_line(errors@[j as int]));
                assert(id@ == resolved@[k as int].0@);
                assert(content@ == resolved@[k as int].1@);
                assert(first_error_for(errors@, id@, errors@.len() as int) == Some(j as int));
                let t = TaskResult { id, content, success: false, error: Some(m) };
                assert(task_result_ok(resolved@[k as int].0@, resolved@[k as int].1@, errors@, t));
                r.push(t);
            },
            None => {
                let t = TaskResult { id, content, success: true, error: None };
                assert(task_result_ok(resolved@[k as int].0@, resolved@[k as int].1@, errors@, t));
                r.push(t);
            },
        }
        k = k + 1;
    }
    r
}

/// A task that the operation succeeded on.
#[derive(Debug, Clone)]
pub struct TaskRef {
    pub id: String,
    pub content: String,
}

/// A task that the operation failed on.
#[derive(Debug, Clone)]
pub struct FailedTaskRef {
    pub id: String,
    pub content: String,
    pub error: Option<String>,
}

/// The JSON report of a bulk operation: successes, failures and their counts.
#[derive(Debug, Clone)]
pub struct BulkReport {
    pub succeeded: Vec<TaskRef>,
    pub failed: Vec<FailedTaskRef>,
    pub total_succeeded: usize,
    pub total_failed: usize,
}

/// The successful results, in order.
pub open spec fn successes(rs: Seq<TaskResult>) -> Seq<TaskResult> {
    rs.filter(|t: TaskResult| t.success)
}

/// The failed results, in order.
pub open spec fn failures(rs: Seq<TaskResult>) -> Seq<TaskResult> {
    rs.filter(|t: TaskResult| !t.success)
}

/// Splits the results into the report.
pub fn bulk_report(results: &Vec<TaskResult>) -> (r: BulkReport)
    ensures
        r.succeeded@.len() == successes(results@).len(),
        r.failed@.len() == failures(results@).len(),
        r.total_succeeded == r.succeeded@.len(),
        r.total_failed == r.failed@.len(),
        forall|k: int|
            0 <= k < r.succeeded@.len() ==> (#[trigger] r.succeeded@[k]).id == successes(results@)[k].id
                && r.succeeded@[k].content == successes(results@)[k].content,
        forall|k: int|
            0 <= k < r.failed@.len() ==> (#[trigger] r.failed@[k]).id == failures(results@)[k].id
                && r.failed@[k].content == failures(results@)[k].content && r.failed@[k].error
                == failures(results@)[k].error,
{
    let mut succeeded: Vec<TaskRef> = Vec::new();
    let mut failed: Vec<FailedTaskRef> = Vec::new();
    let mut i: usize = 0;
    while i < results.len()
        invariant
            i <= results.len(),
            succeeded@.len() == successes(results@.take(i as int)).len(),
            failed@.len() == failures(results@.take(i as int)).len(),
            forall|k: int|
                0 <= k < succeeded@.len() ==> (#[trigger] succeeded@[k]).id == successes(
                    results@.take(i as int),
                )[k].id && succeeded@[k].content == successes(results@.take(i as int))[k].content,
            forall|k: int|
                0 <= k < failed@.len() ==> (#[trigger] failed@[k]).id == failures(
                    results@.take(i as int),
                )[k].id && failed@[k].content == failures(results@.take(i as int))[k].content
                    && failed@[k].error == failures(results@.take(i as int))[k].error,
        decreases results.len() - i,
    {
        let t = &results[i];
        let ghost pre = results@.take(i as int);
        let ghost post = results@.take(i + 1);
        assert(post =~= pre.push(results@[i as int]));
        proof {
            pre.lemma_filter_push(results@[i as int], |x: TaskResult| x.success);
            pre.lemma_filter_push(results@[i as int], |x: TaskResult| !x.success);
        }
        if t.success {
            succeeded.push(TaskRef { id: t.id.clone(), content: t.content.clone() });
        } else {
            failed.push(
                FailedTaskRef { id: t.id.clone(), content: t.content.clone(), error: t.error.clone() },
            );
        }
        i = i + 1;
    }
    assert(results@.take(results@.len() as int) =~= results@);
    let total_succeeded = succeeded.len();
    let total_failed = failed.len();
    BulkReport { succeeded, failed, total_succeeded, total_failed }
}

/// Counts the successful results.
pub fn count_successes(results: &Vec<TaskResult>) -> (n: usize)
    ensures
        n == successes(results@).len(),
{
    let mut n: usize = 0;
    let mut i: usize = 0;
    while i < results.len()
        invariant
            i <= results.len(),
            n == successes(results@.take(i as int)).len(),
            n <= i,
        decreases results.len() - i,
    {
        proof {
            assert(results@.take(i + 1) =~= results@.take(i as int).push(results@[i as int]));
            results@.take(i as int).lemma_filter_push(results@[i as int], |x: TaskResult| x.success);
        }
        if results[i].success {
            n = n + 1;
        }
        i = i + 1;
    }
    assert(results@.take(results@.len() as int) =~= results@);
    n
}

/// Every result is either a success or a failure.
pub proof fn law_results_partition(rs: Seq<TaskResult>)
    ensures
        successes(rs).len() + failures(rs).len() == rs.len(),
    decreases rs.len(),
{
    if rs.len() > 0 {
        law_results_partition(rs.drop_last());
        assert(rs =~= rs.drop_last().push(rs.last()));
        rs.drop_last().lemma_filter_push(rs.last(), |x: TaskResult| x.success);
        rs.drop_last().lemma_filter_push(rs.last(), |x: TaskResult| !x.success);
    }
}

/// The error a bulk operation ends with: only when every task failed.
pub open spec fn bulk_failure_spec(rs: Seq<TaskResult>, verb: Seq<char>, r: Option<CommandError>) -> bool {
    if failures(rs).len() > 0 && successes(rs).len() == 0 {
        r matches Some(CommandError::Config(m)) && m@ == "Failed to "@ + verb + " "@ + decimal(
            failures(rs).len(),
        ) + " task(s)"@
    } else {
        r is None
    }
}

/// The error a bulk operation ends with, if every task failed.
pub fn bulk_failure(results: &Vec<TaskResult>, verb: &str) -> (r: Option<CommandError>)
    ensures
        bulk_failure_spec(results@, verb@, r),
{
    let ok = count_successes(results);
    proof {
        law_results_partition(results@);
    }
    let failed = results.len() - ok;
    if failed > 0 && ok == 0 {
        let mut m = string_of("Failed to ");
        push_str(&mut m, verb);
        push_str(&mut m, " ");
        push_u64(&mut m, failed as u64);
        push_str(&mut m, " task(s)");
        Some(CommandError::Config(m))
    } else {
        None
    }
}

/// The line printed for one result: `<Past>: <content> (<id>)` on success,
/// `Failed to <verb> <content> (<id>): <error>` on failure (none without an error).
pub open spec fn result_line(t: TaskResult, past: Seq<char>, verb: Seq<char>) -> Seq<char> {
    if t.success {
        past + ": "@ + t.content@ + " ("@ + truncate_id_spec(t.id@) + ")\n"@
    } else {
        match t.error {
            Some(e) => "Failed to "@ + verb + " "@ + t.content@ + " ("@ + truncate_id_spec(t.id@)
                + "): "@ + e@ + "\n"@,
            None => Seq::empty(),
        }
    }
}

/// Human-readable text of the results: successes go to standard output,
/// failures to standard error.
pub struct BulkText {
    pub stdout: String,
    pub stderr: String,
}

/// The successes' lines.
pub open spec fn success_lines(rs: Seq<TaskResult>, past: Seq<char>, verb: Seq<char>) -> Seq<char>
    decreases rs.len(),
{
    if rs.len() == 0 {
        Seq::empty()
    } else {
        success_lines(rs.drop_last(), past, verb) + if rs.last().success {
            result_line(rs.last(), past, verb)
        } else {
            Seq::empty()
        }
    }
}

/// The failures' lines.
pub open spec fn failure_lines(rs: Seq<TaskResult>, past: Seq<char>, verb: Seq<char>) -> Seq<char>
    decreases rs.len(),
{
    if rs.len() == 0 {
        Seq::empty()
    } else {
        failure_lines(rs.drop_last(), past, verb) + if rs.last().success {
            Seq::empty()
        } else {
            result_line(rs.last(), past, verb)
        }
    }
}

/// The count line that verbose mode adds after several results.
pub open spec fn verbose_summary(rs: Seq<TaskResult>, participle: Seq<char>, verbose: bool) -> Seq<char> {
    if verbose && rs.len() > 1 {
        "\n"@ + decimal(successes(rs).len()) + " "@ + participle + ", "@ + decimal(failures(rs).len())
            + " failed\n"@
    } else {
        Seq::empty()
    }
}

/// Formats the results for people. `past` is the word shown before each
/// success ("Completed"), `verb` the infinitive ("complete") and
/// `participle` the word of the count line ("completed").
pub fn bulk_text(results: &Vec<TaskResult>, past: &str, verb: &str, participle: &str, verbose: bool) -> (r:
    BulkText)
    ensures
        r.stdout@ == success_lines(results@, past@, verb@) + verbose_summary(
            results@,
            participle@,
            verbose,
        ),
        r.stderr@ == failure_lines(results@, past@, verb@),
{
    let mut out = String::new();
    let mut err = String::new();
    let mut i: usize = 0;
    while i < results.len()
        invariant
            i <= results.len(),
            out@ == success_lines(results@.take(i as int), past@, verb@),
            err@ == failure_lines(results@.take(i as int), past@, verb@),
        decreases results.len() - i,
    {
        let t = &results[i];
        let ghost o0 = out@;
        let ghost e0 = err@;
        let prefix = truncate_id(t.id.as_str());
        if t.success {
            push_str(&mut out, past);
            push_str(&mut out, ": ");
            push_str(&mut out, t.content.as_str());
            push_str(&mut out, " (");
            push_str(&mut out, prefix.as_str());
            push_str(&mut out, ")\n");
        } else {
            match &t.error {
                Some(e) => {
                    push_str(&mut err, "Failed to ");
                    push_str(&mut err, verb);
                    push_str(&mut err, " ");
                    push_str(&mut err, t.content.as_str());
                    push_str(&mut err, " (");
                    push_str(&mut err, prefix.as_str());
                    push_str(&mut err, "): ");
                    push_str(&mut err, e.as_str());
                    push_str(&mut err, "\n");
                },
                None => {},
            }
        }
        proof {
            let post = results@.take(i + 1);
            assert(post.drop_last() =~= results@.take(i as int));
            assert(out@ =~= success_lines(post, past@, verb@));
            assert(err@ =~= failure_lines(post, past@, verb@));
        }
        i = i + 1;
    }
    assert(results@.take(results@.len() as int) =~= results@);
    let ghost before = out@;
    if verbose && results.len() > 1 {
        let ok = count_successes(results);
        proof {
            law_results_partition(results@);
        }
        push_str(&mut out, "\n");
        push_u64(&mut out, ok as u64);
        push_str(&mut out, " ");
        push_str(&mut out, participle);
        push_str(&mut out, ", ");
        push_u64(&mut out, (results.len() - ok) as u64);
        push_str(&mut out, " failed\n");
    }
    assert(out@ =~= before + verbose_summary(results@, participle@, verbose));
    BulkText { stdout: out, stderr: err }
}

} // verus!
