use td::cli::{Cli, Commands, ConfigCommands};
use td::commands::bulk::{bulk_report, task_results, SyncCommandError};
use td::commands::config::{apply_setting, migrate_config, Config};
use td::commands::list::{list_tasks, ListOptions};
use td::commands::today::{categorize_on, TodayOptions};
use td::commands::CommandError;
use td::dates::CalDate;
use td::dispatch::{AuthDispatch, NoAuthDispatch};
use td::model::{Cache, Due, Item};
use td::output::helpers::{format_priority, truncate_id, truncate_str};
use td::resolve::{lookup, Lookup};
use td::startup::token_choice;

fn item(id: &str, due: Option<&str>) -> Item {
    Item {
        id: id.to_string(),
        user_id: None,
        project_id: "p".to_string(),
        content: id.to_string(),
        description: String::new(),
        priority: 1,
        due: due.map(|d| Due {
            date: d.to_string(),
            datetime: None,
            timezone: None,
            string: None,
            is_recurring: false,
            lang: None,
        }),
        deadline: None,
        parent_id: None,
        child_order: 0,
        section_id: None,
        day_order: 0,
        is_collapsed: false,
        labels: vec![],
        added_by_uid: None,
        assigned_by_uid: None,
        responsible_uid: None,
        checked: false,
        is_deleted: false,
        added_at: None,
        updated_at: None,
        completed_at: None,
        duration: None,
    }
}

fn cache_of(items: Vec<Item>) -> Cache {
    Cache::with_data("t".to_string(), None, None, items, vec![], vec![], vec![], vec![], vec![], vec![], vec![], None)
}

fn list_opts(limit: u32, all: bool) -> ListOptions {
    ListOptions {
        filter: None,
        project: None,
        label: None,
        priority: None,
        section: None,
        overdue: false,
        no_due: false,
        limit,
        all,
        cursor: None,
        sort: None,
        reverse: false,
    }
}

#[test]
fn test_list_shows_only_open_tasks_within_limit() {
    let mut done = item("done", None);
    done.checked = true;
    let mut gone = item("gone", None);
    gone.is_deleted = true;
    let cache = cache_of(vec![item("a", None), done, gone, item("b", None), item("c", None)]);
    let shown = list_tasks(&cache, &list_opts(2, false), &None).unwrap();
    let ids: Vec<&str> = shown.iter().map(|i| i.id.as_str()).collect();
    assert_eq!(ids, vec!["a", "b"]);
    let all = list_tasks(&cache, &list_opts(2, true), &None).unwrap();
    assert_eq!(all.len(), 3);
    assert!(all.iter().all(|i| !i.checked && !i.is_deleted));
}

#[test]
fn test_config_edit_takes_both_routes() {
    let cli = Cli {
        verbose: false,
        quiet: false,
        json: false,
        no_color: false,
        token: None,
        sync: false,
        command: Some(Commands::Config { command: Some(ConfigCommands::Edit) }),
    };
    assert!(NoAuthDispatch::try_from_cli(&cli).is_some());
    assert!(matches!(AuthDispatch::from_cli(&cli), Some(AuthDispatch::ConfigEdit)));
}

#[test]
fn test_set_reads_back_and_is_idempotent() {
    let mut config = Config::default();
    apply_setting(&mut config, "output.color", "YES").unwrap();
    assert_eq!(config.output.color, Some(true));
    apply_setting(&mut config, "token_storage", "keyring").unwrap();
    apply_setting(&mut config, "token_storage", "keyring").unwrap();
    assert_eq!(config.token_storage.as_deref(), Some("keyring"));
    assert_eq!(config.output.color, Some(true));
    apply_setting(&mut config, "token", "").unwrap();
    assert_eq!(config.token.as_deref(), Some(""));
    let before = config.clone();
    assert!(apply_setting(&mut config, "output.date_format", "weekly").is_err());
    assert_eq!(config.output.date_format, before.output.date_format);
}

#[test]
fn test_migrate_twice_is_once() {
    let mut c = Config::default();
    c.version = 0;
    c.token = Some("abc".to_string());
    let once = migrate_config(c).unwrap();
    let twice = migrate_config(once.clone()).unwrap();
    assert_eq!(once.version, twice.version);
    assert_eq!(twice.token.as_deref(), Some("abc"));
}

#[test]
fn test_cut_texts_fit_their_column() {
    let cut = truncate_str("héllo wörld, how are you", 10);
    assert!(cut.len() <= 10);
    assert_eq!(cut, "héllo ...");
    assert_eq!(truncate_str("abcdef", 2), "ab");
    assert_eq!(truncate_str("éé", 3), "...");
    assert_eq!(truncate_str("éé", 4), "éé");
    assert_eq!(truncate_str("aéé", 4), "a...");
    assert_eq!(truncate_str("aéé", 5), "aéé");
    let id = truncate_id("abcdefghij");
    assert!(id.chars().count() <= 6 && "abcdefghij".starts_with(&id));
    assert_eq!(truncate_id("ééééé"), "ééééé");
    assert_eq!(truncate_id("éééééééé"), "éééééé");
}

#[test]
fn test_token_sources_in_order() {
    let mut config = Config::default();
    config.token = Some("file-token".to_string());
    config.token_storage = Some("keyring".to_string());
    let flag = token_choice(&Some("flag-token".to_string()), Ok(config.clone()), Ok(Some("key".to_string())));
    assert_eq!(flag.unwrap().as_deref(), Some("flag-token"));
    let keyring = token_choice(&None, Ok(config.clone()), Ok(Some("key".to_string())));
    assert_eq!(keyring.unwrap().as_deref(), Some("key"));
    let file = token_choice(&None, Ok(config), Ok(None));
    assert_eq!(file.unwrap().as_deref(), Some("file-token"));
    let none = token_choice(&None, Err(CommandError::Config("unreadable".to_string())), Ok(None));
    assert_eq!(none.unwrap(), None);
}

#[test]
fn test_exact_id_beats_prefixes() {
    let ids = vec!["abc", "abcdef", "abcxyz"];
    let live = vec![true, true, true];
    assert!(matches!(lookup(&ids, &live, "abc"), Lookup::Found(0)));
    assert!(matches!(lookup(&ids, &live, "abcd"), Lookup::Found(1)));
    assert!(matches!(lookup(&ids, &live, "zzz"), Lookup::NotFound));
    let dead = vec![false, true, true];
    assert!(matches!(lookup(&ids, &dead, "abc"), Lookup::Ambiguous(_)));
}

#[test]
fn test_agenda_groups_by_due_date() {
    let today = CalDate::parse("2024-03-10").unwrap();
    let cache = cache_of(vec![
        item("late", Some("2024-03-01")),
        item("now", Some("2024-03-10")),
        item("soon", Some("2024-03-12")),
        item("far", Some("2024-04-30")),
        item("never", None),
    ]);
    let opts = TodayOptions { include_overdue: true, include_upcoming: Some(3) };
    let r = categorize_on(&cache, &opts, &today);
    let ids = |v: &Vec<&Item>| v.iter().map(|i| i.id.clone()).collect::<Vec<_>>();
    assert_eq!(ids(&r.overdue), vec!["late"]);
    assert_eq!(ids(&r.today), vec!["now"]);
    assert_eq!(ids(&r.upcoming), vec!["soon"]);
}

#[test]
fn test_bulk_report_counts_every_task() {
    let resolved = vec![("id-1".to_string(), "One".to_string()), ("id-2".to_string(), "Two".to_string())];
    let errors = vec![SyncCommandError { error_code: 22, error: "Item id-2 not found".to_string() }];
    let results = task_results(&resolved, &errors);
    let report = bulk_report(&results);
    assert_eq!(report.total_succeeded + report.total_failed, 2);
    assert_eq!(report.failed[0].id, "id-2");
    assert_eq!(report.failed[0].error.as_deref(), Some("22: Item id-2 not found"));
}

fn visible(s: &str) -> String {
    let mut out = String::new();
    let mut escape = false;
    for c in s.chars() {
        if escape {
            escape = c != 'm';
        } else if c == '\u{1b}' {
            escape = true;
        } else {
            out.push(c);
        }
    }
    out
}

#[test]
fn test_coloured_priority_shows_the_plain_one() {
    for p in 1..=4 {
        assert_ne!(format_priority(p, true), format_priority(p, false));
        assert_eq!(visible(&format_priority(p, true)), format_priority(p, false));
    }
}
