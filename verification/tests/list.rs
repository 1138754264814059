use td::commands::list::ListOptions;


#[test]
fn test_list_options_defaults() {
    let opts = ListOptions {
        filter: None,
        project: None,
        label: None,
        priority: None,
        section: None,
        overdue: false,
        no_due: false,
        limit: 50,
        all: false,
        cursor: None,
        sort: None,
        reverse: false,
    };

    assert!(!opts.all);
    assert_eq!(opts.limit, 50);
}
