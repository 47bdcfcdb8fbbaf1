use missioncontrol::error::AppError;
use missioncontrol::listing::{page_count, paginated, parse_count, TaskQuery};

fn query(page: u64, limit: u64, status: Option<&str>) -> TaskQuery {
    TaskQuery { page, limit, status: status.map(|s| s.to_string()) }
}

fn bad_request(r: Result<missioncontrol::listing::ListingPlan, AppError>) -> String {
    match r {
        Err(AppError::BadRequest(m)) => m,
        other => panic!("expected a bad request, got {:?}", other),
    }
}

#[test]
fn task_query_defaults() {
    let q = TaskQuery::from_params(&vec![]).unwrap();
    assert_eq!(q.page, 1);
    assert_eq!(q.limit, 25);
    assert!(q.status.is_none());
}

#[test]
fn task_query_parsed_statuses_valid() {
    let q = TaskQuery { page: 1, limit: 25, status: Some("todo,in_progress".to_string()) };
    let result = q.parsed_statuses().unwrap();
    assert_eq!(result, Some(vec!["todo".to_string(), "in_progress".to_string()]));
}

#[test]
fn task_query_parsed_statuses_invalid() {
    let q = TaskQuery { page: 1, limit: 25, status: Some("todo,bogus".to_string()) };
    let err = q.parsed_statuses().unwrap_err();
    assert!(err.contains("bogus"));
}

#[test]
fn task_query_parsed_statuses_none_when_empty_string() {
    let q = TaskQuery { page: 1, limit: 25, status: Some("".to_string()) };
    assert_eq!(q.parsed_statuses().unwrap(), None);
}

#[test]
fn task_query_parsed_statuses_none_when_absent() {
    let q = TaskQuery { page: 1, limit: 25, status: None };
    assert_eq!(q.parsed_statuses().unwrap(), None);
}

#[test]
fn parsed_statuses_trims_and_skips_empty_items() {
    let q = query(1, 25, Some(" done , todo,, "));
    assert_eq!(q.parsed_statuses().unwrap(), Some(vec!["done".to_string(), "todo".to_string()]));
}

#[test]
fn parsed_statuses_blank_list_is_no_filter() {
    let q = query(1, 25, Some(" , ,\t"));
    assert_eq!(q.parsed_statuses().unwrap(), None);
}

#[test]
fn parsed_statuses_names_first_invalid_item() {
    let q = query(1, 25, Some("later, done, never"));
    assert_eq!(
        q.parsed_statuses().unwrap_err(),
        "invalid status 'later': must be one of todo, in_progress, done"
    );
}

#[test]
fn parsed_statuses_is_case_sensitive() {
    let q = query(1, 25, Some("TODO"));
    assert!(q.parsed_statuses().unwrap_err().contains("TODO"));
}

#[test]
fn plan_rejects_limit_zero() {
    assert_eq!(bad_request(query(1, 0, None).plan()), "limit must be between 1 and 100");
}

#[test]
fn plan_rejects_limit_over_hundred() {
    assert_eq!(bad_request(query(1, 101, None).plan()), "limit must be between 1 and 100");
}

#[test]
fn plan_rejects_page_zero() {
    assert_eq!(bad_request(query(0, 25, None).plan()), "page must be >= 1");
}

#[test]
fn plan_checks_limit_before_page() {
    assert_eq!(bad_request(query(0, 0, None).plan()), "limit must be between 1 and 100");
}

#[test]
fn plan_rejects_unknown_status_naming_it() {
    let m = bad_request(query(1, 25, Some("todo,bogus")).plan());
    assert!(m.contains("'bogus'"));
}

#[test]
fn plan_with_empty_status_has_no_filter() {
    let p = query(1, 25, Some("")).plan().unwrap();
    assert!(p.statuses.is_none());
}

#[test]
fn plan_accepts_limit_bounds_and_computes_skip() {
    let p = query(3, 100, Some("done")).plan().unwrap();
    assert_eq!(p.skip, 200);
    assert_eq!(p.limit, 100);
    assert_eq!(p.page, 3);
    assert_eq!(p.statuses, Some(vec!["done".to_string()]));
    let q = query(1, 1, None).plan().unwrap();
    assert_eq!(q.skip, 0);
}

#[test]
fn plan_skip_saturates() {
    let p = query(u64::MAX, 100, None).plan().unwrap();
    assert_eq!(p.skip, u64::MAX);
}

#[test]
fn page_count_values() {
    assert_eq!(page_count(0, 25), 1);
    assert_eq!(page_count(1, 25), 1);
    assert_eq!(page_count(25, 25), 1);
    assert_eq!(page_count(26, 25), 2);
    assert_eq!(page_count(u64::MAX, 1), u64::MAX);
    assert_eq!(page_count(u64::MAX, 100), u64::MAX / 100 + 1);
}

#[test]
fn paginated_envelope() {
    let p = query(2, 10, None).plan().unwrap();
    let r = paginated(&p, vec![], 31);
    assert_eq!(r.total, 31);
    assert_eq!(r.page, 2);
    assert_eq!(r.limit, 10);
    assert_eq!(r.total_pages, 4);
    assert!(r.tasks.is_empty());
}

#[test]
fn from_params_reads_values() {
    let ps = vec![
        ("limit".to_string(), "10".to_string()),
        ("status".to_string(), "todo,done".to_string()),
        ("page".to_string(), "2".to_string()),
        ("page".to_string(), "9".to_string()),
    ];
    let q = TaskQuery::from_params(&ps).unwrap();
    assert_eq!(q.page, 2);
    assert_eq!(q.limit, 10);
    assert_eq!(q.status, Some("todo,done".to_string()));
}

#[test]
fn from_params_rejects_non_numbers() {
    let ps = vec![("page".to_string(), "two".to_string())];
    match TaskQuery::from_params(&ps) {
        Err(AppError::BadRequest(m)) => assert_eq!(m, "invalid query parameter 'page'"),
        other => panic!("unexpected {:?}", other),
    }
    let ps = vec![("limit".to_string(), "-1".to_string())];
    assert!(matches!(TaskQuery::from_params(&ps), Err(AppError::BadRequest(_))));
}

#[test]
fn parse_count_values() {
    assert_eq!(parse_count("0"), Some(0));
    assert_eq!(parse_count("101"), Some(101));
    assert_eq!(parse_count("18446744073709551615"), Some(u64::MAX));
    assert_eq!(parse_count("18446744073709551616"), None);
    assert_eq!(parse_count(""), None);
    assert_eq!(parse_count("1a"), None);
    assert_eq!(parse_count(" 1"), None);
}
