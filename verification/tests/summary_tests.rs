use http_batch::outcome::{RequestResult, TransportFailure};
use http_batch::summary::{count_successes, failed_request_names, summarize, Arrivals};

fn ok(name: &str) -> RequestResult {
    RequestResult::from_response(
        name.to_string(),
        "u".to_string(),
        "GET".to_string(),
        200,
        "{}",
        10,
    )
}

fn status(name: &str, code: u16) -> RequestResult {
    RequestResult::from_response(
        name.to_string(),
        "u".to_string(),
        "GET".to_string(),
        code,
        "",
        10,
    )
}

fn broken(name: &str) -> RequestResult {
    let failure = TransportFailure {
        is_timeout: false,
        is_connect: true,
        is_request: false,
        is_body: false,
        is_decode: false,
        message: "refused".to_string(),
    };
    RequestResult::from_failure(
        name.to_string(),
        "u".to_string(),
        "GET".to_string(),
        &failure,
        30,
        10,
    )
}

#[test]
fn no_results_give_an_empty_summary() {
    let summary = summarize(Vec::new());
    assert_eq!(summary.total, 0);
    assert_eq!(summary.success, 0);
    assert_eq!(summary.failed, 0);
    assert!(summary.results.is_empty());
    assert_eq!(summary.success_ratio(), None);
}

#[test]
fn totals_reconcile() {
    let results = vec![ok("a"), status("b", 404), broken("c"), ok("d"), status("e", 500)];
    let summary = summarize(results);
    assert_eq!(summary.total, 5);
    assert_eq!(summary.success, 2);
    assert_eq!(summary.failed, 3);
    assert_eq!(summary.total, summary.success + summary.failed);
    assert_eq!(summary.success + summary.failed, summary.results.len());
    assert_eq!(summary.success_ratio(), Some((2, 5)));
}

#[test]
fn summary_keeps_the_results_in_order() {
    let summary = summarize(vec![status("z", 301), ok("y"), broken("x")]);
    let names: Vec<&str> = summary.results.iter().map(|r| r.name.as_str()).collect();
    assert_eq!(names, vec!["z", "y", "x"]);
}

#[test]
fn all_successes() {
    let summary = summarize(vec![ok("a"), status("b", 204)]);
    assert_eq!((summary.total, summary.success, summary.failed), (2, 2, 0));
    assert_eq!(summary.success_ratio(), Some((2, 2)));
    assert!(failed_request_names(&summary.results).is_empty());
}

#[test]
fn failed_names_come_once_each_in_order() {
    let results = vec![broken("c"), ok("a"), status("b", 404), ok("d"), status("e", 500)];
    assert_eq!(failed_request_names(&results), vec!["c", "b", "e"]);
    assert_eq!(count_successes(&results), 2);
}

#[test]
fn failures_with_the_same_name_are_each_listed() {
    let results = vec![broken("dup"), ok("dup"), status("dup", 400)];
    assert_eq!(failed_request_names(&results), vec!["dup", "dup"]);
}

#[test]
fn arrivals_are_numbered_from_one() {
    let mut arrivals = Arrivals::new();
    assert_eq!(arrivals.arrived(), 0);
    assert_eq!(arrivals.record(ok("second-spec")), 1);
    assert_eq!(arrivals.record(broken("first-spec")), 2);
    assert_eq!(arrivals.record(status("third-spec", 503)), 3);
    assert_eq!(arrivals.arrived(), 3);
    let summary = arrivals.finish();
    assert_eq!((summary.total, summary.success, summary.failed), (3, 1, 2));
    let names: Vec<&str> = summary.results.iter().map(|r| r.name.as_str()).collect();
    assert_eq!(names, vec!["second-spec", "first-spec", "third-spec"]);
    assert_eq!(failed_request_names(&summary.results), vec!["first-spec", "third-spec"]);
}

#[test]
fn arrivals_without_results_finish_empty() {
    let summary = Arrivals::new().finish();
    assert_eq!((summary.total, summary.success, summary.failed), (0, 0, 0));
    assert!(summary.results.is_empty());
}
