use swagger_scan::engine::{run_recorded, Engine};
use swagger_scan::governor::Governor;
use swagger_scan::outcome::{Outcome, ProbeResponse};
use swagger_scan::sink::MatchStore;

fn strings(items: &[&str]) -> Vec<String> {
    items.iter().map(|s| s.to_string()).collect()
}

#[test]
fn governor_caps_inflight_at_limit() {
    let mut g = Governor::new(2);
    assert!(g.try_acquire());
    assert!(g.try_acquire());
    assert!(!g.try_acquire());
    assert_eq!(g.active_count(), 2);
    g.release();
    assert!(g.try_acquire());
    assert_eq!(g.limit_value(), 2);
}

#[test]
fn governor_with_one_worker_serializes() {
    let mut g = Governor::new(1);
    assert!(g.try_acquire());
    assert!(!g.try_acquire());
    g.release();
    assert!(g.try_acquire());
}

#[test]
fn engine_admits_at_most_limit_concurrently() {
    let hosts = strings(&["a", "b"]);
    let paths = strings(&["/x", "/y"]);
    let mut e = Engine::new(&hosts, &paths, 1);
    let first = e.try_admit().expect("capacity and tasks remain");
    assert_eq!(first.host, "a");
    assert_eq!(first.path, "/x");
    // One worker: nothing else may be admitted while the probe is in flight.
    assert!(e.try_admit().is_none());
    e.complete(first.target_url(), ProbeResponse::Body("hello".to_string()));
    let second = e.try_admit().expect("capacity freed");
    assert_eq!(second.host, "a");
    assert_eq!(second.path, "/y");
}

#[test]
fn every_task_gets_exactly_one_outcome() {
    let hosts = strings(&["a", "b"]);
    let paths = strings(&["/x", "/y"]);
    let responses = vec![
        ProbeResponse::Body("Swagger UI".to_string()),
        ProbeResponse::Failure("connection refused".to_string()),
        ProbeResponse::Body("nothing here".to_string()),
        ProbeResponse::Failure("timed out".to_string()),
    ];
    let e = run_recorded(&hosts, &paths, 3, responses);
    assert!(e.is_finished());
    assert_eq!(e.task_count(), 4);
    assert_eq!(e.outcome_count(), 4);
}

#[test]
fn matched_target_is_recorded() {
    let hosts = strings(&["a.test"]);
    let paths = strings(&["/swagger-ui.html"]);
    let responses = vec![ProbeResponse::Body(
        "<html><title>Swagger UI</title></html>".to_string(),
    )];
    let e = run_recorded(&hosts, &paths, 10, responses);
    assert!(e.is_finished());
    assert_eq!(e.outcome_count(), 1);
    match e.outcome_at(0) {
        Outcome::Matched(u) => assert_eq!(u, "https://a.test/swagger-ui.html"),
        _ => panic!("expected a match"),
    }
    let store = e.match_store();
    assert_eq!(store.len(), 1);
    assert_eq!(store.line(0), "https://a.test/swagger-ui.html");
}

#[test]
fn unmatched_target_is_logged_not_recorded() {
    let hosts = strings(&["b.test"]);
    let paths = strings(&["/nope"]);
    let responses = vec![ProbeResponse::Body("hello world".to_string())];
    let e = run_recorded(&hosts, &paths, 10, responses);
    assert!(e.is_finished());
    assert_eq!(e.outcome_count(), 1);
    match e.outcome_at(0) {
        Outcome::NotMatched(u) => assert_eq!(u, "https://b.test/nope"),
        _ => panic!("expected not-matched"),
    }
    assert_eq!(e.match_store().len(), 0);
}

#[test]
fn timed_out_target_is_an_error_and_run_completes() {
    let hosts = strings(&["c.test"]);
    let paths = strings(&["/x"]);
    let responses = vec![ProbeResponse::Failure(
        "request timed out after 10s".to_string(),
    )];
    let e = run_recorded(&hosts, &paths, 10, responses);
    assert!(e.is_finished());
    assert_eq!(e.outcome_count(), 1);
    match e.outcome_at(0) {
        Outcome::TransportError(u, err) => {
            assert_eq!(u, "https://c.test/x");
            assert_eq!(err, "request timed out after 10s");
        }
        _ => panic!("expected a transport error"),
    }
    assert_eq!(e.match_store().len(), 0);
}

#[test]
fn empty_path_file_runs_to_completion_with_no_tasks() {
    let hosts = strings(&["a.test", "b.test"]);
    let paths: Vec<String> = Vec::new();
    let e = run_recorded(&hosts, &paths, 10, Vec::new());
    assert!(e.is_finished());
    assert_eq!(e.task_count(), 0);
    assert_eq!(e.outcome_count(), 0);
    assert_eq!(e.match_store().len(), 0);
}

#[test]
fn two_runs_record_the_same_match_twice() {
    let hosts = strings(&["a.test"]);
    let paths = strings(&["/swagger-ui.html"]);
    let body = "<html><title>Swagger UI</title></html>";
    // Mirror both runs' records into one shared store, as appends to the
    // same backing file would be.
    let mut shared = MatchStore::new();
    for _ in 0..2 {
        let responses = vec![ProbeResponse::Body(body.to_string())];
        let e = run_recorded(&hosts, &paths, 10, responses);
        let store = e.match_store();
        for i in 0..store.len() {
            shared.append(store.line(i).clone());
        }
    }
    assert_eq!(shared.len(), 2);
    assert_eq!(shared.line(0), "https://a.test/swagger-ui.html");
    assert_eq!(shared.line(1), "https://a.test/swagger-ui.html");
}

#[test]
fn store_appends_keep_order_and_duplicates() {
    let mut store = MatchStore::new();
    assert_eq!(store.len(), 0);
    store.append("https://a.test/x".to_string());
    store.append("https://b.test/y".to_string());
    store.append("https://a.test/x".to_string());
    assert_eq!(store.len(), 3);
    assert_eq!(store.line(0), "https://a.test/x");
    assert_eq!(store.line(1), "https://b.test/y");
    assert_eq!(store.line(2), "https://a.test/x");
}
