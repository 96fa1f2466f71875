use firewall_api::status::{decimal_string, describe_reason, describe_status, describe_status_line};
use firewall_api::api::http_error::{ErrorDetails, ErrorResponse};
use firewall_api::executor::config::ExecutorConfig;
use firewall_api::executor::pool::Pool;
use firewall_api::executor::{HttpMethod, RequestOutcome};
use firewall_api::executor_client::request_method;
use firewall_api::unban::{unban_statuses, Executor, NoOpService, UnBanner, UnbanStatus};
use firewall_api::model::UnbanEntity;

fn pool() -> Pool {
    Pool::new(vec![
        ExecutorConfig { name: "e1".into(), base_url: "http://a:8080".into() },
        ExecutorConfig { name: "e2".into(), base_url: "http://b".into() },
    ])
}

#[test]
fn request_urls_append_path() {
    let urls = pool().request_urls("/config");
    assert_eq!(urls, vec!["http://a:8080/config".to_string(), "http://b/config".to_string()]);
}

#[test]
fn calls() {
    let c = Pool::dry_run_mode_call();
    assert_eq!(c.method, HttpMethod::Post);
    assert_eq!(c.path, "/config");
    assert_eq!(c.expected_status, 204);
    let c = Pool::unban_call();
    assert_eq!(c.method, HttpMethod::Delete);
    assert_eq!(c.path, "/bans");
    assert_eq!(c.expected_status, 204);
}

#[test]
fn collect_errors_all_ok() {
    let r = pool().collect_errors(&vec![RequestOutcome::Responded(204), RequestOutcome::Responded(204)], 204);
    assert!(r.is_ok());
}

#[test]
fn collect_errors_reports_each_failure() {
    let r = pool().collect_errors(
        &vec![RequestOutcome::Failed("connection refused".into()), RequestOutcome::Responded(404)],
        204,
    );
    let errs = r.unwrap_err();
    assert_eq!(errs.len(), 2);
    assert_eq!(errs[0].executor_name, "e1");
    assert_eq!(errs[0].error_desc, "connection refused");
    assert_eq!(errs[1].executor_name, "e2");
    assert_eq!(errs[1].error_desc, "Not Found");
}

#[test]
fn collect_errors_status_without_phrase() {
    let r = pool().collect_errors(&vec![RequestOutcome::Responded(204), RequestOutcome::Responded(599)], 204);
    let errs = r.unwrap_err();
    assert_eq!(errs.len(), 1);
    assert_eq!(errs[0].executor_name, "e2");
    assert_eq!(errs[0].error_desc, "internal error");
}

#[test]
fn collect_errors_pairs_in_order() {
    let r = pool().collect_errors(&vec![RequestOutcome::Responded(500)], 204);
    let errs = r.unwrap_err();
    assert_eq!(errs.len(), 1);
    assert_eq!(errs[0].executor_name, "e1");
    assert_eq!(errs[0].error_desc, "Internal Server Error");
}

#[test]
fn request_method_names() {
    assert_eq!(request_method(&"DELETE".to_string()), HttpMethod::Delete);
    assert_eq!(request_method(&"POST".to_string()), HttpMethod::Post);
    assert_eq!(request_method(&"GET".to_string()), HttpMethod::Post);
    assert_eq!(request_method(&"PUT".to_string()), HttpMethod::Get);
}

fn executors() -> Vec<Executor> {
    vec![
        Executor { name: "e1".into(), url: "http://a/bans".into() },
        Executor { name: "e2".into(), url: "http://b/bans".into() },
    ]
}

#[test]
fn unban_statuses_all_done() {
    let r = unban_statuses(&executors(), &vec![RequestOutcome::Responded(204), RequestOutcome::Responded(204)]);
    assert!(r.is_ok());
}

#[test]
fn unban_statuses_report_everyone() {
    let r = unban_statuses(
        &executors(),
        &vec![RequestOutcome::Responded(204), RequestOutcome::Failed("timeout".into())],
    );
    let st = r.unwrap_err();
    assert_eq!(st.len(), 2);
    assert!(matches!(&st[0], UnbanStatus::Unbanned(n) if n == "e1"));
    assert!(matches!(&st[1], UnbanStatus::Error(n, d) if n == "e2" && d == "internal error"));
    let r = unban_statuses(
        &executors(),
        &vec![RequestOutcome::Responded(403), RequestOutcome::Responded(204)],
    );
    let st = r.unwrap_err();
    assert!(matches!(&st[0], UnbanStatus::Error(n, d) if n == "e1" && d == "Forbidden"));
}

#[test]
fn unban_statuses_response() {
    let e = ErrorResponse::from_unban_statuses(vec![
        UnbanStatus::Unbanned("e1".into()),
        UnbanStatus::Error("e2".into(), "Bad Gateway".into()),
    ]);
    assert_eq!(e.code, 500);
    assert_eq!(e.reason, "Some executors didn't unban successfully");
    let mut f = match e.details {
        Some(ErrorDetails::Fields(f)) => f,
        _ => panic!("expected fields"),
    };
    f.sort();
    assert_eq!(
        f,
        vec![("e1".to_string(), "OK".to_string()), ("e2".to_string(), "Bad Gateway".to_string())]
    );
}

#[test]
fn noop_unbanner_succeeds() {
    let s = NoOpService {};
    assert!(s.unban(UnbanEntity::Pattern("*".into())).is_ok());
}

#[test]
fn status_descriptions() {
    assert_eq!(describe_reason(None), "internal error");
    assert_eq!(describe_reason(Some("Gone".into())), "Gone");
    assert_eq!(describe_status(204), "No Content");
    assert_eq!(describe_status(404), "Not Found");
    assert_eq!(describe_status(42), "internal error");
}

#[test]
fn status_lines() {
    assert_eq!(decimal_string(0), "0");
    assert_eq!(decimal_string(7), "7");
    assert_eq!(decimal_string(204), "204");
    assert_eq!(decimal_string(65535), "65535");
    assert_eq!(describe_status_line(500), "500 INTERNAL SERVER ERROR");
    assert_eq!(describe_status_line(404), "404 NOT FOUND");
    assert_eq!(describe_status_line(599), "599 INTERNAL ERROR");
}

#[test]
fn dry_run_report_all_ok() {
    let r = pool().dry_run_report(&vec![RequestOutcome::Responded(204), RequestOutcome::Responded(204)], 204);
    assert!(r.is_ok());
}

#[test]
fn dry_run_report_lists_every_executor() {
    let r = pool().dry_run_report(&vec![RequestOutcome::Responded(204), RequestOutcome::Responded(500)], 204);
    assert_eq!(
        r.unwrap_err(),
        vec![
            ("e1".to_string(), "OK".to_string()),
            ("e2".to_string(), "500 INTERNAL SERVER ERROR".to_string())
        ]
    );
    let r = pool().dry_run_report(&vec![RequestOutcome::Failed("connection refused".into())], 204);
    assert_eq!(r.unwrap_err(), vec![("e1".to_string(), "connection refused".to_string())]);
}
