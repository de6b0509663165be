use fj_issue::error::{FailedDep, FjiError};

fn failed(number: i64) -> FailedDep {
    FailedDep { number, error: "not found".into(), http: Some(404) }
}

#[test]
fn exit_codes_follow_the_table() {
    assert_eq!(FjiError::usage("no_repo", "x".into()).exit_code(), 1);
    assert_eq!(FjiError::Http { code: "http", error: "x".into(), http: Some(500) }.exit_code(), 2);
    assert_eq!(FjiError::NotFound { error: "x".into(), http: Some(404) }.exit_code(), 3);
    assert_eq!(FjiError::Blocked { error: "x".into(), blocked_by: None }.exit_code(), 4);
    assert_eq!(FjiError::Conflict { error: "x".into(), http: Some(409) }.exit_code(), 4);
    let partial = FjiError::PartialDep {
        error: "x".into(),
        issue_number: 7,
        issue_url: "u".into(),
        applied: vec![],
        failed: failed(9),
    };
    assert_eq!(partial.exit_code(), 2);
    let uncertain = FjiError::Uncertain { error: "x".into(), issue_number: None, issue_url: None };
    assert_eq!(uncertain.exit_code(), 2);
}

#[test]
fn reports_carry_the_fields_of_their_kind() {
    let r = FjiError::Blocked { error: "still open".into(), blocked_by: Some(vec![4]) }.report();
    assert_eq!(r.code, "blocked");
    assert_eq!(r.http, Some(412));
    assert_eq!(r.blocked_by, Some(vec![4]));
    assert_eq!(r.error, "still open");

    let r = FjiError::PartialCreate {
        error: "nope".into(),
        issue_number: 7,
        issue_url: "https://h/o/r/issues/7".into(),
        applied: vec![3],
        failed: failed(99),
    }
    .report();
    assert_eq!(r.code, "partial_create");
    assert_eq!(r.http, None);
    let issue = r.issue.unwrap();
    assert_eq!(issue.number, Some(7));
    assert_eq!(issue.url.as_deref(), Some("https://h/o/r/issues/7"));
    assert_eq!(r.applied, Some(vec![3]));
    assert_eq!(r.failed.unwrap().number, 99);

    let r = FjiError::Uncertain { error: "timeout".into(), issue_number: None, issue_url: None }
        .report();
    assert_eq!(r.code, "uncertain");
    assert!(r.issue.is_none());
    let r = FjiError::Uncertain { error: "t".into(), issue_number: Some(11), issue_url: None }
        .report();
    assert_eq!(r.issue.unwrap().number, Some(11));

    let r = FjiError::Http { code: "network", error: "refused".into(), http: None }.report();
    assert_eq!(r.code, "network");
    assert_eq!(r.http, None);
    let r = FjiError::NotFound { error: "missing".into(), http: Some(404) }.report();
    assert_eq!((r.code, r.http), ("not_found", Some(404)));
    let r = FjiError::Conflict { error: "c".into(), http: Some(409) }.report();
    assert_eq!((r.code, r.http), ("conflict", Some(409)));
    let r = FjiError::usage("unknown_label", "label \"x\"".into()).report();
    assert_eq!(r.code, "unknown_label");
    assert_eq!(r.error, "label \"x\"");
}

#[test]
fn http_status_of_errors() {
    assert_eq!(FjiError::Blocked { error: "x".into(), blocked_by: None }.http_of(), Some(412));
    assert_eq!(FjiError::usage("usage", "x".into()).http_of(), None);
    assert_eq!(FjiError::Http { code: "http", error: "x".into(), http: Some(403) }.http_of(), Some(403));
    assert_eq!(FjiError::usage("usage", "m".into()).message(), "m");
}
