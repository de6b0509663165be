use fj_issue::client::{
    after_create_failure, comment_result, comment_view, create_dep_failure, created_number,
    current_assignees, drop_assignees, is_uncertain, issue_url, label_filter, list_item, listable,
    map_forgejo,
    merge_assignees, needs_blockers, nonempty, numbers_of, page_request_size, page_window,
    project_issue, rel_issue, rel_issues, resolve_label_ids, with_blockers, write_failure,
    ApiFailure, ApiKind, CommentData, CreateAction, CreatePlan, DepLinks, IssueData, LabelData,
    Pages, PAGE,
};
use fj_issue::config::IssueRef;
use fj_issue::model::{format_time, Timestamp};
use fj_issue::error::FjiError;

fn issue(number: i64, title: &str) -> IssueData {
    IssueData {
        number: Some(number),
        title: Some(title.into()),
        body: Some("body".into()),
        closed: false,
        html_url: Some(format!("https://git.example/sid/hello-world/issues/{number}")),
        labels: Some(vec![Some("bug".into()), None, Some("ui".into())]),
        assignees: Some(vec![Some("alice".into())]),
        author: Some("sid".into()),
        created_at: Some(at()),
        updated_at: None,
        is_pull: false,
    }
}

fn at() -> Timestamp {
    Timestamp { unix_nanos: 1_789_141_591_000_000_000, offset_seconds: 0 }
}

fn strings(v: &[&str]) -> Vec<String> {
    v.iter().map(|s| s.to_string()).collect()
}

#[test]
fn projection_fills_defaults() {
    let v = project_issue(&issue(3, "talk"), Some(vec![]), Some(vec![]), None);
    assert_eq!(v.number, 3);
    assert_eq!(v.title, "talk");
    assert_eq!(v.state, "open");
    assert_eq!(v.labels, strings(&["bug", "ui"]));
    assert_eq!(v.assignees, strings(&["alice"]));
    assert_eq!(v.author, "sid");
    assert_eq!(v.url, "https://git.example/sid/hello-world/issues/3");
    assert_eq!(v.blocked_by, Some(vec![]));
    assert_eq!(v.created_at, "2026-09-11T15:46:31Z");
    assert_eq!(v.updated_at, "");
    assert!(v.comments.is_none());

    let empty = IssueData {
        number: None,
        title: None,
        body: None,
        closed: true,
        html_url: None,
        labels: None,
        assignees: None,
        author: None,
        created_at: None,
        updated_at: None,
        is_pull: false,
    };
    let v = project_issue(&empty, None, None, None);
    assert_eq!(v.number, 0);
    assert_eq!(v.state, "closed");
    assert_eq!(v.title, "");
    assert!(v.labels.is_empty());
    assert!(v.blocked_by.is_none() && v.blocks.is_none());
    assert_eq!(issue_url(&empty), "");
    let r = rel_issue(empty);
    assert_eq!((r.number, r.state.as_str(), r.url.as_str()), (0, "closed", ""));
}

#[test]
fn related_issues_and_numbers() {
    let rels = rel_issues(vec![issue(18, "blocker"), issue(21, "waiting")]);
    assert_eq!(rels[0].number, 18);
    assert_eq!(rels[0].title, "blocker");
    assert_eq!(rels[1].state, "open");
    assert_eq!(numbers_of(&rels), vec![18, 21]);
}

#[test]
fn comments_project() {
    let c = CommentData {
        id: Some(88),
        author: Some("sid".into()),
        body: Some("hi".into()),
        created_at: Some(at()),
    };
    let v = comment_view(c.clone());
    assert_eq!((v.id, v.author.as_str(), v.body.as_str()), (88, "sid", "hi"));
    let r = comment_result(6, c);
    assert_eq!((r.id, r.issue, r.body.as_str()), (88, 6, "hi"));
    let none = CommentData { id: None, author: None, body: None, created_at: None };
    let v = comment_view(none);
    assert_eq!((v.id, v.author.as_str(), v.body.as_str()), (0, "", ""));
}

#[test]
fn assign_keeps_existing_and_adds_users() {
    let current = current_assignees(&issue(4, "claim"));
    let after = merge_assignees(current, strings(&["sid", "alice", "sid"]));
    assert_eq!(after, strings(&["alice", "sid"]));
    let removed = drop_assignees(after.clone(), &strings(&["sid"]));
    assert_eq!(removed, strings(&["alice"]));
    let again = drop_assignees(strings(&["alice"]), &strings(&["sid"]));
    assert_eq!(removed, again);
}

#[test]
fn labels_resolve_by_name_in_order() {
    let labels = vec![
        LabelData { id: Some(1), name: Some("keep".into()) },
        LabelData { id: None, name: None },
        LabelData { id: Some(2), name: Some("later".into()) },
        LabelData { id: Some(3), name: Some("later".into()) },
    ];
    assert_eq!(resolve_label_ids(&labels, &strings(&["later", "keep"])).unwrap(), vec![2, 1]);
    assert!(resolve_label_ids(&labels, &vec![]).unwrap().is_empty());
    match resolve_label_ids(&labels, &strings(&["keep", "missing"])).unwrap_err() {
        FjiError::Usage { code: "unknown_label", error } => {
            assert_eq!(error, "label \"missing\" does not exist on this repository")
        }
        other => panic!("{other:?}"),
    }
}

#[test]
fn paging_goes_on_until_empty_or_counted() {
    // With a reported count: short pages are followed until the count is reached.
    let mut pages = Pages::first();
    assert_eq!(pages.page(), 1);
    assert!(pages.advance(2, Some(3)));
    assert_eq!(pages.page(), 2);
    assert!(!pages.advance(1, Some(3)));
    assert_eq!(pages.page(), 2);
    // Without one: every non-empty page is followed, an empty one ends it.
    let mut pages = Pages::first();
    assert!(pages.advance(1, None));
    assert!(pages.advance(PAGE as usize, None));
    assert_eq!(pages.page(), 3);
    assert!(!pages.advance(0, None));
    assert_eq!(pages.page(), 3);
    // An empty page ends it even when the count says more.
    let mut pages = Pages::first();
    assert!(!pages.advance(0, Some(10)));
    assert_eq!(page_request_size(30), 31);
}

#[test]
fn list_window_truncates_to_the_limit() {
    let (items, truncated) = page_window(vec![1, 2], 1);
    assert!(truncated);
    assert_eq!(items, vec![1]);
    let (items, truncated) = page_window(vec![1, 2], 2);
    assert!(!truncated);
    assert_eq!(items, vec![1, 2]);
    let mut pull = issue(2, "pr");
    pull.is_pull = true;
    let mut unnumbered = issue(3, "odd");
    unnumbered.number = None;
    let kept = listable(vec![issue(1, "a"), pull, unnumbered, issue(4, "b")]);
    assert_eq!(kept.iter().map(|i| i.number.unwrap()).collect::<Vec<_>>(), vec![1, 4]);
    assert_eq!(nonempty(Vec::<i64>::new()), None);
    assert_eq!(nonempty(vec![5]), Some(vec![5]));
}

fn status(code: u16, text: &str) -> ApiFailure {
    ApiFailure::Status { code, text: text.into() }
}

#[test]
fn failures_map_to_errors() {
    let e = map_forgejo(ApiFailure::Api {
        message: Some("cannot close this issue because it still has open dependencies".into()),
        kind: ApiKind::Status(412),
    });
    assert!(matches!(e, FjiError::Blocked { blocked_by: None, .. }));
    assert_eq!(e.exit_code(), 4);
    let e = map_forgejo(ApiFailure::Api { message: Some("missing".into()), kind: ApiKind::NotFound });
    assert_eq!((e.exit_code(), e.http_of()), (3, Some(404)));
    let e = map_forgejo(ApiFailure::Api { message: None, kind: ApiKind::Other });
    assert_eq!(e.message(), "forgejo api error");
    assert_eq!(e.http_of(), None);
    let e = map_forgejo(ApiFailure::Api { message: Some("dup".into()), kind: ApiKind::Status(409) });
    assert!(matches!(e, FjiError::Conflict { http: Some(409), .. }));
    let e = map_forgejo(status(403, "403 Forbidden"));
    assert_eq!((e.exit_code(), e.http_of()), (2, Some(403)));
    let e = map_forgejo(status(500, "500 Internal Server Error"));
    assert_eq!((e.exit_code(), e.http_of()), (2, Some(500)));
    let e = map_forgejo(status(404, "404 Not Found"));
    assert_eq!(e.exit_code(), 3);
    let e = map_forgejo(status(409, "409 Conflict"));
    assert_eq!(e.report().code, "conflict");
    let e = map_forgejo(status(412, "412 Precondition Failed"));
    assert_eq!(e.message(), "cannot close this issue because it still has open dependencies");
    let timeout = ApiFailure::Transport {
        timeout: true,
        connect: false,
        request: true,
        status: None,
        text: "timed out".into(),
    };
    assert!(matches!(map_forgejo(timeout.clone()), FjiError::Uncertain { issue_number: None, .. }));
    assert!(is_uncertain(&timeout));
    let refused = ApiFailure::Transport {
        timeout: false,
        connect: true,
        request: true,
        status: None,
        text: "refused".into(),
    };
    assert!(!is_uncertain(&refused));
    assert_eq!(map_forgejo(refused).report().code, "network");
    let other = map_forgejo(ApiFailure::Other { text: "bad json".into() });
    assert_eq!((other.report().code, other.message().as_str()), ("http", "bad json"));
}

#[test]
fn dropped_create_response_is_uncertain() {
    let dropped = ApiFailure::Transport {
        timeout: false,
        connect: false,
        request: true,
        status: None,
        text: "connection closed before message completed".into(),
    };
    let err = write_failure(dropped);
    assert!(matches!(err, FjiError::Uncertain { issue_number: None, .. }), "got {err:?}");
    assert_eq!(err.exit_code(), 2);
    let err = write_failure(status(422, "422 Unprocessable Entity"));
    assert_eq!(err.http_of(), Some(422));
}

#[test]
fn create_then_partial_dep() {
    let refs = vec![IssueRef::parse("99").unwrap()];
    let links = DepLinks::new(7, "https://git.example/sid/hello-world/issues/7".into(), &refs);
    assert_eq!(links.next(), Some(99));
    let err = links.failed(ApiFailure::Api {
        message: Some("not found".into()),
        kind: ApiKind::NotFound,
    });
    match create_dep_failure(err) {
        FjiError::PartialCreate { issue_number, applied, failed, .. } => {
            assert_eq!(issue_number, 7);
            assert!(applied.is_empty());
            assert_eq!(failed.number, 99);
            assert_eq!(failed.http, Some(404));
        }
        other => panic!("expected partial_create, got {other:?}"),
    }
}

#[test]
fn dep_links_stop_at_first_failure() {
    let refs = vec![
        IssueRef::parse("1").unwrap(),
        IssueRef::parse("2").unwrap(),
        IssueRef::parse("3").unwrap(),
    ];
    let mut links = DepLinks::new(9, "u".into(), &refs);
    assert_eq!(links.next(), Some(1));
    links.added();
    assert_eq!(links.next(), Some(2));
    match links.failed(status(500, "500 Internal Server Error")) {
        FjiError::PartialDep { applied, failed, issue_number, .. } => {
            assert_eq!(applied, vec![1]);
            assert_eq!(failed.number, 2);
            assert_eq!(failed.http, Some(500));
            assert_eq!(issue_number, 9);
        }
        other => panic!("{other:?}"),
    }
    let mut links = DepLinks::new(9, "u".into(), &refs[..1]);
    links.added();
    assert_eq!(links.next(), None);
    let links = DepLinks::new(9, "u".into(), &refs);
    let timeout = ApiFailure::Transport {
        timeout: true,
        connect: false,
        request: true,
        status: None,
        text: "timed out".into(),
    };
    match links.failed(timeout) {
        FjiError::Uncertain { issue_number, issue_url, .. } => {
            assert_eq!(issue_number, Some(9));
            assert_eq!(issue_url.as_deref(), Some("u"));
        }
        other => panic!("{other:?}"),
    }
}

#[test]
fn close_blocked_lists_blockers() {
    let mapped = map_forgejo(ApiFailure::Api {
        message: Some("cannot close this issue because it still has open dependencies".into()),
        kind: ApiKind::Status(412),
    });
    assert!(needs_blockers(&mapped));
    let err = with_blockers(mapped, Some(vec![4]));
    assert_eq!(err.exit_code(), 4);
    match &err {
        FjiError::Blocked { blocked_by, .. } => assert_eq!(blocked_by, &Some(vec![4])),
        other => panic!("expected blocked, got {other:?}"),
    }
    assert!(!needs_blockers(&err));
    let conflict = map_forgejo(status(409, "409 Conflict"));
    assert!(!needs_blockers(&conflict));
    assert_eq!(conflict.exit_code(), 4);
}

#[test]
fn create_enrichment_failure_keeps_identity() {
    let data = issue(11, "new");
    let number = created_number(&data).unwrap();
    let url = issue_url(&data);
    let read = map_forgejo(status(500, "500 Internal Server Error"));
    match after_create_failure(number, &url, read) {
        FjiError::Uncertain { issue_number, issue_url, .. } => {
            assert_eq!(issue_number, Some(11));
            assert!(issue_url.unwrap().contains("/issues/11"));
        }
        other => panic!("expected uncertain, got {other:?}"),
    }
    let mut unnumbered = issue(1, "x");
    unnumbered.number = None;
    let err = created_number(&unnumbered).unwrap_err();
    assert_eq!(err.message(), "created issue has no number");
    let other = create_dep_failure(FjiError::usage("usage", "x".into()));
    assert!(matches!(other, FjiError::Usage { .. }));
}

#[test]
fn times_are_written_in_rfc3339() {
    assert_eq!(format_time(Some(at())), "2026-09-11T15:46:31Z");
    let east = Timestamp { unix_nanos: 1_789_141_591_500_000_000, offset_seconds: 3600 };
    assert_eq!(format_time(Some(east)), "2026-09-11T16:46:31.5+01:00");
    assert_eq!(format_time(None), "");
    let far = Timestamp { unix_nanos: i128::MAX, offset_seconds: 0 };
    assert_eq!(format_time(Some(far)), "");
}

#[test]
fn label_filters_join_with_commas() {
    assert_eq!(label_filter(&vec![]), None);
    assert_eq!(label_filter(&strings(&["bug"])).as_deref(), Some("bug"));
    assert_eq!(label_filter(&strings(&["bug", "ui", "p1"])).as_deref(), Some("bug,ui,p1"));
}

#[test]
fn unknown_label_does_not_create() {
    let (mut plan, action) = CreatePlan::new(strings(&["missing"]), vec![]);
    assert!(matches!(action, CreateAction::ListLabels { page: 1 }));
    match plan.labels_listed(Ok(vec![]), Some(0)) {
        CreateAction::Fail(FjiError::Usage { code: "unknown_label", .. }) => {}
        other => panic!("expected unknown_label, got {other:?}"),
    }
}

#[test]
fn label_on_later_page_resolves_its_id() {
    // One label a page, two in all: the second page is fetched.
    let (mut plan, _) = CreatePlan::new(strings(&["later"]), vec![]);
    let first = vec![LabelData { id: Some(1), name: Some("keep".into()) }];
    assert!(matches!(plan.labels_listed(Ok(first), Some(2)), CreateAction::ListLabels { page: 2 }));
    let second = vec![LabelData { id: Some(2), name: Some("later".into()) }];
    match plan.labels_listed(Ok(second), Some(2)) {
        CreateAction::Post { label_ids } => assert_eq!(label_ids, vec![2]),
        other => panic!("{other:?}"),
    }
    // With no count reported, pages are fetched until one comes back empty.
    let (mut plan, _) = CreatePlan::new(strings(&["later"]), vec![]);
    let full: Vec<LabelData> = (0..PAGE as i64)
        .map(|i| LabelData { id: Some(100 + i), name: Some(format!("l{i}")) })
        .collect();
    assert!(matches!(plan.labels_listed(Ok(full), None), CreateAction::ListLabels { page: 2 }));
    let last = vec![LabelData { id: Some(2), name: Some("later".into()) }];
    assert!(matches!(plan.labels_listed(Ok(last), None), CreateAction::ListLabels { page: 3 }));
    match plan.labels_listed(Ok(vec![]), None) {
        CreateAction::Post { label_ids } => assert_eq!(label_ids, vec![2]),
        other => panic!("{other:?}"),
    }
    let failing = plan_failing_labels();
    assert!(matches!(failing, CreateAction::Fail(FjiError::Http { http: Some(500), .. })));
}

fn plan_failing_labels() -> CreateAction {
    let (mut plan, _) = CreatePlan::new(strings(&["x"]), vec![]);
    plan.labels_listed(Err(status(500, "500 Internal Server Error")), None)
}

#[test]
fn create_plan_links_then_reads_back() {
    let (mut plan, action) = CreatePlan::new(vec![], vec![IssueRef::parse("99").unwrap()]);
    assert!(matches!(action, CreateAction::Post { ref label_ids } if label_ids.is_empty()));
    match plan.posted(Ok(&issue(7, "child"))) {
        CreateAction::Link { number, blocker } => assert_eq!((number, blocker), (7, 99)),
        other => panic!("{other:?}"),
    }
    match plan.linked(Err(ApiFailure::Api { message: Some("not found".into()), kind: ApiKind::NotFound })) {
        CreateAction::Fail(FjiError::PartialCreate { issue_number, applied, failed, .. }) => {
            assert_eq!(issue_number, 7);
            assert!(applied.is_empty());
            assert_eq!(failed.number, 99);
        }
        other => panic!("expected partial_create, got {other:?}"),
    }

    let refs = vec![IssueRef::parse("1").unwrap(), IssueRef::parse("2").unwrap()];
    let (mut plan, _) = CreatePlan::new(vec![], refs);
    assert!(matches!(plan.posted(Ok(&issue(11, "new"))), CreateAction::Link { blocker: 1, .. }));
    assert!(matches!(plan.linked(Ok(())), CreateAction::Link { blocker: 2, .. }));
    assert!(matches!(plan.linked(Ok(())), CreateAction::ReadBack { number: 11 }));
    match plan.read_back_failed(map_forgejo(status(500, "500 Internal Server Error"))) {
        FjiError::Uncertain { issue_number, issue_url, .. } => {
            assert_eq!(issue_number, Some(11));
            assert!(issue_url.unwrap().contains("/issues/11"));
        }
        other => panic!("{other:?}"),
    }

    let (mut plan, _) = CreatePlan::new(vec![], vec![]);
    let dropped = ApiFailure::Transport {
        timeout: false,
        connect: false,
        request: true,
        status: None,
        text: "connection closed".into(),
    };
    assert!(matches!(
        plan.posted(Err(dropped)),
        CreateAction::Fail(FjiError::Uncertain { issue_number: None, .. })
    ));
}

#[test]
fn refused_close_exits_4_without_blockers() {
    let mapped = map_forgejo(status(412, "412 Precondition Failed"));
    assert!(needs_blockers(&mapped));
    let err = with_blockers(mapped, None);
    assert_eq!(err.exit_code(), 4);
    let report = err.report();
    assert_eq!((report.code, report.http, report.blocked_by), ("blocked", Some(412), None));
}

#[test]
fn list_items_show_deps_only_when_fetched() {
    let omitted = list_item(&issue(5, "five"), None);
    assert!(omitted.blocked_by.is_none() && omitted.blocks.is_none() && omitted.comments.is_none());
    let fetched = list_item(&issue(5, "five"), Some((vec![], rel_issues(vec![issue(9, "nine")]))));
    assert_eq!(fetched.blocked_by.as_ref().map(|v| v.len()), Some(0));
    assert_eq!(numbers_of(fetched.blocks.as_ref().unwrap()), vec![9]);
    assert!(fetched.comments.is_none());
    assert_eq!(fetched.number, 5);
    assert_eq!(fetched.title, "five");
}
