use fj_issue::config::{normalize_host, origin_needed, parse_origin, Context, IssueRef, RepoName};
use fj_issue::error::FjiError;
use fj_issue::text::{number_text, owned};

#[test]
fn wrappers_write_what_std_writes() {
    match IssueRef::parse("a\"b").unwrap_err() {
        FjiError::Usage { error, .. } => assert_eq!(error, "invalid issue number in \"a\\\"b\""),
        other => panic!("{other:?}"),
    }
    match IssueRef::parse("tab\tx").unwrap_err() {
        FjiError::Usage { error, .. } => assert_eq!(error, "invalid issue number in \"tab\\tx\""),
        other => panic!("{other:?}"),
    }
    match IssueRef::parse("-42").unwrap_err() {
        FjiError::Usage { error, .. } => assert_eq!(error, "issue number must be positive, got -42"),
        other => panic!("{other:?}"),
    }
    match IssueRef::parse("-9223372036854775808").unwrap_err() {
        FjiError::Usage { error, .. } => {
            assert_eq!(error, "issue number must be positive, got -9223372036854775808")
        }
        other => panic!("{other:?}"),
    }
    assert_eq!(owned("x"), "x");
}

#[test]
fn repo_names_parse_and_print_back() {
    let r = RepoName::parse("  /sid/hello-world/ ").unwrap();
    assert_eq!(r.as_pair(), ("sid", "hello-world"));
    assert_eq!(RepoName::parse(&r.to_string()).unwrap(), r);
    for bad in ["sid", "/sid/", "sid/", "a/b/c", "sid@host/x"] {
        let err = RepoName::parse(bad).unwrap_err();
        assert!(matches!(err, FjiError::Usage { code: "usage", .. }), "{bad}");
    }
    match RepoName::parse("a/b/c").unwrap_err() {
        FjiError::Usage { error, .. } => assert_eq!(error, "repo must be owner/repo, got \"a/b/c\""),
        other => panic!("{other:?}"),
    }
    match RepoName::parse("user@host/x").unwrap_err() {
        FjiError::Usage { error, .. } => assert_eq!(error, "-R accepts owner/repo, not a URL"),
        other => panic!("{other:?}"),
    }
}

#[test]
fn issue_references() {
    assert_eq!(IssueRef::parse(" 123 ").unwrap().number, 123);
    let q = IssueRef::parse("sid/hello-world#3").unwrap();
    assert_eq!(IssueRef::parse(&format!("{}#{}", q.repo.clone().unwrap().to_string(), 3)).unwrap(), q);
    assert_eq!(IssueRef::parse("+5").unwrap().number, 5);
    for bad in ["", "#", "abc", "1.5", "99999999999999999999", "-3", "0"] {
        assert!(IssueRef::parse(bad).is_err(), "{bad}");
    }
    match IssueRef::parse("-3").unwrap_err() {
        FjiError::Usage { error, .. } => assert_eq!(error, "issue number must be positive, got -3"),
        other => panic!("{other:?}"),
    }
    match IssueRef::parse("o/r#x").unwrap_err() {
        FjiError::Usage { error, .. } => assert_eq!(error, "invalid issue number in \"o/r#x\""),
        other => panic!("{other:?}"),
    }
    assert!(IssueRef::parse("bad#1").is_err());
    assert_eq!(IssueRef::parse("9223372036854775807").unwrap().number, i64::MAX);
}

#[test]
fn hosts_normalize() {
    let u = normalize_host(" git.example/ ", false).unwrap();
    assert_eq!(u.as_str(), "https://git.example/");
    assert_eq!(u.scheme(), "https");
    assert_eq!(u.host_str(), Some("git.example"));
    assert_eq!(u.path(), "/");
    assert!(normalize_host("http://git.example", true).is_ok());
    assert!(normalize_host("http://localhost:3000", false).is_ok());
    match normalize_host("https://git.example/sub", false).unwrap_err() {
        FjiError::Usage { error, .. } => assert_eq!(error, "host must not include a path"),
        other => panic!("{other:?}"),
    }
    match normalize_host("ftp://git.example", false).unwrap_err() {
        FjiError::Usage { error, .. } => assert_eq!(error, "unsupported host scheme ftp"),
        other => panic!("{other:?}"),
    }
    match normalize_host("http://git.example", false).unwrap_err() {
        FjiError::Usage { error, .. } => assert_eq!(
            error,
            "authenticated requests require HTTPS (loopback HTTP is allowed for tests)"
        ),
        other => panic!("{other:?}"),
    }
    match normalize_host("bad host", false).unwrap_err() {
        FjiError::Usage { error, .. } => assert_eq!(error, "invalid host \"bad host\""),
        other => panic!("{other:?}"),
    }
}

#[test]
fn origins_parse() {
    let (host, repo) = parse_origin("https://git.example/sid/hello.git\n").unwrap();
    assert_eq!(host, "git.example");
    assert_eq!(repo.to_string(), "sid/hello");
    let (host, repo) = parse_origin("git@git.example:sid/hello").unwrap();
    assert_eq!((host.as_str(), repo.to_string().as_str()), ("git.example", "sid/hello"));
    match parse_origin("git@git.example").unwrap_err() {
        FjiError::Usage { error, .. } => {
            assert_eq!(error, "could not parse git origin \"git@git.example\"")
        }
        other => panic!("{other:?}"),
    }
    match parse_origin("file:///tmp/repo").unwrap_err() {
        FjiError::Usage { error, .. } => assert_eq!(error, "origin has no host: \"file:///tmp/repo\""),
        other => panic!("{other:?}"),
    }
    assert!(parse_origin("not a url").is_err());
}

#[test]
fn origin_is_read_only_when_needed() {
    let full = Context {
        host: Some("git.example".into()),
        repo: Some("sid/hello".into()),
        ..Context::default()
    };
    assert!(!origin_needed(&full, None, &[]));
    let no_host = Context { repo: Some("sid/hello".into()), ..Context::default() };
    assert!(origin_needed(&no_host, None, &[]));
    let no_repo = Context { host: Some("git.example".into()), ..Context::default() };
    assert!(origin_needed(&no_repo, None, &[]));
    let issue = IssueRef::parse("sid/hello#1").unwrap();
    assert!(!origin_needed(&no_repo, Some(&issue), &[]));
    let bad = Context { repo: Some("nope".into()), ..Context::default() };
    assert!(!origin_needed(&bad, None, &[]));
}

#[test]
fn numbers_are_written_in_decimal() {
    assert_eq!(number_text(0), "0");
    assert_eq!(number_text(7), "7");
    assert_eq!(number_text(1234567890), "1234567890");
    assert_eq!(number_text(-42), "-42");
    assert_eq!(number_text(i64::MAX), "9223372036854775807");
    assert_eq!(number_text(i64::MIN), "-9223372036854775808");
}
