use fj_issue::config::{normalize_host, parse_origin, resolve, Context, IssueRef, RepoName};
use fj_issue::error::FjiError;

#[test]
fn parse_issue_number_and_qualified() {
    let a = IssueRef::parse("12").unwrap();
    assert_eq!(a.number, 12);
    assert!(a.repo.is_none());
    let b = IssueRef::parse("#7").unwrap();
    assert_eq!(b.number, 7);
    let c = IssueRef::parse("sid/hello-world#3").unwrap();
    assert_eq!(c.number, 3);
    assert_eq!(c.repo.unwrap().to_string(), "sid/hello-world");
}

#[test]
fn repo_rejects_url() {
    let err = RepoName::parse("https://git.example/sid/hello-world").unwrap_err();
    assert!(matches!(err, FjiError::Usage { code: "usage", .. }));
}

#[test]
fn qualified_beats_matching_flag() {
    let ctx = Context {
        host: Some("git.example".into()),
        repo: Some("sid/hello-world".into()),
        token: Some("tok".into()),
        ..Context::default()
    };
    let issue = IssueRef::parse("sid/hello-world#4").unwrap();
    let resolved = resolve(&ctx, Some(&issue), &[]).unwrap();
    assert_eq!(resolved.repo.to_string(), "sid/hello-world");
    assert_eq!(resolved.host_url.as_str(), "https://git.example/");
}

#[test]
fn qualified_conflicts_with_flag() {
    let ctx = Context {
        host: Some("git.example".into()),
        repo: Some("other/repo".into()),
        token: Some("tok".into()),
        ..Context::default()
    };
    let issue = IssueRef::parse("sid/hello-world#4").unwrap();
    let err = resolve(&ctx, Some(&issue), &[]).unwrap_err();
    assert!(matches!(
        err,
        FjiError::Usage {
            code: "repo_conflict",
            ..
        }
    ));
}

#[test]
fn origin_fills_host_and_repo() {
    let ctx = Context {
        token: Some("tok".into()),
        git_origin: Some("https://git.882816.xyz/sid/hello-world.git".into()),
        ..Context::default()
    };
    let resolved = resolve(&ctx, None, &[]).unwrap();
    assert_eq!(resolved.repo.to_string(), "sid/hello-world");
    assert_eq!(resolved.host_url.as_str(), "https://git.882816.xyz/");
}

#[test]
fn ssh_origin() {
    let (host, repo) = parse_origin("git@git.882816.xyz:sid/hello-world.git").unwrap();
    assert_eq!(host, "git.882816.xyz");
    assert_eq!(repo.to_string(), "sid/hello-world");
}

#[test]
fn http_non_loopback_rejected() {
    let err = normalize_host("http://git.example", false).unwrap_err();
    assert!(matches!(err, FjiError::Usage { .. }));
}

#[test]
fn http_loopback_ok() {
    let url = normalize_host("http://127.0.0.1:1234", false).unwrap();
    assert_eq!(url.scheme(), "http");
}

#[test]
fn missing_token() {
    let ctx = Context {
        host: Some("git.example".into()),
        repo: Some("sid/hello".into()),
        ..Context::default()
    };
    let err = resolve(&ctx, None, &[]).unwrap_err();
    assert!(matches!(
        err,
        FjiError::Usage {
            code: "no_token",
            ..
        }
    ));
}

#[test]
fn cross_repo_dep_rejected() {
    let ctx = Context {
        host: Some("git.example".into()),
        token: Some("tok".into()),
        ..Context::default()
    };
    let issue = IssueRef::parse("sid/hello#1").unwrap();
    let dep = IssueRef::parse("other/repo#2").unwrap();
    let err = resolve(&ctx, Some(&issue), &[dep]).unwrap_err();
    assert!(matches!(
        err,
        FjiError::Usage {
            code: "cross_repo_dep",
            ..
        }
    ));
}

#[test]
fn missing_token_json() {
    let ctx = Context {
        host: Some("git.example".into()),
        repo: Some("sid/hello".into()),
        ..Context::default()
    };
    let issue = IssueRef::parse("1").unwrap();
    let err = resolve(&ctx, Some(&issue), &[]).unwrap_err();
    assert_eq!(err.exit_code(), 1);
    assert_eq!(err.report().code, "no_token");
}

#[test]
fn resolution_sources_and_errors() {
    let ctx = Context {
        host: Some("git.example".into()),
        repo: Some("sid/hello".into()),
        token: Some("tok".into()),
        ..Context::default()
    };
    let issue = IssueRef::parse("7").unwrap();
    let r = resolve(&ctx, Some(&issue), &[]).unwrap();
    assert_eq!(r.repo.to_string(), "sid/hello");
    assert_eq!(r.token, "tok");

    let empty_token = Context { token: Some(String::new()), ..ctx.clone() };
    assert!(matches!(
        resolve(&empty_token, None, &[]).unwrap_err(),
        FjiError::Usage { code: "no_token", .. }
    ));
    let no_repo = Context { repo: None, ..ctx.clone() };
    assert!(matches!(
        resolve(&no_repo, None, &[]).unwrap_err(),
        FjiError::Usage { code: "no_repo", .. }
    ));
    let no_host = Context { host: None, ..ctx.clone() };
    assert!(matches!(
        resolve(&no_host, None, &[]).unwrap_err(),
        FjiError::Usage { code: "no_host", .. }
    ));
    let ssh = Context {
        host: None,
        repo: None,
        git_origin: Some("git@git.example:sid/other.git".into()),
        ..ctx.clone()
    };
    let r = resolve(&ssh, None, &[]).unwrap();
    assert_eq!(r.repo.to_string(), "sid/other");
    assert_eq!(r.host_url.as_str(), "https://git.example/");

    let other = Context { repo: Some("other/repo".into()), ..ctx.clone() };
    let qualified = IssueRef::parse("sid/hello#4").unwrap();
    match resolve(&other, Some(&qualified), &[]).unwrap_err() {
        FjiError::Usage { code: "repo_conflict", error } => {
            assert_eq!(error, "-R other/repo disagrees with issue reference sid/hello")
        }
        e => panic!("{e:?}"),
    }
    let dep = IssueRef::parse("sid/hello#2").unwrap();
    let r = resolve(&ctx, None, &[dep]).unwrap();
    assert_eq!(r.repo.to_string(), "sid/hello");
}

#[test]
fn context_defaults() {
    let c = Context::default();
    assert_eq!(c.cwd, std::path::PathBuf::from("."));
    assert_eq!(c.timeout_ms, 30_000);
    assert!(!c.allow_http);
    assert!(c.host.is_none() && c.repo.is_none() && c.token.is_none() && c.git_origin.is_none());
}

#[test]
fn blocker_outside_flag_repo_is_cross_repo() {
    let ctx = Context {
        host: Some("git.example".into()),
        repo: Some("sid/hello".into()),
        token: Some("tok".into()),
        ..Context::default()
    };
    let issue = IssueRef::parse("1").unwrap();
    let dep = IssueRef::parse("other/repo#2").unwrap();
    let err = resolve(&ctx, Some(&issue), &[dep.clone()]).unwrap_err();
    assert!(matches!(err, FjiError::Usage { code: "cross_repo_dep", .. }));
    // The same holds for an issue about to be created in the `-R` repository.
    let err = resolve(&ctx, None, &[dep]).unwrap_err();
    assert!(matches!(err, FjiError::Usage { code: "cross_repo_dep", .. }));
    // A blocker in the `-R` repository is accepted.
    let same = IssueRef::parse("sid/hello#2").unwrap();
    let r = resolve(&ctx, Some(&issue), &[same]).unwrap();
    assert_eq!(r.repo.to_string(), "sid/hello");
}

#[test]
fn http_ipv6_and_named_loopback_ok() {
    let url = normalize_host("http://[::1]:1234", false).unwrap();
    assert_eq!(url.scheme(), "http");
    assert_eq!(url.host_str(), Some("[::1]"));
    let url = normalize_host("http://localhost:8080/", false).unwrap();
    assert_eq!(url.scheme(), "http");
    assert!(normalize_host("http://[::2]:1234", false).is_err());
}

#[test]
fn context_sources_take_flags_first() {
    let s = |v: &str| Some(v.to_string());
    let c = Context::from_sources(
        s("flag.example"),
        s("env.example"),
        None,
        s("sid/hello"),
        std::path::PathBuf::from("/work"),
        None,
        s("forgejo-token"),
        s(" 1500 "),
    );
    assert_eq!(c.host.as_deref(), Some("flag.example"));
    assert_eq!(c.repo.as_deref(), Some("sid/hello"));
    assert_eq!(c.cwd, std::path::PathBuf::from("/work"));
    assert_eq!(c.token.as_deref(), Some("forgejo-token"));
    assert_eq!(c.timeout_ms, 1500);
    assert!(c.git_origin.is_none() && !c.allow_http);
    let c = Context::from_sources(
        None,
        s("env.example"),
        s("a/b"),
        None,
        std::path::PathBuf::from("."),
        s("fji-token"),
        s("forgejo-token"),
        s("soon"),
    );
    assert_eq!(c.host.as_deref(), Some("env.example"));
    assert_eq!(c.repo.as_deref(), Some("a/b"));
    assert_eq!(c.token.as_deref(), Some("fji-token"));
    assert_eq!(c.timeout_ms, 30_000);
    for (text, ms) in [("+20", 20), ("-5", 30_000), ("18446744073709551615", u64::MAX), ("18446744073709551616", 30_000), ("", 30_000)] {
        let c = Context::from_sources(None, None, None, None, std::path::PathBuf::from("."), None, None, s(text));
        assert_eq!(c.timeout_ms, ms, "{text}");
    }
}
