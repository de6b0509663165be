use fj_issue::cli::{BodyFile, Command, Commands, DepAction, LabelAction, ListState};
use fj_issue::config::IssueRef;
use fj_issue::error::FjiError;

fn list(state: &str, limit: Option<u32>, all: bool) -> Commands {
    Commands::List {
        state: state.into(),
        labels: vec![],
        assignee: None,
        search: None,
        limit,
        all,
        no_deps: false,
    }
}

fn usage_message(r: Result<Command, FjiError>) -> String {
    match r {
        Err(FjiError::Usage { code: "usage", error }) => error,
        other => panic!("expected a usage error, got {other:?}"),
    }
}

#[test]
fn all_and_limit_conflict() {
    let err = list("open", Some(10), true).into_command().unwrap_err();
    assert_eq!(err.exit_code(), 1);
    assert_eq!(err.report().code, "usage");
}

#[test]
fn limit_zero_rejected() {
    let err = list("open", Some(0), false).into_command().unwrap_err();
    assert_eq!(err.exit_code(), 1);
    assert_eq!(err.report().code, "usage");
}

#[test]
fn list_defaults_and_states() {
    match list("open", None, false).into_command().unwrap() {
        Command::List { state, limit, .. } => {
            assert_eq!(state, ListState::Open);
            assert_eq!(limit, 30);
        }
        other => panic!("{other:?}"),
    }
    match list("closed", Some(5), false).into_command().unwrap() {
        Command::List { state, limit, .. } => {
            assert_eq!(state, ListState::Closed);
            assert_eq!(limit, 5);
        }
        other => panic!("{other:?}"),
    }
    match list("all", None, true).into_command().unwrap() {
        Command::List { state, all, .. } => {
            assert_eq!(state, ListState::All);
            assert!(all);
        }
        other => panic!("{other:?}"),
    }
    assert_eq!(
        usage_message(list("open", Some(u32::MAX), false).into_command()),
        "--limit is too large"
    );
    assert_eq!(
        usage_message(list("done", None, false).into_command()),
        "--state must be open|closed|all, got \"done\""
    );
}

fn create(title: &str, body: Option<&str>, body_file: Option<BodyFile>) -> Commands {
    Commands::Create {
        title: title.into(),
        body: body.map(Into::into),
        body_file,
        labels: vec!["bug".into()],
        assignees: vec![],
        blocked_by: vec!["4".into(), "sid/hello#5".into()],
    }
}

#[test]
fn create_checks_body_then_title_then_refs() {
    assert_eq!(
        usage_message(create("t", None, None).into_command()),
        "provide --body or --body-file"
    );
    assert_eq!(
        usage_message(create("t", Some("b"), Some(BodyFile::Unread)).into_command()),
        "--body and --body-file conflict"
    );
    assert_eq!(
        usage_message(create("  ", Some("b"), None).into_command()),
        "--title must not be empty"
    );
    match create("t", Some("b"), None).into_command().unwrap() {
        Command::Create { title, body, labels, blocked_by, .. } => {
            assert_eq!(title, "t");
            assert_eq!(body, "b");
            assert_eq!(labels, vec!["bug".to_string()]);
            assert_eq!(blocked_by.len(), 2);
            assert_eq!(blocked_by[0].number, 4);
            assert_eq!(blocked_by[1].repo.as_ref().unwrap().to_string(), "sid/hello");
        }
        other => panic!("{other:?}"),
    }
}

#[test]
fn body_files_are_checked() {
    let from_file = |read: Result<Vec<u8>, String>| {
        create("t", None, Some(BodyFile::Path { shown: "notes.md".into(), read })).into_command()
    };
    match from_file(Ok(b"hello".to_vec())).unwrap() {
        Command::Create { body, .. } => assert_eq!(body, "hello"),
        other => panic!("{other:?}"),
    }
    assert_eq!(usage_message(from_file(Ok(vec![b'a', 0]))), "body file must be text");
    assert_eq!(usage_message(from_file(Ok(vec![0xff, 0xfe]))), "body file must be UTF-8 text");
    assert_eq!(
        usage_message(from_file(Err("No such file or directory (os error 2)".into()))),
        "failed to read notes.md: No such file or directory (os error 2)"
    );
    let from_stdin = |read: Result<String, String>| {
        create("t", None, Some(BodyFile::Stdin(read))).into_command()
    };
    match from_stdin(Ok("piped".into())).unwrap() {
        Command::Create { body, .. } => assert_eq!(body, "piped"),
        other => panic!("{other:?}"),
    }
    assert_eq!(usage_message(from_stdin(Ok("a\0b".into()))), "stdin body must be text");
    assert_eq!(
        usage_message(from_stdin(Err("broken".into()))),
        "failed to read stdin: broken"
    );
}

#[test]
fn edit_needs_title_or_body() {
    let edit = |title: Option<&str>, body: Option<&str>, body_file: Option<BodyFile>| {
        Commands::Edit {
            issue: "6".into(),
            title: title.map(Into::into),
            body: body.map(Into::into),
            body_file,
        }
        .into_command()
    };
    assert_eq!(usage_message(edit(None, None, None)), "edit requires --title and/or --body");
    assert_eq!(
        usage_message(edit(Some("t"), Some("b"), Some(BodyFile::Unread))),
        "--body and --body-file conflict"
    );
    match edit(Some("renamed"), None, None).unwrap() {
        Command::Edit { issue, title, body } => {
            assert_eq!(issue.number, 6);
            assert_eq!(title.as_deref(), Some("renamed"));
            assert!(body.is_none());
        }
        other => panic!("{other:?}"),
    }
}

#[test]
fn lists_must_not_be_empty() {
    let label_add = Commands::Label { action: LabelAction::Add { issue: "1".into(), labels: vec![] } };
    assert_eq!(usage_message(label_add.into_command()), "label add requires at least one label");
    let label_rm = Commands::Label { action: LabelAction::Rm { issue: "1".into(), labels: vec![] } };
    assert_eq!(usage_message(label_rm.into_command()), "label rm requires at least one label");
    let assign = Commands::Assign { issue: "1".into(), users: vec![] };
    assert_eq!(usage_message(assign.into_command()), "assign requires at least one user");
    let unassign = Commands::Unassign { issue: "1".into(), users: vec![] };
    assert_eq!(usage_message(unassign.into_command()), "unassign requires at least one user");
}

#[test]
fn comment_parses_issue_before_body() {
    let c = Commands::Comment { issue: "x".into(), body: None, body_file: None };
    assert_eq!(usage_message(c.into_command()), "invalid issue number in \"x\"");
    let c = Commands::Comment { issue: "#9".into(), body: Some("hi".into()), body_file: None };
    match c.into_command().unwrap() {
        Command::Comment { issue, body } => {
            assert_eq!(issue.number, 9);
            assert_eq!(body, "hi");
        }
        other => panic!("{other:?}"),
    }
}

#[test]
fn dep_commands_and_refs() {
    let add = Commands::Dep {
        action: DepAction::Add { issue: "3".into(), blocked_by: vec!["1".into(), "2".into()] },
    }
    .into_command()
    .unwrap();
    let (issue, extras) = add.refs();
    assert_eq!(issue.unwrap().number, 3);
    assert_eq!(extras.iter().map(|r| r.number).collect::<Vec<_>>(), vec![1, 2]);

    let rm = Commands::Dep { action: DepAction::Rm { issue: "3".into(), blocked_by: "1".into() } }
        .into_command()
        .unwrap();
    let (issue, extras) = rm.refs();
    assert_eq!(issue.unwrap().number, 3);
    assert_eq!(extras.len(), 1);

    let bad = Commands::Dep { action: DepAction::Rm { issue: "3".into(), blocked_by: "0".into() } };
    assert_eq!(usage_message(bad.into_command()), "issue number must be positive, got 0");

    let listed = Commands::Dep { action: DepAction::List { issue: "3".into() } }.into_command().unwrap();
    assert!(matches!(listed, Command::DepList { issue: IssueRef { number: 3, .. } }));

    let (issue, extras) = Commands::Close { issue: "8".into() }.into_command().unwrap().refs();
    assert_eq!(issue.unwrap().number, 8);
    assert!(extras.is_empty());
    let (issue, extras) = list("open", None, false).into_command().unwrap().refs();
    assert!(issue.is_none() && extras.is_empty());
}
