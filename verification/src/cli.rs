//! The commands as the command line gives them, and their checked form.
use crate::config::{issue_ref_parse, IssueRef, IssueRefModel};
use crate::error::{usage_model, ErrorModel, FjiError};
use crate::text::{
    chars_of, concat, contains_char, debug_text, has_char, owned, quoted, text_is, trim,
    trim_chars,
};
use std::path::PathBuf;
use vstd::prelude::*;
use vstd::utf8::{decode_utf8, valid_utf8};

verus! {

/// The command line: global flags and a command.
#[derive(Debug)]
pub struct Cli {
    pub host: Option<String>,
    pub repo: Option<String>,
    pub cwd: Option<PathBuf>,
    pub command: Commands,
}

/// What `--body-file` gave.
#[derive(Debug)]
pub enum BodyFile {
    /// `--body-file -`: the text read from standard input, or why reading
    /// it failed.
    Stdin(Result<String, String>),
    /// A file: its path as displayed, and the bytes read from it, or why
    /// reading it failed.
    Path { shown: String, read: Result<Vec<u8>, String> },
    /// Given, but not read, because `--body` was given as well.
    Unread,
}

/// The commands and their arguments, as given.
#[derive(Debug)]
pub enum Commands {
    Create {
        title: String,
        body: Option<String>,
        body_file: Option<BodyFile>,
        labels: Vec<String>,
        assignees: Vec<String>,
        blocked_by: Vec<String>,
    },
    View { issue: String },
    List {
        state: String,
        labels: Vec<String>,
        assignee: Option<String>,
        search: Option<String>,
        limit: Option<u32>,
        all: bool,
        no_deps: bool,
    },
    Comment { issue: String, body: Option<String>, body_file: Option<BodyFile> },
    Edit {
        issue: String,
        title: Option<String>,
        body: Option<String>,
        body_file: Option<BodyFile>,
    },
    Label { action: LabelAction },
    Assign { issue: String, users: Vec<String> },
    Unassign { issue: String, users: Vec<String> },
    Close { issue: String },
    Reopen { issue: String },
    Dep { action: DepAction },
}

/// `label add` and `label rm`.
#[derive(Debug)]
pub enum LabelAction {
    Add { issue: String, labels: Vec<String> },
    Rm { issue: String, labels: Vec<String> },
}

/// `dep add`, `dep rm` and `dep list`.
#[derive(Debug)]
pub enum DepAction {
    Add { issue: String, blocked_by: Vec<String> },
    Rm { issue: String, blocked_by: String },
    List { issue: String },
}

/// The state filter of `list`.
#[derive(Debug, Clone, Copy, PartialEq, Eq)]
pub enum ListState {
    Open,
    Closed,
    All,
}

/// A checked command, ready to run.
#[derive(Debug, Clone)]
pub enum Command {
    Create {
        title: String,
        body: String,
        labels: Vec<String>,
        assignees: Vec<String>,
        blocked_by: Vec<IssueRef>,
    },
    View { issue: IssueRef },
    List {
        state: ListState,
        labels: Vec<String>,
        assignee: Option<String>,
        search: Option<String>,
        limit: u32,
        all: bool,
        no_deps: bool,
    },
    Comment { issue: IssueRef, body: String },
    Edit { issue: IssueRef, title: Option<String>, body: Option<String> },
    LabelAdd { issue: IssueRef, labels: Vec<String> },
    LabelRm { issue: IssueRef, labels: Vec<String> },
    Assign { issue: IssueRef, users: Vec<String> },
    Unassign { issue: IssueRef, users: Vec<String> },
    Close { issue: IssueRef },
    Reopen { issue: IssueRef },
    DepAdd { issue: IssueRef, blocked_by: Vec<IssueRef> },
    DepRm { issue: IssueRef, blocked_by: IssueRef },
    DepList { issue: IssueRef },
}

/// The abstract value of a [`Command`]: texts as character sequences and
/// references as their models; lists of names are kept as they are.
pub enum CommandModel {
    Create {
        title: Seq<char>,
        body: Seq<char>,
        labels: Seq<String>,
        assignees: Seq<String>,
        blocked_by: Seq<IssueRefModel>,
    },
    View { issue: IssueRefModel },
    List {
        state: ListState,
        labels: Seq<String>,
        assignee: Option<Seq<char>>,
        search: Option<Seq<char>>,
        limit: u32,
        all: bool,
        no_deps: bool,
    },
    Comment { issue: IssueRefModel, body: Seq<char> },
    Edit { issue: IssueRefModel, title: Option<Seq<char>>, body: Option<Seq<char>> },
    LabelAdd { issue: IssueRefModel, labels: Seq<String> },
    LabelRm { issue: IssueRefModel, labels: Seq<String> },
    Assign { issue: IssueRefModel, users: Seq<String> },
    Unassign { issue: IssueRefModel, users: Seq<String> },
    Close { issue: IssueRefModel },
    Reopen { issue: IssueRefModel },
    DepAdd { issue: IssueRefModel, blocked_by: Seq<IssueRefModel> },
    DepRm { issue: IssueRefModel, blocked_by: IssueRefModel },
    DepList { issue: IssueRefModel },
}

pub open spec fn text_opt(o: Option<String>) -> Option<Seq<char>> {
    match o {
        Some(s) => Some(s@),
        None => None,
    }
}

pub open spec fn ref_models(v: Seq<IssueRef>) -> Seq<IssueRefModel> {
    v.map_values(|r: IssueRef| r@)
}

impl View for Command {
    type V = CommandModel;

    open spec fn view(&self) -> CommandModel {
        match self {
            Command::Create { title, body, labels, assignees, blocked_by } => CommandModel::Create {
                title: title@,
                body: body@,
                labels: labels@,
                assignees: assignees@,
                blocked_by: ref_models(blocked_by@),
            },
            Command::View { issue } => CommandModel::View { issue: issue@ },
            Command::List { state, labels, assignee, search, limit, all, no_deps } =>
                CommandModel::List {
                state: *state,
                labels: labels@,
                assignee: text_opt(*assignee),
                search: text_opt(*search),
                limit: *limit,
                all: *all,
                no_deps: *no_deps,
            },
            Command::Comment { issue, body } => CommandModel::Comment { issue: issue@, body: body@ },
            Command::Edit { issue, title, body } => CommandModel::Edit {
                issue: issue@,
                title: text_opt(*title),
                body: text_opt(*body),
            },
            Command::LabelAdd { issue, labels } => CommandModel::LabelAdd {
                issue: issue@,
                labels: labels@,
            },
            Command::LabelRm { issue, labels } => CommandModel::LabelRm {
                issue: issue@,
                labels: labels@,
            },
            Command::Assign { issue, users } => CommandModel::Assign { issue: issue@, users: users@ },
            Command::Unassign { issue, users } => CommandModel::Unassign {
                issue: issue@,
                users: users@,
            },
            Command::Close { issue } => CommandModel::Close { issue: issue@ },
            Command::Reopen { issue } => CommandModel::Reopen { issue: issue@ },
            Command::DepAdd { issue, blocked_by } => CommandModel::DepAdd {
                issue: issue@,
                blocked_by: ref_models(blocked_by@),
            },
            Command::DepRm { issue, blocked_by } => CommandModel::DepRm {
                issue: issue@,
                blocked_by: blocked_by@,
            },
            Command::DepList { issue } => CommandModel::DepList { issue: issue@ },
        }
    }
}

pub open spec fn usage(msg: Seq<char>) -> ErrorModel {
    usage_model("usage"@, msg)
}

/// The text that `--body-file` gave: standard input or a file, which must
/// hold no NUL and (for a file) be UTF-8.
pub open spec fn body_file_spec(f: BodyFile) -> Result<Seq<char>, ErrorModel> {
    match f {
        BodyFile::Stdin(Ok(buf)) => if has_char(buf@, '\0') {
            Err(usage("stdin body must be text"@))
        } else {
            Ok(buf@)
        },
        BodyFile::Stdin(Err(e)) => Err(usage("failed to read stdin: "@ + e@)),
        BodyFile::Path { shown, read: Err(e) } => Err(
            usage("failed to read "@ + shown@ + ": "@ + e@),
        ),
        BodyFile::Path { shown, read: Ok(bytes) } => if bytes@.contains(0u8) {
            Err(usage("body file must be text"@))
        } else if !valid_utf8(bytes@) {
            Err(usage("body file must be UTF-8 text"@))
        } else {
            Ok(decode_utf8(bytes@))
        },
        BodyFile::Unread => Err(usage("--body and --body-file conflict"@)),
    }
}

/// The body of `create` and `comment`: exactly one of `--body` and
/// `--body-file`.
pub open spec fn read_body_spec(body: Option<String>, body_file: Option<BodyFile>) -> Result<
    Seq<char>,
    ErrorModel,
> {
    match (body, body_file) {
        (Some(_), Some(_)) => Err(usage("--body and --body-file conflict"@)),
        (None, None) => Err(usage("provide --body or --body-file"@)),
        (Some(b), None) => Ok(b@),
        (None, Some(f)) => body_file_spec(f),
    }
}

/// The references of a list, parsed in order; the first error stops it.
pub open spec fn parse_refs_spec(values: Seq<String>) -> Result<Seq<IssueRefModel>, ErrorModel>
    decreases values.len(),
{
    if values.len() == 0 {
        Ok(Seq::empty())
    } else {
        match issue_ref_parse(values[0]@) {
            Err(e) => Err(e),
            Ok(r) => match parse_refs_spec(values.drop_first()) {
                Err(e) => Err(e),
                Ok(rs) => Ok(seq![r] + rs),
            },
        }
    }
}

/// `issue_ref_parse`, with the reference put into a command.
pub open spec fn with_issue(
    issue: Seq<char>,
    make: spec_fn(IssueRefModel) -> CommandModel,
) -> Result<CommandModel, ErrorModel> {
    match issue_ref_parse(issue) {
        Err(e) => Err(e),
        Ok(i) => Ok(make(i)),
    }
}

/// What `Commands::into_command` gives: the checks of each command, in the
/// order the command line is checked, then the parsed command.
pub open spec fn into_command_spec(c: Commands) -> Result<CommandModel, ErrorModel> {
    match c {
        Commands::Create { title, body, body_file, labels, assignees, blocked_by } => {
            match read_body_spec(body, body_file) {
                Err(e) => Err(e),
                Ok(b) => if trim(title@).len() == 0 {
                    Err(usage("--title must not be empty"@))
                } else {
                    match parse_refs_spec(blocked_by@) {
                        Err(e) => Err(e),
                        Ok(refs) => Ok(
                            CommandModel::Create {
                                title: title@,
                                body: b,
                                labels: labels@,
                                assignees: assignees@,
                                blocked_by: refs,
                            },
                        ),
                    }
                },
            }
        },
        Commands::View { issue } => with_issue(issue@, |i| CommandModel::View { issue: i }),
        Commands::List { state, labels, assignee, search, limit, all, no_deps } => {
            let l: u32 = match limit {
                Some(l) => l,
                None => 30,
            };
            if all && limit is Some {
                Err(usage("--all and --limit cannot be combined"@))
            } else if l < 1 {
                Err(usage("--limit must be >= 1"@))
            } else if l == u32::MAX {
                Err(usage("--limit is too large"@))
            } else if state@ != "open"@ && state@ != "closed"@ && state@ != "all"@ {
                Err(usage("--state must be open|closed|all, got "@ + debug_text(state@)))
            } else {
                Ok(
                    CommandModel::List {
                        state: if state@ == "open"@ {
                            ListState::Open
                        } else if state@ == "closed"@ {
                            ListState::Closed
                        } else {
                            ListState::All
                        },
                        labels: labels@,
                        assignee: text_opt(assignee),
                        search: text_opt(search),
                        limit: l,
                        all,
                        no_deps,
                    },
                )
            }
        },
        Commands::Comment { issue, body, body_file } => match issue_ref_parse(issue@) {
            Err(e) => Err(e),
            Ok(i) => match read_body_spec(body, body_file) {
                Err(e) => Err(e),
                Ok(b) => Ok(CommandModel::Comment { issue: i, body: b }),
            },
        },
        Commands::Edit { issue, title, body, body_file } => {
            if body is Some && body_file is Some {
                Err(usage("--body and --body-file conflict"@))
            } else {
                let new_body: Result<Option<Seq<char>>, ErrorModel> = match (body, body_file) {
                    (Some(b), _) => Ok(Some(b@)),
                    (None, Some(f)) => match body_file_spec(f) {
                        Ok(b) => Ok(Some(b)),
                        Err(e) => Err(e),
                    },
                    (None, None) => Ok(None),
                };
                match new_body {
                    Err(e) => Err(e),
                    Ok(new_body) => if title is None && new_body is None {
                        Err(usage("edit requires --title and/or --body"@))
                    } else {
                        with_issue(
                            issue@,
                            |i|
                                CommandModel::Edit {
                                    issue: i,
                                    title: text_opt(title),
                                    body: new_body,
                                },
                        )
                    },
                }
            }
        },
        Commands::Label { action: LabelAction::Add { issue, labels } } => if labels@.len() == 0 {
            Err(usage("label add requires at least one label"@))
        } else {
            with_issue(issue@, |i| CommandModel::LabelAdd { issue: i, labels: labels@ })
        },
        Commands::Label { action: LabelAction::Rm { issue, labels } } => if labels@.len() == 0 {
            Err(usage("label rm requires at least one label"@))
        } else {
            with_issue(issue@, |i| CommandModel::LabelRm { issue: i, labels: labels@ })
        },
        Commands::Assign { issue, users } => if users@.len() == 0 {
            Err(usage("assign requires at least one user"@))
        } else {
            with_issue(issue@, |i| CommandModel::Assign { issue: i, users: users@ })
        },
        Commands::Unassign { issue, users } => if users@.len() == 0 {
            Err(usage("unassign requires at least one user"@))
        } else {
            with_issue(issue@, |i| CommandModel::Unassign { issue: i, users: users@ })
        },
        Commands::Close { issue } => with_issue(issue@, |i| CommandModel::Close { issue: i }),
        Commands::Reopen { issue } => with_issue(issue@, |i| CommandModel::Reopen { issue: i }),
        Commands::Dep { action: DepAction::Add { issue, blocked_by } } => match issue_ref_parse(
            issue@,
        ) {
            Err(e) => Err(e),
            Ok(i) => match parse_refs_spec(blocked_by@) {
                Err(e) => Err(e),
                Ok(refs) => Ok(CommandModel::DepAdd { issue: i, blocked_by: refs }),
            },
        },
        Commands::Dep { action: DepAction::Rm { issue, blocked_by } } => match issue_ref_parse(
            issue@,
        ) {
            Err(e) => Err(e),
            Ok(i) => match issue_ref_parse(blocked_by@) {
                Err(e) => Err(e),
                Ok(b) => Ok(CommandModel::DepRm { issue: i, blocked_by: b }),
            },
        },
        Commands::Dep { action: DepAction::List { issue } } => with_issue(
            issue@,
            |i| CommandModel::DepList { issue: i },
        ),
    }
}

pub open spec fn command_result_model(r: Result<Command, FjiError>) -> Result<
    CommandModel,
    ErrorModel,
> {
    match r {
        Ok(c) => Ok(c@),
        Err(e) => Err(e@),
    }
}

/// The issue a command acts on, and the other references it names.
pub open spec fn refs_spec(c: CommandModel) -> (Option<IssueRefModel>, Seq<IssueRefModel>) {
    match c {
        CommandModel::Create { blocked_by, .. } => (None, blocked_by),
        CommandModel::View { issue } => (Some(issue), Seq::empty()),
        CommandModel::Comment { issue, .. } => (Some(issue), Seq::empty()),
        CommandModel::Edit { issue, .. } => (Some(issue), Seq::empty()),
        CommandModel::LabelAdd { issue, .. } => (Some(issue), Seq::empty()),
        CommandModel::LabelRm { issue, .. } => (Some(issue), Seq::empty()),
        CommandModel::Assign { issue, .. } => (Some(issue), Seq::empty()),
        CommandModel::Unassign { issue, .. } => (Some(issue), Seq::empty()),
        CommandModel::Close { issue } => (Some(issue), Seq::empty()),
        CommandModel::Reopen { issue } => (Some(issue), Seq::empty()),
        CommandModel::DepList { issue } => (Some(issue), Seq::empty()),
        CommandModel::DepAdd { issue, blocked_by } => (Some(issue), blocked_by),
        CommandModel::DepRm { issue, blocked_by } => (Some(issue), seq![blocked_by]),
        CommandModel::List { .. } => (None, Seq::empty()),
    }
}

/// `String::from_utf8`: the text the bytes encode, when they are valid UTF-8.
#[verifier::external_body]
fn utf8_text(bytes: Vec<u8>) -> (r: Option<String>)
    ensures
        r is Some <==> valid_utf8(bytes@),
        r matches Some(s) ==> s@ == decode_utf8(bytes@),
{
    String::from_utf8(bytes).ok()
}

fn has_zero_byte(bytes: &Vec<u8>) -> (r: bool)
    ensures
        r == bytes@.contains(0u8),
{
    let mut i: usize = 0;
    while i < bytes.len()
        invariant
            i <= bytes.len(),
            forall|k: int| 0 <= k < i ==> bytes@[k] != 0u8,
        decreases bytes.len() - i,
    {
        if bytes[i] == 0 {
            assert(bytes@[i as int] == 0u8);
            return true;
        }
        i = i + 1;
    }
    false
}

pub open spec fn text_result_model(r: Result<String, FjiError>) -> Result<Seq<char>, ErrorModel> {
    match r {
        Ok(s) => Ok(s@),
        Err(e) => Err(e@),
    }
}

fn usage_err(msg: &str) -> (e: FjiError)
    ensures
        e@ == usage(msg@),
{
    FjiError::usage("usage", owned(msg))
}

/// The text that `--body-file` gave, checked.
pub fn read_body_file(f: BodyFile) -> (r: Result<String, FjiError>)
    ensures
        text_result_model(r) == body_file_spec(f),
{
    match f {
        BodyFile::Stdin(Ok(buf)) => {
            if contains_char(&chars_of(buf.as_str()), '\0') {
                Err(usage_err("stdin body must be text"))
            } else {
                Ok(buf)
            }
        },
        BodyFile::Stdin(Err(e)) => Err(
            FjiError::usage("usage", concat("failed to read stdin: ", e.as_str())),
        ),
        BodyFile::Path { shown, read: Err(e) } => {
            let a = concat("failed to read ", shown.as_str());
            let b = concat(a.as_str(), ": ");
            Err(FjiError::usage("usage", concat(b.as_str(), e.as_str())))
        },
        BodyFile::Path { shown, read: Ok(bytes) } => {
            if has_zero_byte(&bytes) {
                return Err(usage_err("body file must be text"));
            }
            match utf8_text(bytes) {
                Some(s) => Ok(s),
                None => Err(usage_err("body file must be UTF-8 text")),
            }
        },
        BodyFile::Unread => Err(usage_err("--body and --body-file conflict")),
    }
}

/// The body of `create` or `comment`.
pub fn read_body(body: Option<String>, body_file: Option<BodyFile>) -> (r: Result<
    String,
    FjiError,
>)
    ensures
        text_result_model(r) == read_body_spec(body, body_file),
{
    match (body, body_file) {
        (Some(_), Some(_)) => Err(usage_err("--body and --body-file conflict")),
        (None, None) => Err(usage_err("provide --body or --body-file")),
        (Some(b), None) => Ok(b),
        (None, Some(f)) => read_body_file(f),
    }
}

pub open spec fn refs_result_model(r: Result<Vec<IssueRef>, FjiError>) -> Result<
    Seq<IssueRefModel>,
    ErrorModel,
> {
    match r {
        Ok(v) => Ok(ref_models(v@)),
        Err(e) => Err(e@),
    }
}

proof fn lemma_parse_refs_step(values: Seq<String>, i: int, done: Seq<IssueRefModel>)
    requires
        0 <= i < values.len(),
        parse_refs_spec(values) == (match parse_refs_spec(values.skip(i)) {
            Ok(rs) => Ok(done + rs),
            Err(e) => Err(e),
        }),
    ensures
        parse_refs_spec(values) == (match issue_ref_parse(values[i]@) {
            Err(e) => Err(e),
            Ok(r) => match parse_refs_spec(values.skip(i + 1)) {
                Ok(rs) => Ok(done.push(r) + rs),
                Err(e) => Err(e),
            },
        }),
{
    let rest = values.skip(i);
    assert(rest.drop_first() =~= values.skip(i + 1));
    assert(rest[0] == values[i]);
    match issue_ref_parse(values[i]@) {
        Err(e) => {},
        Ok(r) => match parse_refs_spec(values.skip(i + 1)) {
            Ok(rs) => {
                assert(done + (seq![r] + rs) =~= done.push(r) + rs);
            },
            Err(e) => {},
        },
    }
}

/// The references of a list, parsed in order.
pub fn parse_refs(values: &Vec<String>) -> (r: Result<Vec<IssueRef>, FjiError>)
    ensures
        refs_result_model(r) == parse_refs_spec(values@),
{
    let mut out: Vec<IssueRef> = Vec::new();
    let mut i: usize = 0;
    assert(values@.skip(0) =~= values@);
    assert(ref_models(out@) =~= Seq::<IssueRefModel>::empty());
    assert(parse_refs_spec(values@) == (match parse_refs_spec(values@.skip(0)) {
        Ok(rs) => Ok(ref_models(out@) + rs),
        Err(e) => Err(e),
    })) by {
        match parse_refs_spec(values@) {
            Ok(rs) => {
                assert(Seq::<IssueRefModel>::empty() + rs =~= rs);
            },
            Err(e) => {},
        }
    }
    while i < values.len()
        invariant
            i <= values.len(),
            parse_refs_spec(values@) == (match parse_refs_spec(values@.skip(i as int)) {
                Ok(rs) => Ok(ref_models(out@) + rs),
                Err(e) => Err(e),
            }),
        decreases values.len() - i,
    {
        proof {
            lemma_parse_refs_step(values@, i as int, ref_models(out@));
        }
        match IssueRef::parse(values[i].as_str()) {
            Ok(r) => {
                let ghost before = out@;
                out.push(r);
                assert(ref_models(out@) =~= ref_models(before).push(r@));
            },
            Err(e) => {
                return Err(e);
            },
        }
        i = i + 1;
    }
    assert(values@.skip(values@.len() as int) =~= Seq::<String>::empty());
    assert(ref_models(out@) + Seq::<IssueRefModel>::empty() =~= ref_models(out@));
    Ok(out)
}

fn parse_issue(issue: &String) -> (r: Result<IssueRef, FjiError>)
    ensures
        match r {
            Ok(i) => issue_ref_parse(issue@) == Ok::<IssueRefModel, ErrorModel>(i@),
            Err(e) => issue_ref_parse(issue@) == Err::<IssueRefModel, ErrorModel>(e@),
        },
{
    IssueRef::parse(issue.as_str())
}

impl Commands {
    /// Checks the arguments of the command and parses its references.
    pub fn into_command(self) -> (r: Result<Command, FjiError>)
        ensures
            command_result_model(r) == into_command_spec(self),
    {
        let ghost me = self;
        match self {
            Commands::Create { title, body, body_file, labels, assignees, blocked_by } => {
                let body = match read_body(body, body_file) {
                    Ok(b) => b,
                    Err(e) => {
                        return Err(e);
                    },
                };
                if trim_chars(&chars_of(title.as_str())).len() == 0 {
                    return Err(usage_err("--title must not be empty"));
                }
                let refs = match parse_refs(&blocked_by) {
                    Ok(r) => r,
                    Err(e) => {
                        return Err(e);
                    },
                };
                Ok(Command::Create { title, body, labels, assignees, blocked_by: refs })
            },
            Commands::View { issue } => match parse_issue(&issue) {
                Ok(i) => Ok(Command::View { issue: i }),
                Err(e) => Err(e),
            },
            Commands::List { state, labels, assignee, search, limit, all, no_deps } => {
                if all && limit.is_some() {
                    return Err(usage_err("--all and --limit cannot be combined"));
                }
                let limit: u32 = match limit {
                    Some(l) => l,
                    None => 30,
                };
                if limit < 1 {
                    return Err(usage_err("--limit must be >= 1"));
                }
                if limit == u32::MAX {
                    return Err(usage_err("--limit is too large"));
                }
                let sc = chars_of(state.as_str());
                let state = if text_is(&sc, "open") {
                    ListState::Open
                } else if text_is(&sc, "closed") {
                    ListState::Closed
                } else if text_is(&sc, "all") {
                    ListState::All
                } else {
                    let shown = quoted(state.as_str());
                    return Err(
                        FjiError::usage(
                            "usage",
                            concat("--state must be open|closed|all, got ", shown.as_str()),
                        ),
                    );
                };
                Ok(Command::List { state, labels, assignee, search, limit, all, no_deps })
            },
            Commands::Comment { issue, body, body_file } => {
                let i = match parse_issue(&issue) {
                    Ok(i) => i,
                    Err(e) => {
                        return Err(e);
                    },
                };
                match read_body(body, body_file) {
                    Ok(b) => Ok(Command::Comment { issue: i, body: b }),
                    Err(e) => Err(e),
                }
            },
            Commands::Edit { issue, title, body, body_file } => {
                if body.is_some() && body_file.is_some() {
                    return Err(usage_err("--body and --body-file conflict"));
                }
                let new_body = match (body, body_file) {
                    (Some(b), _) => Some(b),
                    (None, Some(f)) => match read_body_file(f) {
                        Ok(b) => Some(b),
                        Err(e) => {
                            return Err(e);
                        },
                    },
                    (None, None) => None,
                };
                if title.is_none() && new_body.is_none() {
                    return Err(usage_err("edit requires --title and/or --body"));
                }
                match parse_issue(&issue) {
                    Ok(i) => Ok(Command::Edit { issue: i, title, body: new_body }),
                    Err(e) => Err(e),
                }
            },
            Commands::Label { action } => match action {
                LabelAction::Add { issue, labels } => {
                    if labels.len() == 0 {
                        return Err(usage_err("label add requires at least one label"));
                    }
                    match parse_issue(&issue) {
                        Ok(i) => Ok(Command::LabelAdd { issue: i, labels }),
                        Err(e) => Err(e),
                    }
                },
                LabelAction::Rm { issue, labels } => {
                    if labels.len() == 0 {
                        return Err(usage_err("label rm requires at least one label"));
                    }
                    match parse_issue(&issue) {
                        Ok(i) => Ok(Command::LabelRm { issue: i, labels }),
                        Err(e) => Err(e),
                    }
                },
            },
            Commands::Assign { issue, users } => {
                if users.len() == 0 {
                    return Err(usage_err("assign requires at least one user"));
                }
                match parse_issue(&issue) {
                    Ok(i) => Ok(Command::Assign { issue: i, users }),
                    Err(e) => Err(e),
                }
            },
            Commands::Unassign { issue, users } => {
                if users.len() == 0 {
                    return Err(usage_err("unassign requires at least one user"));
                }
                match parse_issue(&issue) {
                    Ok(i) => Ok(Command::Unassign { issue: i, users }),
                    Err(e) => Err(e),
                }
            },
            Commands::Close { issue } => match parse_issue(&issue) {
                Ok(i) => Ok(Command::Close { issue: i }),
                Err(e) => Err(e),
            },
            Commands::Reopen { issue } => match parse_issue(&issue) {
                Ok(i) => Ok(Command::Reopen { issue: i }),
                Err(e) => Err(e),
            },
            Commands::Dep { action } => match action {
                DepAction::Add { issue, blocked_by } => {
                    let i = match parse_issue(&issue) {
                        Ok(i) => i,
                        Err(e) => {
                            return Err(e);
                        },
                    };
                    match parse_refs(&blocked_by) {
                        Ok(refs) => Ok(Command::DepAdd { issue: i, blocked_by: refs }),
                        Err(e) => Err(e),
                    }
                },
                DepAction::Rm { issue, blocked_by } => {
                    let i = match parse_issue(&issue) {
                        Ok(i) => i,
                        Err(e) => {
                            return Err(e);
                        },
                    };
                    match parse_issue(&blocked_by) {
                        Ok(b) => Ok(Command::DepRm { issue: i, blocked_by: b }),
                        Err(e) => Err(e),
                    }
                },
                DepAction::List { issue } => match parse_issue(&issue) {
                    Ok(i) => Ok(Command::DepList { issue: i }),
                    Err(e) => Err(e),
                },
            },
        }
    }
}

impl Command {
    /// The issue the command acts on, and the other references it names.
    pub fn refs(&self) -> (r: (Option<IssueRef>, Vec<IssueRef>))
        ensures
            ({
                let (i, extras) = r;
                let (si, sextras) = refs_spec(self@);
                &&& match i {
                    Some(x) => si == Some(x@),
                    None => si is None,
                }
                &&& ref_models(extras@) == sextras
            }),
    {
        match self {
            Command::Create { blocked_by, .. } => (None, copy_refs(blocked_by)),
            Command::View { issue }
            | Command::Comment { issue, .. }
            | Command::Edit { issue, .. }
            | Command::LabelAdd { issue, .. }
            | Command::LabelRm { issue, .. }
            | Command::Assign { issue, .. }
            | Command::Unassign { issue, .. }
            | Command::Close { issue }
            | Command::Reopen { issue }
            | Command::DepList { issue } => {
                let v: Vec<IssueRef> = Vec::new();
                assert(ref_models(v@) =~= Seq::<IssueRefModel>::empty());
                (Some(issue.duplicate()), v)
            },
            Command::DepAdd { issue, blocked_by } => (
                Some(issue.duplicate()),
                copy_refs(blocked_by),
            ),
            Command::DepRm { issue, blocked_by } => {
                let mut v: Vec<IssueRef> = Vec::new();
                v.push(blocked_by.duplicate());
                assert(ref_models(v@) =~= seq![blocked_by@]);
                (Some(issue.duplicate()), v)
            },
            Command::List { .. } => {
                let v: Vec<IssueRef> = Vec::new();
                assert(ref_models(v@) =~= Seq::<IssueRefModel>::empty());
                (None, v)
            },
        }
    }
}

/// A copy of a list of references.
pub fn copy_refs(v: &Vec<IssueRef>) -> (r: Vec<IssueRef>)
    ensures
        ref_models(r@) == ref_models(v@),
{
    let mut r: Vec<IssueRef> = Vec::new();
    let mut i: usize = 0;
    while i < v.len()
        invariant
            i <= v.len(),
            ref_models(r@) == ref_models(v@.take(i as int)),
        decreases v.len() - i,
    {
        let ghost before = r@;
        r.push(v[i].duplicate());
        i = i + 1;
        assert(ref_models(r@) =~= ref_models(before).push(v@[i - 1]@));
        assert(v@.take(i as int) =~= v@.take(i - 1).push(v@[i - 1]));
        assert(ref_models(v@.take(i as int)) =~= ref_models(v@.take(i - 1)).push(v@[i - 1]@));
    }
    assert(v@.take(v@.len() as int) =~= v@);
    r
}

} // verus!
