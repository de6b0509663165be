//! Issue references, repository names, host and origin parsing, and the
//! resolution of host, repository and token before any request is made.
use crate::error::{usage_model, ErrorModel, FjiError};
use crate::text::{
    chars_of, concat, contains_char, contains_text, debug_text, decimal_text, has_char, has_text,
    number_text, owned, parse_i64, parse_i64_chars, parse_u64, parse_u64_chars, quoted, slice_chars, split_first,
    split_first_chars, split_last, split_last_chars, string_of, strip_prefix, strip_prefix_chars,
    strip_suffix, strip_suffix_chars, text_is, trim, trim_chars, trim_end_by, trim_end_chars,
    trim_start_by, trim_start_chars, Strip,
};
use std::path::PathBuf;
use url::Url;
use vstd::prelude::*;

verus! {

// ---------------------------------------------------------------------------
// Repository names and issue references
// ---------------------------------------------------------------------------

/// A repository, `owner/name`.
#[derive(Debug, Clone, PartialEq, Eq)]
pub struct RepoName {
    pub owner: String,
    pub name: String,
}

/// The abstract value of a [`RepoName`].
pub struct RepoModel {
    pub owner: Seq<char>,
    pub name: Seq<char>,
}

impl View for RepoName {
    type V = RepoModel;

    open spec fn view(&self) -> RepoModel {
        RepoModel { owner: self.owner@, name: self.name@ }
    }
}

/// A reference to an issue: `N`, `#N` or `owner/repo#N`.
#[derive(Debug, Clone, PartialEq, Eq)]
pub struct IssueRef {
    pub repo: Option<RepoName>,
    pub number: i64,
}

/// The abstract value of an [`IssueRef`].
pub struct IssueRefModel {
    pub repo: Option<RepoModel>,
    pub number: i64,
}

pub open spec fn opt_repo_model(r: Option<RepoName>) -> Option<RepoModel> {
    match r {
        Some(n) => Some(n@),
        None => None,
    }
}

impl View for IssueRef {
    type V = IssueRefModel;

    open spec fn view(&self) -> IssueRefModel {
        IssueRefModel { repo: opt_repo_model(self.repo), number: self.number }
    }
}

/// `owner/name`, as the repository is displayed.
pub open spec fn full_name(r: RepoModel) -> Seq<char> {
    r.owner + "/"@ + r.name
}

/// The text without its leading and trailing slashes.
pub open spec fn strip_slashes(s: Seq<char>) -> Seq<char> {
    trim_end_by(trim_start_by(s, Strip::Char('/')), Strip::Char('/'))
}

pub open spec fn repo_shape_error(t: Seq<char>) -> ErrorModel {
    usage_model("usage"@, "repo must be owner/repo, got "@ + debug_text(t))
}

/// What `RepoName::parse` gives for a text: exactly one slash between a
/// non-empty owner and a non-empty name (after trimming white space and outer
/// slashes), and no URL (`://` or `@`).
pub open spec fn repo_parse(s: Seq<char>) -> Result<RepoModel, ErrorModel> {
    let t = strip_slashes(trim(s));
    match split_first(t, '/') {
        None => Err(repo_shape_error(t)),
        Some((owner, name)) => {
            if owner.len() == 0 || name.len() == 0 || has_char(name, '/') {
                Err(repo_shape_error(t))
            } else if has_text(t, "://"@) || has_char(t, '@') {
                Err(usage_model("usage"@, "-R accepts owner/repo, not a URL"@))
            } else {
                Ok(RepoModel { owner, name })
            }
        },
    }
}

/// What `IssueRef::parse` gives for a text: an optional `owner/repo` before
/// the last `#`, then a positive decimal issue number.
pub open spec fn issue_ref_parse(s: Seq<char>) -> Result<IssueRefModel, ErrorModel> {
    let t = trim(s);
    let (repo, digits): (Result<Option<RepoModel>, ErrorModel>, Seq<char>) = match split_last(
        t,
        '#',
    ) {
        Some((r, n)) => if r.len() > 0 {
            (
                match repo_parse(r) {
                    Ok(m) => Ok(Some(m)),
                    Err(e) => Err(e),
                },
                n,
            )
        } else {
            (Ok(None), n)
        },
        None => (Ok(None), t),
    };
    match repo {
        Err(e) => Err(e),
        Ok(repo) => match parse_i64(trim(digits)) {
            None => Err(usage_model("usage"@, "invalid issue number in "@ + debug_text(t))),
            Some(n) => if n <= 0 {
                Err(
                    usage_model(
                        "usage"@,
                        "issue number must be positive, got "@ + decimal_text(n),
                    ),
                )
            } else {
                Ok(IssueRefModel { repo, number: n })
            },
        },
    }
}

pub open spec fn repo_result_model(r: Result<RepoName, FjiError>) -> Result<RepoModel, ErrorModel> {
    match r {
        Ok(n) => Ok(n@),
        Err(e) => Err(e@),
    }
}

pub open spec fn issue_result_model(r: Result<IssueRef, FjiError>) -> Result<
    IssueRefModel,
    ErrorModel,
> {
    match r {
        Ok(n) => Ok(n@),
        Err(e) => Err(e@),
    }
}

fn repo_shape_err(t: &Vec<char>) -> (e: FjiError)
    ensures
        e@ == repo_shape_error(t@),
{
    let shown = quoted(string_of(t).as_str());
    FjiError::usage("usage", concat("repo must be owner/repo, got ", shown.as_str()))
}

/// The trimmed text without its outer slashes.
fn strip_slashes_chars(s: &Vec<char>) -> (r: Vec<char>)
    ensures
        r@ == strip_slashes(s@),
{
    let a = trim_start_chars(s, Strip::Char('/'));
    trim_end_chars(&a, Strip::Char('/'))
}

impl RepoName {
    /// Parses `owner/repo`.
    pub fn parse(s: &str) -> (r: Result<RepoName, FjiError>)
        ensures
            repo_result_model(r) == repo_parse(s@),
    {
        let t = strip_slashes_chars(&trim_chars(&chars_of(s)));
        Self::parse_trimmed(&t)
    }

    fn parse_trimmed(t: &Vec<char>) -> (r: Result<RepoName, FjiError>)
        ensures
            match split_first(t@, '/') {
                None => r is Err && r->Err_0@ == repo_shape_error(t@),
                Some((owner, name)) => {
                    if owner.len() == 0 || name.len() == 0 || has_char(name, '/') {
                        r is Err && r->Err_0@ == repo_shape_error(t@)
                    } else if has_text(t@, "://"@) || has_char(t@, '@') {
                        r is Err && r->Err_0@ == usage_model(
                            "usage"@,
                            "-R accepts owner/repo, not a URL"@,
                        )
                    } else {
                        r is Ok && r->Ok_0@ == RepoModel { owner, name }
                    }
                },
            },
    {
        match split_first_chars(t, '/') {
            None => Err(repo_shape_err(t)),
            Some((owner, name)) => {
                if owner.len() == 0 || name.len() == 0 || contains_char(&name, '/') {
                    return Err(repo_shape_err(t));
                }
                if contains_text(t, &chars_of("://")) || contains_char(t, '@') {
                    return Err(
                        FjiError::usage("usage", owned("-R accepts owner/repo, not a URL")),
                    );
                }
                Ok(RepoName { owner: string_of(&owner), name: string_of(&name) })
            },
        }
    }

    /// The owner and the name.
    pub fn as_pair(&self) -> (r: (&str, &str))
        ensures
            r.0@ == self.owner@,
            r.1@ == self.name@,
    {
        (self.owner.as_str(), self.name.as_str())
    }

    /// `owner/name`.
    pub fn to_string(&self) -> (r: String)
        ensures
            r@ == full_name(self@),
    {
        let a = concat(self.owner.as_str(), "/");
        concat(a.as_str(), self.name.as_str())
    }

    /// A copy with the same owner and name.
    pub fn duplicate(&self) -> (r: RepoName)
        ensures
            r@ == self@,
    {
        RepoName { owner: self.owner.clone(), name: self.name.clone() }
    }

    /// Whether two repositories are the same.
    pub fn same_as(&self, other: &RepoName) -> (r: bool)
        ensures
            r == (self@ == other@),
    {
        let a = self.owner == other.owner;
        let b = self.name == other.name;
        a && b
    }
}

impl IssueRef {
    /// Parses `N`, `#N` or `owner/repo#N`.
    pub fn parse(s: &str) -> (r: Result<IssueRef, FjiError>)
        ensures
            issue_result_model(r) == issue_ref_parse(s@),
    {
        let t = trim_chars(&chars_of(s));
        let (repo, digits) = match split_last_chars(&t, '#') {
            Some((r, n)) => {
                if r.len() > 0 {
                    let rs = string_of(&r);
                    match RepoName::parse(rs.as_str()) {
                        Ok(m) => (Some(m), n),
                        Err(e) => {
                            return Err(e);
                        },
                    }
                } else {
                    (None, n)
                }
            },
            None => (None, slice_chars(&t, 0, t.len())),
        };
        assert(t@.subrange(0, t@.len() as int) =~= t@);
        match parse_i64_chars(&trim_chars(&digits)) {
            None => {
                let shown = quoted(string_of(&t).as_str());
                Err(FjiError::usage("usage", concat("invalid issue number in ", shown.as_str())))
            },
            Some(n) => {
                if n <= 0 {
                    let shown = number_text(n);
                    Err(
                        FjiError::usage(
                            "usage",
                            concat("issue number must be positive, got ", shown.as_str()),
                        ),
                    )
                } else {
                    Ok(IssueRef { repo, number: n })
                }
            },
        }
    }

    /// A copy with the same repository and number.
    pub fn duplicate(&self) -> (r: IssueRef)
        ensures
            r@ == self@,
    {
        IssueRef {
            repo: match &self.repo {
                Some(n) => Some(n.duplicate()),
                None => None,
            },
            number: self.number,
        }
    }
}

// ---------------------------------------------------------------------------
// URLs
// ---------------------------------------------------------------------------

#[verifier::external_type_specification]
#[verifier::external_body]
pub struct ExUrl(Url);

/// What the tool reads of a parsed URL: its serialization, scheme, host and
/// path.
pub struct UrlParts {
    pub text: Seq<char>,
    pub scheme: Seq<char>,
    pub host: Option<Seq<char>>,
    pub path: Seq<char>,
}

/// The URL that `url::Url::parse` makes of a text (WHATWG URL parsing), with
/// what its `as_str`, `scheme`, `host_str` and `path` give; `None` where the
/// text does not parse.
pub uninterp spec fn url_parse(input: Seq<char>) -> Option<UrlParts>;

/// A parsed URL, with the parts of it that the tool reads.
#[derive(Debug)]
pub struct WebUrl {
    url: Url,
    text: String,
    scheme: String,
    host: Option<String>,
    path: String,
}

impl View for WebUrl {
    type V = UrlParts;

    closed spec fn view(&self) -> UrlParts {
        UrlParts {
            text: self.text@,
            scheme: self.scheme@,
            host: match self.host {
                Some(h) => Some(h@),
                None => None,
            },
            path: self.path@,
        }
    }
}

/// `url::Url::parse`, then `as_str`, `scheme`, `host_str` and `path` of the
/// result. Claimed: the parts are those that `url_parse` names for the input,
/// and `None` comes exactly where it names none.
#[verifier::external_body]
fn parse_url(input: &str) -> (r: Option<WebUrl>)
    ensures
        match r {
            Some(u) => url_parse(input@) == Some(u@),
            None => url_parse(input@) is None,
        },
{
    match Url::parse(input) {
        Ok(url) => Some(
            WebUrl {
                text: url.as_str().to_string(),
                scheme: url.scheme().to_string(),
                host: match url.host_str() {
                    Some(h) => Some(h.to_string()),
                    None => None,
                },
                path: url.path().to_string(),
                url,
            },
        ),
        Err(_) => None,
    }
}

impl WebUrl {
    /// The serialization of the URL.
    pub fn as_str(&self) -> (r: &str)
        ensures
            r@ == self@.text,
    {
        self.text.as_str()
    }

    /// The scheme of the URL.
    pub fn scheme(&self) -> (r: &str)
        ensures
            r@ == self@.scheme,
    {
        self.scheme.as_str()
    }

    /// The host of the URL, if it has one.
    pub fn host_str(&self) -> (r: Option<&str>)
        ensures
            match r {
                Some(h) => self@.host == Some(h@),
                None => self@.host is None,
            },
    {
        match &self.host {
            Some(h) => Some(h.as_str()),
            None => None,
        }
    }

    /// The path of the URL.
    pub fn path(&self) -> (r: &str)
        ensures
            r@ == self@.path,
    {
        self.path.as_str()
    }

    /// The `url::Url` value that this URL was parsed into.
    pub closed spec fn parsed(&self) -> Url {
        self.url
    }

    /// The parsed URL itself.
    pub fn url(&self) -> (r: &Url)
        ensures
            *r == self.parsed(),
    {
        &self.url
    }
}

// ---------------------------------------------------------------------------
// Hosts and git origins
// ---------------------------------------------------------------------------

/// The URL text that a host flag stands for: trimmed, without trailing
/// slashes, with `https://` put in front when it names no scheme.
pub open spec fn host_input(raw: Seq<char>) -> Seq<char> {
    let t = trim_end_by(trim(raw), Strip::Char('/'));
    if has_text(t, "://"@) {
        t
    } else {
        "https://"@ + t
    }
}

/// Whether a URL's host is a loopback one: `127.0.0.1`, `::1` (which a URL
/// writes in brackets) or `localhost`.
pub open spec fn is_loopback_host(h: Option<Seq<char>>) -> bool {
    h == Some("127.0.0.1"@) || h == Some("[::1]"@) || h == Some("localhost"@)
}

/// What `normalize_host` gives: the parsed URL of the host, which must have
/// no path and use HTTPS (or HTTP when allowed, or on a loopback host).
pub open spec fn normalize_host_spec(raw: Seq<char>, allow_http: bool) -> Result<
    UrlParts,
    ErrorModel,
> {
    match url_parse(host_input(raw)) {
        None => Err(usage_model("usage"@, "invalid host "@ + debug_text(raw))),
        Some(u) => if u.path != "/"@ && u.path.len() != 0 {
            Err(usage_model("usage"@, "host must not include a path"@))
        } else if u.scheme == "https"@ {
            Ok(u)
        } else if u.scheme == "http"@ {
            if allow_http || is_loopback_host(u.host) {
                Ok(u)
            } else {
                Err(
                    usage_model(
                        "usage"@,
                        "authenticated requests require HTTPS (loopback HTTP is allowed for tests)"@,
                    ),
                )
            }
        } else {
            Err(usage_model("usage"@, "unsupported host scheme "@ + u.scheme))
        },
    }
}

pub open spec fn url_result_model(r: Result<WebUrl, FjiError>) -> Result<UrlParts, ErrorModel> {
    match r {
        Ok(u) => Ok(u@),
        Err(e) => Err(e@),
    }
}

fn is_loopback(u: &WebUrl) -> (r: bool)
    ensures
        r == is_loopback_host(u@.host),
{
    match u.host_str() {
        Some(h) => {
            let c = chars_of(h);
            text_is(&c, "127.0.0.1") || text_is(&c, "[::1]") || text_is(&c, "localhost")
        },
        None => false,
    }
}

/// Turns a host flag into the URL that requests go to.
pub fn normalize_host(raw: &str, allow_http: bool) -> (r: Result<WebUrl, FjiError>)
    ensures
        url_result_model(r) == normalize_host_spec(raw@, allow_http),
{
    let t = trim_end_chars(&trim_chars(&chars_of(raw)), Strip::Char('/'));
    let with_scheme = if contains_text(&t, &chars_of("://")) {
        string_of(&t)
    } else {
        let ts = string_of(&t);
        concat("https://", ts.as_str())
    };
    let url = match parse_url(with_scheme.as_str()) {
        Some(u) => u,
        None => {
            let shown = quoted(raw);
            return Err(FjiError::usage("usage", concat("invalid host ", shown.as_str())));
        },
    };
    let path = chars_of(url.path());
    if !text_is(&path, "/") && path.len() != 0 {
        return Err(FjiError::usage("usage", owned("host must not include a path")));
    }
    let scheme = chars_of(url.scheme());
    if text_is(&scheme, "https") {
        Ok(url)
    } else if text_is(&scheme, "http") {
        if allow_http || is_loopback(&url) {
            Ok(url)
        } else {
            Err(
                FjiError::usage(
                    "usage",
                    owned(
                        "authenticated requests require HTTPS (loopback HTTP is allowed for tests)",
                    ),
                ),
            )
        }
    } else {
        Err(FjiError::usage("usage", concat("unsupported host scheme ", url.scheme())))
    }
}

/// The repository of a URL path: outer slashes and a `.git` suffix removed.
pub open spec fn repo_from_path_spec(path: Seq<char>) -> Result<RepoModel, ErrorModel> {
    let p = strip_slashes(path);
    let p = match strip_suffix(p, ".git"@) {
        Some(q) => q,
        None => p,
    };
    repo_parse(p)
}

/// What `parse_origin` gives: the host and repository of a git remote URL,
/// either `git@host:owner/repo(.git)` or a URL with a host.
pub open spec fn parse_origin_spec(url: Seq<char>) -> Result<(Seq<char>, RepoModel), ErrorModel> {
    let u = trim(url);
    let unparsed = usage_model("usage"@, "could not parse git origin "@ + debug_text(u));
    match strip_prefix(u, "git@"@) {
        Some(rest) => match split_first(rest, ':') {
            None => Err(unparsed),
            Some((host, path)) => match repo_from_path_spec(path) {
                Ok(r) => Ok((host, r)),
                Err(e) => Err(e),
            },
        },
        None => match url_parse(u) {
            None => Err(unparsed),
            Some(p) => match p.host {
                None => Err(usage_model("usage"@, "origin has no host: "@ + debug_text(u))),
                Some(h) => match repo_from_path_spec(p.path) {
                    Ok(r) => Ok((h, r)),
                    Err(e) => Err(e),
                },
            },
        },
    }
}

pub open spec fn origin_result_model(r: Result<(String, RepoName), FjiError>) -> Result<
    (Seq<char>, RepoModel),
    ErrorModel,
> {
    match r {
        Ok((h, n)) => Ok((h@, n@)),
        Err(e) => Err(e@),
    }
}

fn repo_from_path(path: &Vec<char>) -> (r: Result<RepoName, FjiError>)
    ensures
        repo_result_model(r) == repo_from_path_spec(path@),
{
    let p = strip_slashes_chars(path);
    let p = match strip_suffix_chars(&p, &chars_of(".git")) {
        Some(q) => q,
        None => p,
    };
    let ps = string_of(&p);
    RepoName::parse(ps.as_str())
}

/// Parses a git remote URL into its host and repository.
pub fn parse_origin(url: &str) -> (r: Result<(String, RepoName), FjiError>)
    ensures
        origin_result_model(r) == parse_origin_spec(url@),
{
    let u = trim_chars(&chars_of(url));
    let us = string_of(&u);
    match strip_prefix_chars(&u, &chars_of("git@")) {
        Some(rest) => match split_first_chars(&rest, ':') {
            None => {
                let shown = quoted(us.as_str());
                Err(FjiError::usage("usage", concat("could not parse git origin ", shown.as_str())))
            },
            Some((host, path)) => match repo_from_path(&path) {
                Ok(r) => Ok((string_of(&host), r)),
                Err(e) => Err(e),
            },
        },
        None => match parse_url(us.as_str()) {
            None => {
                let shown = quoted(us.as_str());
                Err(FjiError::usage("usage", concat("could not parse git origin ", shown.as_str())))
            },
            Some(p) => match p.host_str() {
                None => {
                    let shown = quoted(us.as_str());
                    Err(FjiError::usage("usage", concat("origin has no host: ", shown.as_str())))
                },
                Some(h) => match repo_from_path(&chars_of(p.path())) {
                    Ok(r) => Ok((owned(h), r)),
                    Err(e) => Err(e),
                },
            },
        },
    }
}


// ---------------------------------------------------------------------------
// Resolution of host, repository and token
// ---------------------------------------------------------------------------

#[verifier::external_type_specification]
#[verifier::external_body]
pub struct ExPathBuf(PathBuf);

/// `PathBuf::clone`. Nothing is claimed of the copy.
pub assume_specification[ <PathBuf as Clone>::clone ](p: &PathBuf) -> PathBuf;


/// `PathBuf::from(".")`: the current directory, as a relative path.
#[verifier::external_body]
fn current_dir_path() -> PathBuf {
    PathBuf::from(".")
}

/// The deadline of one request unless `FJI_TIMEOUT_MS` sets another, in
/// milliseconds.
pub const DEFAULT_TIMEOUT_MS: u64 = 30000;

/// What the command line and the environment give before resolution.
#[derive(Debug, Clone)]
pub struct Context {
    /// `-H` or `FJI_HOST`.
    pub host: Option<String>,
    /// `-R` or `FJI_REPO`.
    pub repo: Option<String>,
    /// The directory whose git origin is read when host or repository is missing.
    pub cwd: PathBuf,
    /// `FJI_TOKEN` or `FORGEJO_TOKEN`.
    pub token: Option<String>,
    /// The URL of the git origin, once it has been read.
    pub git_origin: Option<String>,
    /// Whether plain HTTP is allowed for any host.
    pub allow_http: bool,
    /// The deadline of each request, in milliseconds.
    pub timeout_ms: u64,
}

impl Default for Context {
    fn default() -> (r: Context)
        ensures
            r.host is None,
            r.repo is None,
            r.token is None,
            r.git_origin is None,
            !r.allow_http,
            r.timeout_ms == DEFAULT_TIMEOUT_MS,
    {
        Context {
            host: None,
            repo: None,
            cwd: current_dir_path(),
            token: None,
            git_origin: None,
            allow_http: false,
            timeout_ms: DEFAULT_TIMEOUT_MS,
        }
    }
}

/// The first of two sources that gives a value.
pub open spec fn first_given(first: Option<String>, second: Option<String>) -> Option<String> {
    match first {
        Some(v) => Some(v),
        None => second,
    }
}

/// The deadline that `FJI_TIMEOUT_MS` sets: its trimmed text read as a
/// whole number of milliseconds, else the default.
pub open spec fn timeout_spec(text: Option<String>) -> u64 {
    match text {
        Some(t) => match parse_u64(trim(t@)) {
            Some(ms) => ms,
            None => DEFAULT_TIMEOUT_MS,
        },
        None => DEFAULT_TIMEOUT_MS,
    }
}

impl Context {
    /// The context from the flags and the values of the environment: a flag
    /// wins over its variable (`FJI_HOST`, `FJI_REPO`), `FJI_TOKEN` over
    /// `FORGEJO_TOKEN`, and `FJI_TIMEOUT_MS` sets the deadline when it holds
    /// a whole number of milliseconds. The origin is not read yet, and plain
    /// HTTP is allowed only on loopback hosts.
    pub fn from_sources(
        host_flag: Option<String>,
        host_env: Option<String>,
        repo_flag: Option<String>,
        repo_env: Option<String>,
        cwd: PathBuf,
        fji_token: Option<String>,
        forgejo_token: Option<String>,
        timeout_env: Option<String>,
    ) -> (r: Context)
        ensures
            r.host == first_given(host_flag, host_env),
            r.repo == first_given(repo_flag, repo_env),
            r.cwd == cwd,
            r.token == first_given(fji_token, forgejo_token),
            r.git_origin is None,
            !r.allow_http,
            r.timeout_ms == timeout_spec(timeout_env),
    {
        let timeout_ms = match &timeout_env {
            Some(t) => match parse_u64_chars(&trim_chars(&chars_of(t.as_str()))) {
                Some(ms) => ms,
                None => DEFAULT_TIMEOUT_MS,
            },
            None => DEFAULT_TIMEOUT_MS,
        };
        Context {
            host: match host_flag {
                Some(h) => Some(h),
                None => host_env,
            },
            repo: match repo_flag {
                Some(r) => Some(r),
                None => repo_env,
            },
            cwd,
            token: match fji_token {
                Some(t) => Some(t),
                None => forgejo_token,
            },
            git_origin: None,
            allow_http: false,
            timeout_ms,
        }
    }
}

/// The host URL, repository and token that requests use.
#[derive(Debug)]
pub struct Resolved {
    pub host_url: WebUrl,
    pub repo: RepoName,
    pub token: String,
}

/// The abstract value of a [`Resolved`].
pub struct ResolvedModel {
    pub host_url: UrlParts,
    pub repo: RepoModel,
    pub token: Seq<char>,
}

impl View for Resolved {
    type V = ResolvedModel;

    open spec fn view(&self) -> ResolvedModel {
        ResolvedModel { host_url: self.host_url@, repo: self.repo@, token: self.token@ }
    }
}

/// The repository of `-R`, parsed, if given.
pub open spec fn flag_repo_spec(ctx: Context) -> Result<Option<RepoModel>, ErrorModel> {
    match ctx.repo {
        Some(s) => match repo_parse(s@) {
            Ok(r) => Ok(Some(r)),
            Err(e) => Err(e),
        },
        None => Ok(None),
    }
}

/// The repository that the references name, scanning `refs` from the left
/// and starting from `current`; `None` when two of them name different
/// repositories.
pub open spec fn scan_repos(current: Option<RepoModel>, refs: Seq<IssueRefModel>) -> Option<
    Option<RepoModel>,
>
    decreases refs.len(),
{
    if refs.len() == 0 {
        Some(current)
    } else {
        let rest = refs.drop_first();
        match refs[0].repo {
            None => scan_repos(current, rest),
            Some(r) => match current {
                Some(e) => if e != r {
                    None
                } else {
                    scan_repos(current, rest)
                },
                None => scan_repos(Some(r), rest),
            },
        }
    }
}

pub open spec fn issue_repo(issue: Option<IssueRefModel>) -> Option<RepoModel> {
    match issue {
        Some(i) => i.repo,
        None => None,
    }
}

/// The repository the issue lives in as far as it is known before the
/// origin is read: the one its reference names, else the one of `-R`.
/// Every repository a dependency reference names must be this one.
pub open spec fn dep_anchor(issue: Option<IssueRefModel>, flag: Option<RepoModel>) -> Option<
    RepoModel,
> {
    match issue_repo(issue) {
        Some(r) => Some(r),
        None => flag,
    }
}

/// Whether the git origin is consulted: when no host is given, or when no
/// repository comes from `-R` or a reference.
pub open spec fn origin_wanted(
    ctx: Context,
    flag: Option<RepoModel>,
    spec_repo: Option<RepoModel>,
) -> bool {
    ctx.host is None || (flag is None && spec_repo is None)
}

/// The repositories resolution settles on before the origin is read: the
/// flag repository and the references' repository (the issue's, else the
/// flag's, else the one the dependency references name), or the error of
/// either. A dependency reference naming another repository than the
/// issue's, `-R` included, is `cross_repo_dep`; only then is a qualified
/// issue held against `-R`.
pub open spec fn repos_spec(
    ctx: Context,
    issue: Option<IssueRefModel>,
    extras: Seq<IssueRefModel>,
) -> Result<(Option<RepoModel>, Option<RepoModel>), ErrorModel> {
    match flag_repo_spec(ctx) {
        Err(e) => Err(e),
        Ok(flag) => match scan_repos(dep_anchor(issue, flag), extras) {
            None => Err(
                usage_model("cross_repo_dep"@, "v1 does not support cross-repo dependencies"@),
            ),
            Some(spec_repo) => match (flag, spec_repo) {
                (Some(f), Some(r)) => if f != r {
                    Err(
                        usage_model(
                            "repo_conflict"@,
                            "-R "@ + full_name(f) + " disagrees with issue reference "@
                                + full_name(r),
                        ),
                    )
                } else {
                    Ok((flag, spec_repo))
                },
                _ => Ok((flag, spec_repo)),
            },
        },
    }
}

/// What `resolve` gives. Repository: the references' repository, else
/// `-R`, else the origin's. Host: `-H`, else the origin's. Token: the
/// non-empty token.
pub open spec fn resolve_spec(
    ctx: Context,
    issue: Option<IssueRefModel>,
    extras: Seq<IssueRefModel>,
) -> Result<ResolvedModel, ErrorModel> {
    match repos_spec(ctx, issue, extras) {
        Err(e) => Err(e),
        Ok((flag, spec_repo)) => {
            let origin: Result<Option<(Seq<char>, RepoModel)>, ErrorModel> = if origin_wanted(
                ctx,
                flag,
                spec_repo,
            ) {
                match ctx.git_origin {
                    Some(o) => match parse_origin_spec(o@) {
                        Ok(p) => Ok(Some(p)),
                        Err(e) => Err(e),
                    },
                    None => Ok(None),
                }
            } else {
                Ok(None)
            };
            match origin {
                Err(e) => Err(e),
                Ok(origin) => {
                    let repo: Option<RepoModel> = match spec_repo {
                        Some(r) => Some(r),
                        None => match flag {
                            Some(r) => Some(r),
                            None => match origin {
                                Some((_, r)) => Some(r),
                                None => None,
                            },
                        },
                    };
                    let host: Option<Seq<char>> = match ctx.host {
                        Some(h) => Some(h@),
                        None => match origin {
                            Some((h, _)) => Some(h),
                            None => None,
                        },
                    };
                    match repo {
                        None => Err(
                            usage_model(
                                "no_repo"@,
                                "pass -R owner/repo or owner/repo#N, or run inside a git checkout with origin"@,
                            ),
                        ),
                        Some(repo) => match host {
                            None => Err(
                                usage_model(
                                    "no_host"@,
                                    "pass -H host or run inside a git checkout with origin"@,
                                ),
                            ),
                            Some(host) => match normalize_host_spec(host, ctx.allow_http) {
                                Err(e) => Err(e),
                                Ok(u) => match ctx.token {
                                    Some(t) => if t@.len() > 0 {
                                        Ok(ResolvedModel { host_url: u, repo, token: t@ })
                                    } else {
                                        Err(no_token_model())
                                    },
                                    None => Err(no_token_model()),
                                },
                            },
                        },
                    }
                },
            }
        },
    }
}

pub open spec fn no_token_model() -> ErrorModel {
    usage_model("no_token"@, "set FJI_TOKEN or FORGEJO_TOKEN to a Forgejo application token"@)
}

pub open spec fn refs_model(refs: Seq<IssueRef>) -> Seq<IssueRefModel> {
    refs.map_values(|r: IssueRef| r@)
}

pub open spec fn opt_ref_model(r: Option<&IssueRef>) -> Option<IssueRefModel> {
    match r {
        Some(i) => Some(i@),
        None => None,
    }
}

pub open spec fn resolved_result_model(r: Result<Resolved, FjiError>) -> Result<
    ResolvedModel,
    ErrorModel,
> {
    match r {
        Ok(v) => Ok(v@),
        Err(e) => Err(e@),
    }
}

fn scan_repos_exec(start: Option<RepoName>, extras: &[IssueRef]) -> (r: Option<Option<RepoName>>)
    ensures
        match r {
            Some(Some(n)) => scan_repos(opt_repo_model(start), refs_model(extras@)) == Some(
                Some(n@),
            ),
            Some(None) => scan_repos(opt_repo_model(start), refs_model(extras@)) == Some(
                None::<RepoModel>,
            ),
            None => scan_repos(opt_repo_model(start), refs_model(extras@)) is None,
        },
{
    let ghost start_model = opt_repo_model(start);
    let mut current: Option<RepoName> = start;
    let ghost all = refs_model(extras@);
    assert(all.skip(0) =~= all);
    assert(opt_repo_model(current) == start_model);
    let mut i: usize = 0;
    while i < extras.len()
        invariant
            i <= extras.len(),
            all == refs_model(extras@),
            start_model == opt_repo_model(start),
            scan_repos(start_model, all) == scan_repos(
                opt_repo_model(current),
                all.skip(i as int),
            ),
        decreases extras.len() - i,
    {
        let ghost rest = all.skip(i as int);
        assert(rest.drop_first() =~= all.skip(i + 1));
        assert(rest[0] == extras@[i as int]@);
        match &extras[i].repo {
            None => {},
            Some(r) => {
                match &current {
                    Some(e) => {
                        if !e.same_as(r) {
                            assert(rest[0].repo == Some(r@));
                            assert(scan_repos(opt_repo_model(current), rest) is None);
                            return None;
                        }
                    },
                    None => {
                        current = Some(r.duplicate());
                    },
                }
            },
        }
        i = i + 1;
    }
    assert(all.skip(extras.len() as int) =~= Seq::<IssueRefModel>::empty());
    Some(current)
}

/// The flag repository and the references' repository, checked against
/// each other.
fn resolve_repos(ctx: &Context, issue: Option<&IssueRef>, extras: &[IssueRef]) -> (r: Result<
    (Option<RepoName>, Option<RepoName>),
    FjiError,
>)
    ensures
        match r {
            Ok((f, s)) => repos_spec(*ctx, opt_ref_model(issue), refs_model(extras@)) == Ok::<
                (Option<RepoModel>, Option<RepoModel>),
                ErrorModel,
            >((opt_repo_model(f), opt_repo_model(s))),
            Err(e) => repos_spec(*ctx, opt_ref_model(issue), refs_model(extras@)) == Err::<
                (Option<RepoModel>, Option<RepoModel>),
                ErrorModel,
            >(e@),
        },
{
    let flag = match &ctx.repo {
        Some(s) => match RepoName::parse(s.as_str()) {
            Ok(r) => Some(r),
            Err(e) => {
                return Err(e);
            },
        },
        None => None,
    };
    let anchor: Option<RepoName> = match issue {
        Some(i) => match &i.repo {
            Some(n) => Some(n.duplicate()),
            None => match &flag {
                Some(f) => Some(f.duplicate()),
                None => None,
            },
        },
        None => match &flag {
            Some(f) => Some(f.duplicate()),
            None => None,
        },
    };
    let spec_repo = match scan_repos_exec(anchor, extras) {
        Some(r) => r,
        None => {
            return Err(
                FjiError::usage("cross_repo_dep", owned("v1 does not support cross-repo dependencies")),
            );
        },
    };
    if let (Some(f), Some(s)) = (&flag, &spec_repo) {
        if !f.same_as(s) {
            let a = concat("-R ", f.to_string().as_str());
            let b = concat(a.as_str(), " disagrees with issue reference ");
            let c = concat(b.as_str(), s.to_string().as_str());
            return Err(FjiError::usage("repo_conflict", c));
        }
    }
    Ok((flag, spec_repo))
}

/// Whether `resolve` reads the git origin for these arguments: when it gets
/// past the repository checks with no host given, or with no repository from
/// `-R` or a reference.
pub open spec fn origin_needed_spec(
    ctx: Context,
    issue: Option<IssueRefModel>,
    extras: Seq<IssueRefModel>,
) -> bool {
    match repos_spec(ctx, issue, extras) {
        Ok((flag, spec_repo)) => origin_wanted(ctx, flag, spec_repo),
        Err(_) => false,
    }
}

/// Whether resolution needs the git origin, so that it is read only then.
pub fn origin_needed(ctx: &Context, issue: Option<&IssueRef>, extra_refs: &[IssueRef]) -> (r: bool)
    ensures
        r == origin_needed_spec(*ctx, opt_ref_model(issue), refs_model(extra_refs@)),
{
    match resolve_repos(ctx, issue, extra_refs) {
        Ok((flag, spec_repo)) => ctx.host.is_none() || (flag.is_none() && spec_repo.is_none()),
        Err(_) => false,
    }
}

/// Resolves host, repository and token, checking them before any request.
pub fn resolve(ctx: &Context, issue: Option<&IssueRef>, extra_refs: &[IssueRef]) -> (r: Result<
    Resolved,
    FjiError,
>)
    ensures
        resolved_result_model(r) == resolve_spec(
            *ctx,
            opt_ref_model(issue),
            refs_model(extra_refs@),
        ),
{
    let (flag, spec_repo) = match resolve_repos(ctx, issue, extra_refs) {
        Ok(p) => p,
        Err(e) => {
            return Err(e);
        },
    };
    let origin = if ctx.host.is_none() || (flag.is_none() && spec_repo.is_none()) {
        match &ctx.git_origin {
            Some(o) => match parse_origin(o.as_str()) {
                Ok(p) => Some(p),
                Err(e) => {
                    return Err(e);
                },
            },
            None => None,
        }
    } else {
        None
    };
    let repo = match spec_repo {
        Some(r) => r,
        None => match flag {
            Some(r) => r,
            None => match &origin {
                Some((_, r)) => r.duplicate(),
                None => {
                    return Err(
                        FjiError::usage(
                            "no_repo",
                            owned(
                                "pass -R owner/repo or owner/repo#N, or run inside a git checkout with origin",
                            ),
                        ),
                    );
                },
            },
        },
    };
    let host_raw = match &ctx.host {
        Some(h) => h.clone(),
        None => match origin {
            Some((h, _)) => h,
            None => {
                return Err(
                    FjiError::usage(
                        "no_host",
                        owned("pass -H host or run inside a git checkout with origin"),
                    ),
                );
            },
        },
    };
    let host_url = match normalize_host(host_raw.as_str(), ctx.allow_http) {
        Ok(u) => u,
        Err(e) => {
            return Err(e);
        },
    };
    match &ctx.token {
        Some(t) => {
            if !t.as_str().is_empty() {
                return Ok(Resolved { host_url, repo, token: t.clone() });
            }
        },
        None => {},
    }
    Err(
        FjiError::usage(
            "no_token",
            owned("set FJI_TOKEN or FORGEJO_TOKEN to a Forgejo application token"),
        ),
    )
}

} // verus!
