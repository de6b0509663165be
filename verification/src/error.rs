//! The errors of the tool, their exit codes, and the report written for each.
use vstd::prelude::*;

verus! {

/// A failure, as the tool reports it on stderr.
#[derive(Debug, Clone)]
pub enum FjiError {
    /// Bad arguments or configuration (exit 1).
    Usage { code: &'static str, error: String },
    /// HTTP 404 (exit 3).
    NotFound { error: String, http: Option<u16> },
    /// HTTP 412: the issue still has open dependencies (exit 4).
    Blocked { error: String, blocked_by: Option<Vec<i64>> },
    /// HTTP 409 (exit 4).
    Conflict { error: String, http: Option<u16> },
    /// Any other transport or HTTP failure (exit 2).
    Http { code: &'static str, error: String, http: Option<u16> },
    /// The issue was created, but adding a dependency failed (exit 2).
    PartialCreate {
        error: String,
        issue_number: i64,
        issue_url: String,
        applied: Vec<i64>,
        failed: FailedDep,
    },
    /// Some dependencies were added, then one failed (exit 2).
    PartialDep {
        error: String,
        issue_number: i64,
        issue_url: String,
        applied: Vec<i64>,
        failed: FailedDep,
    },
    /// A write may or may not have landed (exit 2).
    Uncertain { error: String, issue_number: Option<i64>, issue_url: Option<String> },
}

/// The dependency whose addition failed.
#[derive(Debug, Clone)]
pub struct FailedDep {
    pub number: i64,
    pub error: String,
    pub http: Option<u16>,
}

/// The abstract value of a [`FailedDep`].
pub struct FailedDepModel {
    pub number: i64,
    pub error: Seq<char>,
    pub http: Option<u16>,
}

impl View for FailedDep {
    type V = FailedDepModel;

    open spec fn view(&self) -> FailedDepModel {
        FailedDepModel { number: self.number, error: self.error@, http: self.http }
    }
}

/// The abstract value of an [`FjiError`]: its texts as character sequences.
pub enum ErrorModel {
    Usage { code: Seq<char>, error: Seq<char> },
    NotFound { error: Seq<char>, http: Option<u16> },
    Blocked { error: Seq<char>, blocked_by: Option<Seq<i64>> },
    Conflict { error: Seq<char>, http: Option<u16> },
    Http { code: Seq<char>, error: Seq<char>, http: Option<u16> },
    PartialCreate {
        error: Seq<char>,
        issue_number: i64,
        issue_url: Seq<char>,
        applied: Seq<i64>,
        failed: FailedDepModel,
    },
    PartialDep {
        error: Seq<char>,
        issue_number: i64,
        issue_url: Seq<char>,
        applied: Seq<i64>,
        failed: FailedDepModel,
    },
    Uncertain { error: Seq<char>, issue_number: Option<i64>, issue_url: Option<Seq<char>> },
}

pub open spec fn opt_text(o: Option<String>) -> Option<Seq<char>> {
    match o {
        Some(s) => Some(s@),
        None => None,
    }
}

pub open spec fn opt_numbers(o: Option<Vec<i64>>) -> Option<Seq<i64>> {
    match o {
        Some(v) => Some(v@),
        None => None,
    }
}

impl View for FjiError {
    type V = ErrorModel;

    open spec fn view(&self) -> ErrorModel {
        match self {
            FjiError::Usage { code, error } => ErrorModel::Usage { code: code@, error: error@ },
            FjiError::NotFound { error, http } => ErrorModel::NotFound { error: error@, http: *http },
            FjiError::Blocked { error, blocked_by } => ErrorModel::Blocked {
                error: error@,
                blocked_by: opt_numbers(*blocked_by),
            },
            FjiError::Conflict { error, http } => ErrorModel::Conflict { error: error@, http: *http },
            FjiError::Http { code, error, http } => ErrorModel::Http {
                code: code@,
                error: error@,
                http: *http,
            },
            FjiError::PartialCreate { error, issue_number, issue_url, applied, failed } =>
                ErrorModel::PartialCreate {
                error: error@,
                issue_number: *issue_number,
                issue_url: issue_url@,
                applied: applied@,
                failed: failed@,
            },
            FjiError::PartialDep { error, issue_number, issue_url, applied, failed } =>
                ErrorModel::PartialDep {
                error: error@,
                issue_number: *issue_number,
                issue_url: issue_url@,
                applied: applied@,
                failed: failed@,
            },
            FjiError::Uncertain { error, issue_number, issue_url } => ErrorModel::Uncertain {
                error: error@,
                issue_number: *issue_number,
                issue_url: opt_text(*issue_url),
            },
        }
    }
}

/// A usage error with the given code and message.
pub open spec fn usage_model(code: Seq<char>, error: Seq<char>) -> ErrorModel {
    ErrorModel::Usage { code, error }
}

/// The message of an error: what its `Display` writes.
pub open spec fn message_of(e: ErrorModel) -> Seq<char> {
    match e {
        ErrorModel::Usage { error, .. } => error,
        ErrorModel::NotFound { error, .. } => error,
        ErrorModel::Blocked { error, .. } => error,
        ErrorModel::Conflict { error, .. } => error,
        ErrorModel::Http { error, .. } => error,
        ErrorModel::PartialCreate { error, .. } => error,
        ErrorModel::PartialDep { error, .. } => error,
        ErrorModel::Uncertain { error, .. } => error,
    }
}

/// The process exit code of each error: 1 usage, 2 transport and partial
/// writes, 3 not found, 4 blocked or conflict.
pub open spec fn exit_code_of(e: ErrorModel) -> i32 {
    match e {
        ErrorModel::Usage { .. } => 1,
        ErrorModel::Http { .. } | ErrorModel::PartialCreate { .. } | ErrorModel::PartialDep { .. }
        | ErrorModel::Uncertain { .. } => 2,
        ErrorModel::NotFound { .. } => 3,
        ErrorModel::Blocked { .. } | ErrorModel::Conflict { .. } => 4,
    }
}

/// The HTTP status an error carries, if any; 412 for a blocked close.
pub open spec fn http_of_model(e: ErrorModel) -> Option<u16> {
    match e {
        ErrorModel::NotFound { http, .. } => http,
        ErrorModel::Conflict { http, .. } => http,
        ErrorModel::Http { http, .. } => http,
        ErrorModel::Blocked { .. } => Some(412),
        _ => None,
    }
}

/// The issue that a report names: its number and URL, either of which may be
/// unknown.
#[derive(Debug, Clone)]
pub struct IssueIdentity {
    pub number: Option<i64>,
    pub url: Option<String>,
}

/// The fields of the JSON object written on stderr for an error. A field that
/// is `None` is left out of the object.
#[derive(Debug, Clone)]
pub struct ErrorReport {
    pub error: String,
    pub code: &'static str,
    pub http: Option<u16>,
    pub blocked_by: Option<Vec<i64>>,
    pub issue: Option<IssueIdentity>,
    pub applied: Option<Vec<i64>>,
    pub failed: Option<FailedDep>,
}

/// The abstract value of an [`ErrorReport`].
pub struct ReportModel {
    pub error: Seq<char>,
    pub code: Seq<char>,
    pub http: Option<u16>,
    pub blocked_by: Option<Seq<i64>>,
    pub issue: Option<(Option<i64>, Option<Seq<char>>)>,
    pub applied: Option<Seq<i64>>,
    pub failed: Option<FailedDepModel>,
}

impl View for ErrorReport {
    type V = ReportModel;

    open spec fn view(&self) -> ReportModel {
        ReportModel {
            error: self.error@,
            code: self.code@,
            http: self.http,
            blocked_by: opt_numbers(self.blocked_by),
            issue: match self.issue {
                Some(i) => Some((i.number, opt_text(i.url))),
                None => None,
            },
            applied: opt_numbers(self.applied),
            failed: match self.failed {
                Some(f) => Some(f@),
                None => None,
            },
        }
    }
}

/// The report of an error: its message, its code, and the fields its kind
/// adds (the HTTP status; the blockers of a refused close; the issue, the
/// applied and the failed dependency of a partial write; the issue of an
/// uncertain write, when any of it is known).
pub open spec fn report_of(e: ErrorModel) -> ReportModel {
    let base = ReportModel {
        error: message_of(e),
        code: Seq::empty(),
        http: None,
        blocked_by: None,
        issue: None,
        applied: None,
        failed: None,
    };
    match e {
        ErrorModel::Usage { code, .. } => ReportModel { code, ..base },
        ErrorModel::NotFound { http, .. } => ReportModel { code: "not_found"@, http, ..base },
        ErrorModel::Blocked { blocked_by, .. } => ReportModel {
            code: "blocked"@,
            http: Some(412),
            blocked_by,
            ..base
        },
        ErrorModel::Conflict { http, .. } => ReportModel { code: "conflict"@, http, ..base },
        ErrorModel::Http { code, http, .. } => ReportModel { code, http, ..base },
        ErrorModel::PartialCreate { issue_number, issue_url, applied, failed, .. } => ReportModel {
            code: "partial_create"@,
            issue: Some((Some(issue_number), Some(issue_url))),
            applied: Some(applied),
            failed: Some(failed),
            ..base
        },
        ErrorModel::PartialDep { issue_number, issue_url, applied, failed, .. } => ReportModel {
            code: "partial_dep"@,
            issue: Some((Some(issue_number), Some(issue_url))),
            applied: Some(applied),
            failed: Some(failed),
            ..base
        },
        ErrorModel::Uncertain { issue_number, issue_url, .. } => ReportModel {
            code: "uncertain"@,
            issue: if issue_number is Some || issue_url is Some {
                Some((issue_number, issue_url))
            } else {
                None
            },
            ..base
        },
    }
}

impl FailedDep {
    /// A copy with the same fields.
    pub fn duplicate(&self) -> (r: FailedDep)
        ensures
            r@ == self@,
    {
        FailedDep { number: self.number, error: self.error.clone(), http: self.http }
    }
}

/// A copy of a list of issue numbers.
pub fn copy_numbers(v: &Vec<i64>) -> (r: Vec<i64>)
    ensures
        r@ == v@,
{
    let mut r: Vec<i64> = Vec::new();
    let mut i: usize = 0;
    while i < v.len()
        invariant
            i <= v.len(),
            r@ == v@.take(i as int),
        decreases v.len() - i,
    {
        r.push(v[i]);
        i = i + 1;
        assert(v@.take(i as int) == v@.take(i - 1).push(v@[i - 1]));
    }
    assert(v@.take(v@.len() as int) == v@);
    r
}

impl FjiError {
    /// A usage error with the given code and message.
    pub fn usage(code: &'static str, error: String) -> (r: FjiError)
        ensures
            r@ == usage_model(code@, error@),
    {
        FjiError::Usage { code, error }
    }

    /// The process exit code for this error.
    pub fn exit_code(&self) -> (r: i32)
        ensures
            r == exit_code_of(self@),
    {
        match self {
            FjiError::Usage { .. } => 1,
            FjiError::Http { .. } | FjiError::PartialCreate { .. } | FjiError::PartialDep { .. }
            | FjiError::Uncertain { .. } => 2,
            FjiError::NotFound { .. } => 3,
            FjiError::Blocked { .. } | FjiError::Conflict { .. } => 4,
        }
    }

    /// The message of the error, as its `Display` writes it.
    pub fn message(&self) -> (r: &String)
        ensures
            r@ == message_of(self@),
    {
        match self {
            FjiError::Usage { error, .. } => error,
            FjiError::NotFound { error, .. } => error,
            FjiError::Blocked { error, .. } => error,
            FjiError::Conflict { error, .. } => error,
            FjiError::Http { error, .. } => error,
            FjiError::PartialCreate { error, .. } => error,
            FjiError::PartialDep { error, .. } => error,
            FjiError::Uncertain { error, .. } => error,
        }
    }

    /// The HTTP status the error carries, if any.
    pub fn http_of(&self) -> (r: Option<u16>)
        ensures
            r == http_of_model(self@),
    {
        match self {
            FjiError::NotFound { http, .. } | FjiError::Conflict { http, .. } | FjiError::Http {
                http,
                ..
            } => *http,
            FjiError::Blocked { .. } => Some(412),
            _ => None,
        }
    }

    /// The fields of the JSON object that reports this error.
    pub fn report(&self) -> (r: ErrorReport)
        ensures
            r@ == report_of(self@),
    {
        let base_error = self.message().clone();
        match self {
            FjiError::Usage { code, .. } => ErrorReport {
                error: base_error,
                code: *code,
                http: None,
                blocked_by: None,
                issue: None,
                applied: None,
                failed: None,
            },
            FjiError::NotFound { http, .. } => ErrorReport {
                error: base_error,
                code: "not_found",
                http: *http,
                blocked_by: None,
                issue: None,
                applied: None,
                failed: None,
            },
            FjiError::Blocked { blocked_by, .. } => ErrorReport {
                error: base_error,
                code: "blocked",
                http: Some(412),
                blocked_by: match blocked_by {
                    Some(v) => Some(copy_numbers(v)),
                    None => None,
                },
                issue: None,
                applied: None,
                failed: None,
            },
            FjiError::Conflict { http, .. } => ErrorReport {
                error: base_error,
                code: "conflict",
                http: *http,
                blocked_by: None,
                issue: None,
                applied: None,
                failed: None,
            },
            FjiError::Http { code, http, .. } => ErrorReport {
                error: base_error,
                code: *code,
                http: *http,
                blocked_by: None,
                issue: None,
                applied: None,
                failed: None,
            },
            FjiError::PartialCreate { issue_number, issue_url, applied, failed, .. } => {
                ErrorReport {
                    error: base_error,
                    code: "partial_create",
                    http: None,
                    blocked_by: None,
                    issue: Some(
                        IssueIdentity { number: Some(*issue_number), url: Some(issue_url.clone()) },
                    ),
                    applied: Some(copy_numbers(applied)),
                    failed: Some(failed.duplicate()),
                }
            },
            FjiError::PartialDep { issue_number, issue_url, applied, failed, .. } => {
                ErrorReport {
                    error: base_error,
                    code: "partial_dep",
                    http: None,
                    blocked_by: None,
                    issue: Some(
                        IssueIdentity { number: Some(*issue_number), url: Some(issue_url.clone()) },
                    ),
                    applied: Some(copy_numbers(applied)),
                    failed: Some(failed.duplicate()),
                }
            },
            FjiError::Uncertain { issue_number, issue_url, .. } => {
                let issue = if issue_number.is_some() || issue_url.is_some() {
                    Some(
                        IssueIdentity {
                            number: *issue_number,
                            url: match issue_url {
                                Some(u) => Some(u.clone()),
                                None => None,
                            },
                        },
                    )
                } else {
                    None
                };
                ErrorReport {
                    error: base_error,
                    code: "uncertain",
                    http: None,
                    blocked_by: None,
                    issue,
                    applied: None,
                    failed: None,
                }
            },
        }
    }
}

} // verus!
