//! The JSON shapes of command results, and how times are written in them.
use time::format_description::well_known::Rfc3339;
use time::{OffsetDateTime, UtcOffset};
use vstd::prelude::*;

verus! {

/// An issue that blocks, or is blocked by, another.
#[derive(Debug, Clone, PartialEq, Eq)]
pub struct RelIssue {
    pub number: i64,
    pub state: String,
    pub title: String,
    pub url: String,
}

/// A comment of an issue.
#[derive(Debug, Clone, PartialEq, Eq)]
pub struct CommentView {
    pub id: i64,
    pub author: String,
    pub body: String,
    pub created_at: String,
}

/// The projection of an issue. `blocked_by` and `blocks` are `None` when
/// they were not fetched; `comments` is `Some` only for `view`.
#[derive(Debug, Clone, PartialEq, Eq)]
pub struct IssueView {
    pub number: i64,
    pub url: String,
    pub title: String,
    pub body: String,
    pub state: String,
    pub labels: Vec<String>,
    pub assignees: Vec<String>,
    pub author: String,
    pub blocked_by: Option<Vec<RelIssue>>,
    pub blocks: Option<Vec<RelIssue>>,
    pub comments: Option<Vec<CommentView>>,
    pub created_at: String,
    pub updated_at: String,
}

/// The result of `list`.
#[derive(Debug, Clone, PartialEq, Eq)]
pub struct ListResult {
    pub items: Vec<IssueView>,
    pub truncated: bool,
    pub total_count: Option<i64>,
}

/// The result of `comment`.
#[derive(Debug, Clone, PartialEq, Eq)]
pub struct CommentResult {
    pub id: i64,
    pub issue: i64,
    pub author: String,
    pub body: String,
    pub created_at: String,
}

pub struct RelIssueModel {
    pub number: i64,
    pub state: Seq<char>,
    pub title: Seq<char>,
    pub url: Seq<char>,
}

impl View for RelIssue {
    type V = RelIssueModel;

    open spec fn view(&self) -> RelIssueModel {
        RelIssueModel { number: self.number, state: self.state@, title: self.title@, url: self.url@ }
    }
}

pub struct CommentModel {
    pub id: i64,
    pub author: Seq<char>,
    pub body: Seq<char>,
    pub created_at: Seq<char>,
}

impl View for CommentView {
    type V = CommentModel;

    open spec fn view(&self) -> CommentModel {
        CommentModel {
            id: self.id,
            author: self.author@,
            body: self.body@,
            created_at: self.created_at@,
        }
    }
}

pub open spec fn texts(v: Seq<String>) -> Seq<Seq<char>> {
    v.map_values(|s: String| s@)
}

pub open spec fn rels(o: Option<Vec<RelIssue>>) -> Option<Seq<RelIssueModel>> {
    match o {
        Some(v) => Some(v@.map_values(|r: RelIssue| r@)),
        None => None,
    }
}

pub open spec fn comments_model(o: Option<Vec<CommentView>>) -> Option<Seq<CommentModel>> {
    match o {
        Some(v) => Some(v@.map_values(|c: CommentView| c@)),
        None => None,
    }
}

pub struct IssueViewModel {
    pub number: i64,
    pub url: Seq<char>,
    pub title: Seq<char>,
    pub body: Seq<char>,
    pub state: Seq<char>,
    pub labels: Seq<Seq<char>>,
    pub assignees: Seq<Seq<char>>,
    pub author: Seq<char>,
    pub blocked_by: Option<Seq<RelIssueModel>>,
    pub blocks: Option<Seq<RelIssueModel>>,
    pub comments: Option<Seq<CommentModel>>,
    pub created_at: Seq<char>,
    pub updated_at: Seq<char>,
}

impl View for IssueView {
    type V = IssueViewModel;

    open spec fn view(&self) -> IssueViewModel {
        IssueViewModel {
            number: self.number,
            url: self.url@,
            title: self.title@,
            body: self.body@,
            state: self.state@,
            labels: texts(self.labels@),
            assignees: texts(self.assignees@),
            author: self.author@,
            blocked_by: rels(self.blocked_by),
            blocks: rels(self.blocks),
            comments: comments_model(self.comments),
            created_at: self.created_at@,
            updated_at: self.updated_at@,
        }
    }
}

pub struct CommentResultModel {
    pub id: i64,
    pub issue: i64,
    pub author: Seq<char>,
    pub body: Seq<char>,
    pub created_at: Seq<char>,
}

impl View for CommentResult {
    type V = CommentResultModel;

    open spec fn view(&self) -> CommentResultModel {
        CommentResultModel {
            id: self.id,
            issue: self.issue,
            author: self.author@,
            body: self.body@,
            created_at: self.created_at@,
        }
    }
}


/// A moment with its UTC offset, as plain values: nanoseconds since the Unix
/// epoch, and the offset in seconds.
#[derive(Debug, Clone, Copy, PartialEq, Eq)]
pub struct Timestamp {
    pub unix_nanos: i128,
    pub offset_seconds: i32,
}

/// The RFC 3339 text that the `time` crate writes for the moment
/// `unix_nanos` seen at offset `offset_seconds`; `None` where the moment or
/// the offset is out of range or cannot be written.
pub uninterp spec fn rfc3339_text(unix_nanos: i128, offset_seconds: i32) -> Option<Seq<char>>;

/// `UtcOffset::from_whole_seconds`, `OffsetDateTime::from_unix_timestamp_nanos`,
/// `checked_to_offset`, then `format(&Rfc3339)`. Claimed: the text is the one
/// that `rfc3339_text` names for the two values, and `None` comes exactly
/// where it names none.
#[verifier::external_body]
fn rfc3339(t: Timestamp) -> (r: Option<String>)
    ensures
        match r {
            Some(s) => rfc3339_text(t.unix_nanos, t.offset_seconds) == Some(s@),
            None => rfc3339_text(t.unix_nanos, t.offset_seconds) is None,
        },
{
    let offset = UtcOffset::from_whole_seconds(t.offset_seconds).ok()?;
    let at = OffsetDateTime::from_unix_timestamp_nanos(t.unix_nanos).ok()?;
    at.checked_to_offset(offset)?.format(&Rfc3339).ok()
}

/// The text of an optional time: its RFC 3339 form, or the empty text when
/// it is absent or cannot be written.
pub open spec fn time_text(ts: Option<Timestamp>) -> Seq<char> {
    match ts {
        Some(t) => match rfc3339_text(t.unix_nanos, t.offset_seconds) {
            Some(s) => s,
            None => Seq::empty(),
        },
        None => Seq::empty(),
    }
}

/// RFC 3339 text of an optional time, or the empty text.
pub fn format_time(ts: Option<Timestamp>) -> (r: String)
    ensures
        r@ == time_text(ts),
{
    match ts {
        Some(t) => match rfc3339(t) {
            Some(s) => s,
            None => String::new(),
        },
        None => String::new(),
    }
}

} // verus!
