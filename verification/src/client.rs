//! What the client decides between requests: the projection of API records,
//! assignee and label arithmetic, paging, the order of dependency writes, and
//! the error each API failure becomes.
use crate::error::{usage_model, ErrorModel, FailedDep, FjiError};
use crate::model::{
    CommentModel, CommentResult, CommentResultModel, CommentView, IssueView, IssueViewModel,
    RelIssue, RelIssueModel, Timestamp, comments_model, format_time, rels, texts, time_text,
};
use crate::text::{chars_of, concat, contains_text, debug_text, has_text, owned, quoted};
use vstd::prelude::*;

verus! {

// ---------------------------------------------------------------------------
// Records of the API
// ---------------------------------------------------------------------------

/// An issue as the API returned it.
#[derive(Debug, Clone)]
pub struct IssueData {
    pub number: Option<i64>,
    pub title: Option<String>,
    pub body: Option<String>,
    /// Whether the state is `closed` (any other or no state is open).
    pub closed: bool,
    pub html_url: Option<String>,
    /// The names of its labels, where the API gave one.
    pub labels: Option<Vec<Option<String>>>,
    /// The logins of its assignees, where the API gave one.
    pub assignees: Option<Vec<Option<String>>>,
    /// The login of its author.
    pub author: Option<String>,
    pub created_at: Option<Timestamp>,
    pub updated_at: Option<Timestamp>,
    /// Whether it is a pull request.
    pub is_pull: bool,
}

/// A comment as the API returned it.
#[derive(Debug, Clone)]
pub struct CommentData {
    pub id: Option<i64>,
    pub author: Option<String>,
    pub body: Option<String>,
    pub created_at: Option<Timestamp>,
}

/// A label of the repository as the API returned it.
#[derive(Debug, Clone)]
pub struct LabelData {
    pub id: Option<i64>,
    pub name: Option<String>,
}

/// The text, or the empty text when absent.
pub open spec fn text_or_empty(o: Option<String>) -> Seq<char> {
    match o {
        Some(s) => s@,
        None => Seq::empty(),
    }
}

pub open spec fn present_text(o: Option<String>) -> Option<Seq<char>> {
    match o {
        Some(s) => Some(s@),
        None => None,
    }
}

/// The names that are present, in order.
pub open spec fn present_names(o: Option<Vec<Option<String>>>) -> Seq<Seq<char>> {
    match o {
        Some(v) => v@.filter_map(|x: Option<String>| present_text(x)),
        None => Seq::empty(),
    }
}

pub open spec fn state_text(closed: bool) -> Seq<char> {
    if closed {
        "closed"@
    } else {
        "open"@
    }
}

/// The projection of an issue: absent fields become empty (number 0), and
/// only present label names and assignee logins are kept.
pub open spec fn project_spec(
    issue: IssueData,
    blocked_by: Option<Seq<RelIssueModel>>,
    blocks: Option<Seq<RelIssueModel>>,
    comments: Option<Seq<CommentModel>>,
) -> IssueViewModel {
    IssueViewModel {
        number: match issue.number {
            Some(n) => n,
            None => 0,
        },
        url: text_or_empty(issue.html_url),
        title: text_or_empty(issue.title),
        body: text_or_empty(issue.body),
        state: state_text(issue.closed),
        labels: present_names(issue.labels),
        assignees: present_names(issue.assignees),
        author: text_or_empty(issue.author),
        blocked_by,
        blocks,
        comments,
        created_at: time_text(issue.created_at),
        updated_at: time_text(issue.updated_at),
    }
}

/// The short form of a related issue.
pub open spec fn rel_spec(issue: IssueData) -> RelIssueModel {
    RelIssueModel {
        number: match issue.number {
            Some(n) => n,
            None => 0,
        },
        state: state_text(issue.closed),
        title: text_or_empty(issue.title),
        url: text_or_empty(issue.html_url),
    }
}

pub open spec fn comment_spec(c: CommentData) -> CommentModel {
    CommentModel {
        id: match c.id {
            Some(n) => n,
            None => 0,
        },
        author: text_or_empty(c.author),
        body: text_or_empty(c.body),
        created_at: time_text(c.created_at),
    }
}

fn text_or_default(o: &Option<String>) -> (r: String)
    ensures
        r@ == text_or_empty(*o),
{
    match o {
        Some(s) => s.clone(),
        None => String::new(),
    }
}

/// The present names of a list, in order.
pub fn names(o: &Option<Vec<Option<String>>>) -> (r: Vec<String>)
    ensures
        texts(r@) == present_names(*o),
{
    let mut out: Vec<String> = Vec::new();
    match o {
        None => {
            assert(texts(out@) =~= Seq::<Seq<char>>::empty());
        },
        Some(v) => {
            let ghost f = |x: Option<String>| present_text(x);
            let mut i: usize = 0;
            assert(v@.take(0) =~= Seq::<Option<String>>::empty());
            assert(texts(out@) =~= Seq::<Seq<char>>::empty());
            while i < v.len()
                invariant
                    i <= v.len(),
                    f == (|x: Option<String>| present_text(x)),
                    texts(out@) == v@.take(i as int).filter_map(f),
                decreases v.len() - i,
            {
                let ghost before = out@;
                assert(v@.take(i + 1).drop_last() =~= v@.take(i as int));
                assert(v@.take(i + 1).last() == v@[i as int]);
                match &v[i] {
                    Some(s) => {
                        out.push(s.clone());
                        assert(texts(out@) =~= texts(before) + seq![s@]);
                    },
                    None => {},
                }
                i = i + 1;
            }
            assert(v@.take(v@.len() as int) =~= v@);
        },
    }
    out
}

/// The logins of the issue's assignees.
pub fn current_assignees(issue: &IssueData) -> (r: Vec<String>)
    ensures
        texts(r@) == present_names(issue.assignees),
{
    names(&issue.assignees)
}

/// The web URL of the issue, or the empty text.
pub fn issue_url(issue: &IssueData) -> (r: String)
    ensures
        r@ == text_or_empty(issue.html_url),
{
    text_or_default(&issue.html_url)
}

fn state_string(closed: bool) -> (r: String)
    ensures
        r@ == state_text(closed),
{
    if closed {
        owned("closed")
    } else {
        owned("open")
    }
}

/// The projection of an issue, with its dependencies and comments as given.
pub fn project_issue(
    issue: &IssueData,
    blocked_by: Option<Vec<RelIssue>>,
    blocks: Option<Vec<RelIssue>>,
    comments: Option<Vec<CommentView>>,
) -> (r: IssueView)
    ensures
        r@ == project_spec(*issue, rels(blocked_by), rels(blocks), comments_model(comments)),
{
    IssueView {
        number: match issue.number {
            Some(n) => n,
            None => 0,
        },
        url: issue_url(issue),
        title: text_or_default(&issue.title),
        body: text_or_default(&issue.body),
        state: state_string(issue.closed),
        labels: names(&issue.labels),
        assignees: current_assignees(issue),
        author: text_or_default(&issue.author),
        blocked_by,
        blocks,
        comments,
        created_at: format_time(issue.created_at),
        updated_at: format_time(issue.updated_at),
    }
}

/// One item of `list`: the issue's projection, never with comments. Its
/// dependency fields are there, possibly empty, exactly when they were
/// fetched: `--no-deps` leaves them out, which does not mean unblocked.
pub fn list_item(issue: &IssueData, deps: Option<(Vec<RelIssue>, Vec<RelIssue>)>) -> (r: IssueView)
    ensures
        r@.comments is None,
        r@.blocked_by is None <==> deps is None,
        r@.blocks is None <==> deps is None,
        match deps {
            Some((blocked_by, blocks)) => r@ == project_spec(
                *issue,
                rels(Some(blocked_by)),
                rels(Some(blocks)),
                None,
            ),
            None => r@ == project_spec(*issue, None, None, None),
        },
{
    match deps {
        Some((blocked_by, blocks)) => project_issue(issue, Some(blocked_by), Some(blocks), None),
        None => project_issue(issue, None, None, None),
    }
}

/// The short form of a related issue.
pub fn rel_issue(issue: IssueData) -> (r: RelIssue)
    ensures
        r@ == rel_spec(issue),
{
    RelIssue {
        number: match issue.number {
            Some(n) => n,
            None => 0,
        },
        state: state_string(issue.closed),
        url: issue_url(&issue),
        title: text_or_default(&issue.title),
    }
}

/// The short forms of a list of related issues, in order.
pub fn rel_issues(issues: Vec<IssueData>) -> (r: Vec<RelIssue>)
    ensures
        r@.map_values(|x: RelIssue| x@) == issues@.map_values(|i: IssueData| rel_spec(i)),
{
    let mut out: Vec<RelIssue> = Vec::new();
    let mut i: usize = 0;
    while i < issues.len()
        invariant
            i <= issues.len(),
            out@.map_values(|x: RelIssue| x@) == issues@.take(i as int).map_values(
                |d: IssueData| rel_spec(d),
            ),
        decreases issues.len() - i,
    {
        let ghost before = out@;
        out.push(rel_issue(issues[i].clone_data()));
        assert(issues@.take(i + 1) =~= issues@.take(i as int).push(issues@[i as int]));
        assert(out@.map_values(|x: RelIssue| x@) =~= before.map_values(|x: RelIssue| x@).push(
            rel_spec(issues@[i as int]),
        ));
        i = i + 1;
    }
    assert(issues@.take(issues@.len() as int) =~= issues@);
    out
}

/// The numbers of a list of related issues, in order.
pub fn numbers_of(rels: &Vec<RelIssue>) -> (r: Vec<i64>)
    ensures
        r@ == rels@.map_values(|x: RelIssue| x.number),
{
    let mut out: Vec<i64> = Vec::new();
    let mut i: usize = 0;
    while i < rels.len()
        invariant
            i <= rels.len(),
            out@ == rels@.take(i as int).map_values(|x: RelIssue| x.number),
        decreases rels.len() - i,
    {
        out.push(rels[i].number);
        assert(rels@.take(i + 1) =~= rels@.take(i as int).push(rels@[i as int]));
        i = i + 1;
    }
    assert(rels@.take(rels@.len() as int) =~= rels@);
    out
}

impl IssueData {
    /// A copy with the same fields.
    pub fn clone_data(&self) -> (r: IssueData)
        ensures
            rel_spec(r) == rel_spec(*self),
            project_spec(r, None, None, None) == project_spec(*self, None, None, None),
            r.is_pull == self.is_pull,
            r.number == self.number,
    {
        IssueData {
            number: self.number,
            title: copy_opt(&self.title),
            body: copy_opt(&self.body),
            closed: self.closed,
            html_url: copy_opt(&self.html_url),
            labels: copy_names(&self.labels),
            assignees: copy_names(&self.assignees),
            author: copy_opt(&self.author),
            created_at: self.created_at,
            updated_at: self.updated_at,
            is_pull: self.is_pull,
        }
    }
}

fn copy_opt(o: &Option<String>) -> (r: Option<String>)
    ensures
        present_text(r) == present_text(*o),
        text_or_empty(r) == text_or_empty(*o),
{
    match o {
        Some(s) => Some(s.clone()),
        None => None,
    }
}

fn copy_names(o: &Option<Vec<Option<String>>>) -> (r: Option<Vec<Option<String>>>)
    ensures
        present_names(r) == present_names(*o),
{
    match o {
        None => None,
        Some(v) => {
            let n = names(o);
            let mut w: Vec<Option<String>> = Vec::new();
            let mut i: usize = 0;
            while i < n.len()
                invariant
                    i <= n.len(),
                    w@.filter_map(|x: Option<String>| present_text(x)) == texts(n@.take(i as int)),
                decreases n.len() - i,
            {
                let ghost before = w@;
                w.push(Some(n[i].clone()));
                assert(w@.drop_last() =~= before);
                assert(n@.take(i + 1) =~= n@.take(i as int).push(n@[i as int]));
                assert(texts(n@.take(i + 1)) =~= texts(n@.take(i as int)).push(n@[i as int]@));
                i = i + 1;
            }
            assert(n@.take(n@.len() as int) =~= n@);
            Some(w)
        },
    }
}

/// The projection of a comment.
pub fn comment_view(c: CommentData) -> (r: CommentView)
    ensures
        r@ == comment_spec(c),
{
    CommentView {
        id: match c.id {
            Some(n) => n,
            None => 0,
        },
        author: text_or_default(&c.author),
        body: text_or_default(&c.body),
        created_at: format_time(c.created_at),
    }
}

/// The result of `comment` on issue `number`.
pub fn comment_result(number: i64, c: CommentData) -> (r: CommentResult)
    ensures
        r@ == (CommentResultModel {
            id: comment_spec(c).id,
            issue: number,
            author: comment_spec(c).author,
            body: comment_spec(c).body,
            created_at: comment_spec(c).created_at,
        }),
{
    let v = comment_view(c);
    CommentResult { id: v.id, issue: number, author: v.author, body: v.body, created_at: v.created_at }
}


// ---------------------------------------------------------------------------
// Assignees
// ---------------------------------------------------------------------------

/// The assignees after `assign`: the current ones, then each requested user
/// not already among them, in the order requested.
pub open spec fn merge_spec(current: Seq<Seq<char>>, users: Seq<Seq<char>>) -> Seq<Seq<char>>
    decreases users.len(),
{
    if users.len() == 0 {
        current
    } else {
        let m = merge_spec(current, users.drop_last());
        if m.contains(users.last()) {
            m
        } else {
            m.push(users.last())
        }
    }
}

/// The assignees after `unassign`: the current ones that were not named, in
/// their order.
pub open spec fn without_spec(current: Seq<Seq<char>>, users: Seq<Seq<char>>) -> Seq<Seq<char>>
    decreases current.len(),
{
    if current.len() == 0 {
        current
    } else {
        let r = without_spec(current.drop_last(), users);
        if users.contains(current.last()) {
            r
        } else {
            r.push(current.last())
        }
    }
}

fn contains_string(v: &Vec<String>, x: &String) -> (r: bool)
    ensures
        r == texts(v@).contains(x@),
{
    let mut i: usize = 0;
    while i < v.len()
        invariant
            i <= v.len(),
            forall|k: int| 0 <= k < i ==> v@[k]@ != x@,
        decreases v.len() - i,
    {
        if v[i] == *x {
            assert(texts(v@)[i as int] == x@);
            return true;
        }
        i = i + 1;
    }
    assert forall|k: int| 0 <= k < texts(v@).len() implies texts(v@)[k] != x@ by {
        assert(texts(v@)[k] == v@[k]@);
    }
    false
}

/// The assignees after adding `users` to `current`.
pub fn merge_assignees(current: Vec<String>, users: Vec<String>) -> (r: Vec<String>)
    ensures
        texts(r@) == merge_spec(texts(current@), texts(users@)),
{
    let mut out = current;
    let ghost cur = texts(out@);
    let mut i: usize = 0;
    assert(texts(users@).take(0) =~= Seq::<Seq<char>>::empty());
    while i < users.len()
        invariant
            i <= users.len(),
            texts(out@) == merge_spec(cur, texts(users@).take(i as int)),
        decreases users.len() - i,
    {
        let ghost before = out@;
        assert(texts(users@).take(i + 1).drop_last() =~= texts(users@).take(i as int));
        assert(texts(users@).take(i + 1).last() == users@[i as int]@);
        if !contains_string(&out, &users[i]) {
            out.push(users[i].clone());
            assert(texts(out@) =~= texts(before).push(users@[i as int]@));
        }
        i = i + 1;
    }
    assert(texts(users@).take(users@.len() as int) =~= texts(users@));
    out
}

/// The assignees after removing `users` from `current`.
pub fn drop_assignees(current: Vec<String>, users: &Vec<String>) -> (r: Vec<String>)
    ensures
        texts(r@) == without_spec(texts(current@), texts(users@)),
{
    let mut out: Vec<String> = Vec::new();
    let mut i: usize = 0;
    assert(texts(current@).take(0) =~= Seq::<Seq<char>>::empty());
    assert(texts(out@) =~= Seq::<Seq<char>>::empty());
    while i < current.len()
        invariant
            i <= current.len(),
            texts(out@) == without_spec(texts(current@).take(i as int), texts(users@)),
        decreases current.len() - i,
    {
        let ghost before = out@;
        assert(texts(current@).take(i + 1).drop_last() =~= texts(current@).take(i as int));
        assert(texts(current@).take(i + 1).last() == current@[i as int]@);
        if !contains_string(users, &current[i]) {
            out.push(current[i].clone());
            assert(texts(out@) =~= texts(before).push(current@[i as int]@));
        }
        i = i + 1;
    }
    assert(texts(current@).take(current@.len() as int) =~= texts(current@));
    out
}

// ---------------------------------------------------------------------------
// Labels
// ---------------------------------------------------------------------------

/// The id of the first label with the given name (0 when it has no id), if
/// any label has that name.
pub open spec fn label_id_spec(labels: Seq<LabelData>, name: Seq<char>) -> Option<i64>
    decreases labels.len(),
{
    if labels.len() == 0 {
        None
    } else if present_text(labels[0].name) == Some(name) {
        Some(
            match labels[0].id {
                Some(n) => n,
                None => 0,
            },
        )
    } else {
        label_id_spec(labels.drop_first(), name)
    }
}

pub open spec fn unknown_label_model(name: Seq<char>) -> ErrorModel {
    usage_model(
        "unknown_label"@,
        "label "@ + debug_text(name) + " does not exist on this repository"@,
    )
}

/// The ids of the named labels, in order; the first name that no label has
/// is an `unknown_label` error.
pub open spec fn label_ids_spec(labels: Seq<LabelData>, names: Seq<Seq<char>>) -> Result<
    Seq<i64>,
    ErrorModel,
>
    decreases names.len(),
{
    if names.len() == 0 {
        Ok(Seq::empty())
    } else {
        match label_id_spec(labels, names[0]) {
            None => Err(unknown_label_model(names[0])),
            Some(id) => match label_ids_spec(labels, names.drop_first()) {
                Ok(ids) => Ok(seq![id] + ids),
                Err(e) => Err(e),
            },
        }
    }
}

fn label_id(labels: &Vec<LabelData>, name: &String) -> (r: Option<i64>)
    ensures
        r == label_id_spec(labels@, name@),
{
    let mut i: usize = 0;
    assert(labels@.skip(0) =~= labels@);
    while i < labels.len()
        invariant
            i <= labels.len(),
            label_id_spec(labels@, name@) == label_id_spec(labels@.skip(i as int), name@),
        decreases labels.len() - i,
    {
        assert(labels@.skip(i as int)[0] == labels@[i as int]);
        assert(labels@.skip(i as int).drop_first() =~= labels@.skip(i + 1));
        let found = match &labels[i].name {
            Some(n) => *n == *name,
            None => false,
        };
        if found {
            return Some(
                match labels[i].id {
                    Some(n) => n,
                    None => 0,
                },
            );
        }
        i = i + 1;
    }
    None
}

pub open spec fn ids_result_model(r: Result<Vec<i64>, FjiError>) -> Result<Seq<i64>, ErrorModel> {
    match r {
        Ok(v) => Ok(v@),
        Err(e) => Err(e@),
    }
}

/// The ids of the named labels among the repository's labels.
pub fn resolve_label_ids(labels: &Vec<LabelData>, names: &Vec<String>) -> (r: Result<
    Vec<i64>,
    FjiError,
>)
    ensures
        ids_result_model(r) == label_ids_spec(labels@, texts(names@)),
{
    let mut ids: Vec<i64> = Vec::new();
    let mut i: usize = 0;
    let ghost all = texts(names@);
    assert(all.skip(0) =~= all);
    assert(label_ids_spec(labels@, all) == (match label_ids_spec(labels@, all.skip(0)) {
        Ok(rest) => Ok(ids@ + rest),
        Err(e) => Err(e),
    })) by {
        match label_ids_spec(labels@, all) {
            Ok(rest) => {
                assert(ids@ + rest =~= rest);
            },
            Err(e) => {},
        }
    }
    while i < names.len()
        invariant
            i <= names.len(),
            all == texts(names@),
            label_ids_spec(labels@, all) == (match label_ids_spec(labels@, all.skip(i as int)) {
                Ok(rest) => Ok(ids@ + rest),
                Err(e) => Err(e),
            }),
        decreases names.len() - i,
    {
        let ghost tail = all.skip(i as int);
        assert(tail[0] == names@[i as int]@);
        assert(tail.drop_first() =~= all.skip(i + 1));
        match label_id(labels, &names[i]) {
            None => {
                let shown = quoted(names[i].as_str());
                let a = concat("label ", shown.as_str());
                return Err(
                    FjiError::usage(
                        "unknown_label",
                        concat(a.as_str(), " does not exist on this repository"),
                    ),
                );
            },
            Some(id) => {
                let ghost before = ids@;
                ids.push(id);
                proof {
                    match label_ids_spec(labels@, all.skip(i + 1)) {
                        Ok(rest) => {
                            assert(before + (seq![id] + rest) =~= ids@ + rest);
                        },
                        Err(e) => {},
                    }
                }
            },
        }
        i = i + 1;
    }
    assert(all.skip(names@.len() as int) =~= Seq::<Seq<char>>::empty());
    assert(ids@ + Seq::<i64>::empty() =~= ids@);
    Ok(ids)
}

// ---------------------------------------------------------------------------
// Paging
// ---------------------------------------------------------------------------

/// How many records one page of a full listing asks for.
pub const PAGE: u32 = 50;

/// Where a full listing stands: the page to fetch next, and how many
/// records the pages fetched so far held.
#[derive(Debug, Clone, Copy)]
pub struct Pages {
    page: u32,
    seen: u64,
}

/// How many records the pages hold after one more page of `got`: the sum,
/// kept at `u64::MAX` should it go beyond.
pub open spec fn counted(seen: int, got: int) -> int {
    if seen + got > u64::MAX {
        u64::MAX as int
    } else {
        seen + got
    }
}

/// Whether a full listing goes on after a page of `got` records, `seen`
/// records in all so far: an empty page ends it, and so does reaching the
/// count of records the server reports, where it reports one.
pub open spec fn more_pages(seen: int, got: int, total: Option<i64>) -> bool {
    got > 0 && match total {
        Some(t) => seen < t,
        None => true,
    }
}

impl Pages {
    pub closed spec fn next_page(&self) -> u32 {
        self.page
    }

    /// The records the pages fetched so far held.
    pub closed spec fn seen(&self) -> int {
        self.seen as int
    }

    /// A listing that starts at page 1.
    pub fn first() -> (r: Pages)
        ensures
            r.next_page() == 1,
            r.seen() == 0,
    {
        Pages { page: 1, seen: 0 }
    }

    /// The page to fetch next.
    pub fn page(&self) -> (r: u32)
        ensures
            r == self.next_page(),
    {
        self.page
    }

    /// Records that the page fetched held `got` records, the server
    /// reporting `total` records in all (its `x-total-count`, where it sends
    /// one), and says whether to fetch another page.
    pub fn advance(&mut self, got: usize, total: Option<i64>) -> (more: bool)
        requires
            old(self).next_page() < u32::MAX,
        ensures
            final(self).seen() == counted(old(self).seen(), got as int),
            more == more_pages(final(self).seen(), got as int, total),
            final(self).next_page() == if more {
                (old(self).next_page() + 1) as u32
            } else {
                old(self).next_page()
            },
    {
        self.seen = self.seen.saturating_add(got as u64);
        let more = got > 0 && match total {
            Some(t) => t > 0 && self.seen < (t as u64),
            None => true,
        };
        if more {
            self.page = self.page + 1;
        }
        more
    }
}

/// The page size that `list` asks for: one more than the limit, so that a
/// longer result shows itself.
pub fn page_request_size(limit: u32) -> (r: u32)
    requires
        limit < u32::MAX,
    ensures
        r == limit + 1,
{
    limit + 1
}

/// The records of a limited `list`: at most `limit` of them, and whether
/// more were returned.
pub fn page_window<T>(items: Vec<T>, limit: u32) -> (r: (Vec<T>, bool))
    ensures
        r.1 == ((items@.len() as u32) > limit),
        r.0@ == if r.1 {
            items@.take(limit as int)
        } else {
            items@
        },
{
    let mut items = items;
    let truncated = (items.len() as u32) > limit;
    if truncated {
        items.truncate(limit as usize);
    }
    (items, truncated)
}

/// The records that `list` shows: issues (not pull requests) that have a
/// number.
pub open spec fn listed(d: IssueData) -> bool {
    !d.is_pull && d.number is Some
}

pub open spec fn keep_listed(s: Seq<IssueData>) -> Seq<IssueData>
    decreases s.len(),
{
    if s.len() == 0 {
        s
    } else {
        let r = keep_listed(s.drop_last());
        if listed(s.last()) {
            r.push(s.last())
        } else {
            r
        }
    }
}

/// The issues of a listing that `list` shows, in order.
pub fn listable(items: Vec<IssueData>) -> (r: Vec<IssueData>)
    ensures
        r@ == keep_listed(items@),
{
    let mut out: Vec<IssueData> = Vec::new();
    assert(items@.take(0) =~= Seq::<IssueData>::empty());
    for x in it: items
        invariant
            it.seq() == items@,
            out@ == keep_listed(items@.take(it.index() as int)),
    {
        let ghost k = it.index();
        assert(items@.take(k + 1).drop_last() =~= items@.take(k as int));
        assert(items@.take(k + 1).last() == x);
        if !x.is_pull && x.number.is_some() {
            out.push(x);
        }
    }
    assert(items@.take(items@.len() as int) =~= items@);
    out
}

/// `Some(v)` when `v` has elements, else `None` (the API leaves an empty list
/// out).
pub fn nonempty<T>(v: Vec<T>) -> (r: Option<Vec<T>>)
    ensures
        match r {
            Some(w) => v@.len() > 0 && w@ == v@,
            None => v@.len() == 0,
        },
{
    if v.len() == 0 {
        None
    } else {
        Some(v)
    }
}


// ---------------------------------------------------------------------------
// Failures of the API
// ---------------------------------------------------------------------------

/// The kind of an error that the API described.
#[derive(Debug, Clone, Copy, PartialEq, Eq)]
pub enum ApiKind {
    /// Not found.
    NotFound,
    /// Another status, given by its code.
    Status(u16),
    /// Any other described error (access denied, validation, ...).
    Other,
}

/// Why a request to the API failed, as plain values.
#[derive(Debug, Clone)]
pub enum ApiFailure {
    /// The server answered with an error it described.
    Api { message: Option<String>, kind: ApiKind },
    /// The server answered with a status the endpoint does not expect; `text`
    /// is the status as displayed (`"404 Not Found"`).
    Status { code: u16, text: String },
    /// The request did not complete: whether it timed out, failed to
    /// connect, or failed while being sent; the status if one came back.
    Transport { timeout: bool, connect: bool, request: bool, status: Option<u16>, text: String },
    /// Anything else, as displayed.
    Other { text: String },
}

pub open spec fn blocked_message() -> Seq<char> {
    "cannot close this issue because it still has open dependencies"@
}

/// The error each API failure becomes. A described error that mentions
/// "open dependencies", or status 412, means blocked; 404 not found; 409
/// conflict; a timeout leaves the outcome uncertain; a failed connection is a
/// network error; anything else is an HTTP error, with its status when known.
pub open spec fn map_spec(f: ApiFailure) -> ErrorModel {
    match f {
        ApiFailure::Api { message, kind } => {
            let m = match message {
                Some(s) => s@,
                None => "forgejo api error"@,
            };
            if has_text(m, "open dependencies"@) {
                ErrorModel::Blocked { error: m, blocked_by: None }
            } else {
                match kind {
                    ApiKind::NotFound => ErrorModel::NotFound { error: m, http: Some(404) },
                    ApiKind::Status(code) => if code == 412 {
                        ErrorModel::Blocked { error: m, blocked_by: None }
                    } else if code == 409 {
                        ErrorModel::Conflict { error: m, http: Some(409) }
                    } else {
                        ErrorModel::Http { code: "http"@, error: m, http: Some(code) }
                    },
                    ApiKind::Other => ErrorModel::Http { code: "http"@, error: m, http: None },
                }
            }
        },
        ApiFailure::Status { code, text } => if code == 412 {
            ErrorModel::Blocked { error: blocked_message(), blocked_by: None }
        } else if code == 409 {
            ErrorModel::Conflict { error: text@, http: Some(409) }
        } else if code == 404 {
            ErrorModel::NotFound { error: text@, http: Some(404) }
        } else {
            ErrorModel::Http { code: "http"@, error: text@, http: Some(code) }
        },
        ApiFailure::Transport { timeout, connect, status, text, .. } => if timeout {
            ErrorModel::Uncertain { error: text@, issue_number: None, issue_url: None }
        } else {
            ErrorModel::Http {
                code: if connect {
                    "network"@
                } else {
                    "http"@
                },
                error: text@,
                http: status,
            }
        },
        ApiFailure::Other { text } => ErrorModel::Http { code: "http"@, error: text@, http: None },
    }
}

/// Whether a failed write may have landed: the request timed out, or failed
/// after it was sent (not while connecting).
pub open spec fn uncertain_spec(f: ApiFailure) -> bool {
    match f {
        ApiFailure::Transport { timeout, connect, request, .. } => timeout || (request && !connect),
        _ => false,
    }
}

/// The text of a transport failure, as displayed.
pub open spec fn failure_text(f: ApiFailure) -> Seq<char> {
    match f {
        ApiFailure::Api { message, .. } => match message {
            Some(s) => s@,
            None => Seq::empty(),
        },
        ApiFailure::Status { text, .. } => text@,
        ApiFailure::Transport { text, .. } => text@,
        ApiFailure::Other { text } => text@,
    }
}

/// The error that an API failure becomes.
pub fn map_forgejo(err: ApiFailure) -> (r: FjiError)
    ensures
        r@ == map_spec(err),
{
    match err {
        ApiFailure::Api { message, kind } => {
            let m = match message {
                Some(s) => s,
                None => owned("forgejo api error"),
            };
            if contains_text(&chars_of(m.as_str()), &chars_of("open dependencies")) {
                return FjiError::Blocked { error: m, blocked_by: None };
            }
            match kind {
                ApiKind::NotFound => FjiError::NotFound { error: m, http: Some(404) },
                ApiKind::Status(code) => {
                    if code == 412 {
                        FjiError::Blocked { error: m, blocked_by: None }
                    } else if code == 409 {
                        FjiError::Conflict { error: m, http: Some(409) }
                    } else {
                        FjiError::Http { code: "http", error: m, http: Some(code) }
                    }
                },
                ApiKind::Other => FjiError::Http { code: "http", error: m, http: None },
            }
        },
        ApiFailure::Status { code, text } => {
            if code == 412 {
                FjiError::Blocked {
                    error: owned("cannot close this issue because it still has open dependencies"),
                    blocked_by: None,
                }
            } else if code == 409 {
                FjiError::Conflict { error: text, http: Some(409) }
            } else if code == 404 {
                FjiError::NotFound { error: text, http: Some(404) }
            } else {
                FjiError::Http { code: "http", error: text, http: Some(code) }
            }
        },
        ApiFailure::Transport { timeout, connect, status, text, .. } => {
            if timeout {
                FjiError::Uncertain { error: text, issue_number: None, issue_url: None }
            } else {
                FjiError::Http {
                    code: if connect {
                        "network"
                    } else {
                        "http"
                    },
                    error: text,
                    http: status,
                }
            }
        },
        ApiFailure::Other { text } => FjiError::Http { code: "http", error: text, http: None },
    }
}

/// Whether a failed write may have landed.
pub fn is_uncertain(err: &ApiFailure) -> (r: bool)
    ensures
        r == uncertain_spec(*err),
{
    match err {
        ApiFailure::Transport { timeout, connect, request, .. } => *timeout || (*request
            && !*connect),
        _ => false,
    }
}

/// The error of a failed write that created nothing yet (`create`): an
/// uncertain outcome when the write may have landed, else as mapped.
pub open spec fn write_failure_spec(f: ApiFailure) -> ErrorModel {
    if uncertain_spec(f) {
        ErrorModel::Uncertain { error: failure_text(f), issue_number: None, issue_url: None }
    } else {
        map_spec(f)
    }
}

fn failure_text_of(f: &ApiFailure) -> (r: String)
    ensures
        r@ == failure_text(*f),
{
    match f {
        ApiFailure::Api { message, .. } => match message {
            Some(s) => s.clone(),
            None => String::new(),
        },
        ApiFailure::Status { text, .. } => text.clone(),
        ApiFailure::Transport { text, .. } => text.clone(),
        ApiFailure::Other { text } => text.clone(),
    }
}

/// The error of a failed write.
pub fn write_failure(err: ApiFailure) -> (r: FjiError)
    ensures
        r@ == write_failure_spec(err),
{
    if is_uncertain(&err) {
        FjiError::Uncertain { error: failure_text_of(&err), issue_number: None, issue_url: None }
    } else {
        map_forgejo(err)
    }
}

// ---------------------------------------------------------------------------
// Closing, creating, and adding dependencies
// ---------------------------------------------------------------------------

/// Whether a failed state change is a refusal for open dependencies whose
/// blockers are not known yet, so that they are fetched.
pub fn needs_blockers(e: &FjiError) -> (r: bool)
    ensures
        r == (e@ matches ErrorModel::Blocked { blocked_by: None, .. }),
{
    match e {
        FjiError::Blocked { blocked_by: None, .. } => true,
        _ => false,
    }
}

/// The refusal of a close, with the numbers of its blockers when fetching
/// them worked.
pub fn with_blockers(e: FjiError, blockers: Option<Vec<i64>>) -> (r: FjiError)
    ensures
        r@ == (ErrorModel::Blocked {
            error: crate::error::message_of(e@),
            blocked_by: crate::error::opt_numbers(blockers),
        }),
{
    let error = e.message().clone();
    FjiError::Blocked { error, blocked_by: blockers }
}

/// The number of a created issue; an HTTP error when the API gave none.
pub fn created_number(issue: &IssueData) -> (r: Result<i64, FjiError>)
    ensures
        match (issue.number, r) {
            (Some(n), Ok(m)) => m == n,
            (None, Err(e)) => e@ == (ErrorModel::Http {
                code: "http"@,
                error: "created issue has no number"@,
                http: None,
            }),
            _ => false,
        },
{
    match issue.number {
        Some(n) => Ok(n),
        None => Err(
            FjiError::Http { code: "http", error: owned("created issue has no number"), http: None },
        ),
    }
}

/// The error of `create` when linking its dependencies failed: a partial
/// dependency write becomes a partial create with the same fields; any other
/// error stays.
pub fn create_dep_failure(e: FjiError) -> (r: FjiError)
    ensures
        match e@ {
            ErrorModel::PartialDep { error, issue_number, issue_url, applied, failed } => r@
                == (ErrorModel::PartialCreate { error, issue_number, issue_url, applied, failed }),
            _ => r@ == e@,
        },
{
    match e {
        FjiError::PartialDep { error, issue_number, issue_url, applied, failed } =>
            FjiError::PartialCreate { error, issue_number, issue_url, applied, failed },
        other => other,
    }
}

/// The error when reading back a just-created issue failed: the write
/// landed, so the outcome is reported as uncertain with the issue's identity.
pub fn after_create_failure(number: i64, url: &String, e: FjiError) -> (r: FjiError)
    ensures
        r@ == (ErrorModel::Uncertain {
            error: crate::error::message_of(e@),
            issue_number: Some(number),
            issue_url: Some(url@),
        }),
{
    FjiError::Uncertain {
        error: e.message().clone(),
        issue_number: Some(number),
        issue_url: Some(url.clone()),
    }
}

/// Dependencies being added to an issue, one at a time, in order, stopping
/// at the first failure.
#[derive(Debug)]
pub struct DepLinks {
    number: i64,
    url: String,
    targets: Vec<i64>,
    applied: Vec<i64>,
}

pub open spec fn ref_numbers(refs: Seq<crate::config::IssueRef>) -> Seq<i64> {
    refs.map_values(|r: crate::config::IssueRef| r.number)
}

impl DepLinks {
    /// The issue that gets the dependencies.
    pub closed spec fn issue(&self) -> i64 {
        self.number
    }

    pub closed spec fn issue_url(&self) -> Seq<char> {
        self.url@
    }

    /// The blockers to add, in order.
    pub closed spec fn targets(&self) -> Seq<i64> {
        self.targets@
    }

    /// The blockers added so far.
    pub closed spec fn applied(&self) -> Seq<i64> {
        self.applied@
    }

    /// The blockers added so far are the first ones of the list.
    pub open spec fn wf(&self) -> bool {
        &&& self.applied().len() <= self.targets().len()
        &&& self.applied() == self.targets().take(self.applied().len() as int)
    }

    /// The blocker to add next, if any is left.
    pub open spec fn pending(&self) -> Option<i64> {
        if self.applied().len() < self.targets().len() {
            Some(self.targets()[self.applied().len() as int])
        } else {
            None
        }
    }

    /// Starts adding the given blockers to issue `number`, whose URL is `url`.
    pub fn new(number: i64, url: String, blocked_by: &[crate::config::IssueRef]) -> (r: DepLinks)
        ensures
            r.wf(),
            r.issue() == number,
            r.issue_url() == url@,
            r.targets() == ref_numbers(blocked_by@),
            r.applied().len() == 0,
    {
        let mut targets: Vec<i64> = Vec::new();
        let mut i: usize = 0;
        while i < blocked_by.len()
            invariant
                i <= blocked_by.len(),
                targets@ == ref_numbers(blocked_by@.take(i as int)),
            decreases blocked_by.len() - i,
        {
            targets.push(blocked_by[i].number);
            assert(blocked_by@.take(i + 1) =~= blocked_by@.take(i as int).push(blocked_by@[i as int]));
            i = i + 1;
        }
        assert(blocked_by@.take(blocked_by@.len() as int) =~= blocked_by@);
        let r = DepLinks { number, url, targets, applied: Vec::new() };
        assert(r.applied() =~= r.targets().take(0));
        r
    }

    /// The blocker to add next, if any.
    pub fn next(&self) -> (r: Option<i64>)
        requires
            self.wf(),
        ensures
            r == self.pending(),
    {
        if self.applied.len() < self.targets.len() {
            Some(self.targets[self.applied.len()])
        } else {
            None
        }
    }

    /// Records that the pending blocker was added.
    pub fn added(&mut self)
        requires
            old(self).wf(),
            old(self).pending() is Some,
        ensures
            final(self).wf(),
            final(self).issue() == old(self).issue(),
            final(self).issue_url() == old(self).issue_url(),
            final(self).targets() == old(self).targets(),
            final(self).applied() == old(self).applied().push(old(self).pending()->0),
    {
        let n = self.targets[self.applied.len()];
        let ghost before = self.applied@;
        self.applied.push(n);
        assert(self.targets@.take(self.applied@.len() as int) =~= self.targets@.take(
            before.len() as int,
        ).push(n));
    }

    /// The error when adding the pending blocker failed: uncertain when the
    /// write may have landed, else a partial write that names the issue, the
    /// blockers added and the one that failed.
    pub fn failed(self, err: ApiFailure) -> (r: FjiError)
        requires
            self.wf(),
            self.pending() is Some,
        ensures
            r@ == if uncertain_spec(err) {
                ErrorModel::Uncertain {
                    error: failure_text(err),
                    issue_number: Some(self.issue()),
                    issue_url: Some(self.issue_url()),
                }
            } else {
                ErrorModel::PartialDep {
                    error: crate::error::message_of(map_spec(err)),
                    issue_number: self.issue(),
                    issue_url: self.issue_url(),
                    applied: self.applied(),
                    failed: crate::error::FailedDepModel {
                        number: self.pending()->0,
                        error: crate::error::message_of(map_spec(err)),
                        http: crate::error::http_of_model(map_spec(err)),
                    },
                }
            },
    {
        if is_uncertain(&err) {
            return FjiError::Uncertain {
                error: failure_text_of(&err),
                issue_number: Some(self.number),
                issue_url: Some(self.url),
            };
        }
        let target = self.targets[self.applied.len()];
        let mapped = map_forgejo(err);
        let message = mapped.message().clone();
        FjiError::PartialDep {
            error: message.clone(),
            issue_number: self.number,
            issue_url: self.url,
            applied: self.applied,
            failed: FailedDep { number: target, error: message, http: mapped.http_of() },
        }
    }
}


/// The names joined with commas between them.
pub open spec fn comma_joined(v: Seq<Seq<char>>) -> Seq<char>
    decreases v.len(),
{
    if v.len() == 0 {
        Seq::empty()
    } else if v.len() == 1 {
        v[0]
    } else {
        comma_joined(v.drop_last()) + ","@ + v.last()
    }
}

/// The label filter of `list`: the names joined with commas, or none when
/// no label is given.
pub fn label_filter(labels: &Vec<String>) -> (r: Option<String>)
    ensures
        match r {
            Some(s) => labels@.len() > 0 && s@ == comma_joined(texts(labels@)),
            None => labels@.len() == 0,
        },
{
    if labels.len() == 0 {
        return None;
    }
    let mut out = labels[0].clone();
    let mut i: usize = 1;
    assert(texts(labels@).take(1) =~= seq![labels@[0]@]);
    while i < labels.len()
        invariant
            1 <= i <= labels.len(),
            out@ == comma_joined(texts(labels@).take(i as int)),
        decreases labels.len() - i,
    {
        let with_comma = concat(out.as_str(), ",");
        out = concat(with_comma.as_str(), labels[i].as_str());
        assert(texts(labels@).take(i + 1).drop_last() =~= texts(labels@).take(i as int));
        assert(texts(labels@).take(i + 1).last() == labels@[i as int]@);
        i = i + 1;
    }
    assert(texts(labels@).take(labels@.len() as int) =~= texts(labels@));
    Some(out)
}


// ---------------------------------------------------------------------------
// The steps of `create`
// ---------------------------------------------------------------------------

/// Where a `create` stands.
#[derive(Debug, Clone, Copy, PartialEq, Eq)]
pub enum CreateStage {
    /// Fetching the repository's labels, a page at a time.
    Labels,
    /// The issue is being created.
    Posting,
    /// A blocker is being added to the created issue.
    Linking,
    /// The created issue is being read back.
    Reading,
    /// Nothing is left to do.
    Done,
}

/// What `create` asks for next.
#[derive(Debug)]
pub enum CreateAction {
    /// Fetch this page of the repository's labels.
    ListLabels { page: u32 },
    /// Create the issue, with these label ids.
    Post { label_ids: Vec<i64> },
    /// Make issue `number` blocked by issue `blocker`.
    Link { number: i64, blocker: i64 },
    /// Read back issue `number` with its dependencies.
    ReadBack { number: i64 },
    /// Stop with this error.
    Fail(FjiError),
}

pub enum CreateActionModel {
    ListLabels { page: u32 },
    Post { label_ids: Seq<i64> },
    Link { number: i64, blocker: i64 },
    ReadBack { number: i64 },
    Fail(ErrorModel),
}

impl View for CreateAction {
    type V = CreateActionModel;

    open spec fn view(&self) -> CreateActionModel {
        match self {
            CreateAction::ListLabels { page } => CreateActionModel::ListLabels { page: *page },
            CreateAction::Post { label_ids } => CreateActionModel::Post { label_ids: label_ids@ },
            CreateAction::Link { number, blocker } => CreateActionModel::Link {
                number: *number,
                blocker: *blocker,
            },
            CreateAction::ReadBack { number } => CreateActionModel::ReadBack { number: *number },
            CreateAction::Fail(e) => CreateActionModel::Fail(e@),
        }
    }
}

/// The steps of `create`: the labels are resolved before the issue is
/// created, and the blockers are added in order after it, stopping at the
/// first failure.
#[derive(Debug)]
pub struct CreatePlan {
    names: Vec<String>,
    labels: Vec<LabelData>,
    pages: Pages,
    targets: Vec<crate::config::IssueRef>,
    links: Option<DepLinks>,
    number: i64,
    url: String,
    stage: CreateStage,
}

impl CreatePlan {
    pub closed spec fn stage(&self) -> CreateStage {
        self.stage
    }

    /// The names of the labels the issue gets.
    pub closed spec fn names(&self) -> Seq<Seq<char>> {
        texts(self.names@)
    }

    /// The labels of the repository fetched so far.
    pub closed spec fn fetched(&self) -> Seq<LabelData> {
        self.labels@
    }

    /// The page of labels being fetched.
    pub closed spec fn label_page(&self) -> u32 {
        self.pages.next_page()
    }

    /// How many labels the pages fetched so far held.
    pub closed spec fn labels_seen(&self) -> int {
        self.pages.seen()
    }

    /// The blockers to add, in order.
    pub closed spec fn blockers(&self) -> Seq<i64> {
        ref_numbers(self.targets@)
    }

    /// The created issue and its URL.
    pub closed spec fn issue(&self) -> i64 {
        self.number
    }

    pub closed spec fn issue_url(&self) -> Seq<char> {
        self.url@
    }

    /// The blockers added so far.
    pub closed spec fn linked_so_far(&self) -> Seq<i64> {
        match self.links {
            Some(l) => l.applied(),
            None => Seq::empty(),
        }
    }

    pub closed spec fn wf(&self) -> bool {
        &&& (self.stage == CreateStage::Labels || self.stage == CreateStage::Posting) ==> self.links
            is None
        &&& self.stage == CreateStage::Linking ==> {
            &&& self.links is Some
            &&& self.links->0.wf()
            &&& self.links->0.pending() is Some
            &&& self.links->0.issue() == self.number
            &&& self.links->0.issue_url() == self.url@
            &&& self.links->0.targets() == ref_numbers(self.targets@)
        }
    }

    /// The blocker being added.
    pub closed spec fn linking(&self) -> i64 {
        self.links->0.pending()->0
    }

    /// Starts a `create` whose issue gets the named labels and is blocked by
    /// the given issues: the labels are fetched first, unless none is named.
    pub fn new(names: Vec<String>, blocked_by: Vec<crate::config::IssueRef>) -> (r: (
        CreatePlan,
        CreateAction,
    ))
        ensures
            r.0.wf(),
            r.0.names() == texts(names@),
            r.0.blockers() == ref_numbers(blocked_by@),
            r.0.fetched().len() == 0,
            names@.len() == 0 ==> r.0.stage() == CreateStage::Posting && r.1@ == (
            CreateActionModel::Post { label_ids: Seq::empty() }),
            names@.len() > 0 ==> r.0.stage() == CreateStage::Labels && r.0.label_page() == 1
                && r.0.labels_seen() == 0 && r.1@ == (CreateActionModel::ListLabels { page: 1 }),
    {
        let empty = names.len() == 0;
        let plan = CreatePlan {
            names,
            labels: Vec::new(),
            pages: Pages::first(),
            targets: blocked_by,
            links: None,
            number: 0,
            url: String::new(),
            stage: if empty {
                CreateStage::Posting
            } else {
                CreateStage::Labels
            },
        };
        if empty {
            (plan, CreateAction::Post { label_ids: Vec::new() })
        } else {
            (plan, CreateAction::ListLabels { page: 1 })
        }
    }

    /// A page of labels came back, with the count of labels the server
    /// reports (`total`, where it sends one), or fetching it failed. The
    /// labels are listed page by page until a page comes back empty or the
    /// reported count is reached; then the named labels are looked up: the
    /// issue is created with their ids, or the first unknown name stops the
    /// command.
    pub fn labels_listed(
        &mut self,
        page: Result<Vec<LabelData>, ApiFailure>,
        total: Option<i64>,
    ) -> (r: CreateAction)
        requires
            old(self).wf(),
            old(self).stage() == CreateStage::Labels,
            old(self).label_page() < u32::MAX,
        ensures
            final(self).wf(),
            final(self).names() == old(self).names(),
            final(self).blockers() == old(self).blockers(),
            match page {
                Err(f) => final(self).stage() == CreateStage::Done && r@ == CreateActionModel::Fail(
                    map_spec(f),
                ),
                Ok(items) => {
                    let fetched = old(self).fetched() + items@;
                    let seen = counted(old(self).labels_seen(), items@.len() as int);
                    &&& final(self).fetched() == fetched
                    &&& final(self).labels_seen() == seen
                    &&& if more_pages(seen, items@.len() as int, total) {
                        &&& final(self).stage() == CreateStage::Labels
                        &&& final(self).label_page() == old(self).label_page() + 1
                        &&& r@ == CreateActionModel::ListLabels { page: final(self).label_page() }
                    } else {
                        match label_ids_spec(fetched, old(self).names()) {
                            Ok(ids) => final(self).stage() == CreateStage::Posting && r@
                                == CreateActionModel::Post { label_ids: ids },
                            Err(e) => final(self).stage() == CreateStage::Done && r@
                                == CreateActionModel::Fail(e),
                        }
                    }
                },
            },
    {
        match page {
            Err(f) => {
                self.stage = CreateStage::Done;
                CreateAction::Fail(map_forgejo(f))
            },
            Ok(items) => {
                let n = items.len();
                let mut items = items;
                self.labels.append(&mut items);
                if self.pages.advance(n, total) {
                    CreateAction::ListLabels { page: self.pages.page() }
                } else {
                    match resolve_label_ids(&self.labels, &self.names) {
                        Ok(ids) => {
                            self.stage = CreateStage::Posting;
                            CreateAction::Post { label_ids: ids }
                        },
                        Err(e) => {
                            self.stage = CreateStage::Done;
                            CreateAction::Fail(e)
                        },
                    }
                }
            },
        }
    }

    /// The issue was created, or creating it failed. A created issue gets
    /// its blockers one at a time, in order, then is read back.
    pub fn posted(&mut self, created: Result<&IssueData, ApiFailure>) -> (r: CreateAction)
        requires
            old(self).wf(),
            old(self).stage() == CreateStage::Posting,
        ensures
            final(self).wf(),
            final(self).blockers() == old(self).blockers(),
            final(self).linked_so_far().len() == 0,
            match created {
                Err(f) => final(self).stage() == CreateStage::Done && r@ == CreateActionModel::Fail(
                    write_failure_spec(f),
                ),
                Ok(d) => match d.number {
                    None => final(self).stage() == CreateStage::Done && r@
                        == CreateActionModel::Fail(
                        ErrorModel::Http {
                            code: "http"@,
                            error: "created issue has no number"@,
                            http: None,
                        },
                    ),
                    Some(n) => {
                        &&& final(self).issue() == n
                        &&& final(self).issue_url() == text_or_empty(d.html_url)
                        &&& if old(self).blockers().len() == 0 {
                            final(self).stage() == CreateStage::Reading && r@
                                == CreateActionModel::ReadBack { number: n }
                        } else {
                            &&& final(self).stage() == CreateStage::Linking
                            &&& final(self).linking() == old(self).blockers()[0]
                            &&& r@ == CreateActionModel::Link {
                                number: n,
                                blocker: old(self).blockers()[0],
                            }
                        }
                    },
                },
            },
    {
        match created {
            Err(f) => {
                self.stage = CreateStage::Done;
                CreateAction::Fail(write_failure(f))
            },
            Ok(d) => match created_number(d) {
                Err(e) => {
                    self.stage = CreateStage::Done;
                    CreateAction::Fail(e)
                },
                Ok(n) => {
                    self.number = n;
                    self.url = issue_url(d);
                    let links = DepLinks::new(n, self.url.clone(), self.targets.as_slice());
                    match links.next() {
                        None => {
                            self.stage = CreateStage::Reading;
                            self.links = Some(links);
                            CreateAction::ReadBack { number: n }
                        },
                        Some(b) => {
                            self.stage = CreateStage::Linking;
                            self.links = Some(links);
                            CreateAction::Link { number: n, blocker: b }
                        },
                    }
                },
            },
        }
    }

    /// Adding the pending blocker worked, or failed. After a failure nothing
    /// more is added: the error names the issue, the blockers added and the
    /// one that failed (or, when the write may have landed, the issue alone).
    pub fn linked(&mut self, outcome: Result<(), ApiFailure>) -> (r: CreateAction)
        requires
            old(self).wf(),
            old(self).stage() == CreateStage::Linking,
        ensures
            final(self).wf(),
            final(self).issue() == old(self).issue(),
            final(self).issue_url() == old(self).issue_url(),
            final(self).blockers() == old(self).blockers(),
            match outcome {
                Ok(()) => {
                    let done = old(self).linked_so_far().push(old(self).linking());
                    &&& final(self).linked_so_far() == done
                    &&& done == old(self).blockers().take(done.len() as int)
                    &&& if done.len() < old(self).blockers().len() {
                        &&& final(self).stage() == CreateStage::Linking
                        &&& final(self).linking() == old(self).blockers()[done.len() as int]
                        &&& r@ == CreateActionModel::Link {
                            number: old(self).issue(),
                            blocker: old(self).blockers()[done.len() as int],
                        }
                    } else {
                        final(self).stage() == CreateStage::Reading && r@
                            == CreateActionModel::ReadBack { number: old(self).issue() }
                    }
                },
                Err(f) => {
                    &&& final(self).stage() == CreateStage::Done
                    &&& r@ == CreateActionModel::Fail(
                        if uncertain_spec(f) {
                            ErrorModel::Uncertain {
                                error: failure_text(f),
                                issue_number: Some(old(self).issue()),
                                issue_url: Some(old(self).issue_url()),
                            }
                        } else {
                            ErrorModel::PartialCreate {
                                error: crate::error::message_of(map_spec(f)),
                                issue_number: old(self).issue(),
                                issue_url: old(self).issue_url(),
                                applied: old(self).linked_so_far(),
                                failed: crate::error::FailedDepModel {
                                    number: old(self).linking(),
                                    error: crate::error::message_of(map_spec(f)),
                                    http: crate::error::http_of_model(map_spec(f)),
                                },
                            }
                        },
                    )
                },
            },
    {
        let mut links = self.links.take().unwrap();
        match outcome {
            Ok(()) => {
                links.added();
                match links.next() {
                    Some(b) => {
                        self.links = Some(links);
                        CreateAction::Link { number: self.number, blocker: b }
                    },
                    None => {
                        self.stage = CreateStage::Reading;
                        self.links = Some(links);
                        CreateAction::ReadBack { number: self.number }
                    },
                }
            },
            Err(f) => {
                self.stage = CreateStage::Done;
                let e = links.failed(f);
                CreateAction::Fail(create_dep_failure(e))
            },
        }
    }

    /// Reading back the created issue failed: the issue exists, so the
    /// outcome is reported as uncertain, with its identity.
    pub fn read_back_failed(&self, e: FjiError) -> (r: FjiError)
        requires
            self.stage() == CreateStage::Reading,
        ensures
            r@ == (ErrorModel::Uncertain {
                error: crate::error::message_of(e@),
                issue_number: Some(self.issue()),
                issue_url: Some(self.issue_url()),
            }),
    {
        after_create_failure(self.number, &self.url, e)
    }
}

} // verus!
