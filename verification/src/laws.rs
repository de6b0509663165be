//! Properties of the library that span its functions, proved.
use crate::client::{
    label_ids_spec, map_spec, merge_spec, without_spec, ApiFailure, LabelData, label_id_spec,
};
use crate::config::{
    dep_anchor, flag_repo_spec, issue_repo, normalize_host_spec, repos_spec, resolve_spec,
    scan_repos,
    Context, IssueRefModel, RepoModel, is_loopback_host,
};
use crate::cli::{
    into_command_spec, parse_refs_spec, BodyFile, Commands, CommandModel, DepAction, LabelAction,
    ListState,
};
use crate::client::{comment_spec, keep_listed, project_spec, rel_spec, ApiKind, CommentData, IssueData};
use crate::config::parse_origin_spec;
use crate::model::{time_text, CommentModel, RelIssueModel};
use crate::config::{full_name, issue_ref_parse, repo_parse, strip_slashes};
use crate::error::{exit_code_of, http_of_model, report_of, ErrorModel};
use crate::text::{
    all_digits, decimal_text, digits_value, has_char, has_text, is_first, is_last, is_space,
    nat_digits, occurs_at, parse_i64, trim, trim_end_by, trim_start_by, Strip,
};
use vstd::prelude::*;

verus! {

/// A qualified reference wins: when resolution succeeds for an issue that
/// names its repository, requests go to that repository.
pub proof fn law_qualified_reference_wins(
    ctx: Context,
    issue: IssueRefModel,
    extras: Seq<IssueRefModel>,
    repo: RepoModel,
)
    requires
        issue.repo == Some(repo),
        resolve_spec(ctx, Some(issue), extras) is Ok,
    ensures
        resolve_spec(ctx, Some(issue), extras)->Ok_0.repo == repo,
{
    lemma_scan_keeps_start(repo, extras);
}

/// Scanning references from a known repository either keeps it or finds a
/// conflict.
proof fn lemma_scan_keeps_start(start: RepoModel, refs: Seq<IssueRefModel>)
    ensures
        scan_repos(Some(start), refs) is None || scan_repos(Some(start), refs) == Some(Some(start)),
    decreases refs.len(),
{
    if refs.len() > 0 {
        lemma_scan_keeps_start(start, refs.drop_first());
    }
}

/// A qualified reference that disagrees with `-R` is refused with
/// `repo_conflict` (when `-R` itself parses and the references agree among
/// themselves).
pub proof fn law_flag_conflict_refused(
    ctx: Context,
    issue: IssueRefModel,
    extras: Seq<IssueRefModel>,
    flag: RepoModel,
    repo: RepoModel,
)
    requires
        flag_repo_spec(ctx) == Ok::<Option<RepoModel>, ErrorModel>(Some(flag)),
        issue.repo == Some(repo),
        scan_repos(Some(repo), extras) is Some,
        flag != repo,
    ensures
        resolve_spec(ctx, Some(issue), extras) matches Err(ErrorModel::Usage { code, .. }) && code
            == "repo_conflict"@,
{
    lemma_scan_keeps_start(repo, extras);
}

/// A dependency reference in another repository than the issue's is refused
/// with `cross_repo_dep` (when `-R` parses). The issue's repository is the
/// one its reference names, else the one of `-R`.
pub proof fn law_cross_repo_refused(
    ctx: Context,
    issue: Option<IssueRefModel>,
    extras: Seq<IssueRefModel>,
    flag: Option<RepoModel>,
    i: int,
    other: RepoModel,
)
    requires
        flag_repo_spec(ctx) == Ok::<Option<RepoModel>, ErrorModel>(flag),
        dep_anchor(issue, flag) is Some,
        0 <= i < extras.len(),
        extras[i].repo == Some(other),
        other != dep_anchor(issue, flag)->0,
    ensures
        resolve_spec(ctx, issue, extras) matches Err(ErrorModel::Usage { code, .. }) && code
            == "cross_repo_dep"@,
{
    lemma_scan_meets_other(dep_anchor(issue, flag)->0, extras, i, other);
}

/// Scanning from a known repository stops at any reference to another one.
proof fn lemma_scan_meets_other(start: RepoModel, refs: Seq<IssueRefModel>, i: int, other: RepoModel)
    requires
        0 <= i < refs.len(),
        refs[i].repo == Some(other),
        other != start,
    ensures
        scan_repos(Some(start), refs) is None,
    decreases refs.len(),
{
    if i > 0 {
        let rest = refs.drop_first();
        assert(rest[i - 1] == refs[i]);
        lemma_scan_meets_other(start, rest, i - 1, other);
    }
}

/// An issue that names no repository takes the repository of `-R`.
pub proof fn law_flag_fills_repo(
    ctx: Context,
    issue: Option<IssueRefModel>,
    extras: Seq<IssueRefModel>,
    flag: RepoModel,
)
    requires
        flag_repo_spec(ctx) == Ok::<Option<RepoModel>, ErrorModel>(Some(flag)),
        issue_repo(issue) is None,
        resolve_spec(ctx, issue, extras) is Ok,
    ensures
        resolve_spec(ctx, issue, extras)->Ok_0.repo == flag,
{
    lemma_scan_keeps_start(flag, extras);
}

/// Requests always carry a token: resolution succeeds only with the
/// non-empty token of the context.
pub proof fn law_token_required(ctx: Context, issue: Option<IssueRefModel>, extras: Seq<IssueRefModel>)
    requires
        resolve_spec(ctx, issue, extras) is Ok,
    ensures
        ctx.token is Some,
        ctx.token->0@.len() > 0,
        resolve_spec(ctx, issue, extras)->Ok_0.token == ctx.token->0@,
{
}

/// Authenticated requests use HTTPS: a resolved host URL has no path and
/// uses `https`, or `http` only when allowed or on a loopback host.
pub proof fn law_https_only(ctx: Context, issue: Option<IssueRefModel>, extras: Seq<IssueRefModel>)
    requires
        resolve_spec(ctx, issue, extras) is Ok,
    ensures
        ({
            let u = resolve_spec(ctx, issue, extras)->Ok_0.host_url;
            &&& u.scheme == "https"@ || (u.scheme == "http"@ && (ctx.allow_http
                || is_loopback_host(u.host)))
            &&& u.path == "/"@ || u.path.len() == 0
        }),
{
    let r = resolve_spec(ctx, issue, extras);
    let (flag, spec_repo) = repos_spec(ctx, issue, extras)->Ok_0;
    let origin_wanted = crate::config::origin_wanted(ctx, flag, spec_repo);
    // The host URL is the normalized host, whichever source gave it.
    assert(exists|h: Seq<char>| normalize_host_spec(h, ctx.allow_http) == Ok::<
        crate::config::UrlParts,
        ErrorModel,
    >(r->Ok_0.host_url));
    let h = choose|h: Seq<char>| normalize_host_spec(h, ctx.allow_http) == Ok::<
        crate::config::UrlParts,
        ErrorModel,
    >(r->Ok_0.host_url);
    lemma_normalized_host(h, ctx.allow_http);
}

proof fn lemma_normalized_host(raw: Seq<char>, allow_http: bool)
    requires
        normalize_host_spec(raw, allow_http) is Ok,
    ensures
        ({
            let u = normalize_host_spec(raw, allow_http)->Ok_0;
            &&& u.scheme == "https"@ || (u.scheme == "http"@ && (allow_http || is_loopback_host(
                u.host,
            )))
            &&& u.path == "/"@ || u.path.len() == 0
        }),
{
}

/// Exit codes of HTTP statuses that the endpoint did not expect: 404 exits
/// 3, 409 and 412 exit 4, any other status exits 2.
pub proof fn law_status_exit_codes(code: u16, text: String)
    ensures
        exit_code_of(map_spec(ApiFailure::Status { code, text })) == if code == 404 {
            3i32
        } else if code == 409 || code == 412 {
            4i32
        } else {
            2i32
        },
{
}

/// The `http` field of an error report is the HTTP status the error carries
/// (412 for a refused close), and is absent when there was none.
pub proof fn law_report_http(e: ErrorModel)
    ensures
        report_of(e).http == http_of_model(e),
{
}

/// `assign` keeps the current assignees first and in order, and afterwards
/// every requested user is assigned; nothing else is added.
pub proof fn law_assign_adds(current: Seq<Seq<char>>, users: Seq<Seq<char>>)
    ensures
        merge_spec(current, users).len() >= current.len(),
        merge_spec(current, users).take(current.len() as int) == current,
        forall|u: Seq<char>| users.contains(u) ==> merge_spec(current, users).contains(u),
        forall|x: Seq<char>|
            merge_spec(current, users).contains(x) ==> current.contains(x) || users.contains(x),
    decreases users.len(),
{
    if users.len() > 0 {
        let rest = users.drop_last();
        law_assign_adds(current, rest);
        let m = merge_spec(current, rest);
        assert(m.push(users.last()).take(current.len() as int) =~= m.take(current.len() as int));
        assert forall|u: Seq<char>| users.contains(u) implies merge_spec(current, users).contains(
            u,
        ) by {
            let i = choose|i: int| 0 <= i < users.len() && users[i] == u;
            if i < users.len() - 1 {
                assert(rest[i] == u);
                assert(rest.contains(u));
                assert(m.contains(u));
                if !m.contains(users.last()) {
                    let j = choose|j: int| 0 <= j < m.len() && m[j] == u;
                    assert(m.push(users.last())[j] == u);
                }
            } else {
                if !m.contains(users.last()) {
                    assert(m.push(users.last())[m.len() as int] == u);
                }
            }
        }
        assert forall|x: Seq<char>| merge_spec(current, users).contains(x) implies current.contains(
            x,
        ) || users.contains(x) by {
            if m.contains(x) {
                if rest.contains(x) {
                    let i = choose|i: int| 0 <= i < rest.len() && rest[i] == x;
                    assert(users[i] == x);
                }
            } else {
                let j = choose|j: int| 0 <= j < m.push(users.last()).len() && m.push(
                    users.last(),
                )[j] == x;
                if j < m.len() {
                    assert(m[j] == x);
                }
                assert(users[users.len() - 1] == x);
            }
        }
    }
}

/// `assign` adds no duplicate: when the current assignees are distinct, so
/// are the assignees afterwards.
pub proof fn law_assign_distinct(current: Seq<Seq<char>>, users: Seq<Seq<char>>)
    requires
        current.no_duplicates(),
    ensures
        merge_spec(current, users).no_duplicates(),
    decreases users.len(),
{
    if users.len() > 0 {
        law_assign_distinct(current, users.drop_last());
        let m = merge_spec(current, users.drop_last());
        if !m.contains(users.last()) {
            assert forall|i: int, j: int|
                0 <= i < m.push(users.last()).len() && 0 <= j < m.push(users.last()).len() && i
                    != j implies m.push(users.last())[i] != m.push(users.last())[j] by {
                if i == m.len() {
                    assert(m[j] == m.push(users.last())[j]);
                } else if j == m.len() {
                    assert(m[i] == m.push(users.last())[i]);
                }
            }
        }
    }
}

/// `unassign` removes every named user and keeps the other assignees.
pub proof fn law_unassign_removes(current: Seq<Seq<char>>, users: Seq<Seq<char>>)
    ensures
        forall|x: Seq<char>|
            #[trigger] without_spec(current, users).contains(x) <==> (current.contains(x)
                && !users.contains(x)),
    decreases current.len(),
{
    if current.len() > 0 {
        let rest = current.drop_last();
        law_unassign_removes(rest, users);
        let r = without_spec(rest, users);
        assert forall|x: Seq<char>|
            without_spec(current, users).contains(x) <==> (current.contains(x)
                && !users.contains(x)) by {
            if without_spec(current, users).contains(x) {
                if r.contains(x) {
                    assert(rest.contains(x) && !users.contains(x));
                    let i = choose|i: int| 0 <= i < rest.len() && rest[i] == x;
                    assert(current[i] == x);
                } else {
                    let j = choose|j: int|
                        0 <= j < without_spec(current, users).len() && without_spec(
                            current,
                            users,
                        )[j] == x;
                    if j < r.len() {
                        assert(r[j] == x);
                    }
                    assert(current[current.len() - 1] == x);
                }
            }
            if current.contains(x) && !users.contains(x) {
                let i = choose|i: int| 0 <= i < current.len() && current[i] == x;
                if i < current.len() - 1 {
                    assert(rest[i] == x);
                    assert(rest.contains(x));
                    assert(r.contains(x));
                    let j = choose|j: int| 0 <= j < r.len() && r[j] == x;
                    assert(r.push(current.last())[j] == x);
                } else {
                    assert(r.push(current.last())[r.len() as int] == x);
                }
            }
        }
    }
}

/// Removing users after adding them gives what removing them alone gives:
/// `unassign U` undoes `assign U`.
pub proof fn law_unassign_undoes_assign(current: Seq<Seq<char>>, users: Seq<Seq<char>>)
    ensures
        without_spec(merge_spec(current, users), users) == without_spec(current, users),
    decreases users.len(),
{
    if users.len() > 0 {
        let rest = users.drop_last();
        let m = merge_spec(current, rest);
        lemma_without_more(m, rest, users);
        lemma_without_more(current, rest, users);
        law_unassign_undoes_assign(current, rest);
        // without(m, users) == without(current, users)
        lemma_without_congruent(m, current, rest, users);
        if !m.contains(users.last()) {
            assert(m.push(users.last()).drop_last() =~= m);
            assert(users.contains(users.last())) by {
                assert(users[users.len() - 1] == users.last());
            }
        }
    }
}

/// Removing a larger set from a sequence whose removal of a smaller set is
/// known.
proof fn lemma_without_more(s: Seq<Seq<char>>, small: Seq<Seq<char>>, big: Seq<Seq<char>>)
    requires
        small.len() + 1 == big.len(),
        small == big.drop_last(),
    ensures
        forall|x: Seq<char>| big.contains(x) <==> (small.contains(x) || x == big.last()),
{
    assert forall|x: Seq<char>| big.contains(x) <==> (small.contains(x) || x == big.last()) by {
        if big.contains(x) {
            let i = choose|i: int| 0 <= i < big.len() && big[i] == x;
            if i < big.len() - 1 {
                assert(small[i] == x);
            }
        }
        if small.contains(x) {
            let i = choose|i: int| 0 <= i < small.len() && small[i] == x;
            assert(big[i] == x);
        }
        if x == big.last() {
            assert(big[big.len() - 1] == x);
        }
    }
}

/// If removing `small` from `a` and from `b` agree, removing `big` (which
/// adds one name) agrees too.
proof fn lemma_without_congruent(
    a: Seq<Seq<char>>,
    b: Seq<Seq<char>>,
    small: Seq<Seq<char>>,
    big: Seq<Seq<char>>,
)
    requires
        small.len() + 1 == big.len(),
        small == big.drop_last(),
        without_spec(a, small) == without_spec(b, small),
    ensures
        without_spec(a, big) == without_spec(without_spec(a, small), big),
        without_spec(b, big) == without_spec(without_spec(b, small), big),
{
    lemma_without_twice(a, small, big);
    lemma_without_twice(b, small, big);
}

/// Removing `small` then `big` is removing `big`, when `big` holds `small`.
proof fn lemma_without_twice(s: Seq<Seq<char>>, small: Seq<Seq<char>>, big: Seq<Seq<char>>)
    requires
        small.len() + 1 == big.len(),
        small == big.drop_last(),
    ensures
        without_spec(s, big) == without_spec(without_spec(s, small), big),
    decreases s.len(),
{
    lemma_without_more(s, small, big);
    if s.len() > 0 {
        lemma_without_twice(s.drop_last(), small, big);
        let r = without_spec(s.drop_last(), small);
        if !small.contains(s.last()) {
            assert(r.push(s.last()).drop_last() =~= r);
        }
    }
}

/// Label resolution gives one id per name, and only for names that some
/// label of the repository has.
pub proof fn law_label_ids_cover_names(labels: Seq<LabelData>, names: Seq<Seq<char>>)
    requires
        label_ids_spec(labels, names) is Ok,
    ensures
        label_ids_spec(labels, names)->Ok_0.len() == names.len(),
        forall|i: int|
            0 <= i < names.len() ==> label_id_spec(labels, names[i]) == Some(
                label_ids_spec(labels, names)->Ok_0[i],
            ),
    decreases names.len(),
{
    if names.len() > 0 {
        law_label_ids_cover_names(labels, names.drop_first());
        let ids = label_ids_spec(labels, names)->Ok_0;
        let rest = label_ids_spec(labels, names.drop_first())->Ok_0;
        assert forall|i: int| 0 <= i < names.len() implies label_id_spec(labels, names[i]) == Some(
            ids[i],
        ) by {
            if i > 0 {
                assert(names.drop_first()[i - 1] == names[i]);
                assert(ids[i] == rest[i - 1]);
            }
        }
    }
}


// ---------------------------------------------------------------------------
// Texts that parse back
// ---------------------------------------------------------------------------

proof fn lemma_nat_digits(n: nat)
    ensures
        nat_digits(n).len() > 0,
        all_digits(nat_digits(n)),
        digits_value(nat_digits(n)) == n,
    decreases n,
{
    assert(((n % 10 + '0' as nat) as char) as int == n % 10 + 48);
    assert(n < 10 ==> ((n + '0' as nat) as char) as int == n + 48);
    if n >= 10 {
        lemma_nat_digits(n / 10);
        let s = nat_digits(n);
        assert(s.drop_last() =~= nat_digits(n / 10));
        assert(s.last() == ((n % 10 + '0' as nat) as char));
        assert(digits_value(s) == digits_value(s.drop_last()) * 10 + crate::text::digit_value(
            s.last(),
        ));
        assert((n / 10) * 10 + n % 10 == n);
        assert forall|i: int| 0 <= i < s.len() implies crate::text::is_digit(#[trigger] s[i]) by {
            if i < s.len() - 1 {
                assert(s[i] == nat_digits(n / 10)[i]);
            }
        }
    } else {
        let s = nat_digits(n);
        assert(s.drop_last() =~= Seq::<char>::empty());
        assert(digits_value(s.drop_last()) == 0);
        assert(digits_value(s) == digits_value(s.drop_last()) * 10 + crate::text::digit_value(
            s.last(),
        ));
    }
}

/// The decimal text of a number parses back to it.
pub proof fn law_number_text_parses(n: i64)
    ensures
        parse_i64(decimal_text(n)) == Some(n),
{
    if n < 0 {
        let m = (-(n as int)) as nat;
        lemma_nat_digits(m);
        let s = decimal_text(n);
        assert(s.drop_first() =~= nat_digits(m));
    } else {
        lemma_nat_digits(n as nat);
        let s = nat_digits(n as nat);
        assert(crate::text::is_digit(s[0]));
    }
}

/// Every character of the decimal text of a number is a digit or a leading
/// minus sign; it starts and ends with no white space.
proof fn lemma_decimal_chars(n: i64)
    ensures
        decimal_text(n).len() > 0,
        forall|i: int|
            0 <= i < decimal_text(n).len() ==> (crate::text::is_digit(#[trigger] decimal_text(n)[i])
                || (i == 0 && decimal_text(n)[i] == '-')),
        crate::text::is_digit(decimal_text(n).last()),
{
    if n < 0 {
        let m = (-(n as int)) as nat;
        lemma_nat_digits(m);
        let s = decimal_text(n);
        assert forall|i: int| 0 <= i < s.len() implies (crate::text::is_digit(#[trigger] s[i]) || (i
            == 0 && s[i] == '-')) by {
            if i > 0 {
                assert(s[i] == nat_digits(m)[i - 1]);
            }
        }
        assert(s.last() == nat_digits(m).last());
        assert(crate::text::is_digit(nat_digits(m)[nat_digits(m).len() - 1]));
    } else {
        lemma_nat_digits(n as nat);
        assert(crate::text::is_digit(nat_digits(n as nat)[nat_digits(n as nat).len() - 1]));
    }
}

/// A text with no white space at either end is its own trim.
proof fn lemma_trim_noop(s: Seq<char>)
    requires
        s.len() > 0,
        !is_space(s[0]),
        !is_space(s.last()),
    ensures
        trim(s) == s,
{
}

/// A text whose ends are not `c` is unchanged by trimming `c`.
proof fn lemma_trim_char_noop(s: Seq<char>, c: char)
    requires
        s.len() > 0,
        s[0] != c,
        s.last() != c,
    ensures
        trim_end_by(trim_start_by(s, Strip::Char(c)), Strip::Char(c)) == s,
{
}

/// A part of a repository name as the parser gives it: not empty, with no
/// slash and no `@`.
pub open spec fn name_part(s: Seq<char>) -> bool {
    &&& s.len() > 0
    &&& forall|i: int| 0 <= i < s.len() ==> #[trigger] s[i] != '/' && s[i] != '@'
}

/// A repository name that reads the same when written out: parts as the
/// parser gives them, where the written name does not begin or end with
/// white space (which reading trims).
pub open spec fn printable_repo(r: RepoModel) -> bool {
    &&& name_part(r.owner)
    &&& name_part(r.name)
    &&& !is_space(r.owner[0])
    &&& !is_space(r.name.last())
}

proof fn lemma_full_name_chars(r: RepoModel)
    requires
        printable_repo(r),
    ensures
        ({
            let t = full_name(r);
            &&& t.len() == r.owner.len() + 1 + r.name.len()
            &&& t[r.owner.len() as int] == '/'
            &&& forall|i: int| 0 <= i < t.len() && i != r.owner.len() ==> #[trigger] t[i] != '/'
            &&& forall|i: int| 0 <= i < t.len() ==> #[trigger] t[i] != '@'
            &&& !is_space(t[0])
            &&& !is_space(t.last())
            &&& t.take(r.owner.len() as int) == r.owner
            &&& t.skip(r.owner.len() as int + 1) == r.name
        }),
{
    reveal_strlit("/");
    let t = full_name(r);
    let o = r.owner.len() as int;
    assert forall|i: int| 0 <= i < t.len() && i != o implies #[trigger] t[i] != '/' by {
        if i < o {
            assert(t[i] == r.owner[i]);
        } else {
            assert(t[i] == r.name[i - o - 1]);
        }
    }
    assert forall|i: int| 0 <= i < t.len() implies #[trigger] t[i] != '@' by {
        if i < o {
            assert(t[i] == r.owner[i]);
        } else if i > o {
            assert(t[i] == r.name[i - o - 1]);
        }
    }
    assert(t[0] == r.owner[0]);
    assert(t.last() == r.name[r.name.len() - 1]);
    assert(t.take(o) =~= r.owner);
    assert(t.skip(o + 1) =~= r.name);
}

/// A repository name written as `owner/name` parses back to itself.
pub proof fn law_repo_name_parses(r: RepoModel)
    requires
        printable_repo(r),
    ensures
        repo_parse(full_name(r)) == Ok::<RepoModel, ErrorModel>(r),
{
    lemma_full_name_chars(r);
    let t = full_name(r);
    let o = r.owner.len() as int;
    lemma_trim_noop(t);
    lemma_trim_char_noop(t, '/');
    assert(strip_slashes(trim(t)) == t);
    assert(is_first(t, '/', o));
    assert(has_char(t, '/'));
    let k = choose|k: int| is_first(t, '/', k);
    assert(k == o);
    assert(!has_char(r.name, '/')) by {
        if has_char(r.name, '/') {
            let j = choose|j: int| 0 <= j < r.name.len() && r.name[j] == '/';
            assert(t[o + 1 + j] == r.name[j]);
        }
    }
    assert(!has_text(t, "://"@)) by {
        if has_text(t, "://"@) {
            let i = choose|i: int| occurs_at(t, "://"@, i);
            reveal_strlit("://");
            assert(t.subrange(i, i + 3)[1] == '/');
            assert(t.subrange(i, i + 3)[2] == '/');
            assert(t[i + 1] == '/');
            assert(t[i + 2] == '/');
        }
    }
    assert(!has_char(t, '@'));
}

/// `N` is a reference to issue `N` of the resolved repository.
pub proof fn law_number_reference(n: i64)
    requires
        n > 0,
    ensures
        issue_ref_parse(decimal_text(n)) == Ok::<IssueRefModel, ErrorModel>(
            IssueRefModel { repo: None, number: n },
        ),
{
    lemma_decimal_chars(n);
    law_number_text_parses(n);
    let s = decimal_text(n);
    assert(!is_space(s[0]));
    lemma_trim_noop(s);
    assert(!has_char(s, '#')) by {
        if has_char(s, '#') {
            let j = choose|j: int| 0 <= j < s.len() && s[j] == '#';
            assert(crate::text::is_digit(s[j]) || (j == 0 && s[j] == '-'));
        }
    }
}

/// `#N` is a reference to issue `N` of the resolved repository.
pub proof fn law_hash_number_reference(n: i64)
    requires
        n > 0,
    ensures
        issue_ref_parse("#"@ + decimal_text(n)) == Ok::<IssueRefModel, ErrorModel>(
            IssueRefModel { repo: None, number: n },
        ),
{
    lemma_decimal_chars(n);
    law_number_text_parses(n);
    reveal_strlit("#");
    let d = decimal_text(n);
    let t = "#"@ + d;
    assert(t[0] == '#');
    assert(t.last() == d.last());
    lemma_trim_noop(t);
    assert(!is_space(d[0]));
    lemma_trim_noop(d);
    assert forall|j: int| 0 < j < t.len() implies t[j] != '#' by {
        assert(t[j] == d[j - 1]);
        assert(crate::text::is_digit(d[j - 1]) || (j - 1 == 0 && d[j - 1] == '-'));
    }
    assert(is_last(t, '#', 0));
    assert(has_char(t, '#'));
    let k = choose|k: int| is_last(t, '#', k);
    assert(k == 0);
    assert(t.take(0) =~= Seq::<char>::empty());
    assert(t.skip(1) =~= d);
}

/// `owner/name#N` is a reference to issue `N` of repository `owner/name`.
pub proof fn law_qualified_reference(r: RepoModel, n: i64)
    requires
        printable_repo(r),
        n > 0,
    ensures
        issue_ref_parse(full_name(r) + "#"@ + decimal_text(n)) == Ok::<IssueRefModel, ErrorModel>(
            IssueRefModel { repo: Some(r), number: n },
        ),
{
    lemma_decimal_chars(n);
    law_number_text_parses(n);
    law_repo_name_parses(r);
    lemma_full_name_chars(r);
    reveal_strlit("#");
    let f = full_name(r);
    let d = decimal_text(n);
    let t = f + "#"@ + d;
    let p = f.len() as int;
    assert(t[0] == f[0]);
    assert(t.last() == d.last());
    lemma_trim_noop(t);
    assert(!is_space(d[0]));
    lemma_trim_noop(d);
    assert(t[p] == '#');
    assert forall|j: int| p < j < t.len() implies t[j] != '#' by {
        assert(t[j] == d[j - p - 1]);
        assert(crate::text::is_digit(d[j - p - 1]) || (j - p - 1 == 0 && d[j - p - 1] == '-'));
    }
    assert(is_last(t, '#', p));
    assert(has_char(t, '#'));
    let k = choose|k: int| is_last(t, '#', k);
    assert(k == p);
    assert(t.take(p) =~= f);
    assert(t.skip(p + 1) =~= d);
}


/// `-R` takes `owner/repo`, never a URL: a text holding `://` or `@` is
/// refused.
pub proof fn law_repo_rejects_urls(s: Seq<char>)
    requires
        has_text(strip_slashes(trim(s)), "://"@) || has_char(strip_slashes(trim(s)), '@'),
    ensures
        repo_parse(s) is Err,
{
}

/// A limited `list` asks for one record more than the limit; whatever comes
/// back, at most `limit` records are shown, and the result is marked
/// truncated exactly when the extra record came.
pub proof fn law_list_window(returned: nat, limit: u32)
    requires
        limit < u32::MAX,
        returned <= limit + 1,
    ensures
        (((returned as u32) > limit) <==> returned == limit + 1),
        ((returned as u32) > limit ==> limit <= returned),
        ((returned as u32) <= limit ==> returned <= limit),
{
}

/// A refused close exits 4, whether or not its blockers could be fetched.
pub proof fn law_refused_close_exits_4(error: Seq<char>, blocked_by: Option<Seq<i64>>)
    ensures
        exit_code_of(ErrorModel::Blocked { error, blocked_by }) == 4,
        report_of(ErrorModel::Blocked { error, blocked_by }).code == "blocked"@,
        report_of(ErrorModel::Blocked { error, blocked_by }).http == Some(412u16),
{
}


/// A checked `list` has a limit of at least 1 and below `u32::MAX` (so the
/// one extra record it asks for can be counted), and never both `--all` and
/// an explicit `--limit`.
pub proof fn law_checked_list_limits(c: Commands)
    requires
        c is List,
        into_command_spec(c) is Ok,
    ensures
        into_command_spec(c)->Ok_0 matches CommandModel::List { limit, all, .. } && 1 <= limit
            < u32::MAX && !(all && c->List_limit is Some),
{
}

/// Every parsed issue reference has a positive number.
pub proof fn law_reference_numbers_positive(s: Seq<char>)
    requires
        issue_ref_parse(s) is Ok,
    ensures
        issue_ref_parse(s)->Ok_0.number > 0,
{
}


/// The exit code of a code in the exit-code table: 3 for `not_found`, 4 for
/// `blocked` and `conflict`, 2 for the other transport codes.
pub open spec fn exit_for_code(code: Seq<char>) -> i32 {
    if code == "not_found"@ {
        3
    } else if code == "blocked"@ || code == "conflict"@ {
        4
    } else {
        2
    }
}

/// A failure of the API exits with the code that the table gives for the
/// `code` of its report.
pub proof fn law_api_failure_exit_matches_code(f: ApiFailure)
    ensures
        exit_code_of(map_spec(f)) == exit_for_code(report_of(map_spec(f)).code),
{
    reveal_strlit("not_found");
    reveal_strlit("blocked");
    reveal_strlit("conflict");
    reveal_strlit("http");
    reveal_strlit("network");
    reveal_strlit("uncertain");
    assert("http"@.len() == 4 && "network"@.len() == 7 && "uncertain"@.len() == 9);
    assert("not_found"@.len() == 9 && "blocked"@.len() == 7 && "conflict"@.len() == 8);
    assert("network"@[0] != "blocked"@[0]);
    assert("uncertain"@[0] != "not_found"@[0]);
}

/// `close N` closes the issue its text names, never reopens it; a text that
/// is no reference is refused with the parser's error.
pub proof fn law_close_closes(issue: String)
    ensures
        into_command_spec(Commands::Close { issue }) == match issue_ref_parse(issue@) {
            Ok(i) => Ok::<CommandModel, ErrorModel>(CommandModel::Close { issue: i }),
            Err(e) => Err::<CommandModel, ErrorModel>(e),
        },
{
}

/// `reopen N` reopens the issue its text names, never closes it; a text
/// that is no reference is refused with the parser's error.
pub proof fn law_reopen_reopens(issue: String)
    ensures
        into_command_spec(Commands::Reopen { issue }) == match issue_ref_parse(issue@) {
            Ok(i) => Ok::<CommandModel, ErrorModel>(CommandModel::Reopen { issue: i }),
            Err(e) => Err::<CommandModel, ErrorModel>(e),
        },
{
}

/// `view N` shows the issue its text names.
pub proof fn law_view_shows(issue: String)
    ensures
        into_command_spec(Commands::View { issue }) == match issue_ref_parse(issue@) {
            Ok(i) => Ok::<CommandModel, ErrorModel>(CommandModel::View { issue: i }),
            Err(e) => Err::<CommandModel, ErrorModel>(e),
        },
{
}

/// `dep list N` shows the dependencies of the issue its text names.
pub proof fn law_dep_list_shows(issue: String)
    ensures
        into_command_spec(Commands::Dep { action: DepAction::List { issue } }) == match issue_ref_parse(issue@) {
            Ok(i) => Ok::<CommandModel, ErrorModel>(CommandModel::DepList { issue: i }),
            Err(e) => Err::<CommandModel, ErrorModel>(e),
        },
{
}

/// `assign`, `unassign`, `label add` and `label rm` act on the issue their
/// text names with the names given, in order, when at least one is given.
pub proof fn law_name_commands_keep_their_verb(issue: String, names: Vec<String>)
    requires
        names@.len() > 0,
        issue_ref_parse(issue@) is Ok,
    ensures
        ({
            let i = issue_ref_parse(issue@)->Ok_0;
            &&& into_command_spec(Commands::Assign { issue, users: names }) == Ok::<
                CommandModel,
                ErrorModel,
            >(CommandModel::Assign { issue: i, users: names@ })
            &&& into_command_spec(Commands::Unassign { issue, users: names }) == Ok::<
                CommandModel,
                ErrorModel,
            >(CommandModel::Unassign { issue: i, users: names@ })
            &&& into_command_spec(
                Commands::Label { action: LabelAction::Add { issue, labels: names } },
            ) == Ok::<CommandModel, ErrorModel>(CommandModel::LabelAdd { issue: i, labels: names@ })
            &&& into_command_spec(
                Commands::Label { action: LabelAction::Rm { issue, labels: names } },
            ) == Ok::<CommandModel, ErrorModel>(CommandModel::LabelRm { issue: i, labels: names@ })
        }),
{
}

/// `list --state` filters by the state it names: `open`, `closed` or `all`.
pub proof fn law_list_state_named(
    state: String,
    labels: Vec<String>,
    assignee: Option<String>,
    search: Option<String>,
    limit: Option<u32>,
    all: bool,
    no_deps: bool,
)
    requires
        into_command_spec(
            Commands::List { state, labels, assignee, search, limit, all, no_deps },
        ) is Ok,
    ensures
        ({
            let c = into_command_spec(
                Commands::List { state, labels, assignee, search, limit, all, no_deps },
            )->Ok_0;
            &&& c is List
            &&& (c->state == ListState::Open <==> state@ == "open"@)
            &&& (c->state == ListState::Closed <==> state@ == "closed"@)
            &&& (c->state == ListState::All <==> state@ == "all"@)
            &&& c->all == all
            &&& c->no_deps == no_deps
        }),
{
    reveal_strlit("open");
    reveal_strlit("closed");
    reveal_strlit("all");
    assert("open"@.len() == 4 && "closed"@.len() == 6 && "all"@.len() == 3);
}

/// The host of a resolved request is `-H` when it is given (normalized);
/// the git origin's host is used only when it is not.
pub proof fn law_host_flag_wins(
    ctx: Context,
    issue: Option<IssueRefModel>,
    extras: Seq<IssueRefModel>,
    h: String,
)
    requires
        ctx.host == Some(h),
        resolve_spec(ctx, issue, extras) is Ok,
    ensures
        normalize_host_spec(h@, ctx.allow_http) is Ok,
        resolve_spec(ctx, issue, extras)->Ok_0.host_url == normalize_host_spec(
            h@,
            ctx.allow_http,
        )->Ok_0,
{
}

/// Without `-H`, the host is the git origin's: resolution succeeds only with
/// an origin that parses, and its host (normalized) is the one used.
pub proof fn law_origin_host_without_flag(
    ctx: Context,
    issue: Option<IssueRefModel>,
    extras: Seq<IssueRefModel>,
)
    requires
        ctx.host is None,
        resolve_spec(ctx, issue, extras) is Ok,
    ensures
        ctx.git_origin is Some,
        parse_origin_spec(ctx.git_origin->0@) is Ok,
        resolve_spec(ctx, issue, extras)->Ok_0.host_url == normalize_host_spec(
            parse_origin_spec(ctx.git_origin->0@)->Ok_0.0,
            ctx.allow_http,
        )->Ok_0,
{
}

/// With no repository from `-R` or any reference, the repository is the
/// git origin's.
pub proof fn law_origin_fills_repo(
    ctx: Context,
    issue: Option<IssueRefModel>,
    extras: Seq<IssueRefModel>,
)
    requires
        ctx.repo is None,
        issue_repo(issue) is None,
        forall|k: int| 0 <= k < extras.len() ==> (#[trigger] extras[k]).repo is None,
        resolve_spec(ctx, issue, extras) is Ok,
    ensures
        ctx.git_origin is Some,
        parse_origin_spec(ctx.git_origin->0@) is Ok,
        resolve_spec(ctx, issue, extras)->Ok_0.repo == parse_origin_spec(
            ctx.git_origin->0@,
        )->Ok_0.1,
{
    lemma_scan_unqualified(extras);
}

/// References that name no repository leave the scan where it started.
proof fn lemma_scan_unqualified(refs: Seq<IssueRefModel>)
    requires
        forall|k: int| 0 <= k < refs.len() ==> (#[trigger] refs[k]).repo is None,
    ensures
        scan_repos(None, refs) == Some(None::<RepoModel>),
    decreases refs.len(),
{
    if refs.len() > 0 {
        let rest = refs.drop_first();
        assert forall|k: int| 0 <= k < rest.len() implies (#[trigger] rest[k]).repo is None by {
            assert(rest[k] == refs[k + 1]);
        }
        assert(refs[0].repo is None);
        lemma_scan_unqualified(rest);
    }
}

/// `list` shows every issue that has a number, open or closed, and nothing
/// else: pull requests and records without a number are left out.
pub proof fn law_listed_records(s: Seq<IssueData>, d: IssueData)
    ensures
        keep_listed(s).contains(d) <==> s.contains(d) && !d.is_pull && d.number is Some,
    decreases s.len(),
{
    if s.len() > 0 {
        let init = s.drop_last();
        law_listed_records(init, d);
        assert(s =~= init.push(s.last()));
        if s.contains(d) && d != s.last() {
            let j = choose|j: int| 0 <= j < s.len() && s[j] == d;
            assert(j < s.len() - 1);
            assert(init[j] == d);
        }
        if init.contains(d) {
            let j = choose|j: int| 0 <= j < init.len() && init[j] == d;
            assert(s[j] == d);
        }
        let r = keep_listed(init);
        if !d.is_pull && d.number is Some && d == s.last() {
            assert(keep_listed(s)[r.len() as int] == d);
        }
        if keep_listed(s).contains(d) && !r.contains(d) {
            let j = choose|j: int| 0 <= j < keep_listed(s).len() && keep_listed(s)[j] == d;
            if j < r.len() {
                assert(keep_listed(s)[j] == r[j]);
            }
        }
        if r.contains(d) {
            let j = choose|j: int| 0 <= j < r.len() && r[j] == d;
            assert(keep_listed(s)[j] == d);
        }
    }
}

/// `list` keeps the order of the listing: what it shows comes in the order
/// the server gave it, and it never shows more records than it got.
pub proof fn law_listed_in_order(s: Seq<IssueData>)
    ensures
        keep_listed(s).len() <= s.len(),
        keep_listed(s) == s.filter(|d: IssueData| !d.is_pull && d.number is Some),
    decreases s.len(),
{
    reveal(Seq::filter);
    if s.len() > 0 {
        law_listed_in_order(s.drop_last());
    }
}

/// An issue is shown field by field: each field of the view is the field of
/// the same name (absent text is empty, an absent number 0), the state is
/// `closed` or `open`, and dependencies and comments are those given.
pub proof fn law_projection_fields(
    issue: IssueData,
    blocked_by: Option<Seq<RelIssueModel>>,
    blocks: Option<Seq<RelIssueModel>>,
    comments: Option<Seq<CommentModel>>,
)
    ensures
        ({
            let v = project_spec(issue, blocked_by, blocks, comments);
            &&& v.number == (match issue.number {
                Some(n) => n,
                None => 0,
            })
            &&& v.url == (match issue.html_url {
                Some(t) => t@,
                None => Seq::<char>::empty(),
            })
            &&& v.title == (match issue.title {
                Some(t) => t@,
                None => Seq::<char>::empty(),
            })
            &&& v.body == (match issue.body {
                Some(t) => t@,
                None => Seq::<char>::empty(),
            })
            &&& v.author == (match issue.author {
                Some(t) => t@,
                None => Seq::<char>::empty(),
            })
            &&& v.state == (if issue.closed {
                "closed"@
            } else {
                "open"@
            })
            &&& v.labels == crate::client::present_names(issue.labels)
            &&& v.assignees == crate::client::present_names(issue.assignees)
            &&& v.blocked_by == blocked_by
            &&& v.blocks == blocks
            &&& v.comments == comments
            &&& v.created_at == time_text(issue.created_at)
            &&& v.updated_at == time_text(issue.updated_at)
        }),
{
}

/// The text of a described API failure, as reported.
pub open spec fn described(message: Option<String>) -> Seq<char> {
    match message {
        Some(s) => s@,
        None => "forgejo api error"@,
    }
}

/// Only a 404 is "not found" (exit 3); a refused close (412, or an answer
/// about open dependencies) and a conflict (409) exit 4; every other failure
/// exits 2.
pub proof fn law_failure_exit_codes(f: ApiFailure)
    ensures
        exit_code_of(map_spec(f)) == 3 <==> match f {
            ApiFailure::Api { message, kind } => kind == ApiKind::NotFound && !has_text(
                described(message),
                "open dependencies"@,
            ),
            ApiFailure::Status { code, .. } => code == 404,
            _ => false,
        },
        exit_code_of(map_spec(f)) == 4 <==> match f {
            ApiFailure::Api { message, kind } => has_text(described(message), "open dependencies"@)
                || kind == ApiKind::Status(412) || kind == ApiKind::Status(409),
            ApiFailure::Status { code, .. } => code == 412 || code == 409,
            _ => false,
        },
{
}

/// A described API error of no particular kind (access denied, validation)
/// that says nothing of open dependencies is an HTTP error with its message
/// and no status: exit 2, never "not found".
pub proof fn law_other_api_errors_are_http(message: Option<String>)
    requires
        !has_text(described(message), "open dependencies"@),
    ensures
        map_spec(ApiFailure::Api { message, kind: ApiKind::Other }) == (ErrorModel::Http {
            code: "http"@,
            error: described(message),
            http: None,
        }),
        exit_code_of(map_spec(ApiFailure::Api { message, kind: ApiKind::Other })) == 2,
{
}

/// References given as a list are parsed one by one, in order.
proof fn lemma_refs_parsed(values: Seq<String>)
    requires
        parse_refs_spec(values) is Ok,
    ensures
        parse_refs_spec(values)->Ok_0.len() == values.len(),
        forall|k: int|
            0 <= k < values.len() ==> issue_ref_parse(values[k]@) == Ok::<IssueRefModel, ErrorModel>(
                #[trigger] parse_refs_spec(values)->Ok_0[k],
            ),
    decreases values.len(),
{
    if values.len() > 0 {
        let rest = values.drop_first();
        lemma_refs_parsed(rest);
        let rs = parse_refs_spec(values)->Ok_0;
        assert forall|k: int| 0 <= k < values.len() implies issue_ref_parse(values[k]@) == Ok::<
            IssueRefModel,
            ErrorModel,
        >(#[trigger] rs[k]) by {
            if k > 0 {
                assert(values[k] == rest[k - 1]);
                assert(rs[k] == parse_refs_spec(rest)->Ok_0[k - 1]);
            }
        }
    }
}

/// `create` makes the issue it is given: its title, its body (the `--body`
/// text when given), its labels and assignees as given, and one blocker for
/// each `--blocked-by`, in order, each the reference its text names.
pub proof fn law_create_keeps_its_fields(
    title: String,
    body: Option<String>,
    body_file: Option<BodyFile>,
    labels: Vec<String>,
    assignees: Vec<String>,
    blocked_by: Vec<String>,
)
    requires
        into_command_spec(
            Commands::Create { title, body, body_file, labels, assignees, blocked_by },
        ) is Ok,
    ensures
        ({
            let c = into_command_spec(
                Commands::Create { title, body, body_file, labels, assignees, blocked_by },
            )->Ok_0;
            &&& c is Create
            &&& c->Create_title == title@
            &&& body is Some ==> c->Create_body == body->0@
            &&& c->Create_labels == labels@
            &&& c->Create_assignees == assignees@
            &&& c->Create_blocked_by.len() == blocked_by@.len()
            &&& forall|k: int|
                0 <= k < blocked_by@.len() ==> issue_ref_parse(blocked_by@[k]@) == Ok::<
                    IssueRefModel,
                    ErrorModel,
                >(#[trigger] c->Create_blocked_by[k])
        }),
{
    lemma_refs_parsed(blocked_by@);
}

/// `comment N` comments on the issue its text names, with the `--body` text
/// when given.
pub proof fn law_comment_keeps_its_fields(
    issue: String,
    body: Option<String>,
    body_file: Option<BodyFile>,
)
    requires
        into_command_spec(Commands::Comment { issue, body, body_file }) is Ok,
    ensures
        ({
            let c = into_command_spec(Commands::Comment { issue, body, body_file })->Ok_0;
            &&& c is Comment
            &&& issue_ref_parse(issue@) == Ok::<IssueRefModel, ErrorModel>(c->Comment_issue)
            &&& body is Some ==> c->Comment_body == body->0@
        }),
{
}

/// `edit N` edits the issue its text names, setting the title given and the
/// `--body` text when given.
pub proof fn law_edit_keeps_its_fields(
    issue: String,
    title: Option<String>,
    body: Option<String>,
    body_file: Option<BodyFile>,
)
    requires
        into_command_spec(Commands::Edit { issue, title, body, body_file }) is Ok,
    ensures
        ({
            let c = into_command_spec(Commands::Edit { issue, title, body, body_file })->Ok_0;
            &&& c is Edit
            &&& issue_ref_parse(issue@) == Ok::<IssueRefModel, ErrorModel>(c->Edit_issue)
            &&& c->Edit_title == crate::cli::text_opt(title)
            &&& body is Some ==> c->Edit_body == Some(body->0@)
            &&& c->Edit_title is Some || c->Edit_body is Some
        }),
{
}

/// `dep add N M...` makes issue `N` blocked by each `M`, in order; `dep rm N
/// M` removes the dependency of `N` on `M` (never the other way round).
pub proof fn law_dep_commands_keep_their_issues(
    issue: String,
    blocked_by: Vec<String>,
    blocker: String,
)
    ensures
        into_command_spec(Commands::Dep { action: DepAction::Add { issue, blocked_by } }) is Ok
            ==> ({
            let c = into_command_spec(
                Commands::Dep { action: DepAction::Add { issue, blocked_by } },
            )->Ok_0;
            &&& c is DepAdd
            &&& issue_ref_parse(issue@) == Ok::<IssueRefModel, ErrorModel>(c->DepAdd_issue)
            &&& c->DepAdd_blocked_by.len() == blocked_by@.len()
            &&& forall|k: int|
                0 <= k < blocked_by@.len() ==> issue_ref_parse(blocked_by@[k]@) == Ok::<
                    IssueRefModel,
                    ErrorModel,
                >(#[trigger] c->DepAdd_blocked_by[k])
        }),
        into_command_spec(Commands::Dep { action: DepAction::Rm { issue, blocked_by: blocker } })
            is Ok ==> ({
            let c = into_command_spec(
                Commands::Dep { action: DepAction::Rm { issue, blocked_by: blocker } },
            )->Ok_0;
            &&& c is DepRm
            &&& issue_ref_parse(issue@) == Ok::<IssueRefModel, ErrorModel>(c->DepRm_issue)
            &&& issue_ref_parse(blocker@) == Ok::<IssueRefModel, ErrorModel>(c->DepRm_blocked_by)
        }),
{
    if into_command_spec(Commands::Dep { action: DepAction::Add { issue, blocked_by } }) is Ok {
        lemma_refs_parsed(blocked_by@);
    }
}

/// A request that timed out may have landed: it is reported as uncertain. One
/// that could not connect is a network error, and any other transport
/// failure an HTTP error, each with its text and the status if one came back.
pub proof fn law_transport_failures(
    timeout: bool,
    connect: bool,
    request: bool,
    status: Option<u16>,
    text: String,
)
    ensures
        ({
            let e = map_spec(ApiFailure::Transport { timeout, connect, request, status, text });
            &&& timeout ==> e == (ErrorModel::Uncertain {
                error: text@,
                issue_number: None,
                issue_url: None,
            })
            &&& !timeout && connect ==> e == (ErrorModel::Http {
                code: "network"@,
                error: text@,
                http: status,
            })
            &&& !timeout && !connect ==> e == (ErrorModel::Http {
                code: "http"@,
                error: text@,
                http: status,
            })
        }),
{
}

/// A related issue is shown by its own number (0 when absent), state, title
/// and URL.
pub proof fn law_related_issue_fields(issue: IssueData)
    ensures
        rel_spec(issue).number == (match issue.number {
            Some(n) => n,
            None => 0,
        }),
        rel_spec(issue).state == (if issue.closed {
            "closed"@
        } else {
            "open"@
        }),
        rel_spec(issue).title == (match issue.title {
            Some(t) => t@,
            None => Seq::<char>::empty(),
        }),
        rel_spec(issue).url == (match issue.html_url {
            Some(t) => t@,
            None => Seq::<char>::empty(),
        }),
{
}

/// A comment is shown by its own id (0 when absent), author, body and time.
pub proof fn law_comment_fields(c: CommentData)
    ensures
        comment_spec(c).id == (match c.id {
            Some(n) => n,
            None => 0,
        }),
        comment_spec(c).author == (match c.author {
            Some(t) => t@,
            None => Seq::<char>::empty(),
        }),
        comment_spec(c).body == (match c.body {
            Some(t) => t@,
            None => Seq::<char>::empty(),
        }),
        comment_spec(c).created_at == time_text(c.created_at),
{
}

} // verus!
