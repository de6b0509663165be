//! Text helpers over sequences of characters: trimming, splitting, searching,
//! and the decimal forms of integers.
use vstd::prelude::*;

verus! {

// ---------------------------------------------------------------------------
// Specifications
// ---------------------------------------------------------------------------

/// The Unicode `White_Space` property, which `char::is_whitespace` tests.
pub open spec fn is_space(c: char) -> bool {
    let u = c as u32;
    ||| 0x9 <= u <= 0xd
    ||| u == 0x20
    ||| u == 0x85
    ||| u == 0xa0
    ||| u == 0x1680
    ||| 0x2000 <= u <= 0x200a
    ||| u == 0x2028
    ||| u == 0x2029
    ||| u == 0x202f
    ||| u == 0x205f
    ||| u == 0x3000
}

/// Which characters a trim removes.
#[derive(Clone, Copy, Debug, PartialEq, Eq)]
pub enum Strip {
    /// White space, as `str::trim` removes it.
    Space,
    /// One given character, as `str::trim_matches(c)` removes it.
    Char(char),
}

pub open spec fn strips(k: Strip, c: char) -> bool {
    match k {
        Strip::Space => is_space(c),
        Strip::Char(d) => c == d,
    }
}

/// `s` without its leading characters that `k` strips.
pub open spec fn trim_start_by(s: Seq<char>, k: Strip) -> Seq<char>
    decreases s.len(),
{
    if s.len() > 0 && strips(k, s[0]) {
        trim_start_by(s.drop_first(), k)
    } else {
        s
    }
}

/// `s` without its trailing characters that `k` strips.
pub open spec fn trim_end_by(s: Seq<char>, k: Strip) -> Seq<char>
    decreases s.len(),
{
    if s.len() > 0 && strips(k, s.last()) {
        trim_end_by(s.drop_last(), k)
    } else {
        s
    }
}

/// `str::trim`: white space removed from both ends.
pub open spec fn trim(s: Seq<char>) -> Seq<char> {
    trim_end_by(trim_start_by(s, Strip::Space), Strip::Space)
}

/// `i` is the first position of `c` in `s`.
pub open spec fn is_first(s: Seq<char>, c: char, i: int) -> bool {
    &&& 0 <= i < s.len()
    &&& s[i] == c
    &&& forall|j: int| 0 <= j < i ==> s[j] != c
}

/// `i` is the last position of `c` in `s`.
pub open spec fn is_last(s: Seq<char>, c: char, i: int) -> bool {
    &&& 0 <= i < s.len()
    &&& s[i] == c
    &&& forall|j: int| i < j < s.len() ==> s[j] != c
}

pub open spec fn has_char(s: Seq<char>, c: char) -> bool {
    exists|i: int| 0 <= i < s.len() && s[i] == c
}

/// `str::split_once(c)`: the text before and after the first `c`.
pub open spec fn split_first(s: Seq<char>, c: char) -> Option<(Seq<char>, Seq<char>)> {
    if has_char(s, c) {
        let i = choose|i: int| is_first(s, c, i);
        Some((s.take(i), s.skip(i + 1)))
    } else {
        None
    }
}

/// `str::rsplit_once(c)`: the text before and after the last `c`.
pub open spec fn split_last(s: Seq<char>, c: char) -> Option<(Seq<char>, Seq<char>)> {
    if has_char(s, c) {
        let i = choose|i: int| is_last(s, c, i);
        Some((s.take(i), s.skip(i + 1)))
    } else {
        None
    }
}

/// `p` occurs in `s` at position `i`.
pub open spec fn occurs_at(s: Seq<char>, p: Seq<char>, i: int) -> bool {
    0 <= i && i + p.len() <= s.len() && s.subrange(i, i + p.len()) == p
}

/// `str::contains` for a text pattern.
pub open spec fn has_text(s: Seq<char>, p: Seq<char>) -> bool {
    exists|i: int| occurs_at(s, p, i)
}

/// `str::strip_prefix`.
pub open spec fn strip_prefix(s: Seq<char>, p: Seq<char>) -> Option<Seq<char>> {
    if p.len() <= s.len() && s.take(p.len() as int) == p {
        Some(s.skip(p.len() as int))
    } else {
        None
    }
}

/// `str::strip_suffix`.
pub open spec fn strip_suffix(s: Seq<char>, p: Seq<char>) -> Option<Seq<char>> {
    if p.len() <= s.len() && s.skip(s.len() - p.len()) == p {
        Some(s.take(s.len() - p.len()))
    } else {
        None
    }
}

pub open spec fn is_digit(c: char) -> bool {
    '0' <= c <= '9'
}

pub open spec fn all_digits(s: Seq<char>) -> bool {
    forall|i: int| 0 <= i < s.len() ==> is_digit(#[trigger] s[i])
}

pub open spec fn digit_value(c: char) -> int {
    c as int - '0' as int
}

/// The number that a run of decimal digits writes.
pub open spec fn digits_value(s: Seq<char>) -> int
    decreases s.len(),
{
    if s.len() == 0 {
        0
    } else {
        digits_value(s.drop_last()) * 10 + digit_value(s.last())
    }
}

/// `i64::from_str`: an optional sign, then one or more decimal digits, whose
/// value fits in an `i64`.
pub open spec fn parse_i64(s: Seq<char>) -> Option<i64> {
    let neg = s.len() > 0 && s[0] == '-';
    let digits = if s.len() > 0 && (s[0] == '-' || s[0] == '+') {
        s.drop_first()
    } else {
        s
    };
    let v = if neg {
        -digits_value(digits)
    } else {
        digits_value(digits)
    };
    if digits.len() == 0 || !all_digits(digits) || v < i64::MIN || v > i64::MAX {
        None
    } else {
        Some(v as i64)
    }
}

/// `u64::from_str`: an optional `+`, then one or more decimal digits, whose
/// value fits in a `u64`.
pub open spec fn parse_u64(s: Seq<char>) -> Option<u64> {
    let digits = if s.len() > 0 && s[0] == '+' {
        s.drop_first()
    } else {
        s
    };
    let v = digits_value(digits);
    if digits.len() == 0 || !all_digits(digits) || v > u64::MAX {
        None
    } else {
        Some(v as u64)
    }
}

/// The decimal digits of a natural number, most significant first.
pub open spec fn nat_digits(n: nat) -> Seq<char>
    decreases n,
{
    if n < 10 {
        seq![(n + '0' as nat) as char]
    } else {
        nat_digits(n / 10).push(((n % 10) + '0' as nat) as char)
    }
}

/// The text that `Display` gives an `i64`: a minus sign for a negative
/// number, then its decimal digits.
pub open spec fn decimal_text(n: i64) -> Seq<char> {
    if n < 0 {
        seq!['-'] + nat_digits((-(n as int)) as nat)
    } else {
        nat_digits(n as nat)
    }
}

/// What `Debug` writes for a string: the text in double quotes, with
/// characters escaped as `char::escape_debug` escapes them.
pub uninterp spec fn debug_text(s: Seq<char>) -> Seq<char>;

// ---------------------------------------------------------------------------
// Trusted conversions of std
// ---------------------------------------------------------------------------

/// `String: FromIterator<char>` (`collect`): the string of the given
/// characters, in order.
#[verifier::external_body]
pub(crate) fn string_of(v: &Vec<char>) -> (s: String)
    ensures
        s@ == v@,
{
    v.iter().collect()
}

/// `<str as Debug>::fmt`, through `format!`: the quoted, escaped form of `s`.
#[verifier::external_body]
pub(crate) fn quoted(s: &str) -> (r: String)
    ensures
        r@ == debug_text(s@),
{
    format!("{s:?}")
}


// ---------------------------------------------------------------------------
// Executable helpers
// ---------------------------------------------------------------------------

/// The characters of `s`, in order.
pub fn chars_of(s: &str) -> (v: Vec<char>)
    ensures
        v@ == s@,
{
    let mut v: Vec<char> = Vec::new();
    for c in it: s.chars()
        invariant
            v@ == it.seq().take(it.index() as int),
            it.seq() == s@,
    {
        v.push(c);
    }
    v
}

/// The text of `a` followed by that of `b`.
pub fn concat(a: &str, b: &str) -> (r: String)
    ensures
        r@ == a@ + b@,
{
    let mut v = chars_of(a);
    let w = chars_of(b);
    let mut i: usize = 0;
    while i < w.len()
        invariant
            i <= w.len(),
            w@ == b@,
            v@ == a@ + b@.take(i as int),
        decreases w.len() - i,
    {
        v.push(w[i]);
        i = i + 1;
        assert(b@.take(i as int) == b@.take(i - 1).push(b@[i - 1]));
    }
    assert(b@.take(b@.len() as int) == b@);
    string_of(&v)
}

/// `v@.subrange(from, to)`, copied.
pub fn slice_chars(v: &Vec<char>, from: usize, to: usize) -> (r: Vec<char>)
    requires
        from <= to <= v.len(),
    ensures
        r@ == v@.subrange(from as int, to as int),
{
    let mut r: Vec<char> = Vec::new();
    let mut i = from;
    while i < to
        invariant
            from <= i <= to <= v.len(),
            r@ == v@.subrange(from as int, i as int),
        decreases to - i,
    {
        r.push(v[i]);
        i = i + 1;
    }
    r
}

pub fn is_space_char(c: char) -> (b: bool)
    ensures
        b == is_space(c),
{
    let u = c as u32;
    (0x9 <= u && u <= 0xd) || u == 0x20 || u == 0x85 || u == 0xa0 || u == 0x1680 || (0x2000 <= u
        && u <= 0x200a) || u == 0x2028 || u == 0x2029 || u == 0x202f || u == 0x205f || u == 0x3000
}

pub fn strips_char(k: Strip, c: char) -> (b: bool)
    ensures
        b == strips(k, c),
{
    match k {
        Strip::Space => is_space_char(c),
        Strip::Char(d) => c == d,
    }
}

/// `trim_start_by(s, k) == trim_start_by(s.skip(i), k)` when the first `i`
/// characters are all stripped.
proof fn lemma_trim_start_skip(s: Seq<char>, k: Strip, i: int)
    requires
        0 <= i <= s.len(),
        forall|j: int| 0 <= j < i ==> strips(k, #[trigger] s[j]),
    ensures
        trim_start_by(s, k) == trim_start_by(s.skip(i), k),
    decreases i,
{
    if i > 0 {
        lemma_trim_start_skip(s, k, i - 1);
        assert(s.skip(i - 1).drop_first() =~= s.skip(i));
    } else {
        assert(s.skip(0) =~= s);
    }
}

proof fn lemma_trim_end_take(s: Seq<char>, k: Strip, i: int)
    requires
        0 <= i <= s.len(),
        forall|j: int| i <= j < s.len() ==> strips(k, #[trigger] s[j]),
    ensures
        trim_end_by(s, k) == trim_end_by(s.take(i), k),
    decreases s.len() - i,
{
    if i < s.len() {
        lemma_trim_end_take(s, k, i + 1);
        assert(s.take(i + 1).drop_last() =~= s.take(i));
    } else {
        assert(s.take(i) =~= s);
    }
}

/// `s` with the characters that `k` strips removed from the front.
pub fn trim_start_chars(s: &Vec<char>, k: Strip) -> (r: Vec<char>)
    ensures
        r@ == trim_start_by(s@, k),
{
    let mut i: usize = 0;
    while i < s.len() && strips_char(k, s[i])
        invariant
            i <= s.len(),
            forall|j: int| 0 <= j < i ==> strips(k, #[trigger] s@[j]),
        decreases s.len() - i,
    {
        i = i + 1;
    }
    proof {
        lemma_trim_start_skip(s@, k, i as int);
    }
    slice_chars(s, i, s.len())
}

/// `s` with the characters that `k` strips removed from the back.
pub fn trim_end_chars(s: &Vec<char>, k: Strip) -> (r: Vec<char>)
    ensures
        r@ == trim_end_by(s@, k),
{
    let mut i: usize = s.len();
    while i > 0 && strips_char(k, s[i - 1])
        invariant
            i <= s.len(),
            forall|j: int| i <= j < s.len() ==> strips(k, #[trigger] s@[j]),
        decreases i,
    {
        i = i - 1;
    }
    proof {
        lemma_trim_end_take(s@, k, i as int);
    }
    slice_chars(s, 0, i)
}

/// `str::trim`.
pub fn trim_chars(s: &Vec<char>) -> (r: Vec<char>)
    ensures
        r@ == trim(s@),
{
    let a = trim_start_chars(s, Strip::Space);
    trim_end_chars(&a, Strip::Space)
}

/// The first position of `c` in `s`, if any.
pub fn find_first(s: &Vec<char>, c: char) -> (r: Option<usize>)
    ensures
        r matches Some(i) ==> is_first(s@, c, i as int),
        r is None ==> !has_char(s@, c),
{
    let mut i: usize = 0;
    while i < s.len()
        invariant
            i <= s.len(),
            forall|j: int| 0 <= j < i ==> s@[j] != c,
        decreases s.len() - i,
    {
        if s[i] == c {
            return Some(i);
        }
        i = i + 1;
    }
    None
}

/// The last position of `c` in `s`, if any.
pub fn find_last(s: &Vec<char>, c: char) -> (r: Option<usize>)
    ensures
        r matches Some(i) ==> is_last(s@, c, i as int),
        r is None ==> !has_char(s@, c),
{
    let mut i: usize = s.len();
    while i > 0
        invariant
            i <= s.len(),
            forall|j: int| i <= j < s.len() ==> s@[j] != c,
        decreases i,
    {
        if s[i - 1] == c {
            return Some(i - 1);
        }
        i = i - 1;
    }
    None
}

proof fn lemma_first_unique(s: Seq<char>, c: char, i: int, j: int)
    requires
        is_first(s, c, i),
        is_first(s, c, j),
    ensures
        i == j,
{
}

proof fn lemma_last_unique(s: Seq<char>, c: char, i: int, j: int)
    requires
        is_last(s, c, i),
        is_last(s, c, j),
    ensures
        i == j,
{
}

/// `str::split_once(c)`.
pub fn split_first_chars(s: &Vec<char>, c: char) -> (r: Option<(Vec<char>, Vec<char>)>)
    ensures
        match r {
            Some((a, b)) => split_first(s@, c) == Some((a@, b@)),
            None => split_first(s@, c) is None,
        },
{
    match find_first(s, c) {
        Some(i) => {
            proof {
                let k = choose|k: int| is_first(s@, c, k);
                lemma_first_unique(s@, c, i as int, k);
            }
            Some((slice_chars(s, 0, i), slice_chars(s, i + 1, s.len())))
        },
        None => None,
    }
}

/// `str::rsplit_once(c)`.
pub fn split_last_chars(s: &Vec<char>, c: char) -> (r: Option<(Vec<char>, Vec<char>)>)
    ensures
        match r {
            Some((a, b)) => split_last(s@, c) == Some((a@, b@)),
            None => split_last(s@, c) is None,
        },
{
    match find_last(s, c) {
        Some(i) => {
            proof {
                let k = choose|k: int| is_last(s@, c, k);
                lemma_last_unique(s@, c, i as int, k);
            }
            Some((slice_chars(s, 0, i), slice_chars(s, i + 1, s.len())))
        },
        None => None,
    }
}

/// Whether `c` occurs in `s`.
pub fn contains_char(s: &Vec<char>, c: char) -> (b: bool)
    ensures
        b == has_char(s@, c),
{
    find_first(s, c).is_some()
}

/// Whether `p` occurs in `s` at position `i`.
fn occurs_at_exec(s: &Vec<char>, p: &Vec<char>, i: usize) -> (b: bool)
    requires
        i + p.len() <= s.len(),
    ensures
        b == occurs_at(s@, p@, i as int),
{
    let mut j: usize = 0;
    while j < p.len()
        invariant
            j <= p.len(),
            i + p.len() <= s.len(),
            forall|k: int| 0 <= k < j ==> s@[i + k] == p@[k],
        decreases p.len() - j,
    {
        if s[i + j] != p[j] {
            assert(s@.subrange(i as int, i + p.len())[j as int] != p@[j as int]);
            return false;
        }
        j = j + 1;
    }
    assert(s@.subrange(i as int, i + p.len()) =~= p@);
    true
}

/// `str::contains` for a text pattern.
pub fn contains_text(s: &Vec<char>, p: &Vec<char>) -> (b: bool)
    ensures
        b == has_text(s@, p@),
{
    if p.len() > s.len() {
        return false;
    }
    let last = s.len() - p.len();
    let mut i: usize = 0;
    loop
        invariant
            last == s.len() - p.len(),
            i <= last,
            forall|k: int| 0 <= k < i ==> !occurs_at(s@, p@, k),
        decreases last - i,
    {
        if occurs_at_exec(s, p, i) {
            return true;
        }
        if i == last {
            return false;
        }
        i = i + 1;
    }
}

/// `str::strip_prefix`.
pub fn strip_prefix_chars(s: &Vec<char>, p: &Vec<char>) -> (r: Option<Vec<char>>)
    ensures
        match r {
            Some(t) => strip_prefix(s@, p@) == Some(t@),
            None => strip_prefix(s@, p@) is None,
        },
{
    if p.len() <= s.len() && occurs_at_exec(s, p, 0) {
        assert(s@.subrange(0, p@.len() as int) =~= s@.take(p@.len() as int));
        Some(slice_chars(s, p.len(), s.len()))
    } else {
        proof {
            if p.len() <= s.len() {
                assert(s@.subrange(0, p@.len() as int) =~= s@.take(p@.len() as int));
            }
        }
        None
    }
}

/// `str::strip_suffix`.
pub fn strip_suffix_chars(s: &Vec<char>, p: &Vec<char>) -> (r: Option<Vec<char>>)
    ensures
        match r {
            Some(t) => strip_suffix(s@, p@) == Some(t@),
            None => strip_suffix(s@, p@) is None,
        },
{
    if p.len() <= s.len() && occurs_at_exec(s, p, s.len() - p.len()) {
        assert(s@.subrange(s.len() - p.len(), s.len() as int) =~= s@.skip(s.len() - p.len()));
        Some(slice_chars(s, 0, s.len() - p.len()))
    } else {
        proof {
            if p.len() <= s.len() {
                assert(s@.subrange(s.len() - p.len(), s.len() as int) =~= s@.skip(
                    s.len() - p.len(),
                ));
            }
        }
        None
    }
}

proof fn lemma_digits_prefix(s: Seq<char>, i: int)
    requires
        0 <= i <= s.len(),
        all_digits(s),
    ensures
        digits_value(s.take(i)) <= digits_value(s),
        0 <= digits_value(s.take(i)),
    decreases s.len() - i,
{
    if i < s.len() {
        lemma_digits_prefix(s, i + 1);
        assert(s.take(i + 1).drop_last() =~= s.take(i));
        assert(is_digit(s[i]));
    } else {
        assert(s.take(i) =~= s);
        lemma_digits_nonneg(s);
    }
}

proof fn lemma_digits_nonneg(s: Seq<char>)
    requires
        all_digits(s),
    ensures
        0 <= digits_value(s),
    decreases s.len(),
{
    if s.len() > 0 {
        assert(is_digit(s[s.len() - 1]));
        lemma_digits_nonneg(s.drop_last());
    }
}

/// `str::parse::<i64>`.
pub fn parse_i64_chars(s: &Vec<char>) -> (r: Option<i64>)
    ensures
        r == parse_i64(s@),
{
    let neg = s.len() > 0 && s[0] == '-';
    let start: usize = if s.len() > 0 && (s[0] == '-' || s[0] == '+') {
        1
    } else {
        0
    };
    let ghost digits = s@.skip(start as int);
    assert(start == 1 ==> digits =~= s@.drop_first());
    assert(start == 0 ==> digits =~= s@);
    if start == s.len() {
        return None;
    }
    let bound: u128 = if neg {
        0x8000_0000_0000_0000
    } else {
        0x7fff_ffff_ffff_ffff
    };
    let mut acc: u128 = 0;
    let mut i = start;
    while i < s.len()
        invariant
            start <= i <= s.len(),
            digits == s@.skip(start as int),
            digits == (if s@.len() > 0 && (s@[0] == '-' || s@[0] == '+') {
                s@.drop_first()
            } else {
                s@
            }),
            neg == (s@.len() > 0 && s@[0] == '-'),
            neg ==> bound == 0x8000_0000_0000_0000,
            !neg ==> bound == 0x7fff_ffff_ffff_ffff,
            digits.len() > 0,
            all_digits(digits.take(i - start)),
            acc == digits_value(digits.take(i - start)),
            acc <= bound,
            bound <= 0x8000_0000_0000_0000,
        decreases s.len() - i,
    {
        let c = s[i];
        assert(digits[i - start] == c);
        assert(digits.take(i + 1 - start).drop_last() =~= digits.take(i - start));
        assert(digits.take(i + 1 - start).last() == c);
        if !('0' <= c && c <= '9') {
            assert(!is_digit(digits[i - start]));
            assert(!all_digits(digits));
            return None;
        }
        let d = (c as u32 - '0' as u32) as u128;
        assert(digits_value(digits.take(i + 1 - start)) == digits_value(digits.take(i - start)) * 10
            + digit_value(c));
        assert(all_digits(digits.take(i + 1 - start)));
        acc = acc * 10 + d;
        i = i + 1;
        if acc > bound {
            proof {
                let rest = digits;
                if all_digits(rest) {
                    lemma_digits_prefix(rest, i - start);
                }
            }
            return None;
        }
    }
    assert(digits.take(s.len() - start) =~= digits);
    if neg {
        if acc == 0x8000_0000_0000_0000 {
            Some(i64::MIN)
        } else {
            Some(-(acc as i64))
        }
    } else {
        Some(acc as i64)
    }
}

/// `str::parse::<u64>`.
pub fn parse_u64_chars(s: &Vec<char>) -> (r: Option<u64>)
    ensures
        r == parse_u64(s@),
{
    let start: usize = if s.len() > 0 && s[0] == '+' {
        1
    } else {
        0
    };
    let ghost digits = s@.skip(start as int);
    assert(start == 1 ==> digits =~= s@.drop_first());
    assert(start == 0 ==> digits =~= s@);
    if start == s.len() {
        return None;
    }
    let mut acc: u128 = 0;
    let mut i = start;
    while i < s.len()
        invariant
            start <= i <= s.len(),
            digits == s@.skip(start as int),
            digits == (if s@.len() > 0 && s@[0] == '+' {
                s@.drop_first()
            } else {
                s@
            }),
            digits.len() > 0,
            all_digits(digits.take(i - start)),
            acc == digits_value(digits.take(i - start)),
            acc <= u64::MAX,
        decreases s.len() - i,
    {
        let c = s[i];
        assert(digits[i - start] == c);
        assert(digits.take(i + 1 - start).drop_last() =~= digits.take(i - start));
        assert(digits.take(i + 1 - start).last() == c);
        if !('0' <= c && c <= '9') {
            assert(!is_digit(digits[i - start]));
            assert(!all_digits(digits));
            return None;
        }
        let d = (c as u32 - '0' as u32) as u128;
        assert(digits_value(digits.take(i + 1 - start)) == digits_value(digits.take(i - start)) * 10
            + digit_value(c));
        assert(all_digits(digits.take(i + 1 - start)));
        acc = acc * 10 + d;
        i = i + 1;
        if acc > 0xffff_ffff_ffff_ffff {
            proof {
                if all_digits(digits) {
                    lemma_digits_prefix(digits, i - start);
                }
            }
            return None;
        }
    }
    assert(digits.take(s.len() - start) =~= digits);
    Some(acc as u64)
}

/// The decimal digits of `m`, most significant first.
fn digit_chars(m: u64) -> (r: Vec<char>)
    ensures
        r@ == nat_digits(m as nat),
    decreases m,
{
    let d = (m % 10) as u8;
    let c = (48u8 + d) as char;
    assert(c == ((m % 10) + '0' as nat) as char);
    if m < 10 {
        vec![c]
    } else {
        let mut v = digit_chars(m / 10);
        v.push(c);
        v
    }
}

/// The decimal form of `n`, as `Display` writes it.
pub fn number_text(n: i64) -> (r: String)
    ensures
        r@ == decimal_text(n),
{
    if n < 0 {
        let m: u64 = (-(n as i128)) as u64;
        let mut v: Vec<char> = vec!['-'];
        let mut digits = digit_chars(m);
        v.append(&mut digits);
        string_of(&v)
    } else {
        string_of(&digit_chars(n as u64))
    }
}

/// An owned copy of `s`.
pub fn owned(s: &str) -> (r: String)
    ensures
        r@ == s@,
{
    string_of(&chars_of(s))
}

/// Whether two texts are equal.
pub fn same_text(a: &Vec<char>, b: &Vec<char>) -> (r: bool)
    ensures
        r == (a@ == b@),
{
    if a.len() != b.len() {
        return false;
    }
    let mut i: usize = 0;
    while i < a.len()
        invariant
            i <= a.len(),
            a.len() == b.len(),
            forall|k: int| 0 <= k < i ==> a@[k] == b@[k],
        decreases a.len() - i,
    {
        if a[i] != b[i] {
            return false;
        }
        i = i + 1;
    }
    assert(a@ =~= b@);
    true
}

/// Whether the text of `a` is `b`.
pub fn text_is(a: &Vec<char>, b: &str) -> (r: bool)
    ensures
        r == (a@ == b@),
{
    same_text(a, &chars_of(b))
}

} // verus!
