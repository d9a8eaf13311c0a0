//! Character-level helpers shared by the parsers: whitespace classes,
//! splitting into tokens, trimming, decimal numbers.
use vstd::prelude::*;
use vstd::string::*;

verus! {

/// `char::is_whitespace`: the Unicode `White_Space` property.
pub open spec fn is_ws(c: char) -> bool {
    ||| ('\u{9}' <= c && c <= '\u{d}')
    ||| c == ' '
    ||| c == '\u{85}'
    ||| c == '\u{a0}'
    ||| c == '\u{1680}'
    ||| ('\u{2000}' <= c && c <= '\u{200a}')
    ||| c == '\u{2028}'
    ||| c == '\u{2029}'
    ||| c == '\u{202f}'
    ||| c == '\u{205f}'
    ||| c == '\u{3000}'
}

pub fn is_whitespace(c: char) -> (r: bool)
    ensures
        r == is_ws(c),
{
    ('\u{9}' <= c && c <= '\u{d}') || c == ' ' || c == '\u{85}' || c == '\u{a0}' || c == '\u{1680}'
        || ('\u{2000}' <= c && c <= '\u{200a}') || c == '\u{2028}' || c == '\u{2029}'
        || c == '\u{202f}' || c == '\u{205f}' || c == '\u{3000}'
}

/// Equality of two string slices, character by character.
pub fn str_eq(a: &str, b: &str) -> (r: bool)
    ensures
        r == (a@ == b@),
{
    let n = a.unicode_len();
    if n != b.unicode_len() {
        return false;
    }
    let mut i: usize = 0;
    while i < n
        invariant
            n == a@.len(),
            n == b@.len(),
            i <= n,
            forall|j: int| 0 <= j < i ==> a@[j] == b@[j],
        decreases n - i,
    {
        if a.get_char(i) != b.get_char(i) {
            return false;
        }
        i = i + 1;
    }
    assert(a@ =~= b@);
    true
}

} // verus!

verus! {

/// Character classes that separate the tokens a parser looks at.
#[derive(Clone, Copy, Debug, PartialEq, Eq, Structural)]
pub enum Sep {
    /// `char::is_whitespace`, as `str::split_whitespace` uses it.
    Whitespace,
    /// Anything but an ASCII digit or `'-'`.
    NonNumeric,
    /// The `':'` character alone.
    Colon,
}

pub open spec fn is_sep(kind: Sep, c: char) -> bool {
    match kind {
        Sep::Whitespace => is_ws(c),
        Sep::NonNumeric => !(('0' <= c && c <= '9') || c == '-'),
        Sep::Colon => c == ':',
    }
}

pub fn is_separator(kind: Sep, c: char) -> (r: bool)
    ensures
        r == is_sep(kind, c),
{
    match kind {
        Sep::Whitespace => is_whitespace(c),
        Sep::NonNumeric => !(('0' <= c && c <= '9') || c == '-'),
        Sep::Colon => c == ':',
    }
}

/// The non-empty maximal runs of non-separator characters of `s`, in order,
/// with `cur` the run read so far and `acc` the runs already complete.
pub open spec fn runs_from(s: Seq<char>, kind: Sep, cur: Seq<char>, acc: Seq<Seq<char>>) -> Seq<Seq<char>>
    decreases s.len(),
{
    if s.len() == 0 {
        if cur.len() > 0 { acc.push(cur) } else { acc }
    } else if is_sep(kind, s[0]) {
        runs_from(s.drop_first(), kind, seq![], if cur.len() > 0 { acc.push(cur) } else { acc })
    } else {
        runs_from(s.drop_first(), kind, cur.push(s[0]), acc)
    }
}

/// The non-empty tokens of `s` between separators of the given kind; for
/// `Sep::Whitespace` this is `str::split_whitespace`.
pub open spec fn runs(s: Seq<char>, kind: Sep) -> Seq<Seq<char>> {
    runs_from(s, kind, seq![], seq![])
}

proof fn lemma_runs_from_nonempty(s: Seq<char>, kind: Sep, cur: Seq<char>, acc: Seq<Seq<char>>)
    requires
        forall|i: int| 0 <= i < acc.len() ==> (#[trigger] acc[i]).len() > 0,
    ensures
        forall|i: int| 0 <= i < runs_from(s, kind, cur, acc).len() ==> (#[trigger] runs_from(s, kind, cur, acc)[i]).len() > 0,
    decreases s.len(),
{
    if s.len() == 0 {
        let r = runs_from(s, kind, cur, acc);
        assert forall|i: int| 0 <= i < r.len() implies (#[trigger] r[i]).len() > 0 by {
            if i < acc.len() {
                assert(r[i] == acc[i]);
            }
        }
    } else if is_sep(kind, s[0]) {
        let next = if cur.len() > 0 { acc.push(cur) } else { acc };
        assert forall|i: int| 0 <= i < next.len() implies (#[trigger] next[i]).len() > 0 by {
            if i < acc.len() {
                assert(next[i] == acc[i]);
            }
        }
        lemma_runs_from_nonempty(s.drop_first(), kind, seq![], next);
        assert(runs_from(s, kind, cur, acc) == runs_from(s.drop_first(), kind, seq![], next));
    } else {
        lemma_runs_from_nonempty(s.drop_first(), kind, cur.push(s[0]), acc);
        assert(runs_from(s, kind, cur, acc) == runs_from(s.drop_first(), kind, cur.push(s[0]), acc));
    }
}

/// Every token is non-empty: separators never give an empty token.
pub proof fn lemma_runs_nonempty(s: Seq<char>, kind: Sep)
    ensures
        forall|i: int| 0 <= i < runs(s, kind).len() ==> (#[trigger] runs(s, kind)[i]).len() > 0,
{
    lemma_runs_from_nonempty(s, kind, seq![], seq![]);
}

pub open spec fn views(v: Seq<String>) -> Seq<Seq<char>> {
    v.map_values(|x: String| x@)
}

proof fn lemma_views_push(v: Seq<String>, x: String)
    ensures
        views(v.push(x)) == views(v).push(x@),
{
    assert(views(v.push(x)) =~= views(v).push(x@));
}

/// Split `s` into its non-empty tokens.
pub fn split_runs(s: &str, kind: Sep) -> (r: Vec<String>)
    ensures
        views(r@) == runs(s@, kind),
{
    let n = s.unicode_len();
    let mut out: Vec<String> = Vec::new();
    let mut start: usize = 0;
    let mut i: usize = 0;
    assert(s@.skip(0) =~= s@);
    assert(s@.subrange(0, 0) =~= seq![]);
    assert(views(out@) =~= seq![]);
    while i < n
        invariant
            n == s@.len(),
            start <= i <= n,
            runs(s@, kind) == runs_from(s@.skip(i as int), kind, s@.subrange(start as int, i as int), views(out@)),
        decreases n - i,
    {
        let c = s.get_char(i);
        let ghost rest = s@.skip(i as int);
        assert(rest[0] == c);
        assert(rest.drop_first() =~= s@.skip(i + 1));
        if is_separator(kind, c) {
            if start < i {
                let piece = s.substring_char(start, i);
                let t = String::from_str(piece);
                proof { lemma_views_push(out@, t); }
                out.push(t);
            }
            start = i + 1;
            assert(s@.subrange(start as int, (i + 1) as int) =~= seq![]);
        } else {
            assert(s@.subrange(start as int, i as int).push(c) =~= s@.subrange(start as int, (i + 1) as int));
        }
        i = i + 1;
    }
    assert(s@.skip(n as int) =~= seq![]);
    if start < n {
        let piece = s.substring_char(start, n);
        let t = String::from_str(piece);
        proof { lemma_views_push(out@, t); }
        out.push(t);
    }
    out
}

} // verus!

verus! {

/// `str::split(c)`: every piece between occurrences of `c`, empty ones included.
pub open spec fn pieces_from(s: Seq<char>, c: char, cur: Seq<char>, acc: Seq<Seq<char>>) -> Seq<Seq<char>>
    decreases s.len(),
{
    if s.len() == 0 {
        acc.push(cur)
    } else if s[0] == c {
        pieces_from(s.drop_first(), c, seq![], acc.push(cur))
    } else {
        pieces_from(s.drop_first(), c, cur.push(s[0]), acc)
    }
}

pub open spec fn pieces(s: Seq<char>, c: char) -> Seq<Seq<char>> {
    pieces_from(s, c, seq![], seq![])
}

pub fn split_pieces(s: &str, c: char) -> (r: Vec<String>)
    ensures
        views(r@) == pieces(s@, c),
{
    let n = s.unicode_len();
    let mut out: Vec<String> = Vec::new();
    let mut start: usize = 0;
    let mut i: usize = 0;
    assert(s@.skip(0) =~= s@);
    assert(s@.subrange(0, 0) =~= seq![]);
    assert(views(out@) =~= seq![]);
    while i < n
        invariant
            n == s@.len(),
            start <= i <= n,
            pieces(s@, c) == pieces_from(s@.skip(i as int), c, s@.subrange(start as int, i as int), views(out@)),
        decreases n - i,
    {
        let d = s.get_char(i);
        let ghost rest = s@.skip(i as int);
        assert(rest[0] == d);
        assert(rest.drop_first() =~= s@.skip(i + 1));
        if d == c {
            let piece = s.substring_char(start, i);
            let t = String::from_str(piece);
            proof { lemma_views_push(out@, t); }
            out.push(t);
            start = i + 1;
            assert(s@.subrange(start as int, (i + 1) as int) =~= seq![]);
        } else {
            assert(s@.subrange(start as int, i as int).push(d) =~= s@.subrange(start as int, (i + 1) as int));
        }
        i = i + 1;
    }
    assert(s@.skip(n as int) =~= seq![]);
    let piece = s.substring_char(start, n);
    let t = String::from_str(piece);
    proof { lemma_views_push(out@, t); }
    out.push(t);
    out
}

/// A line without its `"\r"` terminator, as `str::lines` strips it.
pub open spec fn strip_cr(l: Seq<char>) -> Seq<char> {
    if l.len() > 0 && l.last() == '\r' { l.drop_last() } else { l }
}

/// `str::lines`: pieces ended by `'\n'` (a `"\r"` before it removed), and a
/// last piece that no `'\n'` ends, when it is not empty.
pub open spec fn lines_from(s: Seq<char>, cur: Seq<char>, acc: Seq<Seq<char>>) -> Seq<Seq<char>>
    decreases s.len(),
{
    if s.len() == 0 {
        if cur.len() > 0 { acc.push(cur) } else { acc }
    } else if s[0] == '\n' {
        lines_from(s.drop_first(), seq![], acc.push(strip_cr(cur)))
    } else {
        lines_from(s.drop_first(), cur.push(s[0]), acc)
    }
}

pub open spec fn lines(s: Seq<char>) -> Seq<Seq<char>> {
    lines_from(s, seq![], seq![])
}

pub fn split_lines(s: &str) -> (r: Vec<String>)
    ensures
        views(r@) == lines(s@),
{
    let n = s.unicode_len();
    let mut out: Vec<String> = Vec::new();
    let mut start: usize = 0;
    let mut i: usize = 0;
    assert(s@.skip(0) =~= s@);
    assert(s@.subrange(0, 0) =~= seq![]);
    assert(views(out@) =~= seq![]);
    while i < n
        invariant
            n == s@.len(),
            start <= i <= n,
            lines(s@) == lines_from(s@.skip(i as int), s@.subrange(start as int, i as int), views(out@)),
        decreases n - i,
    {
        let d = s.get_char(i);
        let ghost rest = s@.skip(i as int);
        assert(rest[0] == d);
        assert(rest.drop_first() =~= s@.skip(i + 1));
        if d == '\n' {
            let mut end = i;
            if start < i && s.get_char(i - 1) == '\r' {
                end = i - 1;
                assert(s@.subrange(start as int, i as int).drop_last() =~= s@.subrange(start as int, end as int));
            }
            let piece = s.substring_char(start, end);
            let t = String::from_str(piece);
            assert(t@ == strip_cr(s@.subrange(start as int, i as int)));
            proof { lemma_views_push(out@, t); }
            out.push(t);
            start = i + 1;
            assert(s@.subrange(start as int, (i + 1) as int) =~= seq![]);
        } else {
            assert(s@.subrange(start as int, i as int).push(d) =~= s@.subrange(start as int, (i + 1) as int));
        }
        i = i + 1;
    }
    assert(s@.skip(n as int) =~= seq![]);
    if start < n {
        let piece = s.substring_char(start, n);
        let t = String::from_str(piece);
        proof { lemma_views_push(out@, t); }
        out.push(t);
    }
    out
}

/// `p` occurs in `s` as a contiguous part (`str::contains`).
pub open spec fn has_sub(s: Seq<char>, p: Seq<char>) -> bool {
    exists|i: int| 0 <= i && i + p.len() <= s.len() && #[trigger] s.subrange(i, i + p.len()) == p
}

pub fn contains_str(s: &str, p: &str) -> (r: bool)
    ensures
        r == has_sub(s@, p@),
{
    let n = s.unicode_len();
    let m = p.unicode_len();
    if m > n {
        return false;
    }
    let mut i: usize = 0;
    while i <= n - m
        invariant
            n == s@.len(),
            m == p@.len(),
            m <= n,
            i <= n - m + 1,
            forall|k: int| 0 <= k < i ==> #[trigger] s@.subrange(k, k + m) != p@,
        decreases n - m + 1 - i,
    {
        let mut j: usize = 0;
        let mut same = true;
        while j < m
            invariant
                n == s@.len(),
                m == p@.len(),
                i + m <= n,
                j <= m,
                same ==> forall|t: int| 0 <= t < j ==> s@[i + t] == p@[t],
                !same ==> s@.subrange(i as int, i + m) != p@,
            decreases m - j,
        {
            if same {
                if s.get_char(i + j) != p.get_char(j) {
                    same = false;
                    assert(s@.subrange(i as int, i + m)[j as int] != p@[j as int]);
                }
            }
            j = j + 1;
        }
        if same {
            assert(s@.subrange(i as int, i + m) =~= p@);
            return true;
        }
        if i == n - m {
            assert forall|k: int| 0 <= k && k + m <= n implies #[trigger] s@.subrange(k, k + m) != p@ by {
                assert(k <= i);
            }
            return false;
        }
        i = i + 1;
    }
    false
}

} // verus!

verus! {

pub open spec fn trim_start(s: Seq<char>) -> Seq<char>
    decreases s.len(),
{
    if s.len() > 0 && is_ws(s[0]) { trim_start(s.drop_first()) } else { s }
}

pub open spec fn trim_end(s: Seq<char>) -> Seq<char>
    decreases s.len(),
{
    if s.len() > 0 && is_ws(s.last()) { trim_end(s.drop_last()) } else { s }
}

/// `str::trim`: `s` without its leading and trailing whitespace.
pub open spec fn trim(s: Seq<char>) -> Seq<char> {
    trim_end(trim_start(s))
}

pub fn trim_str(s: &str) -> (r: &str)
    ensures
        r@ == trim(s@),
{
    let n = s.unicode_len();
    let mut lo: usize = 0;
    assert(s@.skip(0) =~= s@);
    while lo < n && is_whitespace(s.get_char(lo))
        invariant
            n == s@.len(),
            lo <= n,
            trim_start(s@) == trim_start(s@.skip(lo as int)),
        decreases n - lo,
    {
        assert(s@.skip(lo as int).drop_first() =~= s@.skip(lo + 1));
        lo = lo + 1;
    }
    assert(trim_start(s@) == s@.subrange(lo as int, n as int)) by {
        assert(s@.skip(lo as int) =~= s@.subrange(lo as int, n as int));
    }
    let mut hi: usize = n;
    while hi > lo && is_whitespace(s.get_char(hi - 1))
        invariant
            n == s@.len(),
            lo <= hi <= n,
            trim(s@) == trim_end(s@.subrange(lo as int, hi as int)),
        decreases hi - lo,
    {
        assert(s@.subrange(lo as int, hi as int).drop_last() =~= s@.subrange(lo as int, hi - 1));
        hi = hi - 1;
    }
    s.substring_char(lo, hi)
}

pub open spec fn is_digit(c: char) -> bool {
    '0' <= c && c <= '9'
}

pub open spec fn all_digits(s: Seq<char>) -> bool {
    forall|i: int| 0 <= i < s.len() ==> is_digit(#[trigger] s[i])
}

pub open spec fn digit_value(c: char) -> nat {
    (c as nat - '0' as nat) as nat
}

/// The number that a string of decimal digits denotes.
pub open spec fn digits_value(s: Seq<char>) -> nat
    decreases s.len(),
{
    if s.len() == 0 { 0 } else { digits_value(s.drop_last()) * 10 + digit_value(s.last()) }
}

/// Decimal digits, at least one, denoting at most `max`.
pub open spec fn parse_digits(s: Seq<char>, max: nat) -> Option<nat> {
    if s.len() > 0 && all_digits(s) && digits_value(s) <= max { Some(digits_value(s)) } else { None }
}

/// `str::parse` for an unsigned integer type whose largest value is `max`:
/// an optional `'+'`, then one or more decimal digits, within range.
pub open spec fn parse_unsigned(s: Seq<char>, max: nat) -> Option<nat> {
    if s.len() > 0 && s[0] == '+' { parse_digits(s.drop_first(), max) } else { parse_digits(s, max) }
}

/// `str::parse` for a signed integer type ranging over `-(max + 1) ..= max`:
/// an optional `'+'` or `'-'`, then one or more decimal digits, within range.
pub open spec fn parse_signed(s: Seq<char>, max: nat) -> Option<int> {
    if s.len() > 0 && s[0] == '-' {
        match parse_digits(s.drop_first(), max + 1) {
            Some(v) => Some(-v),
            None => None,
        }
    } else {
        match parse_unsigned(s, max) {
            Some(v) => Some(v as int),
            None => None,
        }
    }
}

proof fn lemma_digits_prefix_grows(s: Seq<char>, k: int)
    requires
        0 <= k <= s.len(),
        all_digits(s),
    ensures
        digits_value(s.take(k)) <= digits_value(s),
    decreases s.len() - k,
{
    if k < s.len() {
        lemma_digits_prefix_grows(s, k + 1);
        assert(s.take(k + 1).drop_last() =~= s.take(k));
    } else {
        assert(s.take(k) =~= s);
    }
}

/// Digits only, from position `from` on; `None` unless the value fits `max`.
fn parse_digits_from(s: &str, from: usize, max: u64) -> (r: Option<u64>)
    requires
        from <= s@.len(),
    ensures
        match parse_digits(s@.skip(from as int), max as nat) {
            Some(v) => r == Some(v as u64),
            None => r is None,
        },
{
    let n = s.unicode_len();
    let ghost d = s@.skip(from as int);
    if from == n {
        return None;
    }
    let mut acc: u64 = 0;
    let mut i: usize = from;
    assert(d.take(0) =~= seq![]);
    while i < n
        invariant
            n == s@.len(),
            from <= i <= n,
            d == s@.skip(from as int),
            all_digits(d.take(i - from)),
            acc as nat == digits_value(d.take(i - from)),
            acc <= max,
        decreases n - i,
    {
        let c = s.get_char(i);
        assert(d[i - from] == c);
        if !('0' <= c && c <= '9') {
            assert(!all_digits(d));
            return None;
        }
        let v = ((c as u32) - ('0' as u32)) as u64;
        assert(d.take(i + 1 - from).drop_last() =~= d.take(i - from));
        assert(d.take(i + 1 - from).last() == c);
        if v > max || acc > (max - v) / 10 {
            proof {
                if v <= max {
                    assert(acc * 10 + v > max) by (nonlinear_arith)
                        requires acc > (max - v) / 10, v <= max;
                }
                assert forall|j: int| 0 <= j < i + 1 - from implies is_digit(#[trigger] d.take(i + 1 - from)[j]) by {
                    if j < i - from {
                        assert(d.take(i + 1 - from)[j] == d.take(i - from)[j]);
                    }
                }
                if all_digits(d) {
                    lemma_digits_prefix_grows(d, i + 1 - from);
                }
            }
            return None;
        }
        assert(acc * 10 + v <= max) by (nonlinear_arith)
            requires acc <= (max - v) / 10, v <= 9, max >= 0;
        acc = acc * 10 + v;
        assert forall|j: int| 0 <= j < i + 1 - from implies is_digit(#[trigger] d.take(i + 1 - from)[j]) by {
            if j < i - from {
                assert(d.take(i + 1 - from)[j] == d.take(i - from)[j]);
            }
        }
        i = i + 1;
    }
    assert(d.take(n - from) =~= d);
    Some(acc)
}

} // verus!

verus! {

pub fn parse_unsigned_str(s: &str, max: u64) -> (r: Option<u64>)
    ensures
        match parse_unsigned(s@, max as nat) {
            Some(v) => r == Some(v as u64),
            None => r is None,
        },
{
    let n = s.unicode_len();
    if n > 0 && s.get_char(0) == '+' {
        assert(s@.drop_first() =~= s@.skip(1));
        parse_digits_from(s, 1, max)
    } else {
        assert(s@ =~= s@.skip(0));
        parse_digits_from(s, 0, max)
    }
}

/// `str::parse::<u8>`.
pub fn parse_u8(s: &str) -> (r: Option<u8>)
    ensures
        match parse_unsigned(s@, u8::MAX as nat) {
            Some(v) => r == Some(v as u8),
            None => r is None,
        },
{
    match parse_unsigned_str(s, u8::MAX as u64) {
        Some(v) => Some(v as u8),
        None => None,
    }
}

/// `str::parse::<u32>`.
pub fn parse_u32(s: &str) -> (r: Option<u32>)
    ensures
        match parse_unsigned(s@, u32::MAX as nat) {
            Some(v) => r == Some(v as u32),
            None => r is None,
        },
{
    match parse_unsigned_str(s, u32::MAX as u64) {
        Some(v) => Some(v as u32),
        None => None,
    }
}

/// `str::parse::<u64>`.
pub fn parse_u64(s: &str) -> (r: Option<u64>)
    ensures
        match parse_unsigned(s@, u64::MAX as nat) {
            Some(v) => r == Some(v as u64),
            None => r is None,
        },
{
    parse_unsigned_str(s, u64::MAX)
}

/// `str::parse::<i32>`.
pub fn parse_i32(s: &str) -> (r: Option<i32>)
    ensures
        match parse_signed(s@, i32::MAX as nat) {
            Some(v) => r == Some(v as i32),
            None => r is None,
        },
{
    let n = s.unicode_len();
    if n > 0 && s.get_char(0) == '-' {
        assert(s@.drop_first() =~= s@.skip(1));
        match parse_digits_from(s, 1, 0x8000_0000u64) {
            Some(v) => Some((0i64 - (v as i64)) as i32),
            None => None,
        }
    } else {
        match parse_unsigned_str(s, i32::MAX as u64) {
            Some(v) => Some(v as i32),
            None => None,
        }
    }
}

pub open spec fn digit_char(d: nat) -> char {
    if d == 0 { '0' } else if d == 1 { '1' } else if d == 2 { '2' } else if d == 3 { '3' }
    else if d == 4 { '4' } else if d == 5 { '5' } else if d == 6 { '6' } else if d == 7 { '7' }
    else if d == 8 { '8' } else { '9' }
}

/// The decimal rendering of `n`, as `{}` formats an unsigned integer.
pub open spec fn decimal(n: nat) -> Seq<char>
    decreases n,
{
    if n < 10 { seq![digit_char(n)] } else { decimal(n / 10).push(digit_char(n % 10)) }
}

fn digit_str(d: u64) -> (r: &'static str)
    requires
        d < 10,
    ensures
        r@ == seq![digit_char(d as nat)],
{
    proof {
        reveal_strlit("0"); reveal_strlit("1"); reveal_strlit("2"); reveal_strlit("3");
        reveal_strlit("4"); reveal_strlit("5"); reveal_strlit("6"); reveal_strlit("7");
        reveal_strlit("8"); reveal_strlit("9");
    }
    let r = if d == 0 { "0" } else if d == 1 { "1" } else if d == 2 { "2" } else if d == 3 { "3" }
    else if d == 4 { "4" } else if d == 5 { "5" } else if d == 6 { "6" } else if d == 7 { "7" }
    else if d == 8 { "8" } else { "9" };
    assert(r@ =~= seq![digit_char(d as nat)]);
    r
}

pub fn decimal_string(n: u64) -> (r: String)
    ensures
        r@ == decimal(n as nat),
    decreases n,
{
    if n < 10 {
        String::from_str(digit_str(n))
    } else {
        let mut s = decimal_string(n / 10);
        s.append(digit_str(n % 10));
        assert(s@ =~= decimal(n as nat));
        s
    }
}

} // verus!

verus! {

/// Whether `s` begins with `p` (`str::starts_with`).
pub fn starts_with_str(s: &str, p: &str) -> (r: bool)
    ensures
        r == p@.is_prefix_of(s@),
{
    let n = s.unicode_len();
    let m = p.unicode_len();
    if m > n {
        return false;
    }
    let mut j: usize = 0;
    while j < m
        invariant
            n == s@.len(),
            m == p@.len(),
            m <= n,
            j <= m,
            forall|t: int| 0 <= t < j ==> s@[t] == p@[t],
        decreases m - j,
    {
        if s.get_char(j) != p.get_char(j) {
            return false;
        }
        j = j + 1;
    }
    assert(s@.subrange(0, m as int) =~= p@);
    true
}

} // verus!
