//! String helpers with exact contracts over the character sequence of a string.

use vstd::prelude::*;
use vstd::string::*;

verus! {

/// Whether `c` has the Unicode `White_Space` property: U+0009 to U+000D, U+0020,
/// U+0085, U+00A0, U+1680, U+2000 to U+200A, U+2028, U+2029, U+202F, U+205F, U+3000.
pub open spec fn unicode_whitespace(c: char) -> bool {
    let n = c as u32;
    ||| 0x09 <= n <= 0x0D
    ||| n == 0x20
    ||| n == 0x85
    ||| n == 0xA0
    ||| n == 0x1680
    ||| 0x2000 <= n <= 0x200A
    ||| n == 0x2028
    ||| n == 0x2029
    ||| n == 0x202F
    ||| n == 0x205F
    ||| n == 0x3000
}

/// Trusted: `char::is_whitespace`, which its documentation defines as having the
/// Unicode `White_Space` property (the code points listed at `unicode_whitespace`).
#[verifier::external_body]
pub(crate) fn char_is_whitespace(c: char) -> (b: bool)
    ensures
        b == unicode_whitespace(c),
{
    c.is_whitespace()
}

/// Trusted: `String::push`, which appends one character at the end.
#[verifier::external_body]
pub(crate) fn push_char(s: &mut String, c: char)
    ensures
        final(s)@ == old(s)@.push(c),
{
    s.push(c)
}

/// A string is blank when every character is whitespace (so `trim()` leaves nothing).
pub open spec fn is_blank_seq(s: Seq<char>) -> bool {
    forall|i: int| 0 <= i < s.len() ==> unicode_whitespace(#[trigger] s[i])
}

/// Whether `s.trim().is_empty()`.
pub fn is_blank(s: &str) -> (b: bool)
    ensures
        b == is_blank_seq(s@),
{
    let n = s.unicode_len();
    let mut i: usize = 0;
    while i < n
        invariant
            n == s@.len(),
            i <= n,
            forall|j: int| 0 <= j < i ==> unicode_whitespace(#[trigger] s@[j]),
        decreases n - i,
    {
        let c = s.get_char(i);
        if !char_is_whitespace(c) {
            return false;
        }
        i = i + 1;
    }
    true
}


/// The suffix appended to a string that was cut short.
pub const TRUNCATION_MARK: &'static str = "…[truncated]";

/// The first `max` characters of `s`, marked as cut, when `s` is longer than `max`.
pub open spec fn truncated(s: Seq<char>, max: nat, mark: Seq<char>) -> Seq<char> {
    if s.len() <= max {
        s
    } else {
        s.take(max as int) + mark
    }
}

/// Keeps at most `max_chars` characters of `s`; a longer string is cut and gets the
/// truncation mark appended.
pub fn truncate(s: &str, max_chars: usize) -> (r: String)
    ensures
        r@ == truncated(s@, max_chars as nat, TRUNCATION_MARK@),
{
    let n = s.unicode_len();
    if n <= max_chars {
        String::from_str(s)
    } else {
        let head = s.substring_char(0, max_chars);
        let mut r = String::from_str(head);
        r.append(TRUNCATION_MARK);
        r
    }
}

/// The parts joined with `sep` between each neighbouring pair.
pub open spec fn joined(parts: Seq<Seq<char>>, sep: Seq<char>) -> Seq<char>
    decreases parts.len(),
{
    if parts.len() == 0 {
        Seq::empty()
    } else if parts.len() == 1 {
        parts[0]
    } else {
        joined(parts.drop_last(), sep) + sep + parts.last()
    }
}

/// The character sequences of a vector of strings.
pub open spec fn views(v: Seq<String>) -> Seq<Seq<char>> {
    v.map_values(|s: String| s@)
}

/// `parts.join(sep)`.
pub fn join(parts: &Vec<String>, sep: &str) -> (r: String)
    ensures
        r@ == joined(views(parts@), sep@),
{
    let mut r = String::new();
    let n = parts.len();
    let mut i: usize = 0;
    while i < n
        invariant
            n == parts@.len(),
            i <= n,
            r@ == joined(views(parts@).take(i as int), sep@),
        decreases n - i,
    {
        assert(views(parts@).take(i + 1).drop_last() =~= views(parts@).take(i as int));
        if i > 0 {
            r.append(sep);
        }
        r.append(parts[i].as_str());
        i = i + 1;
    }
    assert(views(parts@).take(n as int) =~= views(parts@));
    r
}

/// The decimal digit character for `d < 10`.
pub open spec fn digit_char(d: nat) -> char {
    if d == 0 { '0' } else if d == 1 { '1' } else if d == 2 { '2' } else if d == 3 { '3' }
    else if d == 4 { '4' } else if d == 5 { '5' } else if d == 6 { '6' } else if d == 7 { '7' }
    else if d == 8 { '8' } else { '9' }
}

/// The decimal notation of `n`, without leading zeros.
pub open spec fn decimal(n: nat) -> Seq<char>
    decreases n,
{
    if n < 10 {
        seq![digit_char(n)]
    } else {
        decimal(n / 10).push(digit_char(n % 10))
    }
}

/// The decimal notation of a signed integer, with a leading `-` when negative.
pub open spec fn signed_decimal(n: int) -> Seq<char> {
    if n < 0 {
        seq!['-'] + decimal((-n) as nat)
    } else {
        decimal(n as nat)
    }
}

fn digit(d: u64) -> (c: char)
    requires
        d < 10,
    ensures
        c == digit_char(d as nat),
{
    if d == 0 { '0' } else if d == 1 { '1' } else if d == 2 { '2' } else if d == 3 { '3' }
    else if d == 4 { '4' } else if d == 5 { '5' } else if d == 6 { '6' } else if d == 7 { '7' }
    else if d == 8 { '8' } else { '9' }
}

/// `n.to_string()` for an unsigned integer.
pub fn u64_to_string(n: u64) -> (r: String)
    ensures
        r@ == decimal(n as nat),
    decreases n,
{
    if n < 10 {
        let mut r = String::new();
        push_char(&mut r, digit(n));
        r
    } else {
        let mut r = u64_to_string(n / 10);
        push_char(&mut r, digit(n % 10));
        r
    }
}

/// `n.to_string()` for a 128-bit unsigned integer.
pub fn u128_to_string(n: u128) -> (r: String)
    ensures
        r@ == decimal(n as nat),
    decreases n,
{
    if n < 10 {
        let mut r = String::new();
        push_char(&mut r, digit(n as u64));
        r
    } else {
        let mut r = u128_to_string(n / 10);
        push_char(&mut r, digit((n % 10) as u64));
        r
    }
}

/// `n.to_string()` for a signed integer.
pub fn i64_to_string(n: i64) -> (r: String)
    ensures
        r@ == signed_decimal(n as int),
{
    if n < 0 {
        let m: u64 = ((-(n + 1)) as u64) + 1;
        let mut r = String::from_str("-");
        let d = u64_to_string(m);
        r.append(d.as_str());
        proof {
            reveal_strlit("-");
        }
        r
    } else {
        u64_to_string(n as u64)
    }
}


/// `pat` occurs in `s` at position `i`.
pub open spec fn occurs_at(s: Seq<char>, pat: Seq<char>, i: int) -> bool {
    0 <= i && i + pat.len() <= s.len() && s.subrange(i, i + pat.len()) == pat
}

/// `pat` occurs somewhere in `s`.
pub open spec fn contains_seq(s: Seq<char>, pat: Seq<char>) -> bool {
    exists|i: int| occurs_at(s, pat, i)
}

/// Whether `pat` occurs in `s` at character position `i`.
pub fn occurs_at_pos(s: &str, pat: &str, i: usize) -> (b: bool)
    ensures
        b == occurs_at(s@, pat@, i as int),
{
    let n = s.unicode_len();
    let m = pat.unicode_len();
    if i > n || m > n - i {
        return false;
    }
    let mut k: usize = 0;
    while k < m
        invariant
            n == s@.len(),
            m == pat@.len(),
            i + m <= n,
            k <= m,
            forall|j: int| 0 <= j < k ==> s@[i + j] == pat@[j],
        decreases m - k,
    {
        if s.get_char(i + k) != pat.get_char(k) {
            assert(s@.subrange(i as int, i + m)[k as int] != pat@[k as int]);
            return false;
        }
        k = k + 1;
    }
    assert(s@.subrange(i as int, i + m) =~= pat@);
    true
}

/// `s.contains(pat)`.
pub fn str_contains(s: &str, pat: &str) -> (b: bool)
    ensures
        b == contains_seq(s@, pat@),
{
    let n = s.unicode_len();
    let mut i: usize = 0;
    while i < n
        invariant
            n == s@.len(),
            i <= n,
            forall|j: int| 0 <= j < i ==> !occurs_at(s@, pat@, j),
        decreases n - i,
    {
        if occurs_at_pos(s, pat, i) {
            return true;
        }
        i = i + 1;
    }
    if occurs_at_pos(s, pat, n) {
        return true;
    }
    assert forall|j: int| !occurs_at(s@, pat@, j) by {
        if 0 <= j && j < n {
        }
    }
    false
}

/// `s.starts_with(pat)`.
pub fn str_starts_with(s: &str, pat: &str) -> (b: bool)
    ensures
        b == occurs_at(s@, pat@, 0),
{
    occurs_at_pos(s, pat, 0)
}

/// `s.ends_with(pat)`.
pub open spec fn ends_with(s: Seq<char>, pat: Seq<char>) -> bool {
    pat.len() <= s.len() && occurs_at(s, pat, s.len() - pat.len())
}

/// `s.ends_with(pat)`.
pub fn str_ends_with(s: &str, pat: &str) -> (b: bool)
    ensures
        b == ends_with(s@, pat@),
{
    let n = s.unicode_len();
    let m = pat.unicode_len();
    if m > n {
        return false;
    }
    occurs_at_pos(s, pat, n - m)
}

/// The digits of `s` are all ASCII decimal digits, and there is at least one.
pub open spec fn all_digits(s: Seq<char>) -> bool {
    s.len() > 0 && forall|i: int| 0 <= i < s.len() ==> '0' <= #[trigger] s[i] <= '9'
}

/// The number that a string of decimal digits writes.
pub open spec fn digits_value(s: Seq<char>) -> int
    decreases s.len(),
{
    if s.len() == 0 {
        0
    } else {
        digits_value(s.drop_last()) * 10 + (s.last() as int - '0' as int)
    }
}

/// The integer written by an optional `+` or `-` followed by decimal digits; none for
/// any other text (no spaces, no other characters).
pub open spec fn integer_text_value(s: Seq<char>) -> Option<int> {
    if s.len() > 0 && (s[0] == '+' || s[0] == '-') {
        if all_digits(s.skip(1)) {
            Some(if s[0] == '-' { -digits_value(s.skip(1)) } else { digits_value(s.skip(1)) })
        } else {
            None
        }
    } else if all_digits(s) {
        Some(digits_value(s))
    } else {
        None
    }
}

/// Trusted: `str::parse::<i64>`. As its documentation says, it accepts an optional `+`
/// or `-` followed by decimal digits only, whose value fits in `i64`. On failure it
/// gives the text of the `ParseIntError`, which is not stated here.
#[verifier::external_body]
pub fn parse_i64(s: &str) -> (r: Result<i64, String>)
    ensures
        r is Ok <==> (integer_text_value(s@) matches Some(v) && i64::MIN <= v <= i64::MAX),
        r matches Ok(v) ==> integer_text_value(s@) == Some(v as int),
{
    s.parse::<i64>().map_err(|e| e.to_string())
}

} // verus!
