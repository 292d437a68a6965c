//! Text protocol primitives shared by the file-backed controllers.
//!
//! The peripherals speak newline-separated ASCII text: single decimal
//! integers, `KEY=VALUE` blocks, single tokens. The functions here give that
//! text an exact mathematical meaning: each exec function is proved to agree
//! with the spec function that defines its format.

use vstd::prelude::*;
use vstd::string::*;

verus! {

// ---------------------------------------------------------------------------
// Character classes
// ---------------------------------------------------------------------------

/// An ASCII decimal digit.
pub open spec fn spec_is_digit(c: char) -> bool {
    48 <= c as int && c as int <= 57
}

/// Numeric value of an ASCII decimal digit.
pub open spec fn spec_digit_val(c: char) -> int {
    c as int - 48
}

/// ASCII whitespace, as trimmed from the edges of a sysfs token.
pub open spec fn spec_is_space(c: char) -> bool {
    c == ' ' || c == '\t' || c == '\n' || c == '\r' || (c as int) == 11 || (c as int) == 12
}

fn is_space_char(c: char) -> (r: bool)
    ensures
        r == spec_is_space(c),
{
    c == ' ' || c == '\t' || c == '\n' || c == '\r' || (c as u32) == 11 || (c as u32) == 12
}

// ---------------------------------------------------------------------------
// Decimal digit strings
// ---------------------------------------------------------------------------

/// Every character of `s` is a decimal digit.
pub open spec fn spec_all_digits(s: Seq<char>) -> bool {
    forall|i: int| 0 <= i < s.len() ==> spec_is_digit(#[trigger] s[i])
}

/// The number denoted by a digit string, most significant digit first.
pub open spec fn spec_digits_val(s: Seq<char>) -> int
    decreases s.len(),
{
    if s.len() == 0 {
        0
    } else {
        spec_digits_val(s.drop_last()) * 10 + spec_digit_val(s.last())
    }
}

pub proof fn lemma_digits_val_nonneg(s: Seq<char>)
    requires
        spec_all_digits(s),
    ensures
        spec_digits_val(s) >= 0,
    decreases s.len(),
{
    if s.len() > 0 {
        assert(spec_all_digits(s.drop_last()));
        lemma_digits_val_nonneg(s.drop_last());
    }
}

/// Reading one more digit multiplies the prefix value by ten and adds it.
pub proof fn lemma_digits_val_step(s: Seq<char>, j: int)
    requires
        0 <= j < s.len(),
    ensures
        spec_digits_val(s.subrange(0, j + 1)) == spec_digits_val(s.subrange(0, j)) * 10
            + spec_digit_val(s[j]),
{
    assert(s.subrange(0, j + 1).drop_last() =~= s.subrange(0, j));
    assert(s.subrange(0, j + 1).last() == s[j]);
}

/// A digit string is worth at least any of its prefixes.
pub proof fn lemma_digits_val_prefix_le(s: Seq<char>, j: int)
    requires
        spec_all_digits(s),
        0 <= j <= s.len(),
    ensures
        spec_digits_val(s.subrange(0, j)) <= spec_digits_val(s),
    decreases s.len() - j,
{
    if j == s.len() {
        assert(s.subrange(0, j) =~= s);
    } else {
        lemma_digits_val_step(s, j);
        assert(spec_all_digits(s.subrange(0, j)));
        lemma_digits_val_nonneg(s.subrange(0, j));
        lemma_digits_val_prefix_le(s, j + 1);
    }
}

// ---------------------------------------------------------------------------
// Integer parsing (the grammar of Rust's decimal `FromStr`)
// ---------------------------------------------------------------------------

/// Unsigned decimal parse: an optional `+`, then one or more digits, whose
/// value must not exceed `max`. Anything else is a parse failure.
pub open spec fn spec_parse_uint(s: Seq<char>, max: int) -> Option<int> {
    let digits = if s.len() > 0 && s[0] == '+' {
        s.subrange(1, s.len() as int)
    } else {
        s
    };
    if digits.len() > 0 && spec_all_digits(digits) && spec_digits_val(digits) <= max {
        Some(spec_digits_val(digits))
    } else {
        None
    }
}

/// Signed decimal parse: an optional `-` (or `+`), then digits, within
/// `[min, max]`.
pub open spec fn spec_parse_int(s: Seq<char>, min: int, max: int) -> Option<int> {
    if s.len() > 0 && s[0] == '-' {
        let digits = s.subrange(1, s.len() as int);
        if digits.len() > 0 && spec_all_digits(digits) && -spec_digits_val(digits) >= min {
            Some(-spec_digits_val(digits))
        } else {
            None
        }
    } else {
        spec_parse_uint(s, max)
    }
}

pub open spec fn spec_parse_u64(s: Seq<char>) -> Option<u64> {
    match spec_parse_uint(s, u64::MAX as int) {
        Some(v) => Some(v as u64),
        None => None,
    }
}

pub open spec fn spec_parse_u32(s: Seq<char>) -> Option<u32> {
    match spec_parse_uint(s, u32::MAX as int) {
        Some(v) => Some(v as u32),
        None => None,
    }
}

pub open spec fn spec_parse_u8(s: Seq<char>) -> Option<u8> {
    match spec_parse_uint(s, u8::MAX as int) {
        Some(v) => Some(v as u8),
        None => None,
    }
}

pub open spec fn spec_parse_i64(s: Seq<char>) -> Option<i64> {
    match spec_parse_int(s, i64::MIN as int, i64::MAX as int) {
        Some(v) => Some(v as i64),
        None => None,
    }
}

pub open spec fn spec_parse_i32(s: Seq<char>) -> Option<i32> {
    match spec_parse_int(s, i32::MIN as int, i32::MAX as int) {
        Some(v) => Some(v as i32),
        None => None,
    }
}

/// Parse the digit run `s[start..]`, failing on a non-digit, an empty run, or
/// a value above `max`.
fn parse_magnitude(s: &str, start: usize, max: u64) -> (r: Option<u64>)
    requires
        start as int <= s@.len(),
    ensures
        ({
            let digits = s@.subrange(start as int, s@.len() as int);
            match r {
                Some(v) => digits.len() > 0 && spec_all_digits(digits) && v as int
                    == spec_digits_val(digits) && v <= max,
                None => !(digits.len() > 0 && spec_all_digits(digits) && spec_digits_val(digits)
                    <= max as int),
            }
        }),
{
    let ghost digits = s@.subrange(start as int, s@.len() as int);
    let n = s.unicode_len();
    if start == n {
        return None;
    }
    let mut i: usize = start;
    let mut val: u64 = 0;
    while i < n
        invariant
            start <= i <= n,
            n == s@.len(),
            digits == s@.subrange(start as int, s@.len() as int),
            spec_all_digits(s@.subrange(start as int, i as int)),
            val as int == spec_digits_val(s@.subrange(start as int, i as int)),
            val <= max,
        decreases n - i,
    {
        let c = s.get_char(i);
        let d = c as u32;
        if d < 48 || d > 57 {
            assert(digits[i - start] == s@[i as int]);
            return None;
        }
        let dd = (d - 48) as u64;
        let ghost prefix = s@.subrange(start as int, i as int);
        let ghost prefix1 = s@.subrange(start as int, i as int + 1);
        proof {
            assert(prefix1.drop_last() =~= prefix);
            assert(prefix1.last() == s@[i as int]);
            assert(spec_digits_val(prefix1) == val * 10 + dd);
            assert(spec_all_digits(prefix1));
        }
        if val > max / 10 || (val == max / 10 && dd > max % 10) {
            proof {
                assert(val * 10 + dd > max);
                if spec_all_digits(digits) {
                    assert(prefix1 =~= digits.subrange(0, i - start + 1));
                    lemma_digits_val_prefix_le(digits, i - start + 1);
                }
            }
            return None;
        }
        proof {
            assert(val * 10 + dd <= max);
        }
        val = val * 10 + dd;
        i = i + 1;
    }
    assert(s@.subrange(start as int, i as int) =~= digits);
    Some(val)
}

/// Parse a bare digit run as a machine word: no sign, no point; `None` on
/// an empty run, a non-digit, or overflow.
pub fn parse_magnitude_text(s: &str) -> (r: Option<u64>)
    ensures
        match r {
            Some(v) => s@.len() > 0 && spec_all_digits(s@) && v as int == spec_digits_val(s@),
            None => !(s@.len() > 0 && spec_all_digits(s@) && spec_digits_val(s@) <= u64::MAX
                as int),
        },
{
    proof {
        assert(s@.subrange(0, s@.len() as int) =~= s@);
    }
    parse_magnitude(s, 0, u64::MAX)
}

/// Unsigned decimal parse with ceiling `max`, exactly `spec_parse_uint`.
fn parse_unsigned(s: &str, max: u64) -> (r: Option<u64>)
    ensures
        match r {
            Some(v) => spec_parse_uint(s@, max as int) == Some(v as int),
            None => spec_parse_uint(s@, max as int) is None,
        },
{
    let n = s.unicode_len();
    let start: usize = if n > 0 && s.get_char(0) == '+' {
        1
    } else {
        0
    };
    proof {
        if !(s@.len() > 0 && s@[0] == '+') {
            assert(s@.subrange(0, s@.len() as int) =~= s@);
        }
    }
    parse_magnitude(s, start, max)
}

pub fn parse_u64_text(s: &str) -> (r: Option<u64>)
    ensures
        r == spec_parse_u64(s@),
{
    parse_unsigned(s, u64::MAX)
}

pub fn parse_u32_text(s: &str) -> (r: Option<u32>)
    ensures
        r == spec_parse_u32(s@),
{
    match parse_unsigned(s, u32::MAX as u64) {
        Some(v) => Some(v as u32),
        None => None,
    }
}

pub fn parse_u8_text(s: &str) -> (r: Option<u8>)
    ensures
        r == spec_parse_u8(s@),
{
    match parse_unsigned(s, u8::MAX as u64) {
        Some(v) => Some(v as u8),
        None => None,
    }
}

pub fn parse_i64_text(s: &str) -> (r: Option<i64>)
    ensures
        r == spec_parse_i64(s@),
{
    let n = s.unicode_len();
    if n > 0 && s.get_char(0) == '-' {
        match parse_magnitude(s, 1, 9223372036854775808u64) {
            Some(mag) => {
                if mag == 9223372036854775808u64 {
                    Some(i64::MIN)
                } else {
                    Some(-(mag as i64))
                }
            },
            None => None,
        }
    } else {
        match parse_unsigned(s, i64::MAX as u64) {
            Some(v) => Some(v as i64),
            None => None,
        }
    }
}

pub fn parse_i32_text(s: &str) -> (r: Option<i32>)
    ensures
        r == spec_parse_i32(s@),
{
    let n = s.unicode_len();
    if n > 0 && s.get_char(0) == '-' {
        match parse_magnitude(s, 1, 2147483648u64) {
            Some(mag) => {
                if mag == 2147483648u64 {
                    Some(i32::MIN)
                } else {
                    Some(-(mag as i32))
                }
            },
            None => None,
        }
    } else {
        match parse_unsigned(s, i32::MAX as u64) {
            Some(v) => Some(v as i32),
            None => None,
        }
    }
}

// ---------------------------------------------------------------------------
// Trimming
// ---------------------------------------------------------------------------

pub open spec fn spec_trim_start(s: Seq<char>) -> Seq<char>
    decreases s.len(),
{
    if s.len() > 0 && spec_is_space(s[0]) {
        spec_trim_start(s.drop_first())
    } else {
        s
    }
}

pub open spec fn spec_trim_end(s: Seq<char>) -> Seq<char>
    decreases s.len(),
{
    if s.len() > 0 && spec_is_space(s.last()) {
        spec_trim_end(s.drop_last())
    } else {
        s
    }
}

/// ASCII whitespace stripped from both ends.
pub open spec fn spec_trim(s: Seq<char>) -> Seq<char> {
    spec_trim_end(spec_trim_start(s))
}

/// Strip ASCII whitespace from both ends of `s`.
pub fn trim_text<'a>(s: &'a str) -> (r: &'a str)
    ensures
        r@ == spec_trim(s@),
{
    let n = s.unicode_len();
    let mut i: usize = 0;
    proof {
        assert(s@.subrange(0, n as int) =~= s@);
    }
    while i < n && is_space_char(s.get_char(i))
        invariant
            0 <= i <= n,
            n == s@.len(),
            spec_trim_start(s@) == spec_trim_start(s@.subrange(i as int, n as int)),
        decreases n - i,
    {
        proof {
            let sub = s@.subrange(i as int, n as int);
            assert(sub[0] == s@[i as int]);
            assert(sub.drop_first() =~= s@.subrange(i as int + 1, n as int));
        }
        i = i + 1;
    }
    proof {
        let sub = s@.subrange(i as int, n as int);
        if i < n {
            assert(sub[0] == s@[i as int]);
        }
        assert(spec_trim_start(s@) == sub);
    }
    let mut j: usize = n;
    while j > i && is_space_char(s.get_char(j - 1))
        invariant
            i <= j <= n,
            n == s@.len(),
            spec_trim_start(s@) == s@.subrange(i as int, n as int),
            spec_trim_end(s@.subrange(i as int, n as int)) == spec_trim_end(
                s@.subrange(i as int, j as int),
            ),
        decreases j,
    {
        proof {
            let sub = s@.subrange(i as int, j as int);
            assert(sub.last() == s@[j - 1]);
            assert(sub.drop_last() =~= s@.subrange(i as int, j as int - 1));
        }
        j = j - 1;
    }
    proof {
        let sub = s@.subrange(i as int, j as int);
        if j > i {
            assert(sub.last() == s@[j - 1]);
        }
        assert(spec_trim_end(s@.subrange(i as int, n as int)) == sub);
    }
    s.substring_char(i, j)
}

// ---------------------------------------------------------------------------
// Character search, equality, line splitting
// ---------------------------------------------------------------------------

/// Index of the first occurrence of `c` in `s`, or `s.len()` if absent.
pub open spec fn spec_find_idx(s: Seq<char>, c: char) -> nat
    decreases s.len(),
{
    if s.len() == 0 {
        0
    } else if s[0] == c {
        0
    } else {
        1 + spec_find_idx(s.drop_first(), c)
    }
}

pub proof fn lemma_find_idx_bounds(s: Seq<char>, c: char)
    ensures
        spec_find_idx(s, c) <= s.len(),
        spec_find_idx(s, c) < s.len() ==> s[spec_find_idx(s, c) as int] == c,
    decreases s.len(),
{
    if s.len() > 0 && s[0] != c {
        lemma_find_idx_bounds(s.drop_first(), c);
    }
}

pub proof fn lemma_find_idx_at(s: Seq<char>, c: char, i: int)
    requires
        0 <= i < s.len(),
        s[i] == c,
        forall|m: int| 0 <= m < i ==> s[m] != c,
    ensures
        spec_find_idx(s, c) == i,
    decreases i,
{
    if i > 0 {
        lemma_find_idx_at(s.drop_first(), c, i - 1);
    }
}

pub proof fn lemma_find_idx_absent(s: Seq<char>, c: char)
    requires
        forall|m: int| 0 <= m < s.len() ==> s[m] != c,
    ensures
        spec_find_idx(s, c) == s.len(),
    decreases s.len(),
{
    if s.len() > 0 {
        lemma_find_idx_absent(s.drop_first(), c);
    }
}

/// Index of the first occurrence of `c` in `s`, or `s`'s length if absent.
pub fn find_char(s: &str, c: char) -> (r: usize)
    ensures
        r as int == spec_find_idx(s@, c),
        r <= s@.len(),
{
    let n = s.unicode_len();
    let mut i: usize = 0;
    while i < n
        invariant
            0 <= i <= n,
            n == s@.len(),
            forall|m: int| 0 <= m < i ==> s@[m] != c,
        decreases n - i,
    {
        if s.get_char(i) == c {
            proof {
                lemma_find_idx_at(s@, c, i as int);
            }
            return i;
        }
        i = i + 1;
    }
    proof {
        lemma_find_idx_absent(s@, c);
    }
    n
}

/// Character-for-character string equality.
pub fn str_eq(a: &str, b: &str) -> (r: bool)
    ensures
        r == (a@ == b@),
{
    let na = a.unicode_len();
    let nb = b.unicode_len();
    if na != nb {
        return false;
    }
    let mut i: usize = 0;
    while i < na
        invariant
            0 <= i <= na,
            na == a@.len(),
            na == b@.len(),
            forall|m: int| 0 <= m < i ==> a@[m] == b@[m],
        decreases na - i,
    {
        if a.get_char(i) != b.get_char(i) {
            return false;
        }
        i = i + 1;
    }
    proof {
        assert(a@ =~= b@);
    }
    true
}

/// A line with its `\r\n` carriage return removed.
pub open spec fn spec_strip_cr(l: Seq<char>) -> Seq<char> {
    if l.len() > 0 && l.last() == '\r' {
        l.drop_last()
    } else {
        l
    }
}

/// The lines of `s`: split at `\n`, each line stripped of a trailing `\r`,
/// with no empty final line for text that ends in a newline.
pub open spec fn spec_lines(s: Seq<char>) -> Seq<Seq<char>>
    decreases s.len() via spec_lines_dec
{
    if s.len() == 0 {
        Seq::empty()
    } else {
        let i = spec_find_idx(s, '\n');
        if i == s.len() {
            seq![s]
        } else {
            seq![spec_strip_cr(s.subrange(0, i as int))] + spec_lines(
                s.subrange(i as int + 1, s.len() as int),
            )
        }
    }
}

#[via_fn]
proof fn spec_lines_dec(s: Seq<char>) {
    lemma_find_idx_bounds(s, '\n');
}

fn strip_cr_text<'a>(l: &'a str) -> (r: &'a str)
    ensures
        r@ == spec_strip_cr(l@),
{
    let n = l.unicode_len();
    if n > 0 && l.get_char(n - 1) == '\r' {
        let r = l.substring_char(0, n - 1);
        proof {
            assert(l@.subrange(0, n as int - 1) =~= l@.drop_last());
        }
        r
    } else {
        let r = l.substring_char(0, n);
        proof {
            assert(l@.subrange(0, n as int) =~= l@);
        }
        r
    }
}

/// Split `s` into its lines, as `spec_lines` describes.
pub fn split_lines(s: &str) -> (r: Vec<String>)
    ensures
        r.deep_view() == spec_lines(s@),
{
    let n = s.unicode_len();
    let mut out: Vec<String> = Vec::new();
    let mut pos: usize = 0;
    proof {
        assert(s@.subrange(0, n as int) =~= s@);
        assert(out.deep_view() + spec_lines(s@.subrange(0, n as int)) =~= spec_lines(s@));
    }
    while pos < n
        invariant
            0 <= pos <= n,
            n == s@.len(),
            out.deep_view() + spec_lines(s@.subrange(pos as int, n as int)) =~= spec_lines(s@),
        decreases n - pos,
    {
        let ghost rest = s@.subrange(pos as int, n as int);
        // find the next newline at or after pos
        let mut k: usize = pos;
        while k < n && s.get_char(k) != '\n'
            invariant
                pos <= k <= n,
                n == s@.len(),
                forall|m: int| pos <= m < k ==> s@[m] != '\n',
            decreases n - k,
        {
            k = k + 1;
        }
        proof {
            assert(forall|m: int| 0 <= m < k - pos ==> rest[m] == s@[m + pos]);
            if k < n {
                assert(rest[k - pos] == s@[k as int]);
                lemma_find_idx_at(rest, '\n', k as int - pos as int);
            } else {
                lemma_find_idx_absent(rest, '\n');
            }
        }
        if k == n {
            // final line, no terminating newline
            let line = s.substring_char(pos, n);
            proof {
                assert(line@ =~= rest);
                assert(spec_lines(rest) =~= seq![rest]);
            }
            out.push(String::from_str(line));
            pos = n;
            proof {
                assert(s@.subrange(pos as int, n as int) =~= Seq::<char>::empty());
                assert(out.deep_view() + spec_lines(s@.subrange(pos as int, n as int))
                    =~= spec_lines(s@));
            }
        } else {
            let raw = s.substring_char(pos, k);
            let line = strip_cr_text(raw);
            proof {
                assert(raw@ =~= rest.subrange(0, k as int - pos as int));
                assert(spec_lines(rest) =~= seq![spec_strip_cr(rest.subrange(0, k as int - pos as int))]
                    + spec_lines(rest.subrange(k as int - pos as int + 1, rest.len() as int)));
                assert(rest.subrange(k as int - pos as int + 1, rest.len() as int)
                    =~= s@.subrange(k as int + 1, n as int));
            }
            out.push(String::from_str(line));
            pos = k + 1;
            proof {
                assert(out.deep_view() + spec_lines(s@.subrange(pos as int, n as int))
                    =~= spec_lines(s@));
            }
        }
    }
    proof {
        assert(s@.subrange(pos as int, n as int) =~= Seq::<char>::empty());
        assert(out.deep_view() =~= spec_lines(s@));
    }
    out
}

/// `s` split at every occurrence of `c`: empty tokens are kept, and a string
/// without `c` is one token, so there is always at least one.
pub open spec fn spec_split(s: Seq<char>, c: char) -> Seq<Seq<char>>
    decreases s.len() via spec_split_dec
{
    let i = spec_find_idx(s, c);
    if i == s.len() {
        seq![s]
    } else {
        seq![s.subrange(0, i as int)] + spec_split(s.subrange(i as int + 1, s.len() as int), c)
    }
}

#[via_fn]
proof fn spec_split_dec(s: Seq<char>, c: char) {
    lemma_find_idx_bounds(s, c);
}

/// Split `s` at every occurrence of `c`, as `spec_split` describes.
pub fn split_char(s: &str, c: char) -> (r: Vec<String>)
    ensures
        r.deep_view() == spec_split(s@, c),
        r.len() >= 1,
{
    let n = s.unicode_len();
    let mut out: Vec<String> = Vec::new();
    let mut pos: usize = 0;
    proof {
        assert(s@.subrange(0, n as int) =~= s@);
        assert(out.deep_view() + spec_split(s@.subrange(0, n as int), c) =~= spec_split(s@, c));
    }
    loop
        invariant_except_break
            out.deep_view() + spec_split(s@.subrange(pos as int, n as int), c) =~= spec_split(
                s@,
                c,
            ),
        invariant
            0 <= pos <= n,
            n == s@.len(),
        ensures
            out.deep_view() =~= spec_split(s@, c),
            out.len() >= 1,
        decreases n - pos,
    {
        let ghost rest = s@.subrange(pos as int, n as int);
        let mut k: usize = pos;
        while k < n && s.get_char(k) != c
            invariant
                pos <= k <= n,
                n == s@.len(),
                forall|m: int| pos <= m < k ==> s@[m] != c,
            decreases n - k,
        {
            k = k + 1;
        }
        proof {
            assert(forall|m: int| 0 <= m < k - pos ==> rest[m] == s@[m + pos]);
            if k < n {
                assert(rest[k - pos] == s@[k as int]);
                lemma_find_idx_at(rest, c, k as int - pos as int);
            } else {
                lemma_find_idx_absent(rest, c);
            }
        }
        let tok = s.substring_char(pos, k);
        out.push(String::from_str(tok));
        if k == n {
            proof {
                assert(tok@ =~= rest);
                assert(spec_split(rest, c) =~= seq![rest]);
                assert(out.deep_view() =~= spec_split(s@, c));
            }
            break;
        }
        proof {
            assert(tok@ =~= rest.subrange(0, k as int - pos as int));
            assert(spec_split(rest, c) =~= seq![rest.subrange(0, k as int - pos as int)]
                + spec_split(rest.subrange(k as int - pos as int + 1, rest.len() as int), c));
            assert(rest.subrange(k as int - pos as int + 1, rest.len() as int) =~= s@.subrange(
                k as int + 1,
                n as int,
            ));
        }
        pos = k + 1;
    }
    out
}

// ---------------------------------------------------------------------------
// Decimal rendering
// ---------------------------------------------------------------------------

/// The digit character for a value in 0..=9.
pub open spec fn spec_digit_char(d: int) -> char {
    if d == 0 {
        '0'
    } else if d == 1 {
        '1'
    } else if d == 2 {
        '2'
    } else if d == 3 {
        '3'
    } else if d == 4 {
        '4'
    } else if d == 5 {
        '5'
    } else if d == 6 {
        '6'
    } else if d == 7 {
        '7'
    } else if d == 8 {
        '8'
    } else {
        '9'
    }
}

/// The canonical decimal rendering of a non-negative number: no sign, no
/// leading zero except for zero itself.
pub open spec fn spec_decimal(n: int) -> Seq<char>
    decreases n,
{
    if n < 10 {
        seq![spec_digit_char(n)]
    } else {
        spec_decimal(n / 10).push(spec_digit_char(n % 10))
    }
}

fn digit_str(d: u8) -> (r: &'static str)
    requires
        d < 10,
    ensures
        r@ =~= seq![spec_digit_char(d as int)],
{
    proof {
        reveal_strlit("0");
        reveal_strlit("1");
        reveal_strlit("2");
        reveal_strlit("3");
        reveal_strlit("4");
        reveal_strlit("5");
        reveal_strlit("6");
        reveal_strlit("7");
        reveal_strlit("8");
        reveal_strlit("9");
    }
    match d {
        0 => "0",
        1 => "1",
        2 => "2",
        3 => "3",
        4 => "4",
        5 => "5",
        6 => "6",
        7 => "7",
        8 => "8",
        _ => "9",
    }
}

/// Render a byte as decimal ASCII, no newline: the exact payload the LED and
/// backlight files take.
pub fn u8_decimal(v: u8) -> (r: String)
    ensures
        r@ == spec_decimal(v as int),
    decreases v,
{
    if v < 10 {
        String::from_str(digit_str(v))
    } else {
        let mut s = u8_decimal(v / 10);
        s.append(digit_str(v % 10));
        proof {
            assert(s@ =~= spec_decimal((v / 10) as int).push(spec_digit_char((v % 10) as int)));
        }
        s
    }
}

/// A canonical decimal string parses back to the number it renders: the
/// backlight round trip.
pub proof fn lemma_decimal_parses(n: int)
    requires
        0 <= n,
    ensures
        spec_decimal(n).len() > 0,
        spec_all_digits(spec_decimal(n)),
        spec_digits_val(spec_decimal(n)) == n,
        !spec_is_space(spec_decimal(n)[0]),
        spec_decimal(n)[0] != '+',
        spec_decimal(n)[0] != '-',
    decreases n,
{
    if n < 10 {
        let s = spec_decimal(n);
        assert(s =~= seq![spec_digit_char(n)]);
        assert(s.drop_last() =~= Seq::<char>::empty());
        assert(s.last() == spec_digit_char(n));
        assert(spec_digit_val(spec_digit_char(n)) == n);
        assert(spec_digits_val(s) == spec_digits_val(s.drop_last()) * 10 + spec_digit_val(s.last()));
    } else {
        lemma_decimal_parses(n / 10);
        let p = spec_decimal(n / 10);
        let s = spec_decimal(n);
        assert(s =~= p.push(spec_digit_char(n % 10)));
        assert(s.drop_last() =~= p);
        assert(s.last() == spec_digit_char(n % 10));
        assert(spec_digit_val(spec_digit_char(n % 10)) == n % 10);
        assert(spec_digits_val(s) == (n / 10) * 10 + n % 10);
        assert(forall|i: int| 0 <= i < s.len() ==> spec_is_digit(#[trigger] s[i]));
        assert(s[0] == p[0]);
    }
}

/// A string of nothing but digits carries no whitespace to trim.
pub proof fn lemma_trim_digits_identity(s: Seq<char>)
    requires
        spec_all_digits(s),
    ensures
        spec_trim(s) == s,
{
    if s.len() > 0 {
        assert(!spec_is_space(s[0]));
        assert(!spec_is_space(s.last()));
    }
}

/// A string of nothing but digits is a single line.
pub proof fn lemma_lines_of_digits(s: Seq<char>)
    requires
        spec_all_digits(s),
        s.len() > 0,
    ensures
        spec_lines(s) =~= seq![s],
{
    assert(forall|m: int| 0 <= m < s.len() ==> s[m] != '\n');
    lemma_find_idx_absent(s, '\n');
}

/// Parsing the canonical decimal of `n <= max` yields `n` again.
pub proof fn lemma_decimal_round_trip(n: int, max: int)
    requires
        0 <= n <= max,
    ensures
        spec_parse_uint(spec_decimal(n), max) == Some(n),
{
    lemma_decimal_parses(n);
}

} // verus!
