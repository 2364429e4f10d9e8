use crate::prelude::{user_row, remap_row, ShaderError};
use vstd::prelude::*;
use vstd::string::*;

verus! {

/// The pattern of a backend diagnostic that locates a shader error: row,
/// column, then the message up to the word `Shader`.
pub const DIAGNOSTIC_PATTERN: &'static str = r"Parser:\s:(\d+):(\d+)\s([\s\S]*?)\s+Shader";

/// The first three groups of the leftmost match of `pattern` in `text`;
/// `None` where the pattern is not valid, nothing matches, or one of the
/// three groups takes no part in the match.
pub uninterp spec fn regex_groups3(pattern: Seq<char>, text: Seq<char>) -> Option<
    (Seq<char>, Seq<char>, Seq<char>),
>;

/// Relies on regex's Regex::new (re-exported by lazy_regex), which reports an
/// invalid pattern as an error, and on Regex::captures and Captures::get for
/// the leftmost match and its groups. The result depends on the two texts alone.
#[verifier::external_body]
fn regex_captures3(pattern: &str, text: &str) -> (r: Option<(String, String, String)>)
    ensures
        match r {
            Some(c) => regex_groups3(pattern@, text@) == Some((c.0@, c.1@, c.2@)),
            None => regex_groups3(pattern@, text@) is None,
        },
{
    let c = lazy_regex::Regex::new(pattern).ok()?.captures(text)?;
    let (g1, g2, g3) = (c.get(1)?, c.get(2)?, c.get(3)?);
    Some((g1.as_str().to_string(), g2.as_str().to_string(), g3.as_str().to_string()))
}

pub open spec fn is_ascii_digit(c: char) -> bool {
    '0' <= c && c <= '9'
}

/// Value of a string of decimal digits.
pub open spec fn decimal_value(s: Seq<char>) -> int
    decreases s.len(),
{
    if s.len() == 0 {
        0
    } else {
        decimal_value(s.drop_last()) * 10 + (s.last() as int - '0' as int)
    }
}

pub open spec fn is_decimal(s: Seq<char>) -> bool {
    s.len() > 0 && forall|i: int| 0 <= i < s.len() ==> is_ascii_digit(#[trigger] s[i])
}

proof fn lemma_decimal_value_nonneg(s: Seq<char>)
    requires
        forall|i: int| 0 <= i < s.len() ==> is_ascii_digit(#[trigger] s[i]),
    ensures
        decimal_value(s) >= 0,
    decreases s.len(),
{
    if s.len() > 0 {
        lemma_decimal_value_nonneg(s.drop_last());
    }
}

proof fn lemma_decimal_value_grows(s: Seq<char>, c: char)
    requires
        forall|i: int| 0 <= i < s.len() ==> is_ascii_digit(#[trigger] s[i]),
        is_ascii_digit(c),
    ensures
        decimal_value(s.push(c)) >= decimal_value(s),
{
    assert(s.push(c).drop_last() == s);
    lemma_decimal_value_nonneg(s);
}

proof fn lemma_decimal_prefix_bound(s: Seq<char>, i: int)
    requires
        0 <= i <= s.len(),
        forall|j: int| 0 <= j < s.len() ==> is_ascii_digit(#[trigger] s[j]),
    ensures
        decimal_value(s.subrange(0, i)) <= decimal_value(s),
    decreases s.len() - i,
{
    if i < s.len() {
        lemma_decimal_prefix_bound(s, i + 1);
        assert(s.subrange(0, i + 1) == s.subrange(0, i).push(s[i]));
        lemma_decimal_value_grows(s.subrange(0, i), s[i]);
    } else {
        assert(s.subrange(0, i) == s);
    }
}

/// Reads a string of decimal digits as a `usize`: `None` where it is empty,
/// holds another character, or is too large.
pub fn parse_decimal(s: &str) -> (r: Option<usize>)
    ensures
        r is Some <==> is_decimal(s@) && decimal_value(s@) <= usize::MAX,
        r matches Some(v) ==> v == decimal_value(s@),
{
    let n = s.unicode_len();
    if n == 0 {
        return None;
    }
    let mut i: usize = 0;
    while i < n
        invariant
            n == s@.len(),
            i <= n,
            forall|j: int| 0 <= j < i ==> is_ascii_digit(#[trigger] s@[j]),
        decreases n - i,
    {
        let c = s.get_char(i);
        if !('0' <= c && c <= '9') {
            return None;
        }
        i = i + 1;
    }
    let mut v: usize = 0;
    let mut i: usize = 0;
    while i < n
        invariant
            n == s@.len(),
            i <= n,
            is_decimal(s@),
            v == decimal_value(s@.subrange(0, i as int)),
        decreases n - i,
    {
        let c = s.get_char(i);
        let d = (c as u32 - '0' as u32) as usize;
        assert(s@.subrange(0, i + 1 as int).drop_last() =~= s@.subrange(0, i as int));
        proof {
            lemma_decimal_prefix_bound(s@, i + 1);
        }
        if v > (usize::MAX - d) / 10 {
            assert(decimal_value(s@.subrange(0, i + 1 as int)) > usize::MAX) by (nonlinear_arith)
                requires
                    decimal_value(s@.subrange(0, i + 1 as int)) == v * 10 + d,
                    v > (usize::MAX - d) / 10,
                    d <= 9,
            ;
            return None;
        }
        assert(v * 10 + d <= usize::MAX) by (nonlinear_arith)
            requires
                v <= (usize::MAX - d) / 10,
                d <= 9,
        ;
        v = v * 10 + d;
        i = i + 1;
    }
    assert(s@.subrange(0, n as int) =~= s@);
    Some(v)
}

/// The row read from a diagnostic: its digits, or the prelude's line count
/// (row 0 of the user's text) where they do not read as a number.
pub open spec fn diagnostic_row(row_text: Seq<char>, prelude_lines: int) -> int {
    if is_decimal(row_text) && decimal_value(row_text) <= usize::MAX {
        decimal_value(row_text)
    } else {
        prelude_lines
    }
}

/// The column read from a diagnostic: its digits, or 0 where they do not
/// read as a number.
pub open spec fn diagnostic_col(col_text: Seq<char>) -> int {
    if is_decimal(col_text) && decimal_value(col_text) <= usize::MAX {
        decimal_value(col_text)
    } else {
        0
    }
}

/// The report of a located backend diagnostic, from its three captured parts.
pub fn diagnostic_report(row_text: &str, col_text: &str, message: &str, prelude_lines: usize) -> (r:
    ShaderError)
    ensures
        r.row == user_row(diagnostic_row(row_text@, prelude_lines as int), prelude_lines as int),
        r.col == diagnostic_col(col_text@),
        r.message@ == message@,
{
    let row = match parse_decimal(row_text) {
        Some(v) => v,
        None => prelude_lines,
    };
    let col = match parse_decimal(col_text) {
        Some(v) => v,
        None => 0,
    };
    ShaderError { message: String::from_str(message), row: remap_row(row, prelude_lines), col }
}

/// The located report of a backend diagnostic, or `None` where the text does
/// not match the diagnostic pattern: such a diagnostic has no place to offer,
/// so it is logged rather than reported, though it still counts as a fault.
pub fn parse_diagnostic(text: &str, prelude_lines: usize) -> (r: Option<ShaderError>)
    ensures
        r is None <==> regex_groups3(DIAGNOSTIC_PATTERN@, text@) is None,
        regex_groups3(DIAGNOSTIC_PATTERN@, text@) matches Some(c) ==> r matches Some(e) && e.row
            == user_row(diagnostic_row(c.0, prelude_lines as int), prelude_lines as int) && e.col
            == diagnostic_col(c.1) && e.message@ == c.2,
{
    match regex_captures3(DIAGNOSTIC_PATTERN, text) {
        None => None,
        Some(caps) => Some(
            diagnostic_report(caps.0.as_str(), caps.1.as_str(), caps.2.as_str(), prelude_lines),
        ),
    }
}

} // verus!
