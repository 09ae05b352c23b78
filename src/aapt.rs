//! Reading the fields of a package artifact out of the text that the
//! manifest-extraction tool (`aapt dump badging`) prints for it.

use vstd::prelude::*;
use crate::app::opt_text;

verus! {

/// The pattern that finds the version code.
pub const VERSION_CODE_PATTERN: &'static str = r"versionCode='(\d+)'";

/// The pattern that finds the package name.
pub const NAME_PATTERN: &'static str = r"name='((?:[[:alpha:]]|\.)+)'";

/// What `regex` reports as the first group of the leftmost match of
/// `pattern` in `text`; `None` where the pattern does not compile, nothing
/// matches, or the group took no part in the match.
pub uninterp spec fn first_capture(pattern: Seq<char>, text: Seq<char>) -> Option<Seq<char>>;

/// Relies on regex::Regex::new, Regex::captures and Captures::get: the text of
/// the first group of the leftmost match.
#[verifier::external_body]
fn capture_first_group(pattern: &str, text: &str) -> (r: Option<String>)
    ensures
        opt_text(r) == first_capture(pattern@, text@),
{
    let re = regex::Regex::new(pattern).ok()?;
    re.captures(text).and_then(|c| c.get(1)).map(|m| m.as_str().to_string())
}

/// Whether `c` is an ASCII decimal digit.
pub open spec fn is_digit(c: char) -> bool {
    '0' <= c <= '9'
}

/// The value of a run of ASCII decimal digits.
pub open spec fn decimal_value(s: Seq<char>) -> int
    decreases s.len(),
{
    if s.len() == 0 {
        0
    } else {
        decimal_value(s.drop_last()) * 10 + (s.last() as int - '0' as int)
    }
}

/// The number that `s` writes in decimal, where it is a non-empty run of
/// ASCII digits whose value fits a `u32`.
pub open spec fn decimal_u32(s: Seq<char>) -> Option<u32> {
    if s.len() > 0 && (forall|i: int| 0 <= i < s.len() ==> is_digit(#[trigger] s[i]))
        && decimal_value(s) <= u32::MAX {
        Some(decimal_value(s) as u32)
    } else {
        None
    }
}

/// Reads a non-empty run of ASCII decimal digits as a `u32`: `None` for any
/// other text, or where the value does not fit.
pub fn parse_decimal(s: &str) -> (r: Option<u32>)
    ensures
        r == decimal_u32(s@),
{
    let n = s.unicode_len();
    if n == 0 {
        return None;
    }
    let mut value: u64 = 0;
    let mut too_large = false;
    let mut i: usize = 0;
    while i < n
        invariant
            n == s@.len(),
            i <= n,
            forall|j: int| 0 <= j < i ==> is_digit(#[trigger] s@[j]),
            !too_large ==> value == decimal_value(s@.subrange(0, i as int)) && value <= u32::MAX,
            too_large ==> decimal_value(s@.subrange(0, i as int)) > u32::MAX,
        decreases n - i,
    {
        let c = s.get_char(i);
        if !('0' <= c && c <= '9') {
            return None;
        }
        let ghost prefix = s@.subrange(0, i + 1);
        assert(prefix.drop_last() =~= s@.subrange(0, i as int));
        assert(decimal_value(s@.subrange(0, i as int)) >= 0) by {
            lemma_decimal_value_nonneg(s@.subrange(0, i as int));
        }
        if !too_large {
            value = value * 10 + (c as u64 - '0' as u64);
            if value > u32::MAX as u64 {
                too_large = true;
            }
        }
        i = i + 1;
    }
    assert(s@.subrange(0, n as int) =~= s@);
    if too_large {
        None
    } else {
        Some(value as u32)
    }
}

proof fn lemma_decimal_value_nonneg(s: Seq<char>)
    requires
        forall|i: int| 0 <= i < s.len() ==> is_digit(#[trigger] s[i]),
    ensures
        decimal_value(s) >= 0,
    decreases s.len(),
{
    if s.len() > 0 {
        lemma_decimal_value_nonneg(s.drop_last());
    }
}

/// The version code of a badging text: the digits after the first
/// `versionCode='`, read as a `u32`.
pub fn version_code_from_capture(capture: Option<&str>) -> (r: Option<u32>)
    ensures
        r == match capture {
            Some(s) => decimal_u32(s@),
            None => None,
        },
{
    match capture {
        Some(s) => parse_decimal(s),
        None => None,
    }
}

/// Finds the version code in the text of `aapt dump badging`.
pub fn get_version_code(metadata: &str) -> (r: Option<u32>)
    ensures
        r == match first_capture(VERSION_CODE_PATTERN@, metadata@) {
            Some(s) => decimal_u32(s),
            None => None,
        },
{
    let capture = capture_first_group(VERSION_CODE_PATTERN, metadata);
    match capture {
        Some(s) => version_code_from_capture(Some(s.as_str())),
        None => None,
    }
}

/// Finds the package name in the text of `aapt dump badging`.
pub fn get_name(metadata: &str) -> (r: Option<String>)
    ensures
        opt_text(r) == first_capture(NAME_PATTERN@, metadata@),
{
    capture_first_group(NAME_PATTERN, metadata)
}

/// The decimal digits of `n`, without leading zeros.
pub open spec fn decimal_text(n: nat) -> Seq<char>
    decreases n,
{
    if n < 10 {
        seq!["0123456789"@[n as int]]
    } else {
        decimal_text(n / 10) + seq!["0123456789"@[(n % 10) as int]]
    }
}

fn digit_str(d: u32) -> (r: &'static str)
    requires
        d < 10,
    ensures
        r@ == seq!["0123456789"@[d as int]],
{
    proof {
        reveal_strlit("0123456789");
    }
    let r = match d {
        0 => "0",
        1 => "1",
        2 => "2",
        3 => "3",
        4 => "4",
        5 => "5",
        6 => "6",
        7 => "7",
        8 => "8",
        _ => "9",
    };
    proof {
        reveal_strlit("0");
        reveal_strlit("1");
        reveal_strlit("2");
        reveal_strlit("3");
        reveal_strlit("4");
        reveal_strlit("5");
        reveal_strlit("6");
        reveal_strlit("7");
        reveal_strlit("8");
        reveal_strlit("9");
        assert(r@ =~= seq!["0123456789"@[d as int]]);
    }
    r
}

/// The decimal digits of a number, without sign or leading zeros.
pub fn decimal_string(n: u32) -> (r: String)
    ensures
        r@ == decimal_text(n as nat),
    decreases n,
{
    if n < 10 {
        String::from_str(digit_str(n))
    } else {
        decimal_string(n / 10).concat(digit_str(n % 10))
    }
}

} // verus!
