//! Calls into std and outside crates whose behaviour is assumed, not proved.

use vstd::prelude::*;
use crate::text::{all_digits, decimal, duration_chars, group_thousands};

verus! {

/// `String::push` appends one character at the end of the string
/// (std documentation: "Appends the given char to the end of this String").
pub assume_specification[ String::push ](s: &mut String, ch: char)
    ensures
        final(s)@ == old(s)@.push(ch),
;


/// The pattern that places thousands separators: an empty match at every
/// position inside a word that is followed by a positive multiple of three
/// digits and then by no digit.
pub open spec fn thousands_pattern() -> Seq<char> {
    "\\B(?=(\\d{3})+(?!\\d))"@
}

/// Compiles `pattern` with `fancy_regex::Regex::new` and applies
/// `fancy_regex::Regex::replace_all(text, rep)`.
///
/// Claimed only for the thousands pattern, a comma as replacement and a text of
/// one to thirty-nine ASCII digits. There `\B` holds at every inner position and
/// the look-ahead holds where the digits left to the end are a positive multiple
/// of three, so `replace_all` writes a comma at exactly those empty matches,
/// which is `group_thousands(text)`. The pattern is valid, so `Regex::new`
/// succeeds, and with at most thirty-nine digits the backtracking stays far
/// below the crate's limit, so `replace_all` does not panic.
#[verifier::external_body]
pub(crate) fn regex_replace_all(pattern: &str, text: &str, rep: &str) -> (res: String)
    requires
        pattern@ == thousands_pattern(),
        rep@ == ","@,
        all_digits(text@),
        1 <= text@.len() <= 39,
    ensures
        res@ == group_thousands(text@),
{
    fancy_regex::Regex::new(pattern).unwrap().replace_all(text, rep).into_owned()
}


/// What `russell_lab::format_nanoseconds` returns for a number of nanoseconds.
pub uninterp spec fn nanoseconds_text(ns: u128) -> Seq<char>;

/// What `russell_lab::format_nanoseconds_with_digits` returns for a number of
/// nanoseconds and a number of decimal digits.
pub uninterp spec fn nanoseconds_text_with_digits(ns: u128, digits: usize) -> Seq<char>;

/// Calls `russell_lab::format_nanoseconds`, which renders a duration such as
/// `2.5ms` or `1h2m3s`. Its source returns `0ns` for zero and the plain count
/// followed by `ns` below one microsecond; the other cases go through floating
/// point and are left to the name. Every piece it writes is an integer or a
/// finite non-negative `f64` shown by `Display` (never in exponent form)
/// followed by one of the units `h`, `m`, `s`, `ms`, `µs`, `ns`, so the text
/// holds only digits, `.` and those letters.
#[verifier::external_body]
pub(crate) fn format_nanoseconds(ns: u128) -> (res: String)
    ensures
        res@ == nanoseconds_text(ns),
        ns == 0 ==> res@ == "0ns"@,
        0 < ns < 1000 ==> res@ == decimal(ns as nat) + "ns"@,
        duration_chars(res@),
{
    russell_lab::format_nanoseconds(ns)
}

/// Calls `russell_lab::format_nanoseconds_with_digits`, which renders a duration
/// with `digits` decimal digits, such as `22.59s` for two digits. Its source
/// returns `0ns` for zero and the plain count followed by `ns` below one
/// microsecond, whatever the digits; the other cases are left to the name. As
/// for `format_nanoseconds`, the text holds only digits, `.` and the letters of
/// the units `h`, `m`, `s`, `ms`, `µs`, `ns`.
/// Only small precisions are admitted: std's formatting takes a precision of at
/// most `u16::MAX`, and the reports use three digits.
#[verifier::external_body]
pub(crate) fn format_nanoseconds_with_digits(ns: u128, digits: usize) -> (res: String)
    requires
        digits <= 20,
    ensures
        res@ == nanoseconds_text_with_digits(ns, digits),
        ns == 0 ==> res@ == "0ns"@,
        0 < ns < 1000 ==> res@ == decimal(ns as nat) + "ns"@,
        duration_chars(res@),
{
    russell_lab::format_nanoseconds_with_digits(ns, digits)
}

} // verus!
