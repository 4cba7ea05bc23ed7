//! The transcript settings that operators can override: the transcript
//! root directory and how many days transcripts are kept.
//!
//! The values are read at the edge; what they amount to is decided here.

use vstd::prelude::*;

use crate::error::BsuiteCoreError;

verus! {

/// The environment variable that overrides the transcript root.
pub const TRANSCRIPT_DIR_ENV: &'static str = "BSUITE_TRANSCRIPT_DIR";

/// The environment variable that overrides the retention period.
pub const RETENTION_DAYS_ENV: &'static str = "BSUITE_TRANSCRIPT_RETENTION_DAYS";

/// How many days transcripts are kept when nothing overrides it.
pub const DEFAULT_RETENTION_DAYS: u32 = 90;

/// Whether `c` has the Unicode `White_Space` property, as
/// `char::is_whitespace` answers it.
pub uninterp spec fn unicode_white_space(c: char) -> bool;

/// Calls `char::is_whitespace`. The contract names the answer, which the
/// documentation ties to the Unicode `White_Space` property.
#[verifier::external_body]
fn is_white_space(c: char) -> (white: bool)
    ensures
        white == unicode_white_space(c),
{
    c.is_whitespace()
}

/// Whether `text` is empty once white space is trimmed from both ends.
pub open spec fn spec_blank(text: Seq<char>) -> bool {
    forall|i: int| 0 <= i < text.len() ==> #[trigger] unicode_white_space(text[i])
}

fn is_blank(text: &str) -> (blank: bool)
    ensures
        blank == spec_blank(text@),
{
    let n = text.unicode_len();
    let mut i: usize = 0;
    while i < n
        invariant
            n == text@.len(),
            i <= n,
            forall|j: int| 0 <= j < i ==> #[trigger] unicode_white_space(text@[j]),
        decreases n - i,
    {
        if !is_white_space(text.get_char(i)) {
            return false;
        }
        i = i + 1;
    }
    true
}

/// The transcript root that an override value selects: none when the value
/// is absent or blank, else the value itself.
pub fn transcript_root_from_value(value: Option<&str>) -> (root: Option<String>)
    ensures
        match value {
            None => root is None,
            Some(v) => if spec_blank(v@) {
                root is None
            } else {
                root matches Some(r) && r@ == v@
            },
        },
{
    match value {
        None => None,
        Some(v) => if is_blank(v) {
            None
        } else {
            Some(String::from_str(v))
        },
    }
}

/// The value of a run of decimal digits.
pub open spec fn decimal_value(digits: Seq<char>) -> int
    decreases digits.len(),
{
    if digits.len() == 0 {
        0
    } else {
        decimal_value(digits.drop_last()) * 10 + (digits.last() as int - '0' as int)
    }
}

/// Whether every character of `text` is a decimal digit.
pub open spec fn all_decimal_digits(text: Seq<char>) -> bool {
    forall|i: int| 0 <= i < text.len() ==> '0' <= #[trigger] text[i] <= '9'
}

/// What `u32::from_str` accepts, as its documentation describes it: an
/// optional `+` followed by one or more decimal digits whose value fits.
pub open spec fn spec_decimal_u32(text: Seq<char>) -> Option<u32> {
    let digits = if text.len() > 0 && text[0] == '+' {
        text.drop_first()
    } else {
        text
    };
    if digits.len() > 0 && all_decimal_digits(digits) && decimal_value(digits) <= u32::MAX {
        Some(decimal_value(digits) as u32)
    } else {
        None
    }
}

/// The text that `Display` for `ParseIntError` writes when
/// `str::parse::<u32>` rejects `text`.
pub uninterp spec fn u32_parse_error_text(text: Seq<char>) -> Seq<char>;

/// Calls `str::parse::<u32>` and hands back the error's text on failure.
/// The contract claims what the documentation of `u32::from_str` states:
/// which texts parse, and to which value; the error's text is named.
#[verifier::external_body]
fn parse_decimal_u32(text: &str) -> (parsed: Result<u32, String>)
    ensures
        match parsed {
            Ok(n) => spec_decimal_u32(text@) == Some(n),
            Err(reason) => spec_decimal_u32(text@) is None && reason@ == u32_parse_error_text(
                text@,
            ),
        },
{
    match text.parse::<u32>() {
        Ok(n) => Ok(n),
        Err(error) => Err(error.to_string()),
    }
}

/// The message that rejects the retention override `value`.
pub open spec fn spec_retention_message(value: Seq<char>) -> Seq<char> {
    spec_retention_message_prefix() + u32_parse_error_text(value)
}

/// The prefix of the message that rejects a retention override.
pub open spec fn spec_retention_message_prefix() -> Seq<char> {
    "BSUITE_TRANSCRIPT_RETENTION_DAYS must be a non-negative whole number: "@
}

/// The retention period an override value selects: the default when the
/// value is absent, the number it spells when it is a whole number that
/// fits in `u32`, and `TranscriptPathFailed` otherwise.
pub fn retention_days_from_value(value: Option<&str>) -> (days: Result<u32, BsuiteCoreError>)
    ensures
        value is None ==> days == Ok::<u32, BsuiteCoreError>(DEFAULT_RETENTION_DAYS),
        value matches Some(v) ==> match spec_decimal_u32(v@) {
            Some(n) => days == Ok::<u32, BsuiteCoreError>(n),
            None => days matches Err(BsuiteCoreError::TranscriptPathFailed(message))
                && message@ == spec_retention_message(v@),
        },
{
    match value {
        None => Ok(DEFAULT_RETENTION_DAYS),
        Some(v) => match parse_decimal_u32(v) {
            Ok(n) => Ok(n),
            Err(reason) => {
                let mut message = String::from_str(
                    "BSUITE_TRANSCRIPT_RETENTION_DAYS must be a non-negative whole number: ",
                );
                message.append(reason.as_str());
                Err(BsuiteCoreError::TranscriptPathFailed(message))
            },
        },
    }
}

/// The length of the retention period in seconds.
pub fn retention_window_secs(days: u32) -> (secs: u64)
    ensures
        secs == days as int * 24 * 60 * 60,
{
    (days as u64) * 24 * 60 * 60
}

} // verus!
