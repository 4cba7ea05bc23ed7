//! Which files of a transcript directory belong to the transcript store:
//! files named `<ulid>.jsonl`, whose ULID also dates them.

use chrono::Datelike;
use ulid::Ulid;

use vstd::prelude::*;

use crate::error::BsuiteCoreError;
use crate::text::same_text;

verus! {

/// The value of a Crockford base-32 digit written in upper case.
pub open spec fn crockford_upper_digit(c: char) -> Option<u128> {
    if '0' <= c <= '9' {
        Some((c as int - '0' as int) as u128)
    } else if 'A' <= c <= 'H' {
        Some((c as int - 'A' as int + 10) as u128)
    } else if c == 'J' || c == 'K' {
        Some((c as int - 'J' as int + 18) as u128)
    } else if c == 'M' || c == 'N' {
        Some((c as int - 'M' as int + 20) as u128)
    } else if 'P' <= c <= 'T' {
        Some((c as int - 'P' as int + 22) as u128)
    } else if 'V' <= c <= 'Z' {
        Some((c as int - 'V' as int + 27) as u128)
    } else {
        None
    }
}

/// The value of a Crockford base-32 digit in either case.
pub open spec fn crockford_digit(c: char) -> Option<u128> {
    if 'a' <= c <= 'z' {
        crockford_upper_digit((c as int - 'a' as int + 'A' as int) as char)
    } else {
        crockford_upper_digit(c)
    }
}

/// The value of a run of Crockford digits, shifted in five bits at a time
/// and kept to 128 bits.
pub open spec fn crockford_value(text: Seq<char>) -> Option<u128>
    decreases text.len(),
{
    if text.len() == 0 {
        Some(0)
    } else {
        match (crockford_value(text.drop_last()), crockford_digit(text.last())) {
            (Some(high), Some(low)) => Some(((high as int * 32 + low as int) % 0x1_0000_0000_0000_0000_0000_0000_0000_0000int) as u128),
            _ => None,
        }
    }
}

/// What `ulid::Ulid::from_string` decodes `text` to: 26 Crockford digits.
pub open spec fn spec_ulid_value(text: Seq<char>) -> Option<u128> {
    if text.len() == 26 {
        crockford_value(text)
    } else {
        None
    }
}

/// Calls `ulid::Ulid::from_string` and hands back the decoded 128-bit value.
/// The contract states what the crate's decoder does: it accepts exactly 26
/// characters of the Crockford alphabet, in either case, and shifts each
/// digit into the value five bits at a time.
#[verifier::external_body]
pub(crate) fn ulid_value(text: &str) -> (value: Option<u128>)
    ensures
        value == spec_ulid_value(text@),
{
    match Ulid::from_string(text) {
        Ok(ulid) => Some(ulid.0),
        Err(_) => None,
    }
}

/// Calls `ulid::Ulid::timestamp_ms`: the top 48 bits of the value, the
/// milliseconds since the Unix epoch at which the ULID was made.
#[verifier::external_body]
pub(crate) fn ulid_timestamp_ms(value: u128) -> (millis: u64)
    ensures
        millis == (value >> 80u128) as u64,
{
    Ulid(value).timestamp_ms()
}

/// The day, counted from January 1 of year 1, that chrono's
/// `DateTime::<Utc>::from_timestamp_millis(millis)` falls on, or `None` when
/// chrono cannot represent that instant.
pub uninterp spec fn utc_day_number(millis: i64) -> Option<i64>;

/// Calls chrono's `DateTime::<Utc>::from_timestamp_millis`, then
/// `date_naive` and `num_days_from_ce`. The contract names the day number.
#[verifier::external_body]
pub(crate) fn utc_day(millis: i64) -> (day: Option<i64>)
    ensures
        day == utc_day_number(millis),
{
    match chrono::DateTime::<chrono::Utc>::from_timestamp_millis(millis) {
        Some(instant) => Some(i64::from(instant.date_naive().num_days_from_ce())),
        None => None,
    }
}

/// How many fresh ULIDs an append tries before it gives up on finding a
/// transcript file name that is not taken.
pub const TRANSCRIPT_NAME_ATTEMPTS: u32 = 8;

/// What an append does once it has checked a candidate transcript file name.
#[derive(Debug, Clone, Copy, PartialEq, Eq, Structural)]
pub enum NameSearchStep {
    /// The name is free: write the transcript under it.
    Use,
    /// The name is taken: try the name of a fresh ULID.
    TryAnother,
    /// The name is taken and every attempt is spent: give up.
    GiveUp,
}

/// The step after the `attempt`-th candidate name, counting from 1, was
/// found `taken` or free: a free name is used, and a taken one is replaced
/// by a fresh one until `TRANSCRIPT_NAME_ATTEMPTS` names have been tried.
pub fn name_search_step(attempt: u32, taken: bool) -> (step: NameSearchStep)
    ensures
        !taken ==> step == NameSearchStep::Use,
        taken && attempt < TRANSCRIPT_NAME_ATTEMPTS ==> step == NameSearchStep::TryAnother,
        taken && attempt >= TRANSCRIPT_NAME_ATTEMPTS ==> step == NameSearchStep::GiveUp,
{
    if !taken {
        NameSearchStep::Use
    } else if attempt < TRANSCRIPT_NAME_ATTEMPTS {
        NameSearchStep::TryAnother
    } else {
        NameSearchStep::GiveUp
    }
}

/// The message of an append that found no free transcript file name.
pub open spec fn spec_name_search_message() -> Seq<char> {
    "could not allocate a unique transcript file name"@
}

/// The error of an append that found no free transcript file name.
pub fn name_search_failure() -> (error: BsuiteCoreError)
    ensures
        error matches BsuiteCoreError::TranscriptWriteFailed(message) && message@
            == spec_name_search_message(),
{
    BsuiteCoreError::TranscriptWriteFailed(
        String::from_str("could not allocate a unique transcript file name"),
    )
}

/// The file name of the transcript whose ULID is written `ulid`.
pub open spec fn spec_transcript_file_name(ulid: Seq<char>) -> Seq<char> {
    ulid + ".jsonl"@
}

/// The file name of the transcript whose ULID is written `ulid`:
/// `<ulid>.jsonl`.
pub fn transcript_file_name(ulid: &str) -> (name: String)
    ensures
        name@ == spec_transcript_file_name(ulid@),
{
    let mut name = String::from_str(ulid);
    name.append(".jsonl");
    name
}

/// Whether a file with this extension and stem is a transcript: the
/// extension is `jsonl` and the stem is a ULID.
pub open spec fn spec_is_transcript_file(extension: Option<Seq<char>>, stem: Option<Seq<char>>) -> bool {
    &&& extension == Some("jsonl"@)
    &&& stem matches Some(s) && spec_ulid_value(s) is Some
}

/// Whether the file with this extension and stem is a transcript.
pub fn is_transcript_file(extension: Option<&str>, stem: Option<&str>) -> (transcript: bool)
    ensures
        transcript == spec_is_transcript_file(
            match extension {
                Some(e) => Some(e@),
                None => None,
            },
            match stem {
                Some(s) => Some(s@),
                None => None,
            },
        ),
{
    let is_jsonl = match extension {
        Some(e) => same_text(e, "jsonl"),
        None => false,
    };
    let decodes = match stem {
        Some(s) => ulid_value(s).is_some(),
        None => false,
    };
    is_jsonl && decodes
}

/// The instant, in nanoseconds since the Unix epoch, that a ULID-named stem records.
pub open spec fn spec_stem_instant_nanos(stem: Seq<char>) -> Option<int> {
    match spec_ulid_value(stem) {
        Some(value) => Some(((value >> 80u128) as u64) as int * 1_000_000),
        None => None,
    }
}

/// Whether the ULID in `stem` was made before `cutoff_nanos`, nanoseconds
/// after the Unix epoch; a stem that is no ULID is not older.
pub fn is_older_than(stem: Option<&str>, cutoff_nanos: u128) -> (older: bool)
    ensures
        older == (stem matches Some(s) && spec_stem_instant_nanos(s@) matches Some(at) && at
            < cutoff_nanos),
{
    match stem {
        Some(s) => match ulid_value(s) {
            Some(value) => {
                let millis = ulid_timestamp_ms(value);
                (millis as u128) * 1_000_000 < cutoff_nanos
            },
            None => false,
        },
        None => false,
    }
}

/// Whether a file is a transcript that retention removes: it is a
/// transcript, and its ULID was made before `cutoff_nanos`.
pub fn is_expired_transcript(extension: Option<&str>, stem: Option<&str>, cutoff_nanos: u128) -> (expired: bool)
    ensures
        expired == (spec_is_transcript_file(
            match extension {
                Some(e) => Some(e@),
                None => None,
            },
            match stem {
                Some(s) => Some(s@),
                None => None,
            },
        ) && (stem matches Some(s) && spec_stem_instant_nanos(s@) matches Some(at) && at
            < cutoff_nanos)),
{
    is_transcript_file(extension, stem) && is_older_than(stem, cutoff_nanos)
}

} // verus!
