//! The framing of a transcript file: exactly one serialized record,
//! followed by a newline.

use vstd::prelude::*;

use crate::error::BsuiteCoreError;

verus! {

/// The file content for a serialized record: the record and a newline.
pub open spec fn spec_record_line(json: Seq<char>) -> Seq<char> {
    json + "\n"@
}

/// Frames a serialized record as the content of its transcript file.
pub fn record_line(json: &str) -> (line: String)
    ensures
        line@ == spec_record_line(json@),
{
    let mut line = String::from_str(json);
    line.append("\n");
    line
}

/// The one line that `content` holds, as `str::lines` reads it, where the
/// content is one line ended by a newline; `None` for any other content.
pub open spec fn spec_single_line(content: Seq<char>) -> Option<Seq<char>> {
    if content.len() > 0 && content.last() == '\n' && forall|i: int|
        0 <= i < content.len() - 1 ==> #[trigger] content[i] != '\n' {
        let body = content.drop_last();
        Some(
            if body.len() > 0 && body.last() == '\r' {
                body.drop_last()
            } else {
                body
            },
        )
    } else {
        None
    }
}

/// The message for a transcript file that holds nothing.
pub open spec fn spec_empty_transcript_message() -> Seq<char> {
    "transcript file is empty after append"@
}

/// The message for a transcript file that does not hold exactly one line.
pub open spec fn spec_not_one_line_message() -> Seq<char> {
    "transcript file does not contain exactly one JSON line"@
}

/// Reads back the record line of a transcript file: the one line it holds
/// where it holds exactly one line ended by a newline, else
/// `TranscriptWriteFailed` saying whether the file was empty or held
/// something else.
pub fn single_record_line(content: &str) -> (line: Result<String, BsuiteCoreError>)
    ensures
        content@.len() == 0 ==> (line matches Err(BsuiteCoreError::TranscriptWriteFailed(m))
            && m@ == spec_empty_transcript_message()),
        content@.len() > 0 && spec_single_line(content@) is None ==> (line matches Err(
            BsuiteCoreError::TranscriptWriteFailed(m),
        ) && m@ == spec_not_one_line_message()),
        spec_single_line(content@) matches Some(expected) ==> (line matches Ok(l) && l@
            == expected),
{
    let n = content.unicode_len();
    if n == 0 {
        return Err(
            BsuiteCoreError::TranscriptWriteFailed(
                String::from_str("transcript file is empty after append"),
            ),
        );
    }
    let mut one_line = content.get_char(n - 1) == '\n';
    let mut i: usize = 0;
    while one_line && i < n - 1
        invariant
            n == content@.len(),
            n > 0,
            i <= n - 1,
            one_line ==> content@.last() == '\n',
            one_line ==> forall|j: int| 0 <= j < i ==> #[trigger] content@[j] != '\n',
            !one_line ==> spec_single_line(content@) is None,
        decreases n - i,
    {
        if content.get_char(i) == '\n' {
            one_line = false;
        }
        i = i + 1;
    }
    if !one_line {
        return Err(
            BsuiteCoreError::TranscriptWriteFailed(
                String::from_str("transcript file does not contain exactly one JSON line"),
            ),
        );
    }
    let mut end = n - 1;
    if end > 0 && content.get_char(end - 1) == '\r' {
        end = end - 1;
    }
    let body = content.substring_char(0, end);
    proof {
        let whole = content@.drop_last();
        if n - 1 > 0 && whole.last() == '\r' {
            assert(body@ =~= whole.drop_last());
        } else {
            assert(body@ =~= whole);
        }
    }
    Ok(String::from_str(body))
}

/// A record written as its transcript line is read back unchanged: the
/// serializer never writes a newline inside a record, nor ends one with a
/// carriage return.
pub proof fn lemma_record_line_reads_back(json: Seq<char>)
    requires
        forall|i: int| 0 <= i < json.len() ==> #[trigger] json[i] != '\n',
        json.len() > 0 ==> json.last() != '\r',
    ensures
        spec_single_line(spec_record_line(json)) == Some(json),
{
    reveal_strlit("\n");
    let content = spec_record_line(json);
    assert(content.drop_last() =~= json);
    assert forall|i: int| 0 <= i < content.len() - 1 implies #[trigger] content[i] != '\n' by {
        assert(content[i] == json[i]);
    }
}

} // verus!
