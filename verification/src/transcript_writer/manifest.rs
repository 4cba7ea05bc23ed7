//! The daily manifest: one line per transcript of the day, `<file> <sha256>`,
//! ordered by file name.

use sha2::{Digest, Sha256};

use vstd::prelude::*;

use super::order::{
    compare_text, lemma_precede_irreflexive, lemma_precede_transitive,
    text_precedes, TextOrder,
};
use super::store::{
    is_transcript_file, spec_is_transcript_file, spec_ulid_value, ulid_timestamp_ms, ulid_value,
    utc_day, utc_day_number,
};
use vstd::utf8::encode_utf8;

verus! {

/// A manifest's entries, as (file name, hash) text pairs.
pub type ManifestModel = Seq<(Seq<char>, Seq<char>)>;

/// Whether the file names of `entries` strictly ascend.
pub open spec fn names_ascend(entries: ManifestModel) -> bool {
    forall|i: int, j: int|
        0 <= i < j < entries.len() ==> text_precedes(#[trigger] entries[i].0, #[trigger] entries[j].0)
}

/// Whether `entries` holds the pair (`name`, `hash`).
pub open spec fn lists(entries: ManifestModel, name: Seq<char>, hash: Seq<char>) -> bool {
    exists|i: int| 0 <= i < entries.len() && entries[i] == (name, hash)
}

/// The manifest text for `entries`: each entry on a line of its own.
pub open spec fn spec_manifest_text(entries: ManifestModel) -> Seq<char>
    decreases entries.len(),
{
    if entries.len() == 0 {
        Seq::empty()
    } else {
        spec_manifest_text(entries.drop_last()) + entries.last().0 + " "@ + entries.last().1
            + "\n"@
    }
}

/// The entries of a daily manifest, kept in file-name order with each file
/// name listed once.
pub struct ManifestEntries {
    entries: Vec<(String, String)>,
}

impl View for ManifestEntries {
    type V = ManifestModel;

    closed spec fn view(&self) -> ManifestModel {
        self.entries@.map_values(|entry: (String, String)| (entry.0@, entry.1@))
    }
}

impl ManifestEntries {
    #[verifier::type_invariant]
    spec fn ascending(self) -> bool {
        names_ascend(self.entries@.map_values(|entry: (String, String)| (entry.0@, entry.1@)))
    }

    /// A manifest with no entries.
    pub fn new() -> (manifest: ManifestEntries)
        ensures
            manifest@ == Seq::<(Seq<char>, Seq<char>)>::empty(),
    {
        let manifest = ManifestEntries { entries: Vec::new() };
        assert(manifest@ =~= Seq::<(Seq<char>, Seq<char>)>::empty());
        manifest
    }

    /// How many files the manifest lists.
    pub fn len(&self) -> (count: usize)
        ensures
            count == self@.len(),
    {
        self.entries.len()
    }

    /// Lists `name` with `hash`, replacing the hash it was listed with, if any.
    pub fn insert(&mut self, name: String, hash: String)
        ensures
            names_ascend(final(self)@),
            lists(final(self)@, name@, hash@),
            forall|i: int|
                0 <= i < final(self)@.len() ==> #[trigger] final(self)@[i] == (name@, hash@) || (
                final(self)@[i].0 != name@ && lists(old(self)@, final(self)@[i].0, final(self)@[i].1)),
            forall|i: int|
                0 <= i < old(self)@.len() && #[trigger] old(self)@[i].0 != name@ ==> lists(
                    final(self)@,
                    old(self)@[i].0,
                    old(self)@[i].1,
                ),
    {
        proof {
            use_type_invariant(&*self);
        }
        let ghost before = self@;
        let n = self.entries.len();
        let mut i: usize = 0;
        while i < n
            invariant
                n == self.entries@.len(),
                before == self@,
                before == old(self)@,
                names_ascend(before),
                i <= n,
                forall|j: int| 0 <= j < i ==> text_precedes(#[trigger] before[j].0, name@),
            decreases n - i,
        {
            let order = compare_text(self.entries[i].0.as_str(), name.as_str());
            assert(before[i as int].0 == self.entries@[i as int].0@);
            match order {
                TextOrder::Same => {
                    let mut entries: Vec<(String, String)> = Vec::new();
                    std::mem::swap(&mut entries, &mut self.entries);
                    entries.set(i, (name, hash));
                    let ghost after = entries@.map_values(|entry: (String, String)| (entry.0@, entry.1@));
                    proof {
                        assert(after =~= before.update(i as int, (name@, hash@)));
                        assert(lists(after, name@, hash@)) by {
                            assert(after[i as int] == (name@, hash@));
                        }
                        assert forall|p: int, q: int| 0 <= p < q < after.len() implies text_precedes(
                            #[trigger] after[p].0,
                            #[trigger] after[q].0,
                        ) by {
                            assert(text_precedes(before[p].0, before[q].0));
                        }
                        assert forall|k: int| 0 <= k < after.len() implies #[trigger] after[k] == (
                            name@,
                            hash@,
                        ) || (after[k].0 != name@ && lists(before, after[k].0, after[k].1)) by {
                            if k != i {
                                assert(after[k] == before[k]);
                                if after[k].0 == name@ {
                                    assert(before[k].0 == before[i as int].0);
                                    if k < i {
                                        assert(text_precedes(before[k].0, before[i as int].0));
                                    } else {
                                        assert(text_precedes(before[i as int].0, before[k].0));
                                    }
                                    lemma_precede_irreflexive(encode_utf8(name@), 0);
                                }
                            }
                        }
                        assert forall|k: int| 0 <= k < before.len() && #[trigger] before[k].0
                            != name@ implies lists(after, before[k].0, before[k].1) by {
                            assert(k != i);
                            assert(after[k] == before[k]);
                        }
                    }
                    self.entries = entries;
                    assert(self@ == after);
                    return;
                },
                TextOrder::After => {
                    let mut entries: Vec<(String, String)> = Vec::new();
                    std::mem::swap(&mut entries, &mut self.entries);
                    entries.insert(i, (name, hash));
                    proof {
                        let after = entries@.map_values(|entry: (String, String)| (entry.0@, entry.1@));
                        assert(after =~= before.insert(i as int, (name@, hash@)));
                        assert(lists(after, name@, hash@)) by {
                            assert(after[i as int] == (name@, hash@));
                        }
                        assert forall|p: int, q: int| 0 <= p < q < after.len() implies text_precedes(
                            #[trigger] after[p].0,
                            #[trigger] after[q].0,
                        ) by {
                            if q < i {
                                assert(text_precedes(before[p].0, before[q].0));
                            } else if q == i {
                                assert(text_precedes(before[p].0, name@));
                            } else if p < i {
                                assert(text_precedes(before[p].0, before[q - 1].0));
                            } else if p == i {
                                if q - 1 == i {
                                } else {
                                    assert(text_precedes(before[i as int].0, before[q - 1].0));
                                    lemma_precede_transitive(
                                        encode_utf8(name@),
                                        encode_utf8(before[i as int].0),
                                        encode_utf8(before[q - 1].0),
                                        0,
                                    );
                                }
                            } else {
                                assert(text_precedes(before[p - 1].0, before[q - 1].0));
                            }
                        }
                        assert forall|k: int| 0 <= k < after.len() implies #[trigger] after[k] == (
                            name@,
                            hash@,
                        ) || (after[k].0 != name@ && lists(before, after[k].0, after[k].1)) by {
                            if k < i {
                                assert(after[k] == before[k]);
                                assert(text_precedes(before[k].0, name@));
                                lemma_precede_irreflexive(encode_utf8(name@), 0);
                            } else if k > i {
                                assert(after[k] == before[k - 1]);
                                if before[k - 1].0 == name@ {
                                    if k - 1 == i {
                                    } else {
                                        assert(text_precedes(before[i as int].0, before[k - 1].0));
                                        lemma_precede_transitive(
                                            encode_utf8(name@),
                                            encode_utf8(before[i as int].0),
                                            encode_utf8(name@),
                                            0,
                                        );
                                    }
                                    lemma_precede_irreflexive(encode_utf8(name@), 0);
                                }
                            }
                        }
                        assert forall|k: int| 0 <= k < before.len() && #[trigger] before[k].0
                            != name@ implies lists(after, before[k].0, before[k].1) by {
                            if k < i {
                                assert(after[k] == before[k]);
                            } else {
                                assert(after[k + 1] == before[k]);
                            }
                        }
                    }
                    self.entries = entries;
                    return;
                },
                TextOrder::Before => {},
            }
            i = i + 1;
        }
        let mut entries: Vec<(String, String)> = Vec::new();
        std::mem::swap(&mut entries, &mut self.entries);
        entries.push((name, hash));
        proof {
            let after = entries@.map_values(|entry: (String, String)| (entry.0@, entry.1@));
            assert(after =~= before.push((name@, hash@)));
            assert(lists(after, name@, hash@)) by {
                assert(after[n as int] == (name@, hash@));
            }
            assert forall|p: int, q: int| 0 <= p < q < after.len() implies text_precedes(
                #[trigger] after[p].0,
                #[trigger] after[q].0,
            ) by {
                if q < n {
                    assert(text_precedes(before[p].0, before[q].0));
                } else {
                    assert(text_precedes(before[p].0, name@));
                }
            }
            assert forall|k: int| 0 <= k < after.len() implies #[trigger] after[k] == (
                name@,
                hash@,
            ) || (after[k].0 != name@ && lists(before, after[k].0, after[k].1)) by {
                if k < n {
                    assert(after[k] == before[k]);
                    assert(text_precedes(before[k].0, name@));
                    lemma_precede_irreflexive(encode_utf8(name@), 0);
                }
            }
            assert forall|k: int| 0 <= k < before.len() && #[trigger] before[k].0 != name@ implies lists(
                after,
                before[k].0,
                before[k].1,
            ) by {
                assert(after[k] == before[k]);
            }
        }
        self.entries = entries;
    }

    /// The manifest text: `<file> <hash>` per line, in file-name order.
    pub fn render(&self) -> (text: String)
        ensures
            text@ == spec_manifest_text(self@),
    {
        let mut text = String::new();
        let n = self.entries.len();
        let mut i: usize = 0;
        while i < n
            invariant
                n == self.entries@.len(),
                i <= n,
                text@ == spec_manifest_text(self@.take(i as int)),
            decreases n - i,
        {
            let entry = &self.entries[i];
            text.append(entry.0.as_str());
            text.append(" ");
            text.append(entry.1.as_str());
            text.append("\n");
            proof {
                let model = self@;
                assert(model.take(i + 1).drop_last() =~= model.take(i as int));
                assert(model.take(i + 1).last() == (entry.0@, entry.1@));
            }
            i = i + 1;
        }
        assert(self@.take(n as int) =~= self@);
        text
    }
}

/// The manifest line of one entry: its file name, one space, its hash in
/// full, and a newline.
pub open spec fn manifest_line(entry: (Seq<char>, Seq<char>)) -> Seq<char> {
    entry.0 + " "@ + entry.1 + "\n"@
}

/// The manifest of two runs of entries is the manifest of the first
/// followed by the manifest of the second.
pub proof fn lemma_manifest_text_concat(first: ManifestModel, second: ManifestModel)
    ensures
        spec_manifest_text(first + second) == spec_manifest_text(first) + spec_manifest_text(
            second,
        ),
    decreases second.len(),
{
    if second.len() == 0 {
        assert(first + second =~= first);
        assert(spec_manifest_text(first) + spec_manifest_text(second) =~= spec_manifest_text(
            first,
        ));
    } else {
        lemma_manifest_text_concat(first, second.drop_last());
        assert((first + second).drop_last() =~= first + second.drop_last());
        assert((first + second).last() == second.last());
        assert(spec_manifest_text(first + second) =~= spec_manifest_text(first)
            + spec_manifest_text(second));
    }
}

/// Every entry of a manifest stands in its text as a line of its own, in
/// entry order: the lines of the entries before it, then its own line with
/// the file name and the whole hash, then the lines of the entries after it.
pub proof fn lemma_manifest_lists_each_line(entries: ManifestModel, i: int)
    requires
        0 <= i < entries.len(),
    ensures
        spec_manifest_text(entries) == spec_manifest_text(entries.take(i)) + manifest_line(
            entries[i],
        ) + spec_manifest_text(entries.skip(i + 1)),
{
    let before = entries.take(i);
    let after = entries.skip(i + 1);
    let single = seq![entries[i]];
    assert(entries =~= before + single + after);
    lemma_manifest_text_concat(before + single, after);
    lemma_manifest_text_concat(before, single);
    assert(single.drop_last() =~= Seq::<(Seq<char>, Seq<char>)>::empty());
    assert(spec_manifest_text(single.drop_last()) == Seq::<char>::empty());
    assert(single.last() == entries[i]);
    assert(spec_manifest_text(single) =~= manifest_line(entries[i]));
}

/// The manifest text has exactly the characters of its lines: each entry
/// adds its file name, its whole hash and two more characters.
pub proof fn lemma_manifest_text_len(entries: ManifestModel)
    ensures
        spec_manifest_text(entries).len() == manifest_chars(entries),
    decreases entries.len(),
{
    reveal_strlit(" ");
    reveal_strlit("\n");
    if entries.len() > 0 {
        lemma_manifest_text_len(entries.drop_last());
    }
}

/// How many characters the lines of `entries` hold together.
pub open spec fn manifest_chars(entries: ManifestModel) -> nat
    decreases entries.len(),
{
    if entries.len() == 0 {
        0
    } else {
        manifest_chars(entries.drop_last()) + entries.last().0.len() + entries.last().1.len() + 2
    }
}

/// A transcript is listed in the manifest of a record's day exactly when it
/// is a transcript whose ULID was made on that same UTC day; so no manifest
/// lists a transcript of another day, and one transcript is listed in the
/// manifests of records of one day only.
pub proof fn lemma_daily_manifest_is_one_day(
    extension: Option<Seq<char>>,
    stem: Seq<char>,
    record_millis: i64,
    other_millis: i64,
)
    ensures
        spec_in_daily_manifest(extension, Some(stem), record_millis) <==> (spec_is_transcript_file(
            extension,
            Some(stem),
        ) && spec_stem_day(stem) is Some && spec_stem_day(stem) == utc_day_number(record_millis)),
        spec_in_daily_manifest(extension, Some(stem), record_millis) && spec_in_daily_manifest(
            extension,
            Some(stem),
            other_millis,
        ) ==> utc_day_number(record_millis) == utc_day_number(other_millis),
        !spec_in_daily_manifest(extension, None, record_millis),
{
}

/// The name of the scratch file a manifest is written to before it is renamed.
pub const MANIFEST_TMP_NAME: &'static str = "manifest.tmp";

/// The day a ULID-named stem was made on, as chrono numbers UTC days.
pub open spec fn spec_stem_day(stem: Seq<char>) -> Option<i64> {
    match spec_ulid_value(stem) {
        Some(value) => utc_day_number(((value >> 80u128) as u64) as i64),
        None => None,
    }
}

/// Whether a file belongs in the manifest of the day of `record_millis`:
/// it is a transcript, and its ULID was made on that UTC day.
pub open spec fn spec_in_daily_manifest(
    extension: Option<Seq<char>>,
    stem: Option<Seq<char>>,
    record_millis: i64,
) -> bool {
    &&& spec_is_transcript_file(extension, stem)
    &&& utc_day_number(record_millis) is Some
    &&& stem matches Some(s) && spec_stem_day(s) == utc_day_number(record_millis)
}

/// Whether the file with this extension and stem is listed in the manifest
/// of the day on which the record stamped `record_millis` was made.
pub fn is_in_daily_manifest(extension: Option<&str>, stem: Option<&str>, record_millis: i64) -> (listed: bool)
    ensures
        listed == spec_in_daily_manifest(
            match extension {
                Some(e) => Some(e@),
                None => None,
            },
            match stem {
                Some(s) => Some(s@),
                None => None,
            },
            record_millis,
        ),
{
    if !is_transcript_file(extension, stem) {
        return false;
    }
    let day = match utc_day(record_millis) {
        Some(day) => day,
        None => return false,
    };
    match stem {
        Some(s) => match ulid_value(s) {
            Some(value) => {
                let millis = ulid_timestamp_ms(value);
                assert(millis < 0x1_0000_0000_0000u64) by (bit_vector)
                    requires
                        millis == (value >> 80u128) as u64,
                ;
                match utc_day(millis as i64) {
                    Some(ulid_day) => ulid_day == day,
                    None => false,
                }
            },
            None => false,
        },
        None => false,
    }
}

/// The `%Y-%m-%d` text chrono formats for the UTC date of `millis`, or
/// `None` when chrono cannot represent that instant.
pub uninterp spec fn utc_date_text(millis: i64) -> Option<Seq<char>>;

/// Calls chrono's `DateTime::<Utc>::from_timestamp_millis` and formats the
/// instant with `%Y-%m-%d`. The contract names the text.
#[verifier::external_body]
fn utc_date_label(millis: i64) -> (label: Option<String>)
    ensures
        match label {
            Some(text) => utc_date_text(millis) == Some(text@),
            None => utc_date_text(millis) is None,
        },
{
    match chrono::DateTime::<chrono::Utc>::from_timestamp_millis(millis) {
        Some(instant) => Some(instant.format("%Y-%m-%d").to_string()),
        None => None,
    }
}

/// The name of the manifest for the UTC day of `record_millis`:
/// `manifest-<YYYY-MM-DD>.txt`.
pub fn daily_manifest_name(record_millis: i64) -> (name: Option<String>)
    ensures
        match utc_date_text(record_millis) {
            Some(date) => name matches Some(n) && n@ == "manifest-"@ + date + ".txt"@,
            None => name is None,
        },
{
    match utc_date_label(record_millis) {
        Some(date) => {
            let mut name = String::from_str("manifest-");
            name.append(date.as_str());
            name.append(".txt");
            Some(name)
        },
        None => None,
    }
}

/// The SHA-256 digest that `sha2::Sha256::digest` computes for `bytes`.
pub uninterp spec fn sha256_digest(bytes: Seq<u8>) -> Seq<u8>;

/// Calls `sha2::Sha256::digest`. The contract names the digest and states
/// its length, 32 bytes, which the crate's output type fixes.
#[verifier::external_body]
fn sha256(bytes: &[u8]) -> (digest: Vec<u8>)
    ensures
        digest@ == sha256_digest(bytes@),
        digest@.len() == 32,
{
    Sha256::digest(bytes).to_vec()
}

/// The lower-case hexadecimal digit for `nibble`.
pub open spec fn hex_digit(nibble: int) -> Seq<char> {
    if nibble == 0 { "0"@ } else if nibble == 1 { "1"@ } else if nibble == 2 { "2"@ }
    else if nibble == 3 { "3"@ } else if nibble == 4 { "4"@ } else if nibble == 5 { "5"@ }
    else if nibble == 6 { "6"@ } else if nibble == 7 { "7"@ } else if nibble == 8 { "8"@ }
    else if nibble == 9 { "9"@ } else if nibble == 10 { "a"@ } else if nibble == 11 { "b"@ }
    else if nibble == 12 { "c"@ } else if nibble == 13 { "d"@ } else if nibble == 14 { "e"@ }
    else { "f"@ }
}

/// Each byte as two lower-case hexadecimal digits, high nibble first.
pub open spec fn spec_lower_hex(bytes: Seq<u8>) -> Seq<char>
    decreases bytes.len(),
{
    if bytes.len() == 0 {
        Seq::empty()
    } else {
        spec_lower_hex(bytes.drop_last()) + hex_digit(bytes.last() as int / 16) + hex_digit(
            bytes.last() as int % 16,
        )
    }
}

/// Every hexadecimal digit is one character.
proof fn lemma_hex_digit_len(nibble: int)
    ensures
        hex_digit(nibble).len() == 1,
{
    reveal_strlit("0");
    reveal_strlit("1");
    reveal_strlit("2");
    reveal_strlit("3");
    reveal_strlit("4");
    reveal_strlit("5");
    reveal_strlit("6");
    reveal_strlit("7");
    reveal_strlit("8");
    reveal_strlit("9");
    reveal_strlit("a");
    reveal_strlit("b");
    reveal_strlit("c");
    reveal_strlit("d");
    reveal_strlit("e");
    reveal_strlit("f");
}

/// The hexadecimal text of `bytes` has two digits per byte.
pub proof fn lemma_lower_hex_len(bytes: Seq<u8>)
    ensures
        spec_lower_hex(bytes).len() == 2 * bytes.len(),
    decreases bytes.len(),
{
    if bytes.len() > 0 {
        lemma_lower_hex_len(bytes.drop_last());
        lemma_hex_digit_len(bytes.last() as int / 16);
        lemma_hex_digit_len(bytes.last() as int % 16);
    }
}

fn hex_digit_text(nibble: u8) -> (digit: &'static str)
    requires
        nibble < 16,
    ensures
        digit@ == hex_digit(nibble as int),
{
    match nibble {
        0 => "0",
        1 => "1",
        2 => "2",
        3 => "3",
        4 => "4",
        5 => "5",
        6 => "6",
        7 => "7",
        8 => "8",
        9 => "9",
        10 => "a",
        11 => "b",
        12 => "c",
        13 => "d",
        14 => "e",
        _ => "f",
    }
}

/// The SHA-256 digest of `bytes` in lower-case hexadecimal, as a manifest
/// line records it: 32 bytes, so 64 hexadecimal digits.
pub fn sha256_hex(bytes: &[u8]) -> (hex: String)
    ensures
        hex@ == spec_lower_hex(sha256_digest(bytes@)),
        sha256_digest(bytes@).len() == 32,
        hex@.len() == 64,
{
    let digest = sha256(bytes);
    let mut hex = String::new();
    let n = digest.len();
    let mut i: usize = 0;
    while i < n
        invariant
            n == digest@.len(),
            i <= n,
            hex@ == spec_lower_hex(digest@.take(i as int)),
        decreases n - i,
    {
        let byte = digest[i];
        hex.append(hex_digit_text(byte / 16));
        hex.append(hex_digit_text(byte % 16));
        assert(digest@.take(i + 1).drop_last() =~= digest@.take(i as int));
        i = i + 1;
    }
    assert(digest@.take(n as int) =~= digest@);
    proof {
        lemma_lower_hex_len(digest@);
    }
    hex
}

} // verus!
