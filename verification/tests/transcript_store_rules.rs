use bsuite_core::transcript_writer::order::{compare_text, TextOrder};
use bsuite_core::transcript_writer::{
    daily_manifest_name, is_expired_transcript, is_in_daily_manifest, is_older_than,
    is_transcript_file, record_line, retention_days_from_value, retention_window_secs,
    sha256_hex, single_record_line, transcript_file_name, transcript_root_from_value,
    ManifestEntries, DEFAULT_RETENTION_DAYS, MANIFEST_TMP_NAME, TRANSCRIPT_NAME_ATTEMPTS,
};
use bsuite_core::transcript_writer::{name_search_failure, name_search_step, NameSearchStep};
use std::path::Path;
use bsuite_core::BsuiteCoreError;

// A ULID made at 1469918176385 ms after the Unix epoch (2016-07-30 UTC).
const ULID: &str = "01ARYZ6S41TSV4RRFFQ69G5FAV";
const ULID_MILLIS: i64 = 1_469_918_176_385;

#[test]
fn transcript_files_are_jsonl_files_named_by_a_ulid() {
    assert!(is_transcript_file(Some("jsonl"), Some(ULID)));
    assert!(is_transcript_file(Some("jsonl"), Some(&ULID.to_lowercase())));
    assert!(!is_transcript_file(Some("json"), Some(ULID)));
    assert!(!is_transcript_file(Some("JSONL"), Some(ULID)));
    assert!(!is_transcript_file(None, Some(ULID)));
    assert!(!is_transcript_file(Some("jsonl"), None));
    assert!(!is_transcript_file(Some("jsonl"), Some("manifest-2016-07-30")));
    assert!(!is_transcript_file(Some("jsonl"), Some(&ULID[..25])));
    assert!(!is_transcript_file(Some("jsonl"), Some("01ARYZ6S41TSV4RRFFQ69G5FAV!")));
}

#[test]
fn a_ulid_is_older_than_exactly_the_cutoffs_after_its_instant() {
    let instant_nanos = ULID_MILLIS as u128 * 1_000_000;
    assert!(is_older_than(Some(ULID), instant_nanos + 1));
    assert!(!is_older_than(Some(ULID), instant_nanos));
    assert!(!is_older_than(Some(ULID), 0));
    assert!(!is_older_than(Some("not-a-ulid"), u128::MAX));
    assert!(!is_older_than(None, u128::MAX));
}

#[test]
fn only_old_transcripts_expire() {
    let cutoff = ULID_MILLIS as u128 * 1_000_000 + 1;
    assert!(is_expired_transcript(Some("jsonl"), Some(ULID), cutoff));
    assert!(!is_expired_transcript(Some("txt"), Some(ULID), cutoff));
    assert!(!is_expired_transcript(Some("jsonl"), Some(ULID), cutoff - 1));
    assert!(!is_expired_transcript(Some("jsonl"), Some("unrelated"), u128::MAX));
}

#[test]
fn daily_manifest_is_named_by_the_utc_date() {
    assert_eq!(
        daily_manifest_name(ULID_MILLIS),
        Some("manifest-2016-07-30.txt".to_string())
    );
    assert_eq!(daily_manifest_name(0), Some("manifest-1970-01-01.txt".to_string()));
    assert_eq!(daily_manifest_name(i64::MAX), None);
    assert_eq!(MANIFEST_TMP_NAME, "manifest.tmp");
}

#[test]
fn daily_manifest_lists_the_transcripts_of_the_record_day() {
    assert!(is_in_daily_manifest(Some("jsonl"), Some(ULID), ULID_MILLIS));
    let same_day_later = ULID_MILLIS + 60 * 60 * 1000;
    assert!(is_in_daily_manifest(Some("jsonl"), Some(ULID), same_day_later));
    let next_day = ULID_MILLIS + 24 * 60 * 60 * 1000;
    assert!(!is_in_daily_manifest(Some("jsonl"), Some(ULID), next_day));
    assert!(!is_in_daily_manifest(Some("txt"), Some(ULID), ULID_MILLIS));
    assert!(!is_in_daily_manifest(Some("jsonl"), Some("manifest"), ULID_MILLIS));
}

#[test]
fn sha256_hex_matches_known_digests() {
    assert_eq!(
        sha256_hex(b""),
        "e3b0c44298fc1c149afbf4c8996fb92427ae41e4649b934ca495991b7852b855"
    );
    assert_eq!(
        sha256_hex(b"abc"),
        "ba7816bf8f01cfea414140de5dae2223b00361a396177a9cb410ff61f20015ad"
    );
}

#[test]
fn manifest_lists_each_file_once_in_name_order() {
    let mut manifest = ManifestEntries::new();
    assert_eq!(manifest.len(), 0);
    assert_eq!(manifest.render(), "");

    manifest.insert("b.jsonl".to_string(), "22".to_string());
    manifest.insert("a.jsonl".to_string(), "11".to_string());
    manifest.insert("c.jsonl".to_string(), "33".to_string());
    manifest.insert("b.jsonl".to_string(), "2b".to_string());

    assert_eq!(manifest.len(), 3);
    assert_eq!(manifest.render(), "a.jsonl 11\nb.jsonl 2b\nc.jsonl 33\n");
}

#[test]
fn manifest_orders_names_by_their_bytes() {
    let mut manifest = ManifestEntries::new();
    manifest.insert("é".to_string(), "3".to_string());
    manifest.insert("Z".to_string(), "2".to_string());
    manifest.insert("a".to_string(), "1".to_string());
    manifest.insert("".to_string(), "0".to_string());
    assert_eq!(manifest.render(), " 0\nZ 2\na 1\né 3\n");
}

#[test]
fn compare_text_follows_byte_order() {
    assert_eq!(compare_text("a", "b"), TextOrder::Before);
    assert_eq!(compare_text("b", "a"), TextOrder::After);
    assert_eq!(compare_text("ab", "ab"), TextOrder::Same);
    assert_eq!(compare_text("ab", "abc"), TextOrder::Before);
    assert_eq!(compare_text("", "a"), TextOrder::Before);
    assert_eq!(compare_text("Z", "a"), TextOrder::Before);
    assert_eq!(compare_text("é", "z"), TextOrder::After);
}

#[test]
fn record_line_reads_back_as_the_record() {
    let json = r#"{"schema_version":1,"binary_name":"bground"}"#;
    let line = record_line(json);
    assert_eq!(line, format!("{json}\n"));
    assert_eq!(single_record_line(&line), Ok(json.to_string()));
}

#[test]
fn single_record_line_accepts_exactly_one_terminated_line() {
    assert_eq!(single_record_line("{}\n"), Ok("{}".to_string()));
    assert_eq!(single_record_line("{}\r\n"), Ok("{}".to_string()));
    assert_eq!(single_record_line("\n"), Ok(String::new()));
    assert_eq!(
        single_record_line(""),
        Err(BsuiteCoreError::TranscriptWriteFailed(
            "transcript file is empty after append".to_string()
        ))
    );
    for content in ["{}", "{}\n{}\n", "a\nb", "\n\n"] {
        assert_eq!(
            single_record_line(content),
            Err(BsuiteCoreError::TranscriptWriteFailed(
                "transcript file does not contain exactly one JSON line".to_string()
            )),
            "{content:?}",
        );
    }
}

#[test]
fn retention_days_default_and_overrides() {
    assert_eq!(retention_days_from_value(None), Ok(DEFAULT_RETENTION_DAYS));
    assert_eq!(DEFAULT_RETENTION_DAYS, 90);
    assert_eq!(retention_days_from_value(Some("3")), Ok(3));
    assert_eq!(retention_days_from_value(Some("0")), Ok(0));
    assert_eq!(retention_days_from_value(Some("+7")), Ok(7));
    assert_eq!(retention_days_from_value(Some("4294967295")), Ok(u32::MAX));
}

#[test]
fn invalid_retention_values_fail_visibly() {
    for value in ["abc", "", "-1", "4294967296", " 3", "3d", "1.5"] {
        match retention_days_from_value(Some(value)) {
            Err(BsuiteCoreError::TranscriptPathFailed(message)) => assert!(
                message
                    .starts_with("BSUITE_TRANSCRIPT_RETENTION_DAYS must be a non-negative whole number: "),
                "{message}"
            ),
            other => panic!("{value:?} must be rejected, got {other:?}"),
        }
    }
}

#[test]
fn retention_window_is_whole_days_in_seconds() {
    assert_eq!(retention_window_secs(0), 0);
    assert_eq!(retention_window_secs(1), 86_400);
    assert_eq!(retention_window_secs(90), 7_776_000);
    assert_eq!(retention_window_secs(u32::MAX), u32::MAX as u64 * 86_400);
}

#[test]
fn transcript_root_override_ignores_blank_values() {
    assert_eq!(transcript_root_from_value(None), None);
    assert_eq!(transcript_root_from_value(Some("")), None);
    assert_eq!(transcript_root_from_value(Some(" \t\n")), None);
    assert_eq!(
        transcript_root_from_value(Some("/var/transcripts")),
        Some("/var/transcripts".to_string())
    );
    assert_eq!(
        transcript_root_from_value(Some(" padded ")),
        Some(" padded ".to_string())
    );
}

#[test]
fn transcript_file_names_are_recognised_as_transcripts() {
    let name = transcript_file_name(ULID);
    assert_eq!(name, format!("{ULID}.jsonl"));
    let path = Path::new(&name);
    assert!(is_transcript_file(
        path.extension().and_then(|e| e.to_str()),
        path.file_stem().and_then(|s| s.to_str()),
    ));
    assert_eq!(TRANSCRIPT_NAME_ATTEMPTS, 8);
}

#[test]
fn sha256_hex_is_always_sixty_four_lower_case_digits() {
    for input in [&b""[..], b"abc", b"a longer input that spans more than one block of the hash ........................."] {
        let hex = sha256_hex(input);
        assert_eq!(hex.len(), 64);
        assert!(hex.chars().all(|c| matches!(c, '0'..='9' | 'a'..='f')));
    }
}

#[test]
fn invalid_retention_values_carry_the_parse_error_text() {
    let prefix = "BSUITE_TRANSCRIPT_RETENTION_DAYS must be a non-negative whole number: ";
    let cases = [
        ("abc", "invalid digit found in string"),
        ("", "cannot parse integer from empty string"),
        ("4294967296", "number too large to fit in target type"),
    ];
    for (value, reason) in cases {
        assert_eq!(
            retention_days_from_value(Some(value)),
            Err(BsuiteCoreError::TranscriptPathFailed(format!("{prefix}{reason}"))),
        );
    }
}

#[test]
fn name_search_uses_a_free_name_and_gives_up_after_the_last_attempt() {
    assert_eq!(name_search_step(1, false), NameSearchStep::Use);
    assert_eq!(name_search_step(8, false), NameSearchStep::Use);
    assert_eq!(name_search_step(1, true), NameSearchStep::TryAnother);
    assert_eq!(name_search_step(7, true), NameSearchStep::TryAnother);
    assert_eq!(name_search_step(8, true), NameSearchStep::GiveUp);
    assert_eq!(name_search_step(9, true), NameSearchStep::GiveUp);
    assert_eq!(
        name_search_failure(),
        BsuiteCoreError::TranscriptWriteFailed(
            "could not allocate a unique transcript file name".to_string()
        )
    );
}
