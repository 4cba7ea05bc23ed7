//! Transcript bookkeeping: where transcripts live, which files belong to
//! the transcript store, how a transcript line is framed and checked, and
//! what the daily manifest lists.

pub mod handle;
pub mod io_errors;
pub mod manifest;
pub mod order;
pub mod paths;
pub mod record_line;
pub mod settings;
pub mod store;

pub use handle::TranscriptHandle;
pub use io_errors::{manifest_error, path_error, write_error};
pub use manifest::{
    daily_manifest_name, is_in_daily_manifest, sha256_hex, ManifestEntries, MANIFEST_TMP_NAME,
};
pub use paths::{
    transcript_root_for_environment, validate_binary_name, TranscriptOperatingSystem,
    TranscriptPathEnvironment,
};
pub use record_line::{record_line, single_record_line};
pub use settings::{
    retention_days_from_value, retention_window_secs, transcript_root_from_value,
    DEFAULT_RETENTION_DAYS, RETENTION_DAYS_ENV, TRANSCRIPT_DIR_ENV,
};
pub use store::{
    is_expired_transcript, is_older_than, is_transcript_file, name_search_failure,
    name_search_step, transcript_file_name, NameSearchStep, TRANSCRIPT_NAME_ATTEMPTS,
};
