//! The manifest overlay: operator overrides laid over a binary's built-in
//! defaults.
//!
//! Each override is optional. A present override replaces the default it
//! names, whatever its value (a zero included); an absent one leaves the
//! default as it was.

use std::path::PathBuf;

use vstd::prelude::*;

use crate::error::BsuiteCoreError;

verus! {

/// The overlay schema version this library writes and reads.
pub const OVERLAY_SCHEMA_VERSION: u32 = 1;

/// The keys an overlay may set, one for each field of [`OverrideMap`].
pub const ALLOWED_OVERRIDE_KEYS: [&'static str; 6] = [
    "transcript_retention_days",
    "transcript_dir",
    "corpus_dir",
    "update_check_interval_minutes",
    "stdout_byte_cap",
    "binary_timeout_ms",
];

/// The values a binary runs with when no overlay says otherwise.
#[derive(Debug, Clone, PartialEq, Eq)]
pub struct BinaryDefaults {
    pub transcript_retention_days: u32,
    pub transcript_dir: PathBuf,
    pub corpus_dir: PathBuf,
    pub update_check_interval_minutes: u32,
    pub stdout_byte_cap: u64,
    pub binary_timeout_ms: u64,
}

/// The overrides an overlay carries; `None` leaves the default in force.
#[derive(Debug, Clone, PartialEq, Eq)]
pub struct OverrideMap {
    pub transcript_retention_days: Option<u32>,
    pub transcript_dir: Option<PathBuf>,
    pub corpus_dir: Option<PathBuf>,
    pub update_check_interval_minutes: Option<u32>,
    pub stdout_byte_cap: Option<u64>,
    pub binary_timeout_ms: Option<u64>,
}

/// An overlay as read from the operator's manifest.
#[derive(Debug, Clone, PartialEq, Eq)]
pub struct ManifestOverlay {
    pub schema_version: u32,
    pub overrides: OverrideMap,
}

/// Something that reads the operator's overlay.
pub trait ManifestOverlayReader {
    /// The overlay, or the error that prevents reading it.
    fn read(&self) -> Result<ManifestOverlay, BsuiteCoreError>;
}

/// The override map that overrides nothing.
pub open spec fn no_overrides() -> OverrideMap {
    OverrideMap {
        transcript_retention_days: None,
        transcript_dir: None,
        corpus_dir: None,
        update_check_interval_minutes: None,
        stdout_byte_cap: None,
        binary_timeout_ms: None,
    }
}

/// `current`, unless `value` is present.
pub open spec fn overridden<T>(value: Option<T>, current: T) -> T {
    match value {
        Some(v) => v,
        None => current,
    }
}

/// `later` where it is present, else `earlier`.
pub open spec fn later_or_earlier<T>(earlier: Option<T>, later: Option<T>) -> Option<T> {
    match later {
        Some(v) => Some(v),
        None => earlier,
    }
}

/// `defaults` with every override present in `overrides` put in place.
pub open spec fn merged_defaults(overrides: OverrideMap, defaults: BinaryDefaults) -> BinaryDefaults {
    BinaryDefaults {
        transcript_retention_days: overridden(
            overrides.transcript_retention_days,
            defaults.transcript_retention_days,
        ),
        transcript_dir: overridden(overrides.transcript_dir, defaults.transcript_dir),
        corpus_dir: overridden(overrides.corpus_dir, defaults.corpus_dir),
        update_check_interval_minutes: overridden(
            overrides.update_check_interval_minutes,
            defaults.update_check_interval_minutes,
        ),
        stdout_byte_cap: overridden(overrides.stdout_byte_cap, defaults.stdout_byte_cap),
        binary_timeout_ms: overridden(overrides.binary_timeout_ms, defaults.binary_timeout_ms),
    }
}

/// The overrides of `earlier` and `later` together, `later` winning where
/// both are present.
pub open spec fn layered_overrides(earlier: OverrideMap, later: OverrideMap) -> OverrideMap {
    OverrideMap {
        transcript_retention_days: later_or_earlier(
            earlier.transcript_retention_days,
            later.transcript_retention_days,
        ),
        transcript_dir: later_or_earlier(earlier.transcript_dir, later.transcript_dir),
        corpus_dir: later_or_earlier(earlier.corpus_dir, later.corpus_dir),
        update_check_interval_minutes: later_or_earlier(
            earlier.update_check_interval_minutes,
            later.update_check_interval_minutes,
        ),
        stdout_byte_cap: later_or_earlier(earlier.stdout_byte_cap, later.stdout_byte_cap),
        binary_timeout_ms: later_or_earlier(earlier.binary_timeout_ms, later.binary_timeout_ms),
    }
}

/// `<PathBuf as Clone>::clone`: claimed to give back the same path.
pub assume_specification[ <PathBuf as Clone>::clone ](path: &PathBuf) -> (copy: PathBuf)
    ensures
        copy == *path,
;

impl Default for OverrideMap {
    /// The map that overrides nothing.
    fn default() -> (overrides: OverrideMap)
        ensures
            overrides == no_overrides(),
    {
        OverrideMap {
            transcript_retention_days: None,
            transcript_dir: None,
            corpus_dir: None,
            update_check_interval_minutes: None,
            stdout_byte_cap: None,
            binary_timeout_ms: None,
        }
    }
}

impl ManifestOverlay {
    /// The overlay of the current schema that overrides nothing.
    pub fn empty() -> (overlay: ManifestOverlay)
        ensures
            overlay.schema_version == OVERLAY_SCHEMA_VERSION,
            overlay.overrides == no_overrides(),
    {
        ManifestOverlay { schema_version: OVERLAY_SCHEMA_VERSION, overrides: OverrideMap::default() }
    }

    /// Puts every override present in this overlay in place in `defaults`,
    /// leaving the other fields as they were.
    pub fn merge_into_defaults(&self, defaults: &mut BinaryDefaults)
        ensures
            *final(defaults) == merged_defaults(self.overrides, *old(defaults)),
    {
        let overrides = &self.overrides;
        if let Some(days) = overrides.transcript_retention_days {
            defaults.transcript_retention_days = days;
        }
        if let Some(dir) = &overrides.transcript_dir {
            defaults.transcript_dir = dir.clone();
        }
        if let Some(dir) = &overrides.corpus_dir {
            defaults.corpus_dir = dir.clone();
        }
        if let Some(minutes) = overrides.update_check_interval_minutes {
            defaults.update_check_interval_minutes = minutes;
        }
        if let Some(cap) = overrides.stdout_byte_cap {
            defaults.stdout_byte_cap = cap;
        }
        if let Some(timeout) = overrides.binary_timeout_ms {
            defaults.binary_timeout_ms = timeout;
        }
    }
}

/// An overlay that overrides nothing leaves every default as it was.
pub proof fn lemma_empty_overlay_keeps_defaults(defaults: BinaryDefaults)
    ensures
        merged_defaults(no_overrides(), defaults) == defaults,
{
}

/// Merging the same overlay twice gives what merging it once gives.
pub proof fn lemma_merge_idempotent(overrides: OverrideMap, defaults: BinaryDefaults)
    ensures
        merged_defaults(overrides, merged_defaults(overrides, defaults)) == merged_defaults(
            overrides,
            defaults,
        ),
{
}

/// Merging one overlay and then another is merging their layering, the
/// second winning wherever both set a field and the first surviving where
/// the second is silent.
pub proof fn lemma_later_merge_wins(
    earlier: OverrideMap,
    later: OverrideMap,
    defaults: BinaryDefaults,
)
    ensures
        merged_defaults(later, merged_defaults(earlier, defaults)) == merged_defaults(
            layered_overrides(earlier, later),
            defaults,
        ),
{
}

/// A field that an overlay leaves absent keeps its default; one it sets
/// takes the overlay's value.
pub proof fn lemma_merge_field_by_field(overrides: OverrideMap, defaults: BinaryDefaults)
    ensures
        ({
            let merged = merged_defaults(overrides, defaults);
            &&& overrides.transcript_retention_days is None ==> merged.transcript_retention_days
                == defaults.transcript_retention_days
            &&& overrides.transcript_retention_days matches Some(v) ==> merged.transcript_retention_days == v
            &&& overrides.transcript_dir is None ==> merged.transcript_dir == defaults.transcript_dir
            &&& overrides.transcript_dir matches Some(v) ==> merged.transcript_dir == v
            &&& overrides.corpus_dir is None ==> merged.corpus_dir == defaults.corpus_dir
            &&& overrides.corpus_dir matches Some(v) ==> merged.corpus_dir == v
            &&& overrides.update_check_interval_minutes is None
                ==> merged.update_check_interval_minutes == defaults.update_check_interval_minutes
            &&& overrides.update_check_interval_minutes matches Some(v)
                ==> merged.update_check_interval_minutes == v
            &&& overrides.stdout_byte_cap is None ==> merged.stdout_byte_cap
                == defaults.stdout_byte_cap
            &&& overrides.stdout_byte_cap matches Some(v) ==> merged.stdout_byte_cap == v
            &&& overrides.binary_timeout_ms is None ==> merged.binary_timeout_ms
                == defaults.binary_timeout_ms
            &&& overrides.binary_timeout_ms matches Some(v) ==> merged.binary_timeout_ms == v
        }),
{
}

} // verus!
