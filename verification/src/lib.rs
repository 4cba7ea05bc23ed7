//! Verified core of the bsuite tool family: host-context binding,
//! corpus-backed directive resolution, operator overlays over built-in
//! defaults, and transcript bookkeeping.

pub mod adapter_host_bind;
pub mod error;
pub mod manifest_overlay;
pub mod prompt_resolver;
pub mod routing_key;
pub mod text;
pub mod transcript_writer;

pub use adapter_host_bind::{
    accept_parsed_invocation_context, format_context_tag, invocation_value_is_absent,
    AdapterBinding, AdapterHostBinder, FullAdapterHostBinder, HostContext, HostInvocationContext,
    HOST_CONTEXT_ENV_VAR,
};
pub use error::BsuiteCoreError;
pub use manifest_overlay::{
    BinaryDefaults, ManifestOverlay, ManifestOverlayReader, OverrideMap, ALLOWED_OVERRIDE_KEYS,
    OVERLAY_SCHEMA_VERSION,
};
pub use prompt_resolver::{
    CorpusEntry, CorpusFile, CorpusResolver, DirectiveString, EvidenceMap, PromptResolver,
};
pub use routing_key::RoutingKey;
pub use transcript_writer::{
    transcript_root_for_environment, ManifestEntries, TranscriptHandle, TranscriptOperatingSystem,
    TranscriptPathEnvironment,
};
