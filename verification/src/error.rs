//! The error type shared by every part of the library.

use vstd::prelude::*;

use crate::routing_key::RoutingKey;

verus! {

/// Everything that can go wrong in the library, each carrying its detail.
#[derive(Debug, Clone, PartialEq, Eq)]
pub enum BsuiteCoreError {
    /// The host invocation context could not be parsed.
    HostContextParseFailed(String),
    /// The host invocation context names a host that is not known.
    UnknownHostId(String),
    /// The corpus holds no entry for the routing key.
    CorpusKeyMissing(RoutingKey),
    /// A transcript path could not be resolved or is unsafe.
    TranscriptPathFailed(String),
    /// A transcript could not be written.
    TranscriptWriteFailed(String),
    /// A transcript record could not be serialized or read back.
    TranscriptSerializationFailed(String),
    /// The daily transcript manifest could not be rewritten.
    TranscriptManifestFailed(String),
}

} // verus!
