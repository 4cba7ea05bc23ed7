//! The invocation context a CMS host hands to a bsuite binary.

use vstd::prelude::*;

verus! {

/// The environment variable through which a host passes its invocation context.
pub const HOST_CONTEXT_ENV_VAR: &'static str = "BSUITE_HOST_CONTEXT";

/// What the host says about the invocation it is running.
#[derive(Debug, Clone, PartialEq, Eq)]
pub struct HostInvocationContext {
    pub host_id: String,
    pub host_version: String,
    pub cycle_id: String,
    pub directive_field: String,
    pub document_id: String,
    pub collection: String,
}

} // verus!
