//! The decisions taken on the host invocation context a host passes in.
//!
//! Reading the environment and decoding JSON happen at the edge; what is
//! decided on the outcome is here.

use vstd::prelude::*;

use super::context::{spec_from_stable_name, HostContext};
use super::invocation::HostInvocationContext;
use crate::error::BsuiteCoreError;

verus! {

/// Whether the raw value stands for "no context": absent or empty.
pub fn invocation_value_is_absent(value: Option<&str>) -> (absent: bool)
    ensures
        absent == (value matches Some(v) ==> v@.len() == 0),
{
    match value {
        None => true,
        Some(v) => v.unicode_len() == 0,
    }
}

/// What a decoded invocation context amounts to.
pub open spec fn spec_accept_parsed(
    parsed: Result<HostInvocationContext, String>,
) -> Result<Option<HostInvocationContext>, BsuiteCoreError> {
    match parsed {
        Err(message) => Err(BsuiteCoreError::HostContextParseFailed(message)),
        Ok(ctx) => if spec_from_stable_name(ctx.host_id@) is Some {
            Ok(Some(ctx))
        } else {
            Err(BsuiteCoreError::UnknownHostId(ctx.host_id))
        },
    }
}

/// Turns the outcome of decoding a present, non-empty context into the
/// answer: a decoding failure is `HostContextParseFailed` with its message,
/// a context whose host id is not a known stable name is `UnknownHostId`
/// with that id, and any other context is accepted.
pub fn accept_parsed_invocation_context(
    parsed: Result<HostInvocationContext, String>,
) -> (outcome: Result<Option<HostInvocationContext>, BsuiteCoreError>)
    ensures
        outcome == spec_accept_parsed(parsed),
{
    match parsed {
        Err(message) => Err(BsuiteCoreError::HostContextParseFailed(message)),
        Ok(ctx) => {
            if HostContext::from_stable_name(ctx.host_id.as_str()).is_some() {
                Ok(Some(ctx))
            } else {
                Err(BsuiteCoreError::UnknownHostId(ctx.host_id))
            }
        },
    }
}

} // verus!
