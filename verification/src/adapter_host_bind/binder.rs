//! The binder that resolves the host from the invocation context it was given.

use vstd::prelude::*;

use super::binding::{AdapterBinding, AdapterHostBinder};
use super::context::{
    lemma_stable_name_round_trip, spec_from_stable_name, spec_stable_name, HostContext,
};
use super::invocation::HostInvocationContext;
use super::package::{canonical_package_name, spec_package_name};
use crate::error::BsuiteCoreError;

verus! {

/// The host an invocation context names, falling back to `L2a` when there
/// is no context or its host id is not a known stable name.
pub open spec fn spec_resolved_host(ctx: Option<HostInvocationContext>) -> HostContext {
    match ctx {
        Some(c) => match spec_from_stable_name(c.host_id@) {
            Some(host) => host,
            None => HostContext::L2a,
        },
        None => HostContext::L2a,
    }
}

/// A context whose host id is the stable name of `host` resolves to `host`,
/// whatever its other fields hold.
pub proof fn lemma_resolves_named_host(ctx: HostInvocationContext, host: HostContext)
    requires
        ctx.host_id@ == spec_stable_name(host),
    ensures
        spec_resolved_host(Some(ctx)) == host,
{
    lemma_stable_name_round_trip(host);
}

/// The resolved host depends on nothing but the host id.
pub proof fn lemma_resolution_reads_only_host_id(a: HostInvocationContext, b: HostInvocationContext)
    requires
        a.host_id@ == b.host_id@,
    ensures
        spec_resolved_host(Some(a)) == spec_resolved_host(Some(b)),
{
}

/// Binds every host to its canonical adapter package.
pub struct FullAdapterHostBinder {
    invocation_context: Option<HostInvocationContext>,
}

impl View for FullAdapterHostBinder {
    type V = Option<HostInvocationContext>;

    /// The invocation context the binder holds.
    closed spec fn view(&self) -> Option<HostInvocationContext> {
        self.invocation_context
    }
}

impl FullAdapterHostBinder {
    /// A binder that holds `ctx`.
    pub fn with_context(ctx: Option<HostInvocationContext>) -> (binder: FullAdapterHostBinder)
        ensures
            binder@ == ctx,
    {
        FullAdapterHostBinder { invocation_context: ctx }
    }

    /// The invocation context the binder holds, if any.
    pub fn invocation_context(&self) -> (ctx: Option<&HostInvocationContext>)
        ensures
            ctx is None <==> self@ is None,
            ctx matches Some(c) ==> self@ == Some(*c),
    {
        self.invocation_context.as_ref()
    }

    /// The host named by the held context, or `L2a` where it names none.
    pub fn resolved_host_context(&self) -> (host: HostContext)
        ensures
            host == spec_resolved_host(self@),
    {
        match &self.invocation_context {
            Some(ctx) => match HostContext::from_stable_name(ctx.host_id.as_str()) {
                Some(host) => host,
                None => HostContext::L2a,
            },
            None => HostContext::L2a,
        }
    }
}

impl AdapterHostBinder for FullAdapterHostBinder {
    /// Binds `host` to its canonical package; this never fails.
    fn bind(&self, host: HostContext) -> (binding: Result<AdapterBinding, BsuiteCoreError>)
        ensures
            binding matches Ok(b) && b.host == host && b.package_name@ == spec_package_name(host),
    {
        Ok(AdapterBinding::new(host, canonical_package_name(host)))
    }
}

} // verus!
