//! The adapter package that belongs to each host.

use vstd::prelude::*;

use super::context::HostContext;

verus! {

/// The name of the adapter package for each host.
pub open spec fn spec_package_name(host: HostContext) -> Seq<char> {
    match host {
        HostContext::L2a => "b"@,
        HostContext::PayloadV3 => "bpayload"@,
        HostContext::StrapiV5 => "bstrapi"@,
        HostContext::SanityV3 => "bsanity"@,
        HostContext::DirectusV10 => "bdirectus"@,
    }
}

/// The name of the adapter package for `host`.
pub fn canonical_package_name(host: HostContext) -> (name: &'static str)
    ensures
        name@ == spec_package_name(host),
{
    match host {
        HostContext::L2a => "b",
        HostContext::PayloadV3 => "bpayload",
        HostContext::StrapiV5 => "bstrapi",
        HostContext::SanityV3 => "bsanity",
        HostContext::DirectusV10 => "bdirectus",
    }
}

} // verus!
