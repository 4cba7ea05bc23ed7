//! The result of binding a host: which adapter package serves it.

use vstd::prelude::*;

use super::context::HostContext;
use crate::error::BsuiteCoreError;

verus! {

/// A host together with the adapter package that serves it.
#[derive(Debug, Clone, PartialEq, Eq)]
pub struct AdapterBinding {
    pub host: HostContext,
    pub package_name: String,
}

impl AdapterBinding {
    /// Pairs `host` with the package named `package_name`.
    pub fn new(host: HostContext, package_name: &str) -> (binding: AdapterBinding)
        ensures
            binding.host == host,
            binding.package_name@ == package_name@,
    {
        AdapterBinding { host, package_name: String::from_str(package_name) }
    }
}

/// Something that can say which adapter package serves a host.
pub trait AdapterHostBinder {
    /// The binding for `host`, or the error that prevents it.
    fn bind(&self, host: HostContext) -> Result<AdapterBinding, BsuiteCoreError>;
}

} // verus!
