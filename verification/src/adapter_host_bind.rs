//! Binding of a CMS host to its adapter package.

pub mod binder;
pub mod binding;
pub mod context;
pub mod env_parse;
pub mod invocation;
pub mod package;
pub mod tag;

pub use binder::FullAdapterHostBinder;
pub use binding::{AdapterBinding, AdapterHostBinder};
pub use context::HostContext;
pub use env_parse::{accept_parsed_invocation_context, invocation_value_is_absent};
pub use invocation::{HostInvocationContext, HOST_CONTEXT_ENV_VAR};
pub use tag::format_context_tag;
