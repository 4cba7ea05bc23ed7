use bsuite_core::adapter_host_bind::package::canonical_package_name;
use bsuite_core::{
    accept_parsed_invocation_context, invocation_value_is_absent, BsuiteCoreError, HostContext,
    HostInvocationContext, HOST_CONTEXT_ENV_VAR,
};

fn invocation_context(host_id: &str) -> HostInvocationContext {
    HostInvocationContext {
        host_id: host_id.to_string(),
        host_version: "3.0.0".to_string(),
        cycle_id: "01JXXXXXXXXXXXXXXXXXXXXXXXXX".to_string(),
        directive_field: "_bsuiteDirective".to_string(),
        document_id: "doc-1".to_string(),
        collection: "articles".to_string(),
    }
}

#[test]
fn absent_and_empty_values_mean_no_context() {
    assert!(invocation_value_is_absent(None));
    assert!(invocation_value_is_absent(Some("")));
    assert!(!invocation_value_is_absent(Some(" ")));
    assert!(!invocation_value_is_absent(Some("{}")));
    assert_eq!(HOST_CONTEXT_ENV_VAR, "BSUITE_HOST_CONTEXT");
}

#[test]
fn decoding_failures_become_host_context_parse_failed() {
    assert_eq!(
        accept_parsed_invocation_context(Err("expected value at line 1 column 1".to_string())),
        Err(BsuiteCoreError::HostContextParseFailed(
            "expected value at line 1 column 1".to_string()
        ))
    );
}

#[test]
fn all_known_host_ids_are_accepted() {
    for host in HostContext::ALL {
        let ctx = invocation_context(host.stable_name());
        assert_eq!(accept_parsed_invocation_context(Ok(ctx.clone())), Ok(Some(ctx)));
    }
}

#[test]
fn unknown_host_ids_are_rejected_with_the_id() {
    for host_id in ["unknown-cms", "", "L2A"] {
        assert_eq!(
            accept_parsed_invocation_context(Ok(invocation_context(host_id))),
            Err(BsuiteCoreError::UnknownHostId(host_id.to_string()))
        );
    }
}

#[test]
fn canonical_package_names_follow_the_host() {
    let cases = [
        (HostContext::L2a, "b"),
        (HostContext::PayloadV3, "bpayload"),
        (HostContext::StrapiV5, "bstrapi"),
        (HostContext::SanityV3, "bsanity"),
        (HostContext::DirectusV10, "bdirectus"),
    ];
    for (host, expected) in cases {
        assert_eq!(canonical_package_name(host), expected);
    }
}
