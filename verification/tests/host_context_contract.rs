use bsuite_core::HostContext;

#[test]
fn host_contexts_have_stable_public_names() {
    assert_eq!(
        HostContext::ALL.map(|host| (host, host.stable_name())),
        [
            (HostContext::L2a, "l2a"),
            (HostContext::PayloadV3, "payload-v3"),
            (HostContext::StrapiV5, "strapi-v5"),
            (HostContext::SanityV3, "sanity-v3"),
            (HostContext::DirectusV10, "directus-v10"),
        ],
    );
}

#[test]
fn display_output_matches_stable_name_for_all_variants() {
    for host in HostContext::ALL {
        assert_eq!(
            host.to_string(),
            host.stable_name(),
            "Display must match stable_name for {host:?}",
        );
    }
}

#[test]
fn from_stable_name_round_trips_all_known_names() {
    for host in HostContext::ALL {
        let name = host.stable_name();
        assert_eq!(
            HostContext::from_stable_name(name),
            Some(host),
            "from_stable_name must recover the original variant for name {name:?}",
        );
    }
}

#[test]
fn host_context_names_are_unique_and_complete() {
    for (i, a) in HostContext::ALL.iter().enumerate() {
        for (j, b) in HostContext::ALL.iter().enumerate() {
            assert_eq!(i == j, a.stable_name() == b.stable_name());
        }
    }
}

#[test]
fn from_stable_name_recognizes_exactly_the_names_in_all() {
    let names = [
        "", "l2a", "L2a", "payload-v3", "payload-v3 ", "strapi-v5", "sanity-v3", "sanity",
        "directus-v10", "directus-v1", "b", "bground",
    ];
    for name in names {
        let in_all = HostContext::ALL.iter().any(|h| h.stable_name() == name);
        assert_eq!(
            HostContext::from_stable_name(name).is_some(),
            in_all,
            "from_stable_name({name:?}) must return Some iff name is a known stable name",
        );
    }
}
