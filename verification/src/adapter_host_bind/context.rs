//! The CMS hosts that an adapter can be bound to, and their stable names.

use vstd::prelude::*;

use crate::text::same_text;

verus! {

/// A CMS host that bsuite can run inside.
#[derive(Debug, Clone, Copy, PartialEq, Eq, Structural, Hash, PartialOrd, Ord)]
pub enum HostContext {
    L2a,
    PayloadV3,
    StrapiV5,
    SanityV3,
    DirectusV10,
}

/// The public, stable name of each host.
pub open spec fn spec_stable_name(host: HostContext) -> Seq<char> {
    match host {
        HostContext::L2a => "l2a"@,
        HostContext::PayloadV3 => "payload-v3"@,
        HostContext::StrapiV5 => "strapi-v5"@,
        HostContext::SanityV3 => "sanity-v3"@,
        HostContext::DirectusV10 => "directus-v10"@,
    }
}

/// The host whose stable name is `name`, if any.
pub open spec fn spec_from_stable_name(name: Seq<char>) -> Option<HostContext> {
    if name == "l2a"@ {
        Some(HostContext::L2a)
    } else if name == "payload-v3"@ {
        Some(HostContext::PayloadV3)
    } else if name == "strapi-v5"@ {
        Some(HostContext::StrapiV5)
    } else if name == "sanity-v3"@ {
        Some(HostContext::SanityV3)
    } else if name == "directus-v10"@ {
        Some(HostContext::DirectusV10)
    } else {
        None
    }
}

/// Every host is recovered from its stable name.
pub proof fn lemma_stable_name_round_trip(host: HostContext)
    ensures
        spec_from_stable_name(spec_stable_name(host)) == Some(host),
{
    reveal_strlit("l2a");
    reveal_strlit("payload-v3");
    reveal_strlit("strapi-v5");
    reveal_strlit("sanity-v3");
    reveal_strlit("directus-v10");
    assert("l2a"@.len() == 3);
    assert("payload-v3"@.len() == 10);
    assert("strapi-v5"@.len() == 9);
    assert("sanity-v3"@.len() == 9);
    assert("directus-v10"@.len() == 12);
    assert("strapi-v5"@[1] != "sanity-v3"@[1]);
}

/// A name is recognised exactly when it is the stable name of some host,
/// and then it is recognised as that host.
pub proof fn lemma_from_stable_name_recognises_exactly_stable_names(name: Seq<char>)
    ensures
        spec_from_stable_name(name) matches Some(host) ==> spec_stable_name(host) == name,
        spec_from_stable_name(name) is None ==> forall|host: HostContext|
            spec_stable_name(host) != name,
{
    if spec_from_stable_name(name) is None {
        assert forall|host: HostContext| spec_stable_name(host) != name by {
            lemma_stable_name_round_trip(host);
        }
    }
}

/// Distinct hosts have distinct stable names.
pub proof fn lemma_stable_names_are_unique(a: HostContext, b: HostContext)
    ensures
        spec_stable_name(a) == spec_stable_name(b) ==> a == b,
{
    lemma_stable_name_round_trip(a);
    lemma_stable_name_round_trip(b);
}

impl HostContext {
    /// Every host, in declaration order.
    pub const ALL: [HostContext; 5] = [
        HostContext::L2a,
        HostContext::PayloadV3,
        HostContext::StrapiV5,
        HostContext::SanityV3,
        HostContext::DirectusV10,
    ];

    /// The stable public name of this host.
    pub fn stable_name(self) -> (name: &'static str)
        ensures
            name@ == spec_stable_name(self),
    {
        match self {
            HostContext::L2a => "l2a",
            HostContext::PayloadV3 => "payload-v3",
            HostContext::StrapiV5 => "strapi-v5",
            HostContext::SanityV3 => "sanity-v3",
            HostContext::DirectusV10 => "directus-v10",
        }
    }

    /// The stable name of this host as owned text, as it is displayed.
    pub fn to_string(&self) -> (text: String)
        ensures
            text@ == spec_stable_name(*self),
    {
        String::from_str(self.stable_name())
    }

    /// The host whose stable name is `value`; `None` for any other text.
    pub fn from_stable_name(value: &str) -> (host: Option<HostContext>)
        ensures
            host == spec_from_stable_name(value@),
    {
        if same_text(value, "l2a") {
            Some(HostContext::L2a)
        } else if same_text(value, "payload-v3") {
            Some(HostContext::PayloadV3)
        } else if same_text(value, "strapi-v5") {
            Some(HostContext::StrapiV5)
        } else if same_text(value, "sanity-v3") {
            Some(HostContext::SanityV3)
        } else if same_text(value, "directus-v10") {
            Some(HostContext::DirectusV10)
        } else {
            None
        }
    }
}

} // verus!
