//! The tag that identifies an invocation in logs and transcripts.

use vstd::prelude::*;

use super::invocation::HostInvocationContext;

verus! {

/// The tag text for an invocation: host, version and cycle id, in that order.
pub open spec fn spec_context_tag(ctx: HostInvocationContext) -> Seq<char> {
    "host:"@ + ctx.host_id@ + ";version:"@ + ctx.host_version@ + ";cycle-id:"@ + ctx.cycle_id@
}

/// Formats `host:{host_id};version:{host_version};cycle-id:{cycle_id}`.
pub fn format_context_tag(ctx: &HostInvocationContext) -> (tag: String)
    ensures
        tag@ == spec_context_tag(*ctx),
{
    let mut tag = String::from_str("host:");
    tag.append(ctx.host_id.as_str());
    tag.append(";version:");
    tag.append(ctx.host_version.as_str());
    tag.append(";cycle-id:");
    tag.append(ctx.cycle_id.as_str());
    tag
}

/// The tag depends on nothing but the host id, the host version and the
/// cycle id: two contexts that agree on those have the same tag.
pub proof fn lemma_tag_reads_only_host_version_and_cycle(
    a: HostInvocationContext,
    b: HostInvocationContext,
)
    requires
        a.host_id@ == b.host_id@,
        a.host_version@ == b.host_version@,
        a.cycle_id@ == b.cycle_id@,
    ensures
        spec_context_tag(a) == spec_context_tag(b),
{
}

/// Each field of the tag reads back verbatim at its place: `host:`, the
/// host id, `;version:`, the host version, `;cycle-id:`, the cycle id, and
/// nothing else.
pub proof fn lemma_tag_fields_read_back(ctx: HostInvocationContext)
    ensures
        ({
            let tag = spec_context_tag(ctx);
            let h = ctx.host_id@.len() as int;
            let v = ctx.host_version@.len() as int;
            let c = ctx.cycle_id@.len() as int;
            &&& tag.len() == 24 + h + v + c
            &&& tag.subrange(0, 5) == "host:"@
            &&& tag.subrange(5, 5 + h) == ctx.host_id@
            &&& tag.subrange(5 + h, 14 + h) == ";version:"@
            &&& tag.subrange(14 + h, 14 + h + v) == ctx.host_version@
            &&& tag.subrange(14 + h + v, 24 + h + v) == ";cycle-id:"@
            &&& tag.subrange(24 + h + v, 24 + h + v + c) == ctx.cycle_id@
        }),
{
    reveal_strlit("host:");
    reveal_strlit(";version:");
    reveal_strlit(";cycle-id:");
    let tag = spec_context_tag(ctx);
    let h = ctx.host_id@.len() as int;
    let v = ctx.host_version@.len() as int;
    let c = ctx.cycle_id@.len() as int;
    assert(tag.subrange(0, 5) =~= "host:"@);
    assert(tag.subrange(5, 5 + h) =~= ctx.host_id@);
    assert(tag.subrange(5 + h, 14 + h) =~= ";version:"@);
    assert(tag.subrange(14 + h, 14 + h + v) =~= ctx.host_version@);
    assert(tag.subrange(14 + h + v, 24 + h + v) =~= ";cycle-id:"@);
    assert(tag.subrange(24 + h + v, 24 + h + v + c) =~= ctx.cycle_id@);
}

} // verus!
