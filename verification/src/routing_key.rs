//! The bsuite binaries, each of which routes to its own corpus entries.

use vstd::prelude::*;

verus! {

/// The binary a directive is routed to.
#[derive(Debug, Clone, Copy, PartialEq, Eq, Structural, Hash, PartialOrd, Ord)]
pub enum RoutingKey {
    BGround,
    BAnchor,
    BSmell,
    BRatch,
    BWatch,
    BSpector,
}

/// The stable binary name of each routing key.
pub open spec fn spec_routing_name(key: RoutingKey) -> Seq<char> {
    match key {
        RoutingKey::BGround => "bground"@,
        RoutingKey::BAnchor => "banchor"@,
        RoutingKey::BSmell => "bsmell"@,
        RoutingKey::BRatch => "bratch"@,
        RoutingKey::BWatch => "bwatch"@,
        RoutingKey::BSpector => "bspector"@,
    }
}

/// The position of each routing key in `RoutingKey::ALL`.
pub open spec fn spec_routing_slot(key: RoutingKey) -> int {
    match key {
        RoutingKey::BGround => 0,
        RoutingKey::BAnchor => 1,
        RoutingKey::BSmell => 2,
        RoutingKey::BRatch => 3,
        RoutingKey::BWatch => 4,
        RoutingKey::BSpector => 5,
    }
}

/// How many routing keys there are.
pub const ROUTING_KEY_COUNT: usize = 6;

impl RoutingKey {
    /// Every routing key, in declaration order.
    pub const ALL: [RoutingKey; 6] = [
        RoutingKey::BGround,
        RoutingKey::BAnchor,
        RoutingKey::BSmell,
        RoutingKey::BRatch,
        RoutingKey::BWatch,
        RoutingKey::BSpector,
    ];

    /// The stable binary name of this routing key.
    pub fn stable_name(self) -> (name: &'static str)
        ensures
            name@ == spec_routing_name(self),
    {
        match self {
            RoutingKey::BGround => "bground",
            RoutingKey::BAnchor => "banchor",
            RoutingKey::BSmell => "bsmell",
            RoutingKey::BRatch => "bratch",
            RoutingKey::BWatch => "bwatch",
            RoutingKey::BSpector => "bspector",
        }
    }

    /// The position of this routing key in `RoutingKey::ALL`.
    pub fn slot(self) -> (slot: usize)
        ensures
            slot as int == spec_routing_slot(self),
            slot < ROUTING_KEY_COUNT,
    {
        match self {
            RoutingKey::BGround => 0,
            RoutingKey::BAnchor => 1,
            RoutingKey::BSmell => 2,
            RoutingKey::BRatch => 3,
            RoutingKey::BWatch => 4,
            RoutingKey::BSpector => 5,
        }
    }
}

} // verus!
