//! Subscription tiers, ordered from free to premium.

use vstd::prelude::*;

verus! {

/// A subscription tier.
#[derive(Clone, Copy, PartialEq, Eq, Structural, Debug)]
pub enum Tier {
    Free,
    Pro,
    Premium,
}

/// The position of a tier in the free-to-premium order.
pub open spec fn spec_tier_rank(t: Tier) -> int {
    match t {
        Tier::Free => 0,
        Tier::Pro => 1,
        Tier::Premium => 2,
    }
}

impl Tier {
    /// The tier's wire name.
    pub fn as_str(&self) -> (r: &'static str)
        ensures
            *self == Tier::Free ==> r@ == "free"@,
            *self == Tier::Pro ==> r@ == "pro"@,
            *self == Tier::Premium ==> r@ == "premium"@,
    {
        match self {
            Tier::Free => "free",
            Tier::Pro => "pro",
            Tier::Premium => "premium",
        }
    }

    /// The tier's position in the free-to-premium order.
    pub fn rank(&self) -> (r: u8)
        ensures
            r as int == spec_tier_rank(*self),
    {
        match self {
            Tier::Free => 0,
            Tier::Pro => 1,
            Tier::Premium => 2,
        }
    }
}

} // verus!
