//! User tiers.
use vstd::prelude::*;

use crate::text::text_eq;

verus! {

/// The account-level tier assigned to a user. Determines default submission
/// limits (AOI, time range, monthly quota) enforced by the API server.
///
/// The scheduler uses this indirectly via `Job::effective_tier`, which may
/// differ from the user's account tier when a prepaid code was redeemed.
#[derive(Debug, Clone, Copy, PartialEq, Eq, Structural)]
pub enum UserTier {
    /// Restricted access, intended for evaluation. Smallest limits.
    Demo,
    /// Standard unpaid access.
    Free,
    /// Paid tier with the highest (or unlimited) limits.
    Pro,
}

impl UserTier {
    /// The name stored in the database.
    pub open spec fn name(self) -> Seq<char> {
        match self {
            Self::Demo => "demo"@,
            Self::Free => "free"@,
            Self::Pro => "pro"@,
        }
    }

    /// The tier that a text names.
    pub open spec fn named(s: Seq<char>) -> Option<UserTier> {
        if exists|tier: UserTier| s == #[trigger] tier.name() {
            Some(choose|tier: UserTier| s == #[trigger] tier.name())
        } else {
            None
        }
    }

    /// The place of the tier in the dispatch order.
    pub open spec fn priority(self) -> int {
        match self {
            Self::Pro => 2,
            Self::Free => 1,
            Self::Demo => 0,
        }
    }

    /// The name of the tier.
    pub fn as_str(&self) -> (r: &'static str)
        ensures
            r@ == self.name(),
    {
        match self {
            Self::Demo => "demo",
            Self::Free => "free",
            Self::Pro => "pro",
        }
    }

    /// The tier of a given name; none for any other text.
    pub fn from_str(s: &str) -> (r: Option<Self>)
        ensures
            r == Self::named(s@),
    {
        let r = if text_eq(s, "demo") {
            Some(Self::Demo)
        } else if text_eq(s, "free") {
            Some(Self::Free)
        } else if text_eq(s, "pro") {
            Some(Self::Pro)
        } else {
            None
        };
        proof {
            if r is Some {
                assert(s@ == (r->0).name());
                Self::named_is_unique(r->0);
            } else {
                assert forall|tier: UserTier| s@ != #[trigger] tier.name() by {
                    match tier {
                        Self::Demo => {},
                        Self::Free => {},
                        Self::Pro => {},
                    }
                }
            }
        }
        r
    }

    /// Numeric priority used by the scheduler when ordering jobs for dispatch.
    /// Higher value = claimed first.
    pub fn dispatch_priority(&self) -> (r: i32)
        ensures
            r == self.priority(),
    {
        match self {
            Self::Pro => 2,
            Self::Free => 1,
            Self::Demo => 0,
        }
    }

    /// Different tiers have different names.
    pub proof fn names_differ(a: UserTier, b: UserTier)
        requires
            a.name() == b.name(),
        ensures
            a == b,
    {
        reveal_strlit("demo");
        reveal_strlit("free");
        reveal_strlit("pro");
        assert("demo"@.len() == 4);
        assert("free"@.len() == 4);
        assert("pro"@.len() == 3);
        assert("demo"@[0] != "free"@[0]);
    }

    /// The tier whose name reads back is the tier itself.
    pub proof fn named_is_unique(tier: UserTier)
        ensures
            Self::named(tier.name()) == Some(tier),
    {
        Self::names_differ(Self::named(tier.name())->0, tier);
    }

    /// Paying users come first: the priorities order the tiers strictly.
    pub proof fn pro_is_claimed_first()
        ensures
            Self::Pro.priority() > Self::Free.priority() > Self::Demo.priority(),
    {
    }
}

} // verus!
