//! User tiers of the licensing model and what each may do.

use vstd::prelude::*;
use crate::message_auth::current_timestamp;

verus! {

/// User tier in the licensing model. `Anonymous` has no account, `Free` has
/// signed up without a plan, `EarlyAdopter` signed up during early access and
/// has the Pro features for free; `Pro` and `Team` are paid tiers.
#[derive(PartialEq, Eq, Structural, Clone, Copy, Debug)]
pub enum UserTier {
    Anonymous,
    Free,
    EarlyAdopter,
    Pro,
    Team,
}

impl UserTier {
    pub fn can_publish(&self) -> (b: bool)
        ensures
            b == (*self == UserTier::EarlyAdopter || *self == UserTier::Pro || *self == UserTier::Team),
    {
        match self {
            UserTier::EarlyAdopter | UserTier::Pro | UserTier::Team => true,
            _ => false,
        }
    }

    pub fn can_use_cloud_targets(&self) -> (b: bool)
        ensures
            b == (*self == UserTier::EarlyAdopter || *self == UserTier::Pro || *self == UserTier::Team),
    {
        match self {
            UserTier::EarlyAdopter | UserTier::Pro | UserTier::Team => true,
            _ => false,
        }
    }

    pub fn can_sync_settings(&self) -> (b: bool)
        ensures
            b == (*self != UserTier::Anonymous),
    {
        match self {
            UserTier::Anonymous => false,
            _ => true,
        }
    }

    pub fn can_manage_team(&self) -> (b: bool)
        ensures
            b == (*self == UserTier::Team),
    {
        match self {
            UserTier::Team => true,
            _ => false,
        }
    }

    /// How many NATS agents the tier may pair; `None` is unlimited.
    pub fn max_nats_agents(&self) -> (m: Option<u32>)
        ensures
            m == match *self {
                UserTier::Anonymous => Some(0u32),
                UserTier::Free => Some(3u32),
                UserTier::EarlyAdopter | UserTier::Pro => Some(10u32),
                UserTier::Team => None,
            },
    {
        match self {
            UserTier::Anonymous => Some(0),
            UserTier::Free => Some(3),
            UserTier::EarlyAdopter | UserTier::Pro => Some(10),
            UserTier::Team => None,
        }
    }

    /// The tier's name as it is stored and displayed.
    pub fn as_str(&self) -> (s: &'static str)
        ensures
            s@ == match *self {
                UserTier::Anonymous => "anonymous"@,
                UserTier::Free => "free"@,
                UserTier::EarlyAdopter => "early_adopter"@,
                UserTier::Pro => "pro"@,
                UserTier::Team => "team"@,
            },
    {
        match self {
            UserTier::Anonymous => "anonymous",
            UserTier::Free => "free",
            UserTier::EarlyAdopter => "early_adopter",
            UserTier::Pro => "pro",
            UserTier::Team => "team",
        }
    }
}

/// Cached auth state. Instants are Unix seconds.
pub struct AuthState {
    pub tier: UserTier,
    pub email: Option<String>,
    pub user_id: Option<String>,
    pub last_validated_at: Option<i64>,
    pub offline_grace_until: Option<i64>,
}

/// The tier in force at `now`: Pro and Team fall back to Free once the
/// offline grace period has passed.
pub open spec fn effective_tier_spec(tier: UserTier, grace: Option<i64>, now: i64) -> UserTier {
    match tier {
        UserTier::Pro | UserTier::Team => match grace {
            Some(g) => if now > g {
                UserTier::Free
            } else {
                tier
            },
            None => tier,
        },
        _ => tier,
    }
}

impl AuthState {
    /// The anonymous state with nothing cached.
    pub fn new() -> (s: Self)
        ensures
            s.tier == UserTier::Anonymous,
            s.email is None,
            s.user_id is None,
            s.last_validated_at is None,
            s.offline_grace_until is None,
    {
        AuthState {
            tier: UserTier::Anonymous,
            email: None,
            user_id: None,
            last_validated_at: None,
            offline_grace_until: None,
        }
    }

    /// The effective tier at time `now`.
    pub fn effective_tier_at(&self, now: i64) -> (t: UserTier)
        ensures
            t == effective_tier_spec(self.tier, self.offline_grace_until, now),
    {
        match self.tier {
            UserTier::Pro | UserTier::Team => {
                if let Some(grace) = self.offline_grace_until {
                    if now > grace {
                        return UserTier::Free;
                    }
                }
                self.tier
            },
            other => other,
        }
    }

    /// The effective tier now, by the system clock.
    pub fn effective_tier(&self) -> (t: UserTier)
        ensures
            exists|now: i64| now >= 0 && t == effective_tier_spec(self.tier, self.offline_grace_until, now),
    {
        self.effective_tier_at(current_timestamp())
    }
}

impl Default for AuthState {
    fn default() -> (s: Self)
        ensures
            s.tier == UserTier::Anonymous,
            s.email is None,
            s.user_id is None,
            s.last_validated_at is None,
            s.offline_grace_until is None,
    {
        AuthState::new()
    }
}

/// Only Pro and Team can lose their tier, and only to Free; every other tier
/// is in force whatever the time.
pub proof fn effective_tier_degrades_only_to_free(tier: UserTier, grace: Option<i64>, now: i64)
    ensures
        effective_tier_spec(tier, grace, now) == tier || (effective_tier_spec(tier, grace, now)
            == UserTier::Free && (tier == UserTier::Pro || tier == UserTier::Team)),
{
}

} // verus!
