use vstd::prelude::*;

use crate::error::ErrorCode;
use crate::identity::Identity;
use crate::platform::{MAX_REPUTATION, ReputationPolicy};

verus! {

/// Reputation a carrier needs to accept a delivery.
pub const MIN_ACCEPT_REPUTATION: u8 = 50;

/// A registered carrier, bound for good to the authority that created it.
#[derive(Clone, Copy, Debug, PartialEq, Eq)]
pub struct Carrier {
    pub authority: Identity,
    pub reputation: u8,
    pub completed_deliveries: u32,
}

/// The reputation after one completed delivery, or `None` where it would overflow.
pub open spec fn raised_reputation(reputation: u8, increase: u8, policy: ReputationPolicy) -> Option<
    u8,
> {
    match policy {
        ReputationPolicy::Uncapped => if reputation + increase <= u8::MAX {
            Some((reputation + increase) as u8)
        } else {
            None
        },
        ReputationPolicy::Capped => if reputation >= MAX_REPUTATION {
            Some(reputation)
        } else if reputation + increase <= MAX_REPUTATION {
            Some((reputation + increase) as u8)
        } else {
            Some(MAX_REPUTATION)
        },
    }
}

/// Computes `raised_reputation`.
pub fn raise_reputation(reputation: u8, increase: u8, policy: ReputationPolicy) -> (r: Option<u8>)
    ensures
        r == raised_reputation(reputation, increase, policy),
{
    match policy {
        ReputationPolicy::Uncapped => reputation.checked_add(increase),
        ReputationPolicy::Capped => {
            if reputation >= MAX_REPUTATION {
                Some(reputation)
            } else if increase <= MAX_REPUTATION - reputation {
                Some(reputation + increase)
            } else {
                Some(MAX_REPUTATION)
            }
        },
    }
}

/// Creates the carrier record of `authority`; the initial reputation must be at most 100.
pub fn create_carrier(authority: Identity, initial_reputation: u8) -> (r: Result<Carrier, ErrorCode>)
    ensures
        r is Err <==> initial_reputation > MAX_REPUTATION,
        r is Err ==> r == Err::<Carrier, ErrorCode>(ErrorCode::InvalidReputation),
        r is Ok ==> r == Ok::<Carrier, ErrorCode>(
            Carrier { authority, reputation: initial_reputation, completed_deliveries: 0 },
        ),
{
    if initial_reputation > MAX_REPUTATION {
        return Err(ErrorCode::InvalidReputation);
    }
    Ok(Carrier { authority, reputation: initial_reputation, completed_deliveries: 0 })
}

} // verus!
