use vstd::prelude::*;

use crate::error::ErrorCode;
use crate::identity::Identity;

verus! {

/// Basis points in a whole: a fee rate of 10000 takes everything.
pub const FEE_RATE_DENOMINATOR: u64 = 10000;

/// Fee rate set when the platform is initialized: 2%.
pub const DEFAULT_FEE_RATE: u16 = 200;

/// Reputation added per completed delivery when the platform is initialized.
pub const DEFAULT_REPUTATION_INCREASE: u8 = 10;

/// Highest reputation a carrier may start with, and the cap where one applies.
pub const MAX_REPUTATION: u8 = 100;

/// How a completed delivery raises a carrier's reputation.
#[derive(Clone, Copy, Debug, PartialEq, Eq, Structural)]
pub enum ReputationPolicy {
    /// The increase is added with overflow checking and no cap.
    Uncapped,
    /// The increase is added, but never above `MAX_REPUTATION`;
    /// a reputation already above it stays where it is.
    Capped,
}

/// The singleton platform configuration.
#[derive(Debug)]
pub struct Platform {
    pub authority: Identity,
    /// Fee rate in basis points.
    pub fee_rate: u16,
    /// Number of packages registered so far.
    pub total_packages: u64,
    pub reputation_increase: u8,
    pub reputation_policy: ReputationPolicy,
    pub default_token: Identity,
    pub allowed_tokens: Vec<Identity>,
}

/// The notification emitted when the platform is initialized.
#[derive(Clone, Copy, Debug, PartialEq, Eq)]
pub struct PlatformInitialized {
    pub authority: Identity,
    pub fee_rate: u16,
}

impl Platform {
    pub open spec fn wf(&self) -> bool {
        self.fee_rate <= FEE_RATE_DENOMINATOR
    }

    /// The platform after one more package was registered.
    pub open spec fn after_registration(self) -> Platform {
        Platform { total_packages: (self.total_packages + 1) as u64, ..self }
    }

    /// Whether `token` is an asset type that the platform accepts.
    pub open spec fn accepts(self, token: Identity) -> bool {
        token == self.default_token || self.allowed_tokens@.contains(token)
    }

    /// Counts one more registered package, failing rather than wrapping.
    pub fn record_registration(&mut self) -> (r: Result<(), ErrorCode>)
        ensures
            r is Err <==> old(self).total_packages == u64::MAX,
            r is Err ==> r == Err::<(), ErrorCode>(ErrorCode::ArithmeticOverflow)
                && *final(self) == *old(self),
            r is Ok ==> *final(self) == old(self).after_registration(),
    {
        match self.total_packages.checked_add(1) {
            Some(n) => {
                self.total_packages = n;
                Ok(())
            },
            None => Err(ErrorCode::ArithmeticOverflow),
        }
    }

    /// Sets the fee rate; only the platform authority may, and only to at most 10000.
    pub fn set_fee_rate(&mut self, signer: Identity, fee_rate: u16) -> (r: Result<(), ErrorCode>)
        ensures
            r == (if signer != old(self).authority {
                Err(ErrorCode::Unauthorized)
            } else if fee_rate as u64 > FEE_RATE_DENOMINATOR {
                Err(ErrorCode::InvalidFeeRate)
            } else {
                Ok(())
            }),
            r is Err ==> *final(self) == *old(self),
            r is Ok ==> *final(self) == (Platform { fee_rate, ..*old(self) }),
    {
        if signer != self.authority {
            return Err(ErrorCode::Unauthorized);
        }
        if fee_rate as u64 > FEE_RATE_DENOMINATOR {
            return Err(ErrorCode::InvalidFeeRate);
        }
        self.fee_rate = fee_rate;
        Ok(())
    }

    /// Sets how completed deliveries raise reputation; only the platform authority may.
    pub fn set_reputation_policy(&mut self, signer: Identity, policy: ReputationPolicy) -> (r:
        Result<(), ErrorCode>)
        ensures
            r is Err <==> signer != old(self).authority,
            r is Err ==> r == Err::<(), ErrorCode>(ErrorCode::Unauthorized) && *final(self)
                == *old(self),
            r is Ok ==> *final(self) == (Platform { reputation_policy: policy, ..*old(self) }),
    {
        if signer != self.authority {
            return Err(ErrorCode::Unauthorized);
        }
        self.reputation_policy = policy;
        Ok(())
    }

    /// Adds `token` to the accepted asset types; only the platform authority may.
    pub fn allow_token(&mut self, signer: Identity, token: Identity) -> (r: Result<(), ErrorCode>)
        ensures
            r is Err <==> signer != old(self).authority,
            r is Err ==> r == Err::<(), ErrorCode>(ErrorCode::Unauthorized) && *final(self)
                == *old(self),
            r is Ok ==> final(self).allowed_tokens@ == old(self).allowed_tokens@.push(token)
                && final(self).authority == old(self).authority
                && final(self).fee_rate == old(self).fee_rate
                && final(self).total_packages == old(self).total_packages
                && final(self).reputation_increase == old(self).reputation_increase
                && final(self).reputation_policy == old(self).reputation_policy
                && final(self).default_token == old(self).default_token,
    {
        if signer != self.authority {
            return Err(ErrorCode::Unauthorized);
        }
        self.allowed_tokens.push(token);
        Ok(())
    }

    /// Fails with `TokenNotAllowed` unless the platform accepts `token`.
    pub fn check_token(&self, token: Identity) -> (r: Result<(), ErrorCode>)
        ensures
            r == (if self.accepts(token) {
                Ok(())
            } else {
                Err(ErrorCode::TokenNotAllowed)
            }),
    {
        if token == self.default_token {
            return Ok(());
        }
        let mut i: usize = 0;
        while i < self.allowed_tokens.len()
            invariant
                i <= self.allowed_tokens@.len(),
                forall|j: int| 0 <= j < i ==> self.allowed_tokens@[j] != token,
            decreases self.allowed_tokens@.len() - i,
        {
            if self.allowed_tokens[i] == token {
                return Ok(());
            }
            i = i + 1;
        }
        Err(ErrorCode::TokenNotAllowed)
    }
}

/// Creates the platform record in `slot`, which must still be empty: fee rate
/// 2%, reputation increase 10 (uncapped), no packages and no further asset types.
pub fn initialize(slot: &mut Option<Platform>, authority: Identity, default_token: Identity) -> (r:
    Result<PlatformInitialized, ErrorCode>)
    ensures
        r is Err <==> *old(slot) is Some,
        r is Err ==> r == Err::<PlatformInitialized, ErrorCode>(ErrorCode::AlreadyInitialized)
            && *final(slot) == *old(slot),
        r is Ok ==> r == Ok::<PlatformInitialized, ErrorCode>(
            PlatformInitialized { authority, fee_rate: DEFAULT_FEE_RATE },
        ) && *final(slot) is Some && {
            let p = final(slot)->Some_0;
            &&& p.wf()
            &&& p.authority == authority
            &&& p.fee_rate == DEFAULT_FEE_RATE
            &&& p.total_packages == 0
            &&& p.reputation_increase == DEFAULT_REPUTATION_INCREASE
            &&& p.reputation_policy == ReputationPolicy::Uncapped
            &&& p.default_token == default_token
            &&& p.allowed_tokens@ == Seq::<Identity>::empty()
        },
{
    if slot.is_some() {
        return Err(ErrorCode::AlreadyInitialized);
    }
    *slot = Some(
        Platform {
            authority,
            fee_rate: DEFAULT_FEE_RATE,
            total_packages: 0,
            reputation_increase: DEFAULT_REPUTATION_INCREASE,
            reputation_policy: ReputationPolicy::Uncapped,
            default_token,
            allowed_tokens: Vec::new(),
        },
    );
    Ok(PlatformInitialized { authority, fee_rate: DEFAULT_FEE_RATE })
}

} // verus!
