//! Properties that hold across operations and sequences of them.
use vstd::prelude::*;

use crate::carrier::{Carrier, MIN_ACCEPT_REPUTATION};
use crate::identity::Identity;
use crate::error::ErrorCode;
use crate::escrow::{
    Escrow,
    EscrowStatus,
    carrier_after_delivery,
    escrow_rank,
    escrow_step,
    fee_of,
    release_error,
    split_of,
};
use crate::package::{Package, PackageStatus, acceptance_error, package_rank, package_step};
use crate::platform::{FEE_RATE_DENOMINATOR, Platform};

verus! {

/// Every completed delivery pays out the whole vault: the carrier's share and
/// the platform fee add up to the escrowed amount, and the fee is the amount
/// times the fee rate over 10000, rounded down.
pub proof fn lemma_release_conserves_value(
    package: Package,
    carrier: Carrier,
    platform: Platform,
    escrow: Escrow,
)
    requires
        release_error(package, carrier, platform, escrow) is None,
    ensures
        split_of(escrow.amount, platform.fee_rate) is Some,
        split_of(escrow.amount, platform.fee_rate)->Some_0.carrier_amount + split_of(
            escrow.amount,
            platform.fee_rate,
        )->Some_0.platform_fee == escrow.amount,
        split_of(escrow.amount, platform.fee_rate)->Some_0.platform_fee == escrow.amount
            * platform.fee_rate / 10000,
{
}

/// Under a well-formed platform (fee rate at most 10000), the split of an
/// amount fails only where the amount times the rate leaves `u64`, and the fee
/// never exceeds the amount.
pub proof fn lemma_split_defined(amount: u64, fee_rate: u16)
    requires
        fee_rate as u64 <= FEE_RATE_DENOMINATOR,
    ensures
        split_of(amount, fee_rate) is Some <==> amount * fee_rate <= u64::MAX,
        split_of(amount, fee_rate) is Some ==> split_of(amount, fee_rate)->Some_0.platform_fee
            <= amount,
{
    assert(amount * fee_rate <= amount * 10000) by (nonlinear_arith)
        requires
            fee_rate <= 10000,
    ;
    assert(fee_of(amount as int, fee_rate as int) <= amount) by (nonlinear_arith)
        requires
            amount * fee_rate <= amount * 10000,
            fee_of(amount as int, fee_rate as int) == amount * fee_rate / 10000,
    ;
}

/// With the right signer and a registered package, acceptance turns on the
/// carrier's reputation alone: below 50 it fails with
/// `InsufficientReputation`, from 50 on it succeeds.
pub proof fn lemma_acceptance_reputation_threshold(
    package: Package,
    carrier: Carrier,
    signer: Identity,
)
    requires
        signer == carrier.authority,
        package.status == PackageStatus::Registered,
    ensures
        carrier.reputation < MIN_ACCEPT_REPUTATION ==> acceptance_error(package, carrier, signer)
            == Some(ErrorCode::InsufficientReputation),
        carrier.reputation >= MIN_ACCEPT_REPUTATION ==> acceptance_error(package, carrier, signer)
            is None,
{
}

proof fn lemma_package_chain(states: Seq<Package>, i: int, j: int)
    requires
        0 <= i <= j < states.len(),
        forall|k: int| 0 <= k < states.len() - 1 ==> package_step(states[k], #[trigger] states[k + 1]),
    ensures
        package_rank(states[i].status) <= package_rank(states[j].status),
    decreases j - i,
{
    if i < j {
        lemma_package_chain(states, i, j - 1);
        assert(package_step(states[j - 1], states[(j - 1) + 1]));
    }
}

/// A package's status never goes back: along any run of its transitions the
/// statuses seen follow the order `Registered, InTransit, Delivered`.
pub proof fn lemma_package_status_never_regresses(states: Seq<Package>)
    requires
        forall|k: int| 0 <= k < states.len() - 1 ==> package_step(states[k], #[trigger] states[k + 1]),
    ensures
        forall|i: int, j: int|
            0 <= i <= j < states.len() ==> package_rank(#[trigger] states[i].status)
                <= package_rank(#[trigger] states[j].status),
{
    assert forall|i: int, j: int| 0 <= i <= j < states.len() implies package_rank(
        #[trigger] states[i].status,
    ) <= package_rank(#[trigger] states[j].status) by {
        lemma_package_chain(states, i, j);
    }
}

proof fn lemma_escrow_chain(states: Seq<Escrow>, i: int, j: int)
    requires
        0 <= i <= j < states.len(),
        forall|k: int| 0 <= k < states.len() - 1 ==> escrow_step(states[k], #[trigger] states[k + 1]),
    ensures
        escrow_rank(states[i].status) <= escrow_rank(states[j].status),
        states[i].status == EscrowStatus::Released ==> states[j] == states[i],
    decreases j - i,
{
    if i < j {
        lemma_escrow_chain(states, i, j - 1);
        assert(escrow_step(states[j - 1], states[(j - 1) + 1]));
    }
}

/// An escrow's status never goes back: along any run of its transitions the
/// statuses seen follow the order `Created, Funded, Released`, and once
/// released the vault never changes again.
pub proof fn lemma_escrow_status_never_regresses(states: Seq<Escrow>)
    requires
        forall|k: int| 0 <= k < states.len() - 1 ==> escrow_step(states[k], #[trigger] states[k + 1]),
    ensures
        forall|i: int, j: int|
            0 <= i <= j < states.len() ==> escrow_rank(#[trigger] states[i].status)
                <= escrow_rank(#[trigger] states[j].status),
        forall|i: int, j: int|
            0 <= i <= j < states.len() && #[trigger] states[i].status == EscrowStatus::Released
                ==> #[trigger] states[j] == states[i],
{
    assert forall|i: int, j: int| 0 <= i <= j < states.len() implies escrow_rank(
        #[trigger] states[i].status,
    ) <= escrow_rank(#[trigger] states[j].status) by {
        lemma_escrow_chain(states, i, j);
    }
    assert forall|i: int, j: int|
        0 <= i <= j < states.len() && #[trigger] states[i].status
            == EscrowStatus::Released implies #[trigger] states[j] == states[i] by {
        lemma_escrow_chain(states, i, j);
    }
}

/// Completing a delivery is not reentrant: once it succeeded on a vault, a
/// second completion on the released vault fails with `InvalidEscrowAccount`,
/// whatever package and carrier it names.
pub proof fn lemma_complete_delivery_not_reentrant(
    package: Package,
    carrier: Carrier,
    platform: Platform,
    escrow: Escrow,
    now: i64,
)
    requires
        release_error(package, carrier, platform, escrow) is None,
    ensures
        release_error(
            package.delivered(now),
            carrier_after_delivery(carrier, platform),
            platform,
            escrow.released(now),
        ) == Some(ErrorCode::InvalidEscrowAccount),
        forall|p: Package, c: Carrier|
            #[trigger] release_error(p, c, platform, escrow.released(now)) == Some(
                ErrorCode::InvalidEscrowAccount,
            ),
{
}

proof fn lemma_count_prefix(states: Seq<Platform>, n: int)
    requires
        0 <= n < states.len(),
        states[0].total_packages == 0,
        forall|k: int|
            0 <= k < states.len() - 1 ==> states[k].total_packages < u64::MAX && #[trigger] states[k
                + 1] == states[k].after_registration(),
    ensures
        states[n].total_packages == n,
    decreases n,
{
    if n > 0 {
        lemma_count_prefix(states, n - 1);
        assert(states[n] == states[n - 1].after_registration());
    }
}

/// Starting from a fresh platform, after N successful package registrations
/// the platform counts exactly N packages.
pub proof fn lemma_total_packages_counts_registrations(states: Seq<Platform>)
    requires
        states.len() >= 1,
        states[0].total_packages == 0,
        forall|k: int|
            0 <= k < states.len() - 1 ==> states[k].total_packages < u64::MAX && #[trigger] states[k
                + 1] == states[k].after_registration(),
    ensures
        states.last().total_packages == states.len() - 1,
{
    lemma_count_prefix(states, states.len() - 1);
}

} // verus!
