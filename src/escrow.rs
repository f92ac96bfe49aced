use vstd::prelude::*;

use crate::carrier::{Carrier, raise_reputation, raised_reputation};
use crate::error::ErrorCode;
use crate::identity::{Assignment, Identity};
use crate::package::{Package, PackageStatus, package_rank, package_step};
use crate::platform::{FEE_RATE_DENOMINATOR, Platform};

verus! {

/// Where an escrow vault is in its life; `Released` is terminal.
#[derive(Clone, Copy, Debug, PartialEq, Eq, Structural)]
pub enum EscrowStatus {
    /// Allocated, holding nothing yet.
    Created,
    /// Holding the sender's payment.
    Funded,
    /// Paid out to the carrier and the platform.
    Released,
}

impl Default for EscrowStatus {
    /// A vault starts out created and empty.
    fn default() -> (r: EscrowStatus)
        ensures
            r == EscrowStatus::Created,
    {
        EscrowStatus::Created
    }
}

/// The position of an escrow status along `Created, Funded, Released`.
pub open spec fn escrow_rank(s: EscrowStatus) -> nat {
    match s {
        EscrowStatus::Created => 0,
        EscrowStatus::Funded => 1,
        EscrowStatus::Released => 2,
    }
}

/// The custody vault of one package. A timestamp of zero is unset.
#[derive(Clone, Copy, Debug, PartialEq, Eq)]
pub struct Escrow {
    pub amount: u64,
    pub status: EscrowStatus,
    pub sender: Identity,
    pub package: u64,
    pub carrier: Assignment,
    pub created_at: i64,
    pub released_at: i64,
}

/// How a released escrow is split: the whole amount, the fee to the platform,
/// the rest to the carrier.
#[derive(Clone, Copy, Debug, PartialEq, Eq, Structural)]
pub struct Payout {
    pub carrier_amount: u64,
    pub platform_fee: u64,
}

/// The platform's fee on `amount` at `fee_rate` basis points, rounded down.
pub open spec fn fee_of(amount: int, fee_rate: int) -> int {
    amount * fee_rate / FEE_RATE_DENOMINATOR as int
}

/// The split of `amount` at `fee_rate`, or `None` where a step leaves `u64`.
pub open spec fn split_of(amount: u64, fee_rate: u16) -> Option<Payout> {
    if amount * fee_rate > u64::MAX || fee_of(amount as int, fee_rate as int) > amount {
        None
    } else {
        Some(
            Payout {
                carrier_amount: (amount - fee_of(amount as int, fee_rate as int)) as u64,
                platform_fee: fee_of(amount as int, fee_rate as int) as u64,
            },
        )
    }
}

/// Splits `amount` between carrier and platform: the fee is rounded down and
/// the remainder goes to the carrier. Every step is overflow-checked.
pub fn split_payment(amount: u64, fee_rate: u16) -> (r: Result<Payout, ErrorCode>)
    ensures
        r is Err <==> split_of(amount, fee_rate) is None,
        r is Err ==> r == Err::<Payout, ErrorCode>(ErrorCode::ArithmeticOverflow),
        r is Ok ==> r->Ok_0 == split_of(amount, fee_rate)->Some_0,
        r is Ok ==> r->Ok_0.carrier_amount + r->Ok_0.platform_fee == amount,
{
    let product = match amount.checked_mul(fee_rate as u64) {
        Some(p) => p,
        None => return Err(ErrorCode::ArithmeticOverflow),
    };
    let platform_fee = product / FEE_RATE_DENOMINATOR;
    let carrier_amount = match amount.checked_sub(platform_fee) {
        Some(c) => c,
        None => return Err(ErrorCode::ArithmeticOverflow),
    };
    Ok(Payout { carrier_amount, platform_fee })
}

/// One movement of value between two custody holders.
#[derive(Clone, Copy, Debug, PartialEq, Eq)]
pub struct Transfer {
    pub from: Identity,
    pub to: Identity,
    pub amount: u64,
}

/// The transfers that pay out `payout` from `vault`: the carrier's share first,
/// then the platform fee where it is not zero.
pub open spec fn payout_transfers_of(
    payout: Payout,
    vault: Identity,
    carrier_account: Identity,
    fee_account: Identity,
) -> Seq<Transfer> {
    let first = Transfer { from: vault, to: carrier_account, amount: payout.carrier_amount };
    if payout.platform_fee > 0 {
        seq![first, Transfer { from: vault, to: fee_account, amount: payout.platform_fee }]
    } else {
        seq![first]
    }
}

/// Lists the transfers that carry out `payout` from the vault's custody.
pub fn payout_transfers(
    payout: Payout,
    vault: Identity,
    carrier_account: Identity,
    fee_account: Identity,
) -> (r: Vec<Transfer>)
    ensures
        r@ == payout_transfers_of(payout, vault, carrier_account, fee_account),
{
    let mut r: Vec<Transfer> = Vec::new();
    r.push(Transfer { from: vault, to: carrier_account, amount: payout.carrier_amount });
    if payout.platform_fee > 0 {
        r.push(Transfer { from: vault, to: fee_account, amount: payout.platform_fee });
    }
    r
}

/// The transfer that funds a vault with `amount` from the sender's custody.
pub fn funding_transfer(sender_account: Identity, vault: Identity, amount: u64) -> (r: Transfer)
    ensures
        r == (Transfer { from: sender_account, to: vault, amount }),
{
    Transfer { from: sender_account, to: vault, amount }
}

impl Escrow {
    /// The vault after it was funded with `amount` for a package carried per `carrier`.
    pub open spec fn funded(self, amount: u64, carrier: Assignment) -> Escrow {
        Escrow { amount, status: EscrowStatus::Funded, carrier, ..self }
    }

    /// The vault after it was paid out at `now`.
    pub open spec fn released(self, now: i64) -> Escrow {
        Escrow { status: EscrowStatus::Released, released_at: now, ..self }
    }
}

/// Allocates the empty vault of `package` for `sender` at `now`; it names the
/// package's carrier as it stands, which may be nobody yet.
pub fn initialize_escrow(package: &Package, sender: Identity, now: i64) -> (r: Escrow)
    ensures
        r == (Escrow {
            amount: 0,
            status: EscrowStatus::Created,
            sender,
            package: package.id,
            carrier: package.carrier,
            created_at: now,
            released_at: 0,
        }),
{
    Escrow {
        amount: 0,
        status: EscrowStatus::Created,
        sender,
        package: package.id,
        carrier: package.carrier,
        created_at: now,
        released_at: 0,
    }
}

/// Whether `after` is `before` unchanged, or what one forward transition
/// (funding from `Created`, release from `Funded`) makes of it.
pub open spec fn escrow_step(before: Escrow, after: Escrow) -> bool {
    ||| after == before
    ||| before.status == EscrowStatus::Created && exists|amount: u64, carrier: Assignment|
        after == #[trigger] before.funded(amount, carrier)
    ||| before.status == EscrowStatus::Funded && exists|now: i64|
        after == #[trigger] before.released(now)
}

/// The error `create_escrow` fails with, if any.
pub open spec fn funding_error(escrow: Escrow, package: Package, signer: Identity) -> Option<
    ErrorCode,
> {
    if escrow.status != EscrowStatus::Created || escrow.package != package.id {
        Some(ErrorCode::InvalidEscrowAccount)
    } else if signer != escrow.sender {
        Some(ErrorCode::Unauthorized)
    } else {
        None
    }
}

/// Funds a created vault with `amount` from its sender: the vault takes the
/// amount and the package's current carrier. The caller moves `amount` from
/// the sender's custody into the vault's in the same atomic unit.
pub fn create_escrow(escrow: &mut Escrow, package: &Package, signer: Identity, amount: u64) -> (r:
    Result<(), ErrorCode>)
    ensures
        r is Err <==> funding_error(*old(escrow), *package, signer) is Some,
        r is Err ==> r == Err::<(), ErrorCode>(
            funding_error(*old(escrow), *package, signer)->Some_0,
        ) && *final(escrow) == *old(escrow),
        r is Ok ==> *final(escrow) == old(escrow).funded(amount, package.carrier),
        escrow_rank(old(escrow).status) <= escrow_rank(final(escrow).status),
        escrow_step(*old(escrow), *final(escrow)),
        old(escrow).status == EscrowStatus::Released ==> r == Err::<(), ErrorCode>(
            ErrorCode::InvalidEscrowAccount,
        ),
{
    if escrow.status != EscrowStatus::Created || escrow.package != package.id {
        return Err(ErrorCode::InvalidEscrowAccount);
    }
    if signer != escrow.sender {
        return Err(ErrorCode::Unauthorized);
    }
    escrow.amount = amount;
    escrow.status = EscrowStatus::Funded;
    escrow.carrier = package.carrier;
    Ok(())
}

/// The error `complete_delivery` fails with, if any.
pub open spec fn release_error(
    package: Package,
    carrier: Carrier,
    platform: Platform,
    escrow: Escrow,
) -> Option<ErrorCode> {
    if escrow.status != EscrowStatus::Funded {
        Some(ErrorCode::InvalidEscrowAccount)
    } else if package.status != PackageStatus::InTransit {
        Some(ErrorCode::InvalidPackageStatus)
    } else if escrow.package != package.id || escrow.carrier != Assignment::Assigned(
        carrier.authority,
    ) {
        Some(ErrorCode::InvalidEscrowAccount)
    } else if split_of(escrow.amount, platform.fee_rate) is None || carrier.completed_deliveries
        == u32::MAX || raised_reputation(
        carrier.reputation,
        platform.reputation_increase,
        platform.reputation_policy,
    ) is None {
        Some(ErrorCode::ArithmeticOverflow)
    } else {
        None
    }
}

/// The carrier after one more completed delivery under `platform`'s policy.
pub open spec fn carrier_after_delivery(carrier: Carrier, platform: Platform) -> Carrier {
    Carrier {
        completed_deliveries: (carrier.completed_deliveries + 1) as u32,
        reputation: raised_reputation(
            carrier.reputation,
            platform.reputation_increase,
            platform.reputation_policy,
        )->Some_0,
        ..carrier
    }
}

/// Completes the delivery of an in-transit package whose vault is funded for
/// `carrier`: the whole vault is split by `platform`'s fee rate, the package
/// is delivered, the vault released, and the carrier's count and reputation
/// raised. All checks come first; on any failure nothing changes. The result
/// is the payout that the caller moves, in the same atomic unit, from the
/// vault to the carrier and (where the fee is not zero) to the platform.
pub fn complete_delivery(
    package: &mut Package,
    carrier: &mut Carrier,
    platform: &Platform,
    escrow: &mut Escrow,
    now: i64,
) -> (r: Result<Payout, ErrorCode>)
    ensures
        r is Err <==> release_error(*old(package), *old(carrier), *platform, *old(escrow)) is Some,
        r is Err ==> r == Err::<Payout, ErrorCode>(
            release_error(*old(package), *old(carrier), *platform, *old(escrow))->Some_0,
        ) && *final(package) == *old(package) && *final(carrier) == *old(carrier)
            && *final(escrow) == *old(escrow),
        r is Ok ==> r->Ok_0 == split_of(old(escrow).amount, platform.fee_rate)->Some_0
            && *final(package) == old(package).delivered(now)
            && *final(carrier) == carrier_after_delivery(*old(carrier), *platform)
            && *final(escrow) == old(escrow).released(now),
        r is Ok ==> r->Ok_0.carrier_amount + r->Ok_0.platform_fee == old(escrow).amount,
        package_rank(old(package).status) <= package_rank(final(package).status),
        escrow_rank(old(escrow).status) <= escrow_rank(final(escrow).status),
        package_step(*old(package), *final(package)),
        escrow_step(*old(escrow), *final(escrow)),
        old(escrow).status == EscrowStatus::Released ==> r == Err::<Payout, ErrorCode>(
            ErrorCode::InvalidEscrowAccount,
        ),
{
    if escrow.status != EscrowStatus::Funded {
        return Err(ErrorCode::InvalidEscrowAccount);
    }
    if package.status != PackageStatus::InTransit {
        return Err(ErrorCode::InvalidPackageStatus);
    }
    if escrow.package != package.id || !escrow.carrier.is_assigned_to(carrier.authority) {
        return Err(ErrorCode::InvalidEscrowAccount);
    }
    let payout = split_payment(escrow.amount, platform.fee_rate)?;
    let completed = match carrier.completed_deliveries.checked_add(1) {
        Some(n) => n,
        None => return Err(ErrorCode::ArithmeticOverflow),
    };
    let reputation = match raise_reputation(
        carrier.reputation,
        platform.reputation_increase,
        platform.reputation_policy,
    ) {
        Some(v) => v,
        None => return Err(ErrorCode::ArithmeticOverflow),
    };
    package.status = PackageStatus::Delivered;
    package.delivered_at = now;
    carrier.completed_deliveries = completed;
    carrier.reputation = reputation;
    escrow.status = EscrowStatus::Released;
    escrow.released_at = now;
    Ok(payout)
}

} // verus!
