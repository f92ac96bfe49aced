use vstd::prelude::*;

use crate::carrier::{Carrier, MIN_ACCEPT_REPUTATION};
use crate::error::ErrorCode;
use crate::identity::{Assignment, Identity};
use crate::platform::Platform;

verus! {

/// Where a package is in its delivery; it only ever moves forward.
#[derive(Clone, Copy, Debug, PartialEq, Eq, Structural)]
pub enum PackageStatus {
    /// Registered, not yet taken by a carrier.
    Registered,
    /// Taken by a carrier and on its way.
    InTransit,
    /// Delivered and paid out.
    Delivered,
}

/// The position of a package status along `Registered, InTransit, Delivered`.
pub open spec fn package_rank(s: PackageStatus) -> nat {
    match s {
        PackageStatus::Registered => 0,
        PackageStatus::InTransit => 1,
        PackageStatus::Delivered => 2,
    }
}

/// Length, width and height of a package.
#[derive(Clone, Copy, Debug, PartialEq, Eq, Structural)]
pub struct Dimensions {
    pub length: u32,
    pub width: u32,
    pub height: u32,
}

impl Dimensions {
    pub fn new(length: u32, width: u32, height: u32) -> (r: Dimensions)
        ensures
            r == (Dimensions { length, width, height }),
    {
        Dimensions { length, width, height }
    }

    pub open spec fn has_zero(self) -> bool {
        self.length == 0 || self.width == 0 || self.height == 0
    }
}

impl Default for Dimensions {
    fn default() -> (r: Dimensions)
        ensures
            r == (Dimensions { length: 0, width: 0, height: 0 }),
    {
        Dimensions { length: 0, width: 0, height: 0 }
    }
}

/// One package, from registration to delivery. A timestamp of zero is unset.
#[derive(Clone, Debug)]
pub struct Package {
    pub id: u64,
    pub sender: Identity,
    pub recipient: Identity,
    pub carrier: Assignment,
    pub description: String,
    pub weight: u32,
    pub dimensions: Dimensions,
    pub price: u64,
    pub status: PackageStatus,
    pub registered_at: i64,
    pub accepted_at: i64,
    pub delivered_at: i64,
}

impl Default for Package {
    /// An empty registered package: no parties, no contents, nothing set.
    fn default() -> (r: Package)
        ensures
            r.id == 0,
            r.sender@ == Seq::new(32, |i: int| 0u8),
            r.recipient@ == Seq::new(32, |i: int| 0u8),
            r.carrier == Assignment::Unassigned,
            r.description@ == Seq::<char>::empty(),
            r.weight == 0,
            r.dimensions == (Dimensions { length: 0, width: 0, height: 0 }),
            r.price == 0,
            r.status == PackageStatus::Registered,
            r.registered_at == 0,
            r.accepted_at == 0,
            r.delivered_at == 0,
    {
        Package {
            id: 0,
            sender: Identity::zero(),
            recipient: Identity::zero(),
            carrier: Assignment::Unassigned,
            description: String::new(),
            weight: 0,
            dimensions: Dimensions::default(),
            price: 0,
            status: PackageStatus::Registered,
            registered_at: 0,
            accepted_at: 0,
            delivered_at: 0,
        }
    }
}

impl Package {
    /// The package after `carrier` accepted it at `now`.
    pub open spec fn accepted(self, carrier: Identity, now: i64) -> Package {
        Package {
            carrier: Assignment::Assigned(carrier),
            status: PackageStatus::InTransit,
            accepted_at: now,
            ..self
        }
    }

    /// The package after it was delivered at `now`.
    pub open spec fn delivered(self, now: i64) -> Package {
        Package { status: PackageStatus::Delivered, delivered_at: now, ..self }
    }
}

/// Whether `after` is `before` unchanged, or what one forward transition
/// (acceptance from `Registered`, delivery from `InTransit`) makes of it.
pub open spec fn package_step(before: Package, after: Package) -> bool {
    ||| after == before
    ||| before.status == PackageStatus::Registered && exists|c: Identity, now: i64|
        after == #[trigger] before.accepted(c, now)
    ||| before.status == PackageStatus::InTransit && exists|now: i64|
        after == #[trigger] before.delivered(now)
}

/// The error `register_package` fails with, if any.
pub open spec fn registration_error(platform: Platform, dimensions: Dimensions, price: u64) -> Option<
    ErrorCode,
> {
    if dimensions.has_zero() {
        Some(ErrorCode::InvalidDimensions)
    } else if price == 0 {
        Some(ErrorCode::InvalidPrice)
    } else if platform.total_packages == u64::MAX {
        Some(ErrorCode::ArithmeticOverflow)
    } else {
        None
    }
}

/// Registers a package of `sender` at `now` and counts it on the platform.
/// A zero dimension or a zero price is refused.
pub fn register_package(
    platform: &mut Platform,
    sender: Identity,
    recipient: Identity,
    description: String,
    weight: u32,
    dimensions: Dimensions,
    price: u64,
    package_id: u64,
    now: i64,
) -> (r: Result<Package, ErrorCode>)
    ensures
        r is Err <==> registration_error(*old(platform), dimensions, price) is Some,
        r is Err ==> r == Err::<Package, ErrorCode>(
            registration_error(*old(platform), dimensions, price)->Some_0,
        ) && *final(platform) == *old(platform),
        r is Ok ==> *final(platform) == old(platform).after_registration() && r->Ok_0 == (Package {
            id: package_id,
            sender,
            recipient,
            carrier: Assignment::Unassigned,
            description,
            weight,
            dimensions,
            price,
            status: PackageStatus::Registered,
            registered_at: now,
            accepted_at: 0,
            delivered_at: 0,
        }),
{
    if dimensions.length == 0 || dimensions.width == 0 || dimensions.height == 0 {
        return Err(ErrorCode::InvalidDimensions);
    }
    if price == 0 {
        return Err(ErrorCode::InvalidPrice);
    }
    platform.record_registration()?;
    Ok(
        Package {
            id: package_id,
            sender,
            recipient,
            carrier: Assignment::Unassigned,
            description,
            weight,
            dimensions,
            price,
            status: PackageStatus::Registered,
            registered_at: now,
            accepted_at: 0,
            delivered_at: 0,
        },
    )
}

/// The error `accept_delivery` fails with, if any.
pub open spec fn acceptance_error(package: Package, carrier: Carrier, signer: Identity) -> Option<
    ErrorCode,
> {
    if signer != carrier.authority {
        Some(ErrorCode::Unauthorized)
    } else if package.status != PackageStatus::Registered {
        Some(ErrorCode::InvalidPackageStatus)
    } else if carrier.reputation < MIN_ACCEPT_REPUTATION {
        Some(ErrorCode::InsufficientReputation)
    } else {
        None
    }
}

/// The carrier signed by `signer` takes a registered package at `now`; its
/// reputation must be at least 50.
pub fn accept_delivery(package: &mut Package, carrier: &Carrier, signer: Identity, now: i64) -> (r:
    Result<(), ErrorCode>)
    ensures
        r is Err <==> acceptance_error(*old(package), *carrier, signer) is Some,
        r is Err ==> r == Err::<(), ErrorCode>(
            acceptance_error(*old(package), *carrier, signer)->Some_0,
        ) && *final(package) == *old(package),
        r is Ok ==> *final(package) == old(package).accepted(carrier.authority, now),
        package_rank(old(package).status) <= package_rank(final(package).status),
        package_step(*old(package), *final(package)),
{
    if signer != carrier.authority {
        return Err(ErrorCode::Unauthorized);
    }
    if package.status != PackageStatus::Registered {
        return Err(ErrorCode::InvalidPackageStatus);
    }
    if carrier.reputation < MIN_ACCEPT_REPUTATION {
        return Err(ErrorCode::InsufficientReputation);
    }
    package.carrier = Assignment::Assigned(carrier.authority);
    package.status = PackageStatus::InTransit;
    package.accepted_at = now;
    Ok(())
}

} // verus!
