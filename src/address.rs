//! Deterministic record addresses: each record lives at the program address
//! derived from a fixed domain tag and the identity that owns it, so one owner
//! always resolves to the same record and no two owners share one.
use vstd::prelude::*;

use crate::error::ErrorCode;
use crate::identity::Identity;

verus! {

/// The program address and bump seed derived from `seeds` under `program_id`,
/// or none where no bump seed gives one.
pub uninterp spec fn program_address_of(seeds: Seq<Seq<u8>>, program_id: Seq<u8>) -> Option<
    (Seq<u8>, u8),
>;

/// An address and bump seed, seen as bytes.
pub open spec fn address_view(a: Option<(Identity, u8)>) -> Option<(Seq<u8>, u8)> {
    match a {
        Some((id, bump)) => Some((id@, bump)),
        None => None,
    }
}

/// Relies on `Pubkey::try_find_program_address` of solana_program (as
/// re-exported by anchor_lang): the off-curve address found for the seeds with
/// the highest bump seed that gives one, a function of the seeds and the
/// program id alone.
#[verifier::external_body]
fn try_find_program_address(seeds: &Vec<Vec<u8>>, program_id: &Identity) -> (r: Option<
    (Identity, u8),
>)
    ensures
        address_view(r) == program_address_of(
            seeds@.map_values(|s: Vec<u8>| s@),
            program_id@,
        ),
{
    let parts: Vec<&[u8]> = seeds.iter().map(|s| s.as_slice()).collect();
    let program = anchor_lang::solana_program::pubkey::Pubkey::new_from_array(program_id.bytes);
    anchor_lang::solana_program::pubkey::Pubkey::try_find_program_address(&parts, &program).map(
        |(a, bump)| (Identity { bytes: a.to_bytes() }, bump),
    )
}

/// The domain tag of the platform record: the ASCII bytes of "platform".
pub open spec fn platform_tag() -> Seq<u8> {
    seq![112u8, 108u8, 97u8, 116u8, 102u8, 111u8, 114u8, 109u8]
}

/// The domain tag of carrier records: the ASCII bytes of "carrier".
pub open spec fn carrier_tag() -> Seq<u8> {
    seq![99u8, 97u8, 114u8, 114u8, 105u8, 101u8, 114u8]
}

/// The domain tag of package records: the ASCII bytes of "package".
pub open spec fn package_tag() -> Seq<u8> {
    seq![112u8, 97u8, 99u8, 107u8, 97u8, 103u8, 101u8]
}

/// The domain tag of escrow vaults: the ASCII bytes of "escrow".
pub open spec fn escrow_tag() -> Seq<u8> {
    seq![101u8, 115u8, 99u8, 114u8, 111u8, 119u8]
}

fn platform_tag_bytes() -> (r: Vec<u8>)
    ensures
        r@ == platform_tag(),
{
    let r: Vec<u8> = vec![112u8, 108u8, 97u8, 116u8, 102u8, 111u8, 114u8, 109u8];
    assert(r@ =~= platform_tag());
    r
}

fn carrier_tag_bytes() -> (r: Vec<u8>)
    ensures
        r@ == carrier_tag(),
{
    let r: Vec<u8> = vec![99u8, 97u8, 114u8, 114u8, 105u8, 101u8, 114u8];
    assert(r@ =~= carrier_tag());
    r
}

fn package_tag_bytes() -> (r: Vec<u8>)
    ensures
        r@ == package_tag(),
{
    let r: Vec<u8> = vec![112u8, 97u8, 99u8, 107u8, 97u8, 103u8, 101u8];
    assert(r@ =~= package_tag());
    r
}

fn escrow_tag_bytes() -> (r: Vec<u8>)
    ensures
        r@ == escrow_tag(),
{
    let r: Vec<u8> = vec![101u8, 115u8, 99u8, 114u8, 111u8, 119u8];
    assert(r@ =~= escrow_tag());
    r
}

fn identity_seed(id: &Identity) -> (r: Vec<u8>)
    ensures
        r@ == id@,
{
    let mut r: Vec<u8> = Vec::new();
    let mut i: usize = 0;
    while i < 32
        invariant
            i <= 32,
            r@ == id@.subrange(0, i as int),
        decreases 32 - i,
    {
        r.push(id.bytes[i]);
        i = i + 1;
    }
    assert(r@ =~= id@);
    r
}

/// The address of the platform record.
pub fn platform_address(program_id: &Identity) -> (r: Option<(Identity, u8)>)
    ensures
        address_view(r) == program_address_of(seq![platform_tag()], program_id@),
{
    let tag = platform_tag_bytes();
    let mut seeds: Vec<Vec<u8>> = Vec::new();
    seeds.push(tag);
    assert(seeds@.map_values(|s: Vec<u8>| s@) =~= seq![platform_tag()]);
    try_find_program_address(&seeds, program_id)
}

/// The address of the carrier record of `authority`.
pub fn carrier_address(program_id: &Identity, authority: &Identity) -> (r: Option<(Identity, u8)>)
    ensures
        address_view(r) == program_address_of(seq![carrier_tag(), authority@], program_id@),
{
    let tag = carrier_tag_bytes();
    let owner = identity_seed(authority);
    let mut seeds: Vec<Vec<u8>> = Vec::new();
    seeds.push(tag);
    seeds.push(owner);
    assert(seeds@.map_values(|s: Vec<u8>| s@) =~= seq![carrier_tag(), authority@]);
    try_find_program_address(&seeds, program_id)
}

/// The address of package `package_id` on the platform at `platform`.
pub fn package_address(program_id: &Identity, platform: &Identity, package_id: u8) -> (r: Option<
    (Identity, u8),
>)
    ensures
        address_view(r) == program_address_of(
            seq![package_tag(), platform@, seq![package_id]],
            program_id@,
        ),
{
    let tag = package_tag_bytes();
    let owner = identity_seed(platform);
    let id: Vec<u8> = vec![package_id];
    let mut seeds: Vec<Vec<u8>> = Vec::new();
    seeds.push(tag);
    seeds.push(owner);
    seeds.push(id);
    assert(id@ =~= seq![package_id]);
    assert(seeds@.map_values(|s: Vec<u8>| s@) =~= seq![package_tag(), platform@, seq![package_id]]);
    try_find_program_address(&seeds, program_id)
}

/// The address of the escrow vault of the package at `package`.
pub fn escrow_address(program_id: &Identity, package: &Identity) -> (r: Option<(Identity, u8)>)
    ensures
        address_view(r) == program_address_of(seq![escrow_tag(), package@], program_id@),
{
    let tag = escrow_tag_bytes();
    let owner = identity_seed(package);
    let mut seeds: Vec<Vec<u8>> = Vec::new();
    seeds.push(tag);
    seeds.push(owner);
    assert(seeds@.map_values(|s: Vec<u8>| s@) =~= seq![escrow_tag(), package@]);
    try_find_program_address(&seeds, program_id)
}

/// Checks that `escrow` is the vault of the package at `package`, and gives
/// its bump seed; anything else is an `InvalidEscrowAccount`.
pub fn check_escrow_account(program_id: &Identity, package: &Identity, escrow: &Identity) -> (r:
    Result<u8, ErrorCode>)
    ensures
        match program_address_of(seq![escrow_tag(), package@], program_id@) {
            Some((a, bump)) => if a == escrow@ {
                r == Ok::<u8, ErrorCode>(bump)
            } else {
                r == Err::<u8, ErrorCode>(ErrorCode::InvalidEscrowAccount)
            },
            None => r == Err::<u8, ErrorCode>(ErrorCode::InvalidEscrowAccount),
        },
{
    match escrow_address(program_id, package) {
        Some((a, bump)) => {
            proof {
                Identity::lemma_view_injective(a, *escrow);
            }
            if a == *escrow {
                Ok(bump)
            } else {
                Err(ErrorCode::InvalidEscrowAccount)
            }
        },
        None => Err(ErrorCode::InvalidEscrowAccount),
    }
}

/// Checks that `carrier` is the carrier record of `authority`, and gives its
/// bump seed; anything else is `Unauthorized`.
pub fn check_carrier_account(program_id: &Identity, authority: &Identity, carrier: &Identity) -> (r:
    Result<u8, ErrorCode>)
    ensures
        match program_address_of(seq![carrier_tag(), authority@], program_id@) {
            Some((a, bump)) => if a == carrier@ {
                r == Ok::<u8, ErrorCode>(bump)
            } else {
                r == Err::<u8, ErrorCode>(ErrorCode::Unauthorized)
            },
            None => r == Err::<u8, ErrorCode>(ErrorCode::Unauthorized),
        },
{
    match carrier_address(program_id, authority) {
        Some((a, bump)) => {
            proof {
                Identity::lemma_view_injective(a, *carrier);
            }
            if a == *carrier {
                Ok(bump)
            } else {
                Err(ErrorCode::Unauthorized)
            }
        },
        None => Err(ErrorCode::Unauthorized),
    }
}

} // verus!
