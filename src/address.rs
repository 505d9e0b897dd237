//! Deterministic record addresses: each record lives at an address derived
//! from a domain tag, the identifier of the principal that owns it and a
//! numeric id, under the engine's program identifier. The salt (bump) that
//! makes the derivation valid is stored in the record and checked again on
//! every later access.
use vstd::prelude::*;
use vstd::bytes::spec_u64_to_le_bytes;
use vstd::string::StringSliceAdditionalSpecFns;
use anchor_lang::solana_program::pubkey::Pubkey;
use crate::key::Key;
use crate::error::ErrorCode;

verus! {

/// The domain tag of plan records.
pub const PLAN_SEED: &'static str = "subscription_plan";

/// The domain tag of subscription records.
pub const SUBSCRIPTION_SEED: &'static str = "subscription";

pub open spec fn plan_tag() -> Seq<u8> {
    PLAN_SEED.spec_bytes()
}

pub open spec fn subscription_tag() -> Seq<u8> {
    SUBSCRIPTION_SEED.spec_bytes()
}

pub open spec fn seeds_view(seeds: Seq<Vec<u8>>) -> Seq<Seq<u8>> {
    seeds.map_values(|s: Vec<u8>| s@)
}

/// The seeds of a record: its domain tag, its owner's identifier and its id
/// in little-endian order.
pub open spec fn record_seeds(tag: Seq<u8>, owner: Seq<u8>, id: u64) -> Seq<Seq<u8>> {
    seq![tag, owner, spec_u64_to_le_bytes(id)]
}

pub open spec fn with_bump(seeds: Seq<Seq<u8>>, bump: u8) -> Seq<Seq<u8>> {
    seeds.push(seq![bump])
}

/// The address that a list of seeds gives under a program identifier, or
/// `None` where these seeds give no valid address.
pub uninterp spec fn program_address_of(seeds: Seq<Seq<u8>>, program_id: Seq<u8>) -> Option<Seq<u8>>;

pub open spec fn key_option_view(r: Option<Key>) -> Option<Seq<u8>> {
    match r {
        Some(k) => Some(k@),
        None => None,
    }
}

/// `address` and `bump` are what the search for a derived address yields:
/// the largest bump from 1 up that gives a valid address, and that address.
pub open spec fn is_found_address(seeds: Seq<Seq<u8>>, program_id: Seq<u8>, address: Seq<u8>, bump: u8) -> bool {
    &&& 1 <= bump
    &&& program_address_of(with_bump(seeds, bump), program_id) == Some(address)
    &&& forall|c: u8| bump < c ==> (#[trigger] program_address_of(with_bump(seeds, c), program_id)) is None
}

/// No bump from 1 up gives a valid address for these seeds.
pub open spec fn has_no_address(seeds: Seq<Seq<u8>>, program_id: Seq<u8>) -> bool {
    forall|c: u8| 1 <= c ==> (#[trigger] program_address_of(with_bump(seeds, c), program_id)) is None
}

/// Relies on `Pubkey::create_program_address`: the address that the seeds
/// give under the program identifier, or an error where they give none.
#[verifier::external_body]
fn create_program_address(seeds: &Vec<Vec<u8>>, program_id: &Key) -> (r: Option<Key>)
    ensures
        key_option_view(r) == program_address_of(seeds_view(seeds@), program_id@),
{
    let s: Vec<&[u8]> = seeds.iter().map(|v| v.as_slice()).collect();
    let program = Pubkey::new_from_array(program_id.bytes);
    Pubkey::create_program_address(&s, &program).ok().map(|k| Key { bytes: k.to_bytes() })
}

/// Relies on `Pubkey::try_find_program_address`: it tries the bumps from 255
/// down to 1, appending each as a last one-byte seed, and returns the first
/// address that `create_program_address` accepts, or `None`.
#[verifier::external_body]
fn try_find_program_address(seeds: &Vec<Vec<u8>>, program_id: &Key) -> (r: Option<(Key, u8)>)
    ensures
        match r {
            Some((k, b)) => is_found_address(seeds_view(seeds@), program_id@, k@, b),
            None => has_no_address(seeds_view(seeds@), program_id@),
        },
{
    let s: Vec<&[u8]> = seeds.iter().map(|v| v.as_slice()).collect();
    let program = Pubkey::new_from_array(program_id.bytes);
    Pubkey::try_find_program_address(&s, &program).map(|(k, b)| (Key { bytes: k.to_bytes() }, b))
}

fn tag_bytes(tag: &str) -> (r: Vec<u8>)
    ensures
        r@ == tag.spec_bytes(),
{
    vstd::slice::slice_to_vec(tag.as_bytes())
}

/// The seeds of a record as byte vectors.
fn make_seeds(tag: &str, owner: &Key, id: u64) -> (r: Vec<Vec<u8>>)
    ensures
        seeds_view(r@) == record_seeds(tag.spec_bytes(), owner@, id),
{
    let mut r: Vec<Vec<u8>> = Vec::new();
    r.push(tag_bytes(tag));
    r.push(vstd::slice::slice_to_vec(vstd::array::array_as_slice(&owner.bytes)));
    r.push(vstd::bytes::u64_to_le_bytes(id));
    assert(seeds_view(r@) =~= record_seeds(tag.spec_bytes(), owner@, id));
    r
}

/// Searches the address and bump of the record with the given tag, owner
/// and id.
pub fn find_record_address(tag: &str, owner: &Key, id: u64, program_id: &Key) -> (r: Option<(Key, u8)>)
    ensures
        match r {
            Some((k, b)) => is_found_address(record_seeds(tag.spec_bytes(), owner@, id), program_id@, k@, b),
            None => has_no_address(record_seeds(tag.spec_bytes(), owner@, id), program_id@),
        },
{
    let seeds = make_seeds(tag, owner, id);
    try_find_program_address(&seeds, program_id)
}

/// Checks that `address` is the record address that the tag, owner, id and
/// stored bump give.
pub fn check_record_address(address: &Key, tag: &str, owner: &Key, id: u64, bump: u8, program_id: &Key)
    -> (r: Result<(), ErrorCode>)
    ensures
        r is Ok <==> program_address_of(
            with_bump(record_seeds(tag.spec_bytes(), owner@, id), bump),
            program_id@,
        ) == Some(address@),
        r is Err ==> r == Err::<(), ErrorCode>(ErrorCode::AddressMismatch),
{
    let mut seeds = make_seeds(tag, owner, id);
    let mut b: Vec<u8> = Vec::new();
    b.push(bump);
    seeds.push(b);
    assert(seeds_view(seeds@) =~= with_bump(record_seeds(tag.spec_bytes(), owner@, id), bump));
    match create_program_address(&seeds, program_id) {
        Some(k) => {
            if k == *address {
                Ok(())
            } else {
                Err(ErrorCode::AddressMismatch)
            }
        },
        None => Err(ErrorCode::AddressMismatch),
    }
}

/// The search is deterministic: two searches on the same seeds and program
/// identifier that both succeed give the same address and the same bump.
pub proof fn lemma_found_address_unique(
    seeds: Seq<Seq<u8>>,
    program_id: Seq<u8>,
    a1: Seq<u8>,
    b1: u8,
    a2: Seq<u8>,
    b2: u8,
)
    requires
        is_found_address(seeds, program_id, a1, b1),
        is_found_address(seeds, program_id, a2, b2),
    ensures
        a1 == a2,
        b1 == b2,
{
    if b1 < b2 {
        assert(program_address_of(with_bump(seeds, b2), program_id) is None);
    } else if b2 < b1 {
        assert(program_address_of(with_bump(seeds, b1), program_id) is None);
    }
}

pub open spec fn plan_seeds(creator: Seq<u8>, plan_id: u64) -> Seq<Seq<u8>> {
    record_seeds(plan_tag(), creator, plan_id)
}

pub open spec fn subscription_seeds(subscriber: Seq<u8>, plan_id: u64) -> Seq<Seq<u8>> {
    record_seeds(subscription_tag(), subscriber, plan_id)
}

/// `address` is the address of the plan `plan_id` of `creator`, with the
/// stored salt `bump`.
pub open spec fn is_plan_address(address: Key, creator: Key, plan_id: u64, bump: u8, program_id: Key) -> bool {
    program_address_of(with_bump(plan_seeds(creator@, plan_id), bump), program_id@) == Some(address@)
}

/// `address` is the address of the enrollment of `subscriber` in plan
/// `plan_id`, with the stored salt `bump`.
pub open spec fn is_subscription_address(
    address: Key,
    subscriber: Key,
    plan_id: u64,
    bump: u8,
    program_id: Key,
) -> bool {
    program_address_of(with_bump(subscription_seeds(subscriber@, plan_id), bump), program_id@)
        == Some(address@)
}

/// `address` is the address that the search yields for these seeds, and
/// `bump` its salt.
pub open spec fn is_fresh_address(seeds: Seq<Seq<u8>>, program_id: Key, address: Key, bump: u8) -> bool {
    is_found_address(seeds, program_id@, address@, bump)
}

/// Checks the address presented for a new record: it must be the one that
/// the search yields for the record's seeds. Returns the salt to store.
pub fn check_new_record_address(address: &Key, tag: &str, owner: &Key, id: u64, program_id: &Key)
    -> (r: Result<u8, ErrorCode>)
    ensures
        match r {
            Ok(b) => is_fresh_address(record_seeds(tag.spec_bytes(), owner@, id), *program_id, *address, b),
            Err(e) => e == ErrorCode::AddressMismatch && forall|b: u8|
                !is_fresh_address(record_seeds(tag.spec_bytes(), owner@, id), *program_id, *address, b),
        },
{
    let ghost seeds = record_seeds(tag.spec_bytes(), owner@, id);
    match find_record_address(tag, owner, id, program_id) {
        Some((k, b)) => {
            if k == *address {
                Ok(b)
            } else {
                assert forall|c: u8| !is_fresh_address(seeds, *program_id, *address, c) by {
                    if is_fresh_address(seeds, *program_id, *address, c) {
                        lemma_found_address_unique(seeds, program_id@, k@, b, address@, c);
                    }
                }
                Err(ErrorCode::AddressMismatch)
            }
        },
        None => {
            assert forall|c: u8| !is_fresh_address(seeds, *program_id, *address, c) by {
                if is_fresh_address(seeds, *program_id, *address, c) {
                    assert(program_address_of(with_bump(seeds, c), program_id@) is None);
                }
            }
            Err(ErrorCode::AddressMismatch)
        },
    }
}

} // verus!
