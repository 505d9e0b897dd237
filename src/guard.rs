//! Who may invoke which transition, and which records must agree with each
//! other. Every check here runs before any record is changed.
use vstd::prelude::*;
use crate::key::Key;
use crate::error::ErrorCode;
use crate::address::{check_record_address, is_plan_address, is_subscription_address, PLAN_SEED, SUBSCRIPTION_SEED};

verus! {

/// A token account as the engine sees it: its address, the currency (mint)
/// it holds and the principal that controls it.
#[derive(Clone, Copy, Debug)]
pub struct TokenAccount {
    pub address: Key,
    pub mint: Key,
    pub owner: Key,
}

/// The outcome of the checks on the two accounts of a charge: the funding
/// account is controlled by the subscriber and holds the same currency as
/// the receiving account, which is controlled by the plan's creator.
pub open spec fn token_accounts_check(
    subscriber: Key,
    creator: Key,
    from: TokenAccount,
    to: TokenAccount,
) -> Result<(), ErrorCode> {
    if from.owner@ != subscriber@ {
        Err(ErrorCode::InvalidTokenAccountOwner)
    } else if from.mint@ != to.mint@ {
        Err(ErrorCode::MintMismatch)
    } else if to.owner@ != creator@ {
        Err(ErrorCode::InvalidTokenAccountOwner)
    } else {
        Ok(())
    }
}

pub fn check_token_accounts(subscriber: &Key, creator: &Key, from: &TokenAccount, to: &TokenAccount)
    -> (r: Result<(), ErrorCode>)
    ensures
        r == token_accounts_check(*subscriber, *creator, *from, *to),
{
    if !(from.owner == *subscriber) {
        return Err(ErrorCode::InvalidTokenAccountOwner);
    }
    if !(from.mint == to.mint) {
        return Err(ErrorCode::MintMismatch);
    }
    if !(to.owner == *creator) {
        return Err(ErrorCode::InvalidTokenAccountOwner);
    }
    Ok(())
}

/// The outcome of the checks that let `signer` administer the plan stored
/// at `address`: the address is the plan's, derived from its stored
/// creator, and the signer is that creator.
pub open spec fn plan_authority_check(
    address: Key,
    plan_creator: Key,
    plan_bump: u8,
    signer: Key,
    plan_id: u64,
    program_id: Key,
) -> Result<(), ErrorCode> {
    if !is_plan_address(address, plan_creator, plan_id, plan_bump, program_id) {
        Err(ErrorCode::AddressMismatch)
    } else if plan_creator@ != signer@ {
        Err(ErrorCode::InvalidCreator)
    } else {
        Ok(())
    }
}

pub fn check_plan_authority(
    address: &Key,
    plan_creator: &Key,
    plan_bump: u8,
    signer: &Key,
    plan_id: u64,
    program_id: &Key,
) -> (r: Result<(), ErrorCode>)
    ensures
        r == plan_authority_check(*address, *plan_creator, plan_bump, *signer, plan_id, *program_id),
{
    check_plan_address(address, plan_creator, plan_id, plan_bump, program_id)?;
    if !(*plan_creator == *signer) {
        return Err(ErrorCode::InvalidCreator);
    }
    Ok(())
}

/// Checks that `address` is the plan `plan_id` of `creator` with salt `bump`.
pub fn check_plan_address(address: &Key, creator: &Key, plan_id: u64, bump: u8, program_id: &Key)
    -> (r: Result<(), ErrorCode>)
    ensures
        r is Ok <==> is_plan_address(*address, *creator, plan_id, bump, *program_id),
        r is Err ==> r == Err::<(), ErrorCode>(ErrorCode::AddressMismatch),
{
    check_record_address(address, PLAN_SEED, creator, plan_id, bump, program_id)
}

/// Checks that `address` is the enrollment of `subscriber` in plan
/// `plan_id` with salt `bump`.
pub fn check_subscription_address(address: &Key, subscriber: &Key, plan_id: u64, bump: u8, program_id: &Key)
    -> (r: Result<(), ErrorCode>)
    ensures
        r is Ok <==> is_subscription_address(*address, *subscriber, plan_id, bump, *program_id),
        r is Err ==> r == Err::<(), ErrorCode>(ErrorCode::AddressMismatch),
{
    check_record_address(address, SUBSCRIPTION_SEED, subscriber, plan_id, bump, program_id)
}

} // verus!
