//! Models of the two ledger resources whose lifecycle rules this system owns.
//!
//! The issued asset's mint must accept exactly one supply issuance and then
//! no further one: the workflow revokes the mint authority right after
//! minting, and a later issuance attempt is rejected, which makes the supply
//! permanently fixed.  The ephemeral wrapped-asset account is created, used
//! and closed within a single workflow invocation: creating it twice, or
//! closing it while it does not exist, is rejected rather than silently
//! accepted.

use vstd::prelude::*;
use crate::account::Address;
use crate::DeployError;

verus! {

/// The issued asset's mint: its running supply and whether the authority
/// that could issue more has been revoked.
#[derive(Clone, Copy, PartialEq, Eq, Structural, Debug)]
pub struct MintModel {
    pub supply: u64,
    pub decimals: u8,
    pub mint_authority_revoked: bool,
}

/// Issues `amount` units of supply.  Rejected once the mint authority is
/// revoked: after revocation no call can ever raise the supply again.
pub fn issue_supply(m: &mut MintModel, amount: u64) -> (r: Result<(), DeployError>)
    requires
        old(m).supply + amount <= u64::MAX,
    ensures
        old(m).mint_authority_revoked ==> r == Err::<(), DeployError>(
            DeployError::MintAuthorityRevoked,
        ) && *final(m) == *old(m),
        !old(m).mint_authority_revoked ==> r is Ok && final(m).supply == old(m).supply + amount
            && final(m).decimals == old(m).decimals && !final(m).mint_authority_revoked,
{
    if m.mint_authority_revoked {
        Err(DeployError::MintAuthorityRevoked)
    } else {
        m.supply = m.supply + amount;
        Ok(())
    }
}

/// Revokes the mint authority, freezing the supply at its current value.
pub fn revoke_mint_authority(m: &mut MintModel)
    ensures
        final(m).supply == old(m).supply,
        final(m).decimals == old(m).decimals,
        final(m).mint_authority_revoked,
{
    m.mint_authority_revoked = true;
}

/// The transient wrapped-asset account a workflow creates, funds, uses and
/// closes within one atomic invocation.
#[derive(Clone, Copy, PartialEq, Eq, Structural, Debug)]
pub struct EphemeralAccount {
    pub addr: Address,
    pub exists: bool,
    pub lamports: u64,
}

/// Creates and funds the ephemeral account.  Creating one whose address is
/// already in use is rejected, not silently overwritten.
pub fn create_ephemeral_account(acct: &mut EphemeralAccount, lamports: u64) -> (r: Result<
    (),
    DeployError,
>)
    ensures
        old(acct).exists ==> r == Err::<(), DeployError>(DeployError::EphemeralAccountAlreadyExists)
            && *final(acct) == *old(acct),
        !old(acct).exists ==> r is Ok && final(acct).exists && final(acct).lamports == lamports
            && final(acct).addr == old(acct).addr,
{
    if acct.exists {
        Err(DeployError::EphemeralAccountAlreadyExists)
    } else {
        acct.exists = true;
        acct.lamports = lamports;
        Ok(())
    }
}

/// Closes the ephemeral account, refunding its whole balance — the rent
/// deposit plus any unspent wrapped amount — to the destination.  Closing an
/// account that does not exist is rejected, not silently accepted.
pub fn close_ephemeral_account(acct: &mut EphemeralAccount) -> (r: Result<u64, DeployError>)
    ensures
        !old(acct).exists ==> r == Err::<u64, DeployError>(DeployError::EphemeralAccountMissing)
            && *final(acct) == *old(acct),
        old(acct).exists ==> r == Ok::<u64, DeployError>(old(acct).lamports) && !final(acct).exists
            && final(acct).lamports == 0 && final(acct).addr == old(acct).addr,
{
    if acct.exists {
        let refund = acct.lamports;
        acct.exists = false;
        acct.lamports = 0;
        Ok(refund)
    } else {
        Err(DeployError::EphemeralAccountMissing)
    }
}

} // verus!
