//! Verified core of a fungible-asset deployer: it issues an asset, provisions
//! a concentrated-liquidity pool for it on an external exchange program, and
//! lets a fixed operator harvest the pool's accrued trading fees.
//!
//! The library holds the logic that must be byte- and position-exact: the
//! encoders that lay out each instruction payload, the composer that builds
//! the ordered, flagged account-reference lists the external program expects,
//! the derivation of the no-secret signing authority, and the workflow plans
//! with their financial invariant.  Dispatching the built instructions to the
//! ledger is left to the unverified shell around this crate.

use vstd::prelude::*;

pub mod account;
pub mod authority;
pub mod clmm;
pub mod encode;
pub mod ledger;
pub mod workflow;

verus! {

/// Byte size of a wrapped-asset holder account on the ledger.
pub const TOKEN_ACCOUNT_SPACE: u64 = 165;

/// Share of the issued supply, in whole percent, that must end up in the pool.
pub const MIN_LIQUIDITY_PCT_OF_SUPPLY: u64 = 95;

/// Flat operator fee, in lamports, charged by the provisioning workflow.
pub const FEE_LAMPORTS: u64 = 400_000_000;

/// Decimal precision the issued asset is created with.
pub const TOKEN_DECIMALS: u8 = 6;

/// Why a workflow invocation is rejected.  Every error aborts the whole
/// enclosing invocation; the surrounding transaction's atomicity discards all
/// earlier effects, so no partial state survives a rejection.
#[derive(Clone, Copy, PartialEq, Eq, Structural, Debug)]
pub enum DeployError {
    /// The caller-supplied remaining-accounts list cannot be read as an
    /// optional leading bitmap entry followed by whole reward triples.
    MalformedRemainingAccounts,
    /// The provisioning workflow moved less of the issued supply into the
    /// pool than the required minimum share.
    InsufficientLiquidityProvided,
    /// A fee harvest was requested by an address other than the fixed operator.
    UnauthorizedHarvester,
    /// A supply issuance was requested after the mint authority was revoked.
    MintAuthorityRevoked,
    /// An ephemeral wrapped-asset account was created twice in one workflow.
    EphemeralAccountAlreadyExists,
    /// An ephemeral wrapped-asset account was closed while not open.
    EphemeralAccountMissing,
    /// No viable derivation salt exists for the signing authority.
    NoViableAuthorityBump,
}

} // verus!
