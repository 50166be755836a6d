//! Records, statuses, errors and the figures shared between contracts.

use crate::bytes::{Address, BytesN};
use vstd::prelude::*;

verus! {

/// Where an issuer stands in its life cycle.
#[derive(Clone, Copy, Debug, PartialEq, Eq, Structural)]
pub enum IssuerStatus {
    Active,
    Suspended,
    Revoked,
}

/// What the registry keeps of an issuer.
#[derive(Clone, Copy, Debug, PartialEq, Eq)]
pub struct IssuerRecord {
    pub issuer_id_hash: BytesN<32>,
    pub issuer_address: Address,
    pub metadata_hash: BytesN<32>,
    pub status: IssuerStatus,
    pub created_at: u64,
    pub updated_at: u64,
}

/// The answers that refuse a call on the contract as a whole.
#[derive(Clone, Copy, Debug, PartialEq, Eq, Structural)]
pub enum ContractError {
    /// The contract already has an administrator.
    AlreadyInitialized,
    /// The contract has no administrator yet.
    NotInitialized,
    /// The proposed administrator is not a valid principal.
    InvalidInput,
}

/// The answers that refuse a call on an issuer or on the issuer policy.
#[derive(Clone, Copy, Debug, PartialEq, Eq, Structural)]
pub enum IssuerError {
    /// No issuer has this id, or the contract has no administrator yet.
    IssuerNotFound,
    /// An issuer has this id already.
    IssuerAlreadyRegistered,
    /// An issuer has this address already.
    IssuerAddressAlreadyRegistered,
    /// No issuer has this address.
    IssuerAddressNotFound,
    /// The issuer has been revoked.
    IssuerRevoked,
    /// The address is not a valid principal, or is the one in use.
    InvalidAddress,
    /// A revoked issuer cannot take another status.
    InvalidTransition,
    /// As many issuers are active as the policy allows.
    IssuerCapacityExceeded,
    /// The issuer was suspended too recently.
    ReactivationCooldownActive,
    /// The proposed bound lies below the number of active issuers.
    MaxBelowActiveUsage,
}

/// The version of the interface that the contract offers to its consumers.
#[derive(Clone, Copy, Debug, PartialEq, Eq, Structural)]
pub struct InterfaceVersion {
    pub major: u32,
}

/// How the lifetime of a ledger entry is extended: an entry with fewer than
/// `threshold` ledgers left to live gets `extend_to` ledgers.
#[derive(Clone, Copy, Debug, PartialEq, Eq, Structural)]
pub struct TtlPolicy {
    pub threshold: u32,
    pub extend_to: u32,
}

/// The figures that all contracts of a deployment have in common.
#[derive(Clone, Copy, Debug, PartialEq, Eq, Structural)]
pub struct Parameters {
    pub interface_version: InterfaceVersion,
    pub ttl: TtlPolicy,
}

} // verus!
