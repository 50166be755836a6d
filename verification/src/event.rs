//! The events that the registry publishes.

use crate::bytes::{Address, BytesN};
use vstd::prelude::*;

verus! {

/// A WASM hash was put on the upgrade allowlist.
#[derive(Clone, Copy, Debug, PartialEq, Eq)]
pub struct UpgradeAllowlisted {
    pub wasm_hash: BytesN<32>,
    pub new_contract_version: u32,
    pub approved_by: Address,
}

/// A WASM hash was taken off the allowlist without being applied.
#[derive(Clone, Copy, Debug, PartialEq, Eq)]
pub struct UpgradeRevoked {
    pub wasm_hash: BytesN<32>,
    pub revoked_by: Address,
}

/// A WASM upgrade was applied.
#[derive(Clone, Copy, Debug, PartialEq, Eq)]
pub struct ContractUpgraded {
    pub new_wasm_hash: BytesN<32>,
    pub old_contract_version: u32,
    pub new_contract_version: u32,
    pub upgraded_by: Address,
}

/// An issuer was registered. Like every event of an issuer's life cycle it
/// carries the registry epoch after the change, so that an indexer can order
/// the events and notice a gap.
#[derive(Clone, Copy, Debug, PartialEq, Eq)]
pub struct IssuerRegistered {
    pub issuer_id_hash: BytesN<32>,
    pub issuer_address: Address,
    pub metadata_hash: BytesN<32>,
    pub created_at: u64,
    pub epoch: u64,
}

/// An issuer's public metadata hash was replaced.
#[derive(Clone, Copy, Debug, PartialEq, Eq)]
pub struct IssuerMetadataUpdated {
    pub issuer_id_hash: BytesN<32>,
    pub metadata_hash: BytesN<32>,
    pub updated_at: u64,
    pub epoch: u64,
}

/// An issuer was suspended.
#[derive(Clone, Copy, Debug, PartialEq, Eq)]
pub struct IssuerSuspended {
    pub issuer_id_hash: BytesN<32>,
    pub updated_at: u64,
    pub epoch: u64,
}

/// An issuer was reactivated.
#[derive(Clone, Copy, Debug, PartialEq, Eq)]
pub struct IssuerReactivated {
    pub issuer_id_hash: BytesN<32>,
    pub updated_at: u64,
    pub epoch: u64,
}

/// An issuer was revoked for good.
#[derive(Clone, Copy, Debug, PartialEq, Eq)]
pub struct IssuerRevoked {
    pub issuer_id_hash: BytesN<32>,
    pub updated_at: u64,
    pub epoch: u64,
}

/// An issuer's wallet address was replaced. Both addresses are there, so that
/// an indexer can follow without reading the ledger.
#[derive(Clone, Copy, Debug, PartialEq, Eq)]
pub struct IssuerAddressRotated {
    pub issuer_id_hash: BytesN<32>,
    pub old_address: Address,
    pub new_address: Address,
    pub updated_at: u64,
    pub epoch: u64,
}

/// The bound on the number of active issuers was changed.
#[derive(Clone, Copy, Debug, PartialEq, Eq)]
pub struct MaxActiveIssuersChanged {
    pub new_max: u32,
    pub active_count: u32,
    pub changed_by: Address,
}

/// The reactivation cooldown was changed.
#[derive(Clone, Copy, Debug, PartialEq, Eq)]
pub struct ReactivationCooldownChanged {
    pub new_cooldown_seconds: u64,
    pub changed_by: Address,
}

/// Any event of the registry.
#[derive(Clone, Copy, Debug, PartialEq, Eq)]
pub enum Event {
    UpgradeAllowlisted(UpgradeAllowlisted),
    UpgradeRevoked(UpgradeRevoked),
    ContractUpgraded(ContractUpgraded),
    IssuerRegistered(IssuerRegistered),
    IssuerMetadataUpdated(IssuerMetadataUpdated),
    IssuerSuspended(IssuerSuspended),
    IssuerReactivated(IssuerReactivated),
    IssuerRevoked(IssuerRevoked),
    IssuerAddressRotated(IssuerAddressRotated),
    MaxActiveIssuersChanged(MaxActiveIssuersChanged),
    ReactivationCooldownChanged(ReactivationCooldownChanged),
}

} // verus!
