//! What each call answers, what it leaves on the ledger and what it asks of the
//! host.
//!
//! For a call `x`, `x_refusal` is the error that it answers, if any; `x_state` is
//! what an accepted call leaves on the ledger, and `x_effects` what it asks of
//! the host.

use crate::bytes::{Address, BytesN};
use crate::env::{DataKey, Effect, Entry, EnvView, State};
use crate::event::{
    ContractUpgraded, Event, IssuerAddressRotated, IssuerMetadataUpdated, IssuerReactivated,
    IssuerRegistered, IssuerRevoked, IssuerSuspended, MaxActiveIssuersChanged,
    ReactivationCooldownChanged, UpgradeAllowlisted, UpgradeRevoked,
};
use crate::model::{ContractError, IssuerError, IssuerRecord, IssuerStatus};
use vstd::prelude::*;

verus! {

// ---------------------------------------------------------------------------
// Entries and their defaults
// ---------------------------------------------------------------------------

impl State {
    /// The registry epoch: 0 until it is first written.
    pub open spec fn epoch(self) -> u64 {
        match self.issuer_epoch {
            Some(epoch) => epoch,
            None => 0,
        }
    }

    /// The number of active issuers on record: 0 until it is first written.
    pub open spec fn active_count(self) -> u32 {
        match self.active_issuer_count {
            Some(count) => count,
            None => 0,
        }
    }

    /// The most issuers that may be active: unlimited until it is first written.
    pub open spec fn max_active(self) -> u32 {
        match self.max_active_issuers {
            Some(max) => max,
            None => u32::MAX,
        }
    }

    /// The reactivation cooldown: none until it is first written.
    pub open spec fn cooldown(self) -> u64 {
        match self.reactivation_cooldown {
            Some(seconds) => seconds,
            None => 0,
        }
    }

    /// The contract version: 0 until it is first written.
    pub open spec fn version(self) -> u32 {
        match self.contract_version {
            Some(version) => version,
            None => 0,
        }
    }

    /// The earliest time at which a suspended issuer may be reactivated: 0 where
    /// no cooldown is pending.
    pub open spec fn earliest_reactivation(self, id: BytesN<32>) -> u64 {
        match self.reactivatable_at.get(id) {
            Some(time) => time,
            None => 0,
        }
    }

    /// Whether one more issuer may become active.
    pub open spec fn has_capacity(self) -> bool {
        self.active_count() < self.max_active()
    }

    /// Whether an issuer is on record as active.
    pub open spec fn is_active(self, id: BytesN<32>) -> bool {
        self.issuers.contains_key(id) && self.issuers[id].status == IssuerStatus::Active
    }

    /// Whether an address belongs to an issuer on record as active.
    pub open spec fn is_active_address(self, address: Address) -> bool {
        self.address_issuers.contains_key(address) && self.is_active(self.address_issuers[address])
    }
}

/// The authorization that an administrator's call starts with.
pub open spec fn admin_demand(s: State) -> Seq<Effect> {
    match s.admin {
        Some(admin) => seq![Effect::RequireAuth(admin)],
        None => seq![],
    }
}

/// The last steps of every change of an issuer: the epoch advances by one and
/// `event` is published.
pub open spec fn epoch_effects(v: EnvView, event: Event) -> Seq<Effect> {
    seq![
        Effect::Put(Entry::IssuerEpoch((v.state.epoch() + 1) as u64)),
        Effect::ExtendInstanceTtl(v.parameters.ttl),
        Effect::Publish(event),
    ]
}

// ---------------------------------------------------------------------------
// Slots of the capacity
// ---------------------------------------------------------------------------

/// The count with one slot taken.
pub open spec fn reserved_count(s: State) -> u32 {
    (s.active_count() + 1) as u32
}

/// The ledger with one slot taken.
pub open spec fn reserve_state(s: State) -> State {
    State { active_issuer_count: Some(reserved_count(s)), ..s }
}

/// The count with one slot given back, which never goes below 0.
pub open spec fn released_count(s: State) -> u32 {
    if s.active_count() == 0 {
        0
    } else {
        (s.active_count() - 1) as u32
    }
}

/// The ledger with one slot given back.
pub open spec fn release_state(s: State) -> State {
    State { active_issuer_count: Some(released_count(s)), ..s }
}

// ---------------------------------------------------------------------------
// initialize, migrate
// ---------------------------------------------------------------------------

pub open spec fn initialize_refusal(s: State, valid_principal: bool) -> Option<ContractError> {
    if s.admin is Some {
        Some(ContractError::AlreadyInitialized)
    } else if !valid_principal {
        Some(ContractError::InvalidInput)
    } else {
        None
    }
}

pub open spec fn initialize_state(s: State, admin: Address) -> State {
    State {
        admin: Some(admin),
        contract_version: Some(1),
        issuer_epoch: Some(0),
        max_active_issuers: Some(u32::MAX),
        active_issuer_count: Some(0),
        reactivation_cooldown: Some(0),
        ..s
    }
}

pub open spec fn initialize_effects(v: EnvView, admin: Address) -> Seq<Effect> {
    seq![
        Effect::RequireAuth(admin),
        Effect::Put(Entry::Admin(admin)),
        Effect::Put(Entry::ContractVersion(1)),
        Effect::Put(Entry::IssuerEpoch(0)),
        Effect::Put(Entry::MaxActiveIssuers(u32::MAX)),
        Effect::Put(Entry::ActiveIssuerCount(0)),
        Effect::Put(Entry::ReactivationCooldown(0)),
        Effect::ExtendInstanceTtl(v.parameters.ttl),
    ]
}

pub open spec fn migrate_refusal(s: State) -> Option<IssuerError> {
    if s.admin is None {
        Some(IssuerError::IssuerNotFound)
    } else {
        None
    }
}

/// The entries that have a natural default are written where they are absent;
/// the count is written in any case.
pub open spec fn migrate_state(s: State, active_issuer_count: u32) -> State {
    State {
        issuer_epoch: Some(s.epoch()),
        max_active_issuers: Some(s.max_active()),
        reactivation_cooldown: Some(s.cooldown()),
        active_issuer_count: Some(active_issuer_count),
        ..s
    }
}

/// The write of `entry`, where the ledger does not have it yet.
pub open spec fn put_if(absent: bool, entry: Entry) -> Seq<Effect> {
    if absent {
        seq![Effect::Put(entry)]
    } else {
        seq![]
    }
}

pub open spec fn migrate_effects(v: EnvView, active_issuer_count: u32) -> Seq<Effect> {
    let s = v.state;
    admin_demand(s) + put_if(s.issuer_epoch is None, Entry::IssuerEpoch(0)) + put_if(
        s.max_active_issuers is None,
        Entry::MaxActiveIssuers(u32::MAX),
    ) + put_if(s.reactivation_cooldown is None, Entry::ReactivationCooldown(0)) + seq![
        Effect::Put(Entry::ActiveIssuerCount(active_issuer_count)),
        Effect::ExtendInstanceTtl(v.parameters.ttl),
    ]
}

// ---------------------------------------------------------------------------
// register_issuer
// ---------------------------------------------------------------------------

pub open spec fn register_refusal(
    s: State,
    id: BytesN<32>,
    address: Address,
    valid_principal: bool,
) -> Option<IssuerError> {
    if s.admin is None {
        Some(IssuerError::IssuerNotFound)
    } else if !valid_principal {
        Some(IssuerError::InvalidAddress)
    } else if s.issuers.contains_key(id) {
        Some(IssuerError::IssuerAlreadyRegistered)
    } else if s.address_issuers.contains_key(address) {
        Some(IssuerError::IssuerAddressAlreadyRegistered)
    } else if !s.has_capacity() {
        Some(IssuerError::IssuerCapacityExceeded)
    } else {
        None
    }
}

/// The record of an issuer registered at time `now`.
pub open spec fn new_record(
    id: BytesN<32>,
    address: Address,
    metadata: BytesN<32>,
    now: u64,
) -> IssuerRecord {
    IssuerRecord {
        issuer_id_hash: id,
        issuer_address: address,
        metadata_hash: metadata,
        status: IssuerStatus::Active,
        created_at: now,
        updated_at: now,
    }
}

pub open spec fn register_state(
    s: State,
    now: u64,
    id: BytesN<32>,
    address: Address,
    metadata: BytesN<32>,
) -> State {
    State {
        active_issuer_count: Some(reserved_count(s)),
        issuers: s.issuers.insert(id, new_record(id, address, metadata, now)),
        address_issuers: s.address_issuers.insert(address, id),
        issuer_epoch: Some((s.epoch() + 1) as u64),
        ..s
    }
}

/// What a registration asks for before it is accepted.
pub open spec fn register_demand(s: State, valid_principal: bool) -> Seq<Effect> {
    if valid_principal {
        admin_demand(s)
    } else {
        seq![]
    }
}

pub open spec fn register_effects(
    v: EnvView,
    id: BytesN<32>,
    address: Address,
    metadata: BytesN<32>,
) -> Seq<Effect> {
    let ttl = v.parameters.ttl;
    let now = v.timestamp;
    admin_demand(v.state) + seq![
        Effect::Put(Entry::ActiveIssuerCount(reserved_count(v.state))),
        Effect::ExtendInstanceTtl(ttl),
        Effect::Put(Entry::Issuer(id, new_record(id, address, metadata, now))),
        Effect::Put(Entry::AddressIssuer(address, id)),
        Effect::ExtendTtl(DataKey::Issuer(id), ttl),
        Effect::ExtendTtl(DataKey::AddressIssuer(address), ttl),
    ] + epoch_effects(
        v,
        Event::IssuerRegistered(
            IssuerRegistered {
                issuer_id_hash: id,
                issuer_address: address,
                metadata_hash: metadata,
                created_at: now,
                epoch: (v.state.epoch() + 1) as u64,
            },
        ),
    )
}

// ---------------------------------------------------------------------------
// update_issuer
// ---------------------------------------------------------------------------

pub open spec fn update_refusal(s: State, id: BytesN<32>) -> Option<IssuerError> {
    if s.admin is None || !s.issuers.contains_key(id) {
        Some(IssuerError::IssuerNotFound)
    } else if s.issuers[id].status == IssuerStatus::Revoked {
        Some(IssuerError::IssuerRevoked)
    } else {
        None
    }
}

/// `record` with another metadata hash, as of time `now`.
pub open spec fn with_metadata(
    record: IssuerRecord,
    metadata: BytesN<32>,
    now: u64,
) -> IssuerRecord {
    IssuerRecord { metadata_hash: metadata, updated_at: now, ..record }
}

pub open spec fn update_state(s: State, now: u64, id: BytesN<32>, metadata: BytesN<32>) -> State {
    State {
        issuers: s.issuers.insert(id, with_metadata(s.issuers[id], metadata, now)),
        issuer_epoch: Some((s.epoch() + 1) as u64),
        ..s
    }
}

pub open spec fn update_effects(v: EnvView, id: BytesN<32>, metadata: BytesN<32>) -> Seq<Effect> {
    admin_demand(v.state) + seq![
        Effect::Put(Entry::Issuer(id, with_metadata(v.state.issuers[id], metadata, v.timestamp))),
        Effect::ExtendTtl(DataKey::Issuer(id), v.parameters.ttl),
    ] + epoch_effects(
        v,
        Event::IssuerMetadataUpdated(
            IssuerMetadataUpdated {
                issuer_id_hash: id,
                metadata_hash: metadata,
                updated_at: v.timestamp,
                epoch: (v.state.epoch() + 1) as u64,
            },
        ),
    )
}

// ---------------------------------------------------------------------------
// suspend_issuer, reactivate_issuer, revoke_issuer
// ---------------------------------------------------------------------------

pub open spec fn status_refusal(
    s: State,
    now: u64,
    id: BytesN<32>,
    status: IssuerStatus,
) -> Option<IssuerError> {
    if s.admin is None || !s.issuers.contains_key(id) {
        Some(IssuerError::IssuerNotFound)
    } else {
        let previous = s.issuers[id].status;
        if previous == IssuerStatus::Revoked && status != IssuerStatus::Revoked {
            Some(IssuerError::InvalidTransition)
        } else if previous == IssuerStatus::Suspended && status == IssuerStatus::Active {
            if now < s.earliest_reactivation(id) {
                Some(IssuerError::ReactivationCooldownActive)
            } else if !s.has_capacity() {
                Some(IssuerError::IssuerCapacityExceeded)
            } else {
                None
            }
        } else {
            None
        }
    }
}

/// `record` with another status, as of time `now`.
pub open spec fn with_status(record: IssuerRecord, status: IssuerStatus, now: u64) -> IssuerRecord {
    IssuerRecord { status, updated_at: now, ..record }
}

/// The earliest reactivation after a suspension at time `now`, held at the end
/// of time where the sum would lie beyond it.
pub open spec fn reactivation_deadline(s: State, now: u64) -> u64 {
    if now + s.cooldown() > u64::MAX {
        u64::MAX
    } else {
        (now + s.cooldown()) as u64
    }
}

pub open spec fn status_state(
    s: State,
    now: u64,
    id: BytesN<32>,
    status: IssuerStatus,
) -> State {
    let previous = s.issuers[id].status;
    State {
        active_issuer_count: if previous == IssuerStatus::Active && status != IssuerStatus::Active {
            Some(released_count(s))
        } else if previous == IssuerStatus::Suspended && status == IssuerStatus::Active {
            Some(reserved_count(s))
        } else {
            s.active_issuer_count
        },
        reactivatable_at: if status == IssuerStatus::Suspended {
            s.reactivatable_at.insert(id, reactivation_deadline(s, now))
        } else if previous == IssuerStatus::Suspended {
            s.reactivatable_at.remove(id)
        } else {
            s.reactivatable_at
        },
        issuers: s.issuers.insert(id, with_status(s.issuers[id], status, now)),
        issuer_epoch: Some((s.epoch() + 1) as u64),
        ..s
    }
}

/// What a change of status asks for on account of the capacity and the
/// cooldown.
pub open spec fn transition_effects(
    v: EnvView,
    id: BytesN<32>,
    status: IssuerStatus,
) -> Seq<Effect> {
    let ttl = v.parameters.ttl;
    let release = seq![
        Effect::Put(Entry::ActiveIssuerCount(released_count(v.state))),
        Effect::ExtendInstanceTtl(ttl),
    ];
    let deadline = seq![
        Effect::Put(Entry::ReactivatableAt(id, reactivation_deadline(v.state, v.timestamp))),
        Effect::ExtendTtl(DataKey::ReactivatableAt(id), ttl),
    ];
    match (v.state.issuers[id].status, status) {
        (IssuerStatus::Active, IssuerStatus::Suspended) => release + deadline,
        (IssuerStatus::Active, IssuerStatus::Revoked) => release,
        (IssuerStatus::Suspended, IssuerStatus::Suspended) => deadline,
        (IssuerStatus::Suspended, IssuerStatus::Active) => seq![
            Effect::Put(Entry::ActiveIssuerCount(reserved_count(v.state))),
            Effect::ExtendInstanceTtl(ttl),
            Effect::Remove(DataKey::ReactivatableAt(id)),
        ],
        (IssuerStatus::Suspended, IssuerStatus::Revoked) => seq![
            Effect::Remove(DataKey::ReactivatableAt(id)),
        ],
        _ => seq![],
    }
}

/// The event that reports a change of status.
pub open spec fn status_event(
    id: BytesN<32>,
    status: IssuerStatus,
    now: u64,
    epoch: u64,
) -> Event {
    match status {
        IssuerStatus::Active => Event::IssuerReactivated(
            IssuerReactivated { issuer_id_hash: id, updated_at: now, epoch },
        ),
        IssuerStatus::Suspended => Event::IssuerSuspended(
            IssuerSuspended { issuer_id_hash: id, updated_at: now, epoch },
        ),
        IssuerStatus::Revoked => Event::IssuerRevoked(
            IssuerRevoked { issuer_id_hash: id, updated_at: now, epoch },
        ),
    }
}

pub open spec fn status_effects(v: EnvView, id: BytesN<32>, status: IssuerStatus) -> Seq<Effect> {
    admin_demand(v.state) + transition_effects(v, id, status) + seq![
        Effect::Put(Entry::Issuer(id, with_status(v.state.issuers[id], status, v.timestamp))),
        Effect::ExtendTtl(DataKey::Issuer(id), v.parameters.ttl),
    ] + epoch_effects(
        v,
        status_event(id, status, v.timestamp, (v.state.epoch() + 1) as u64),
    )
}

// ---------------------------------------------------------------------------
// rotate_issuer_address
// ---------------------------------------------------------------------------

pub open spec fn rotate_refusal(
    s: State,
    id: BytesN<32>,
    address: Address,
    valid_principal: bool,
) -> Option<IssuerError> {
    if s.admin is None {
        Some(IssuerError::IssuerNotFound)
    } else if !valid_principal {
        Some(IssuerError::InvalidAddress)
    } else if !s.issuers.contains_key(id) {
        Some(IssuerError::IssuerNotFound)
    } else if s.issuers[id].status == IssuerStatus::Revoked {
        Some(IssuerError::IssuerRevoked)
    } else if s.issuers[id].issuer_address == address {
        Some(IssuerError::InvalidAddress)
    } else if s.address_issuers.contains_key(address) {
        Some(IssuerError::IssuerAddressAlreadyRegistered)
    } else {
        None
    }
}

/// `record` with another address, as of time `now`.
pub open spec fn with_address(record: IssuerRecord, address: Address, now: u64) -> IssuerRecord {
    IssuerRecord { issuer_address: address, updated_at: now, ..record }
}

pub open spec fn rotate_state(s: State, now: u64, id: BytesN<32>, address: Address) -> State {
    State {
        issuers: s.issuers.insert(id, with_address(s.issuers[id], address, now)),
        address_issuers: s.address_issuers.remove(s.issuers[id].issuer_address).insert(address, id),
        issuer_epoch: Some((s.epoch() + 1) as u64),
        ..s
    }
}

pub open spec fn rotate_effects(v: EnvView, id: BytesN<32>, address: Address) -> Seq<Effect> {
    let ttl = v.parameters.ttl;
    let old_address = v.state.issuers[id].issuer_address;
    admin_demand(v.state) + seq![
        Effect::Remove(DataKey::AddressIssuer(old_address)),
        Effect::Put(Entry::Issuer(id, with_address(v.state.issuers[id], address, v.timestamp))),
        Effect::Put(Entry::AddressIssuer(address, id)),
        Effect::ExtendTtl(DataKey::Issuer(id), ttl),
        Effect::ExtendTtl(DataKey::AddressIssuer(address), ttl),
    ] + epoch_effects(
        v,
        Event::IssuerAddressRotated(
            IssuerAddressRotated {
                issuer_id_hash: id,
                old_address,
                new_address: address,
                updated_at: v.timestamp,
                epoch: (v.state.epoch() + 1) as u64,
            },
        ),
    )
}

// ---------------------------------------------------------------------------
// get_issuer, get_issuer_by_address
// ---------------------------------------------------------------------------

pub open spec fn issuer_answer(s: State, id: BytesN<32>) -> Result<IssuerRecord, IssuerError> {
    if s.issuers.contains_key(id) {
        Ok(s.issuers[id])
    } else {
        Err(IssuerError::IssuerNotFound)
    }
}

/// A record that is read gets a longer lifetime.
pub open spec fn issuer_effects(v: EnvView, id: BytesN<32>) -> Seq<Effect> {
    if v.state.issuers.contains_key(id) {
        seq![Effect::ExtendTtl(DataKey::Issuer(id), v.parameters.ttl)]
    } else {
        seq![]
    }
}

/// What a look at the status behind an address asks for.
pub open spec fn active_address_effects(v: EnvView, address: Address) -> Seq<Effect> {
    if v.state.address_issuers.contains_key(address) {
        issuer_effects(v, v.state.address_issuers[address])
    } else {
        seq![]
    }
}

pub open spec fn issuer_by_address_answer(s: State, address: Address) -> Result<
    IssuerRecord,
    IssuerError,
> {
    if s.address_issuers.contains_key(address) {
        issuer_answer(s, s.address_issuers[address])
    } else {
        Err(IssuerError::IssuerAddressNotFound)
    }
}

/// An address that leads to a record gets a longer lifetime; the record itself
/// does not.
pub open spec fn issuer_by_address_effects(v: EnvView, address: Address) -> Seq<Effect> {
    if issuer_by_address_answer(v.state, address) is Ok {
        seq![Effect::ExtendTtl(DataKey::AddressIssuer(address), v.parameters.ttl)]
    } else {
        seq![]
    }
}

// ---------------------------------------------------------------------------
// set_max_active_issuers, set_reactivation_cooldown
// ---------------------------------------------------------------------------

pub open spec fn set_max_refusal(
    s: State,
    new_max: u32,
    allow_below_usage: bool,
) -> Option<IssuerError> {
    if s.admin is None {
        Some(IssuerError::IssuerNotFound)
    } else if new_max < s.active_count() && !allow_below_usage {
        Some(IssuerError::MaxBelowActiveUsage)
    } else {
        None
    }
}

pub open spec fn set_max_state(s: State, new_max: u32) -> State {
    State { max_active_issuers: Some(new_max), ..s }
}

pub open spec fn set_max_effects(v: EnvView, new_max: u32) -> Seq<Effect> {
    admin_demand(v.state) + seq![
        Effect::Put(Entry::MaxActiveIssuers(new_max)),
        Effect::ExtendInstanceTtl(v.parameters.ttl),
        Effect::Publish(
            Event::MaxActiveIssuersChanged(
                MaxActiveIssuersChanged {
                    new_max,
                    active_count: v.state.active_count(),
                    changed_by: v.state.admin->0,
                },
            ),
        ),
    ]
}

pub open spec fn set_cooldown_refusal(s: State) -> Option<IssuerError> {
    if s.admin is None {
        Some(IssuerError::IssuerNotFound)
    } else {
        None
    }
}

pub open spec fn set_cooldown_state(s: State, cooldown_seconds: u64) -> State {
    State { reactivation_cooldown: Some(cooldown_seconds), ..s }
}

pub open spec fn set_cooldown_effects(v: EnvView, cooldown_seconds: u64) -> Seq<Effect> {
    admin_demand(v.state) + seq![
        Effect::Put(Entry::ReactivationCooldown(cooldown_seconds)),
        Effect::ExtendInstanceTtl(v.parameters.ttl),
        Effect::Publish(
            Event::ReactivationCooldownChanged(
                ReactivationCooldownChanged {
                    new_cooldown_seconds: cooldown_seconds,
                    changed_by: v.state.admin->0,
                },
            ),
        ),
    ]
}

// ---------------------------------------------------------------------------
// approve_upgrade, revoke_upgrade, upgrade_contract
// ---------------------------------------------------------------------------

/// Why a call stops the whole invocation instead of answering.
#[derive(Clone, Copy, Debug, PartialEq, Eq, Structural)]
pub enum Abort {
    /// The contract has no administrator yet.
    NotInitialized,
    /// The version to approve does not lie above the current one.
    VersionNotGreater,
    /// The WASM hash has not been approved.
    NotAllowlisted,
    /// The approved version no longer lies above the current one.
    VersionNotAdvanced,
    /// The registry epoch is at its maximum.
    EpochOverflow,
}

/// The text that an abort is reported with.
pub open spec fn abort_message(abort: Abort) -> Seq<char> {
    match abort {
        Abort::NotInitialized => "contract not initialized"@,
        Abort::VersionNotGreater => "new_version must be greater than current contract version"@,
        Abort::NotAllowlisted => "wasm hash not on allowlist"@,
        Abort::VersionNotAdvanced => "upgrade would not advance contract version"@,
        Abort::EpochOverflow => "issuer epoch overflow: reached maximum"@,
    }
}

/// A change of an issuer that nothing refuses aborts where the epoch cannot
/// advance.
pub open spec fn epoch_abort(s: State) -> Option<Abort> {
    if s.epoch() == u64::MAX {
        Some(Abort::EpochOverflow)
    } else {
        None
    }
}

pub open spec fn approve_abort(s: State, new_version: u32) -> Option<Abort> {
    if s.admin is None {
        Some(Abort::NotInitialized)
    } else if new_version <= s.version() {
        Some(Abort::VersionNotGreater)
    } else {
        None
    }
}

pub open spec fn approve_state(s: State, hash: BytesN<32>, new_version: u32) -> State {
    State { allowed_wasm: s.allowed_wasm.insert(hash, new_version), ..s }
}

pub open spec fn approve_effects(v: EnvView, hash: BytesN<32>, new_version: u32) -> Seq<Effect> {
    admin_demand(v.state) + seq![
        Effect::Put(Entry::AllowedWasm(hash, new_version)),
        Effect::ExtendInstanceTtl(v.parameters.ttl),
        Effect::Publish(
            Event::UpgradeAllowlisted(
                UpgradeAllowlisted {
                    wasm_hash: hash,
                    new_contract_version: new_version,
                    approved_by: v.state.admin->0,
                },
            ),
        ),
    ]
}

pub open spec fn withdraw_abort(s: State) -> Option<Abort> {
    if s.admin is None {
        Some(Abort::NotInitialized)
    } else {
        None
    }
}

pub open spec fn withdraw_state(s: State, hash: BytesN<32>) -> State {
    State { allowed_wasm: s.allowed_wasm.remove(hash), ..s }
}

pub open spec fn withdraw_effects(v: EnvView, hash: BytesN<32>) -> Seq<Effect> {
    admin_demand(v.state) + seq![
        Effect::Remove(DataKey::AllowedWasm(hash)),
        Effect::Publish(
            Event::UpgradeRevoked(
                UpgradeRevoked { wasm_hash: hash, revoked_by: v.state.admin->0 },
            ),
        ),
    ]
}

pub open spec fn upgrade_abort(s: State, hash: BytesN<32>) -> Option<Abort> {
    if s.admin is None {
        Some(Abort::NotInitialized)
    } else if !s.allowed_wasm.contains_key(hash) {
        Some(Abort::NotAllowlisted)
    } else if s.allowed_wasm[hash] <= s.version() {
        Some(Abort::VersionNotAdvanced)
    } else {
        None
    }
}

/// The allowlist entry is consumed and the version advances to the one that it
/// named.
pub open spec fn upgrade_state(s: State, hash: BytesN<32>) -> State {
    State {
        allowed_wasm: s.allowed_wasm.remove(hash),
        contract_version: Some(s.allowed_wasm[hash]),
        ..s
    }
}

pub open spec fn upgrade_effects(v: EnvView, hash: BytesN<32>) -> Seq<Effect> {
    admin_demand(v.state) + seq![
        Effect::Remove(DataKey::AllowedWasm(hash)),
        Effect::UpdateWasm(hash),
        Effect::Put(Entry::ContractVersion(v.state.allowed_wasm[hash])),
        Effect::ExtendInstanceTtl(v.parameters.ttl),
        Effect::Publish(
            Event::ContractUpgraded(
                ContractUpgraded {
                    new_wasm_hash: hash,
                    old_contract_version: v.state.version(),
                    new_contract_version: v.state.allowed_wasm[hash],
                    upgraded_by: v.state.admin->0,
                },
            ),
        ),
    ]
}

} // verus!
