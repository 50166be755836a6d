//! The calls of the contract.

use crate::bytes::{Address, BytesN, Key};
use crate::env::{DataKey, Effect, Entry, Env};
use crate::event::{
    ContractUpgraded, Event, IssuerAddressRotated, IssuerMetadataUpdated, IssuerReactivated,
    IssuerRegistered, IssuerRevoked, IssuerSuspended, MaxActiveIssuersChanged,
    ReactivationCooldownChanged, UpgradeAllowlisted, UpgradeRevoked,
};
use crate::laws::Call;
use crate::model::{ContractError, InterfaceVersion, IssuerError, IssuerRecord, IssuerStatus};
use crate::replay::Answer;
use vstd::prelude::*;

verus! {

/// The issuer registry.
pub struct IssuerRegistryContract;

impl IssuerRegistryContract {
    // ── set-up ──────────────────────────────────────────────────────────────

    /// Gives the contract its administrator, once. `valid_principal` says
    /// whether `admin` is an address that can act as a principal.
    ///
    /// The epoch and the count start at 0, the version at 1; the capacity is
    /// unlimited and there is no cooldown until an administrator sets them.
    pub fn initialize(env: &mut Env, admin: Address, valid_principal: bool) -> (result: Result<
        (),
        ContractError,
    >)
        ensures
            match crate::rules::initialize_refusal(old(env)@.state, valid_principal) {
                Some(error) => result == Err::<(), ContractError>(error) && final(env)@ == old(
                    env,
                )@,
                None => result == Ok::<(), ContractError>(()) && final(env)@ == old(env)@.after(
                    crate::rules::initialize_state(old(env)@.state, admin),
                    crate::rules::initialize_effects(old(env)@, admin),
                ),
            },
            crate::replay::carried_out(
                old(env)@,
                final(env)@,
                (Call::Initialize { admin, valid_principal }),
            ),
            crate::replay::answer(
                old(env)@.state,
                old(env)@.timestamp,
                (Call::Initialize { admin, valid_principal }),
            ) == (match result {
                Ok(()) => Answer::Done,
                Err(error) => Answer::ContractRefused(error),
            }),
    {
        if env.admin().is_some() {
            return Err(ContractError::AlreadyInitialized);
        }
        match Self::require_valid_admin(valid_principal) {
            Ok(()) => {},
            Err(error) => {
                return Err(error);
            },
        }
        Self::require_auth(env, &admin);
        env.perform(Effect::Put(Entry::Admin(admin)));
        env.perform(Effect::Put(Entry::ContractVersion(1)));
        env.perform(Effect::Put(Entry::IssuerEpoch(0)));
        env.perform(Effect::Put(Entry::MaxActiveIssuers(u32::MAX)));
        env.perform(Effect::Put(Entry::ActiveIssuerCount(0)));
        env.perform(Effect::Put(Entry::ReactivationCooldown(0)));
        Self::extend_instance_ttl(env);
        assert(env@.journal =~= old(env)@.journal + crate::rules::initialize_effects(
            old(env)@,
            admin,
        ));
        Ok(())
    }

    /// Writes the epoch, the capacity and the cooldown of a contract that was
    /// deployed before these existed, each where it is absent, and the number
    /// of active issuers in any case, since it cannot be derived from the
    /// ledger.
    pub fn migrate(env: &mut Env, active_issuer_count: u32) -> (result: Result<(), IssuerError>)
        ensures
            match crate::rules::migrate_refusal(old(env)@.state) {
                Some(error) => result == Err::<(), IssuerError>(error) && final(env)@ == old(env)@,
                None => result == Ok::<(), IssuerError>(()) && final(env)@ == old(env)@.after(
                    crate::rules::migrate_state(old(env)@.state, active_issuer_count),
                    crate::rules::migrate_effects(old(env)@, active_issuer_count),
                ),
            },
            crate::replay::carried_out(
                old(env)@,
                final(env)@,
                (Call::Migrate { active_issuer_count }),
            ),
            crate::replay::answer(
                old(env)@.state,
                old(env)@.timestamp,
                (Call::Migrate { active_issuer_count }),
            ) == crate::replay::ended(result),
    {
        let admin = match Self::get_admin(env) {
            Ok(admin) => admin,
            Err(_) => {
                return Err(IssuerError::IssuerNotFound);
            },
        };
        Self::require_auth(env, &admin);
        if env.issuer_epoch().is_none() {
            env.perform(Effect::Put(Entry::IssuerEpoch(0)));
        }
        if env.max_active_issuers().is_none() {
            env.perform(Effect::Put(Entry::MaxActiveIssuers(u32::MAX)));
        }
        if env.reactivation_cooldown().is_none() {
            env.perform(Effect::Put(Entry::ReactivationCooldown(0)));
        }
        env.perform(Effect::Put(Entry::ActiveIssuerCount(active_issuer_count)));
        Self::extend_instance_ttl(env);
        assert(env@.journal =~= old(env)@.journal + crate::rules::migrate_effects(
            old(env)@,
            active_issuer_count,
        ));
        Ok(())
    }

    /// The administrator.
    pub fn get_admin(env: &Env) -> (result: Result<Address, ContractError>)
        ensures
            result == match env@.state.admin {
                Some(admin) => Ok::<Address, ContractError>(admin),
                None => Err::<Address, ContractError>(ContractError::NotInitialized),
            },
    {
        match env.admin() {
            Some(admin) => Ok(admin),
            None => Err(ContractError::NotInitialized),
        }
    }

    // ── issuers ─────────────────────────────────────────────────────────────

    /// Registers an issuer, which starts active and so takes a slot of the
    /// capacity. `valid_principal` says whether `issuer_address` is an address
    /// that can act as a principal.
    ///
    /// This and the other changes of an issuer need an epoch below its maximum,
    /// where nothing refuses them; [`crate::invocation`] has them without that
    /// demand.
    pub fn register_issuer(
        env: &mut Env,
        issuer_id_hash: BytesN<32>,
        issuer_address: Address,
        metadata_hash: BytesN<32>,
        valid_principal: bool,
    ) -> (result: Result<(), IssuerError>)
        requires
            crate::rules::register_refusal(
                old(env)@.state,
                issuer_id_hash,
                issuer_address,
                valid_principal,
            ) is None ==> old(env)@.state.epoch() < u64::MAX,
        ensures
            match crate::rules::register_refusal(
                old(env)@.state,
                issuer_id_hash,
                issuer_address,
                valid_principal,
            ) {
                Some(error) => result == Err::<(), IssuerError>(error) && final(env)@ == old(
                    env,
                )@.asking(crate::rules::register_demand(old(env)@.state, valid_principal)),
                None => result == Ok::<(), IssuerError>(()) && final(env)@ == old(env)@.after(
                    crate::rules::register_state(
                        old(env)@.state,
                        old(env)@.timestamp,
                        issuer_id_hash,
                        issuer_address,
                        metadata_hash,
                    ),
                    crate::rules::register_effects(
                        old(env)@,
                        issuer_id_hash,
                        issuer_address,
                        metadata_hash,
                    ),
                ),
            },
            crate::replay::carried_out(
                old(env)@,
                final(env)@,
                (Call::RegisterIssuer {
                    id: issuer_id_hash,
                    address: issuer_address,
                    metadata: metadata_hash,
                    valid_principal,
                }),
            ),
            crate::replay::answer(
                old(env)@.state,
                old(env)@.timestamp,
                (Call::RegisterIssuer {
                    id: issuer_id_hash,
                    address: issuer_address,
                    metadata: metadata_hash,
                    valid_principal,
                }),
            ) == crate::replay::ended(result),
    {
        let admin = match Self::get_admin(env) {
            Ok(admin) => admin,
            Err(_) => {
                assert(env@ =~= env@.asking(seq![]));
                return Err(IssuerError::IssuerNotFound);
            },
        };
        match Self::require_valid_issuer_address(valid_principal) {
            Ok(()) => {},
            Err(error) => {
                assert(env@ =~= env@.asking(seq![]));
                return Err(error);
            },
        }
        Self::require_auth(env, &admin);
        if env.issuer(&issuer_id_hash).is_some() {
            return Err(IssuerError::IssuerAlreadyRegistered);
        }
        if env.address_issuer(&issuer_address).is_some() {
            return Err(IssuerError::IssuerAddressAlreadyRegistered);
        }
        match Self::reserve_active_capacity(env) {
            Ok(()) => {},
            Err(error) => {
                return Err(error);
            },
        }
        let now = env.timestamp();
        let record = IssuerRecord {
            issuer_id_hash,
            issuer_address,
            metadata_hash,
            status: IssuerStatus::Active,
            created_at: now,
            updated_at: now,
        };
        env.perform(Effect::Put(Entry::Issuer(issuer_id_hash, record)));
        env.perform(Effect::Put(Entry::AddressIssuer(issuer_address, issuer_id_hash)));
        Self::extend_ttl(env, DataKey::Issuer(issuer_id_hash));
        Self::extend_ttl(env, DataKey::AddressIssuer(issuer_address));
        let epoch = Self::bump_epoch(env);
        env.perform(
            Effect::Publish(
                Event::IssuerRegistered(
                    IssuerRegistered {
                        issuer_id_hash,
                        issuer_address,
                        metadata_hash,
                        created_at: now,
                        epoch,
                    },
                ),
            ),
        );
        assert(env@.journal =~= old(env)@.journal + crate::rules::register_effects(
            old(env)@,
            issuer_id_hash,
            issuer_address,
            metadata_hash,
        ));
        Ok(())
    }

    /// Replaces an issuer's metadata hash.
    pub fn update_issuer(
        env: &mut Env,
        issuer_id_hash: BytesN<32>,
        metadata_hash: BytesN<32>,
    ) -> (result: Result<(), IssuerError>)
        requires
            crate::rules::update_refusal(old(env)@.state, issuer_id_hash) is None ==> old(
                env,
            )@.state.epoch() < u64::MAX,
        ensures
            match crate::rules::update_refusal(old(env)@.state, issuer_id_hash) {
                Some(error) => result == Err::<(), IssuerError>(error) && final(env)@ == old(
                    env,
                )@.asking(crate::rules::admin_demand(old(env)@.state)),
                None => result == Ok::<(), IssuerError>(()) && final(env)@ == old(env)@.after(
                    crate::rules::update_state(
                        old(env)@.state,
                        old(env)@.timestamp,
                        issuer_id_hash,
                        metadata_hash,
                    ),
                    crate::rules::update_effects(old(env)@, issuer_id_hash, metadata_hash),
                ),
            },
            crate::replay::carried_out(
                old(env)@,
                final(env)@,
                (Call::UpdateIssuer { id: issuer_id_hash, metadata: metadata_hash }),
            ),
            crate::replay::answer(
                old(env)@.state,
                old(env)@.timestamp,
                (Call::UpdateIssuer { id: issuer_id_hash, metadata: metadata_hash }),
            ) == crate::replay::ended(result),
    {
        let admin = match Self::get_admin(env) {
            Ok(admin) => admin,
            Err(_) => {
                assert(env@ =~= env@.asking(seq![]));
                return Err(IssuerError::IssuerNotFound);
            },
        };
        Self::require_auth(env, &admin);
        let mut record = match env.issuer(&issuer_id_hash) {
            Some(record) => record,
            None => {
                return Err(IssuerError::IssuerNotFound);
            },
        };
        if record.status == IssuerStatus::Revoked {
            return Err(IssuerError::IssuerRevoked);
        }
        let now = env.timestamp();
        record.metadata_hash = metadata_hash;
        record.updated_at = now;
        env.perform(Effect::Put(Entry::Issuer(issuer_id_hash, record)));
        Self::extend_ttl(env, DataKey::Issuer(issuer_id_hash));
        let epoch = Self::bump_epoch(env);
        env.perform(
            Effect::Publish(
                Event::IssuerMetadataUpdated(
                    IssuerMetadataUpdated { issuer_id_hash, metadata_hash, updated_at: now, epoch },
                ),
            ),
        );
        assert(env@.journal =~= old(env)@.journal + crate::rules::update_effects(
            old(env)@,
            issuer_id_hash,
            metadata_hash,
        ));
        Ok(())
    }

    /// Suspends an issuer and fixes the earliest time of its reactivation.
    pub fn suspend_issuer(env: &mut Env, issuer_id_hash: BytesN<32>) -> (result: Result<
        (),
        IssuerError,
    >)
        requires
            crate::rules::status_refusal(
                old(env)@.state,
                old(env)@.timestamp,
                issuer_id_hash,
                IssuerStatus::Suspended,
            ) is None ==> old(env)@.state.epoch() < u64::MAX,
        ensures
            match crate::rules::status_refusal(
                old(env)@.state,
                old(env)@.timestamp,
                issuer_id_hash,
                IssuerStatus::Suspended,
            ) {
                Some(error) => result == Err::<(), IssuerError>(error) && final(env)@ == old(
                    env,
                )@.asking(crate::rules::admin_demand(old(env)@.state)),
                None => result == Ok::<(), IssuerError>(()) && final(env)@ == old(env)@.after(
                    crate::rules::status_state(
                        old(env)@.state,
                        old(env)@.timestamp,
                        issuer_id_hash,
                        IssuerStatus::Suspended,
                    ),
                    crate::rules::status_effects(
                        old(env)@,
                        issuer_id_hash,
                        IssuerStatus::Suspended,
                    ),
                ),
            },
            crate::replay::carried_out(
                old(env)@,
                final(env)@,
                (Call::SetStatus { id: issuer_id_hash, status: IssuerStatus::Suspended }),
            ),
            crate::replay::answer(
                old(env)@.state,
                old(env)@.timestamp,
                (Call::SetStatus { id: issuer_id_hash, status: IssuerStatus::Suspended }),
            ) == crate::replay::ended(result),
    {
        Self::set_status(env, issuer_id_hash, IssuerStatus::Suspended)
    }

    /// Makes a suspended issuer active again, once its cooldown is over and
    /// where the capacity has room.
    pub fn reactivate_issuer(env: &mut Env, issuer_id_hash: BytesN<32>) -> (result: Result<
        (),
        IssuerError,
    >)
        requires
            crate::rules::status_refusal(
                old(env)@.state,
                old(env)@.timestamp,
                issuer_id_hash,
                IssuerStatus::Active,
            ) is None ==> old(env)@.state.epoch() < u64::MAX,
        ensures
            match crate::rules::status_refusal(
                old(env)@.state,
                old(env)@.timestamp,
                issuer_id_hash,
                IssuerStatus::Active,
            ) {
                Some(error) => result == Err::<(), IssuerError>(error) && final(env)@ == old(
                    env,
                )@.asking(crate::rules::admin_demand(old(env)@.state)),
                None => result == Ok::<(), IssuerError>(()) && final(env)@ == old(env)@.after(
                    crate::rules::status_state(
                        old(env)@.state,
                        old(env)@.timestamp,
                        issuer_id_hash,
                        IssuerStatus::Active,
                    ),
                    crate::rules::status_effects(old(env)@, issuer_id_hash, IssuerStatus::Active),
                ),
            },
            crate::replay::carried_out(
                old(env)@,
                final(env)@,
                (Call::SetStatus { id: issuer_id_hash, status: IssuerStatus::Active }),
            ),
            crate::replay::answer(
                old(env)@.state,
                old(env)@.timestamp,
                (Call::SetStatus { id: issuer_id_hash, status: IssuerStatus::Active }),
            ) == crate::replay::ended(result),
    {
        Self::set_status(env, issuer_id_hash, IssuerStatus::Active)
    }

    /// Revokes an issuer for good. No cooldown of a suspension is pending any
    /// longer.
    pub fn revoke_issuer(env: &mut Env, issuer_id_hash: BytesN<32>) -> (result: Result<
        (),
        IssuerError,
    >)
        requires
            crate::rules::status_refusal(
                old(env)@.state,
                old(env)@.timestamp,
                issuer_id_hash,
                IssuerStatus::Revoked,
            ) is None ==> old(env)@.state.epoch() < u64::MAX,
        ensures
            match crate::rules::status_refusal(
                old(env)@.state,
                old(env)@.timestamp,
                issuer_id_hash,
                IssuerStatus::Revoked,
            ) {
                Some(error) => result == Err::<(), IssuerError>(error) && final(env)@ == old(
                    env,
                )@.asking(crate::rules::admin_demand(old(env)@.state)),
                None => result == Ok::<(), IssuerError>(()) && final(env)@ == old(env)@.after(
                    crate::rules::status_state(
                        old(env)@.state,
                        old(env)@.timestamp,
                        issuer_id_hash,
                        IssuerStatus::Revoked,
                    ),
                    crate::rules::status_effects(old(env)@, issuer_id_hash, IssuerStatus::Revoked),
                ),
            },
            crate::replay::carried_out(
                old(env)@,
                final(env)@,
                (Call::SetStatus { id: issuer_id_hash, status: IssuerStatus::Revoked }),
            ),
            crate::replay::answer(
                old(env)@.state,
                old(env)@.timestamp,
                (Call::SetStatus { id: issuer_id_hash, status: IssuerStatus::Revoked }),
            ) == crate::replay::ended(result),
    {
        Self::set_status(env, issuer_id_hash, IssuerStatus::Revoked)
    }

    /// Moves an issuer to another address. The old one is free again.
    /// `valid_principal` says whether `new_address` is an address that can act
    /// as a principal.
    pub fn rotate_issuer_address(
        env: &mut Env,
        issuer_id_hash: BytesN<32>,
        new_address: Address,
        valid_principal: bool,
    ) -> (result: Result<(), IssuerError>)
        requires
            crate::rules::rotate_refusal(
                old(env)@.state,
                issuer_id_hash,
                new_address,
                valid_principal,
            ) is None ==> old(env)@.state.epoch() < u64::MAX,
        ensures
            match crate::rules::rotate_refusal(
                old(env)@.state,
                issuer_id_hash,
                new_address,
                valid_principal,
            ) {
                Some(error) => result == Err::<(), IssuerError>(error) && final(env)@ == old(
                    env,
                )@.asking(crate::rules::register_demand(old(env)@.state, valid_principal)),
                None => result == Ok::<(), IssuerError>(()) && final(env)@ == old(env)@.after(
                    crate::rules::rotate_state(
                        old(env)@.state,
                        old(env)@.timestamp,
                        issuer_id_hash,
                        new_address,
                    ),
                    crate::rules::rotate_effects(old(env)@, issuer_id_hash, new_address),
                ),
            },
            crate::replay::carried_out(
                old(env)@,
                final(env)@,
                (Call::RotateIssuerAddress {
                    id: issuer_id_hash,
                    address: new_address,
                    valid_principal,
                }),
            ),
            crate::replay::answer(
                old(env)@.state,
                old(env)@.timestamp,
                (Call::RotateIssuerAddress {
                    id: issuer_id_hash,
                    address: new_address,
                    valid_principal,
                }),
            ) == crate::replay::ended(result),
    {
        let admin = match Self::get_admin(env) {
            Ok(admin) => admin,
            Err(_) => {
                assert(env@ =~= env@.asking(seq![]));
                return Err(IssuerError::IssuerNotFound);
            },
        };
        match Self::require_valid_issuer_address(valid_principal) {
            Ok(()) => {},
            Err(error) => {
                assert(env@ =~= env@.asking(seq![]));
                return Err(error);
            },
        }
        Self::require_auth(env, &admin);
        let mut record = match env.issuer(&issuer_id_hash) {
            Some(record) => record,
            None => {
                return Err(IssuerError::IssuerNotFound);
            },
        };
        if record.status == IssuerStatus::Revoked {
            return Err(IssuerError::IssuerRevoked);
        }
        if new_address.same(&record.issuer_address) {
            return Err(IssuerError::InvalidAddress);
        }
        if env.address_issuer(&new_address).is_some() {
            return Err(IssuerError::IssuerAddressAlreadyRegistered);
        }
        let old_address = record.issuer_address;
        env.perform(Effect::Remove(DataKey::AddressIssuer(old_address)));
        record.issuer_address = new_address;
        let now = env.timestamp();
        record.updated_at = now;
        env.perform(Effect::Put(Entry::Issuer(issuer_id_hash, record)));
        env.perform(Effect::Put(Entry::AddressIssuer(new_address, issuer_id_hash)));
        Self::extend_ttl(env, DataKey::Issuer(issuer_id_hash));
        Self::extend_ttl(env, DataKey::AddressIssuer(new_address));
        let epoch = Self::bump_epoch(env);
        env.perform(
            Effect::Publish(
                Event::IssuerAddressRotated(
                    IssuerAddressRotated {
                        issuer_id_hash,
                        old_address,
                        new_address,
                        updated_at: now,
                        epoch,
                    },
                ),
            ),
        );
        assert(env@.journal =~= old(env)@.journal + crate::rules::rotate_effects(
            old(env)@,
            issuer_id_hash,
            new_address,
        ));
        Ok(())
    }

    /// The record of an issuer.
    pub fn get_issuer(env: &mut Env, issuer_id_hash: BytesN<32>) -> (result: Result<
        IssuerRecord,
        IssuerError,
    >)
        ensures
            result == crate::rules::issuer_answer(old(env)@.state, issuer_id_hash),
            final(env)@ == old(env)@.asking(
                crate::rules::issuer_effects(old(env)@, issuer_id_hash),
            ),
    {
        match env.issuer(&issuer_id_hash) {
            Some(record) => {
                Self::extend_ttl(env, DataKey::Issuer(issuer_id_hash));
                Ok(record)
            },
            None => {
                assert(env@ =~= env@.asking(seq![]));
                Err(IssuerError::IssuerNotFound)
            },
        }
    }

    /// Whether an issuer is on record as active.
    pub fn is_active_issuer(env: &mut Env, issuer_id_hash: BytesN<32>) -> (result: bool)
        ensures
            result == old(env)@.state.is_active(issuer_id_hash),
            final(env)@ == old(env)@.asking(
                crate::rules::issuer_effects(old(env)@, issuer_id_hash),
            ),
    {
        match Self::get_issuer(env, issuer_id_hash) {
            Ok(record) => record.status == IssuerStatus::Active,
            Err(_) => false,
        }
    }

    /// Whether an address belongs to an issuer on record as active.
    pub fn is_active_address(env: &mut Env, issuer_address: Address) -> (result: bool)
        ensures
            result == old(env)@.state.is_active_address(issuer_address),
            final(env)@ == old(env)@.asking(
                crate::rules::active_address_effects(old(env)@, issuer_address),
            ),
    {
        match env.address_issuer(&issuer_address) {
            Some(id) => Self::is_active_issuer(env, id),
            None => {
                assert(env@ =~= env@.asking(seq![]));
                false
            },
        }
    }

    /// The record of the issuer that holds an address.
    pub fn get_issuer_by_address(env: &mut Env, issuer_address: Address) -> (result: Result<
        IssuerRecord,
        IssuerError,
    >)
        ensures
            result == crate::rules::issuer_by_address_answer(old(env)@.state, issuer_address),
            final(env)@ == old(env)@.asking(
                crate::rules::issuer_by_address_effects(old(env)@, issuer_address),
            ),
    {
        let id = match env.address_issuer(&issuer_address) {
            Some(id) => id,
            None => {
                assert(env@ =~= env@.asking(seq![]));
                return Err(IssuerError::IssuerAddressNotFound);
            },
        };
        let record = match env.issuer(&id) {
            Some(record) => record,
            None => {
                assert(env@ =~= env@.asking(seq![]));
                return Err(IssuerError::IssuerNotFound);
            },
        };
        Self::extend_ttl(env, DataKey::AddressIssuer(issuer_address));
        Ok(record)
    }

    // ── epoch, capacity, cooldown, interface version ────────────────────────

    /// The interface version that the contract offers to its consumers.
    pub fn interface_version(env: &Env) -> (result: InterfaceVersion)
        ensures
            result == env@.parameters.interface_version,
    {
        env.parameters().interface_version
    }

    /// The registry epoch. It starts at 0 and advances by one on every visible
    /// change of an issuer, so that a consumer whose copy has the same epoch
    /// need not refresh it.
    pub fn get_issuer_epoch(env: &Env) -> (result: u64)
        ensures
            result == env@.state.epoch(),
    {
        env.issuer_epoch().unwrap_or(0)
    }

    /// The number of active issuers.
    pub fn get_active_issuer_count(env: &Env) -> (result: u32)
        ensures
            result == env@.state.active_count(),
    {
        env.active_issuer_count().unwrap_or(0)
    }

    /// The most issuers that may be active at once.
    pub fn get_max_active_issuers(env: &Env) -> (result: u32)
        ensures
            result == env@.state.max_active(),
    {
        env.max_active_issuers().unwrap_or(u32::MAX)
    }

    /// The reactivation cooldown, in seconds.
    pub fn get_reactivation_cooldown(env: &Env) -> (result: u64)
        ensures
            result == env@.state.cooldown(),
    {
        env.reactivation_cooldown().unwrap_or(0)
    }

    /// The earliest time at which a suspended issuer may be reactivated, or 0
    /// where the issuer has never been suspended or has no cooldown pending, as
    /// only a suspended issuer has. It is fixed by the suspension, so that a
    /// later change of the cooldown does not move it.
    pub fn get_earliest_reactivation(env: &Env, issuer_id_hash: BytesN<32>) -> (result: u64)
        ensures
            result == env@.state.earliest_reactivation(issuer_id_hash),
    {
        Self::earliest_reactivation(env, &issuer_id_hash)
    }

    /// Sets the most issuers that may be active at once. A bound below the
    /// present number is refused unless `allow_below_usage` is set; then no
    /// present issuer is affected, only later registrations and reactivations.
    pub fn set_max_active_issuers(
        env: &mut Env,
        new_max: u32,
        allow_below_usage: bool,
    ) -> (result: Result<(), IssuerError>)
        ensures
            match crate::rules::set_max_refusal(old(env)@.state, new_max, allow_below_usage) {
                Some(error) => result == Err::<(), IssuerError>(error) && final(env)@ == old(
                    env,
                )@.asking(crate::rules::admin_demand(old(env)@.state)),
                None => result == Ok::<(), IssuerError>(()) && final(env)@ == old(env)@.after(
                    crate::rules::set_max_state(old(env)@.state, new_max),
                    crate::rules::set_max_effects(old(env)@, new_max),
                ),
            },
            crate::replay::carried_out(
                old(env)@,
                final(env)@,
                (Call::SetMaxActiveIssuers { new_max, allow_below_usage }),
            ),
            crate::replay::answer(
                old(env)@.state,
                old(env)@.timestamp,
                (Call::SetMaxActiveIssuers { new_max, allow_below_usage }),
            ) == crate::replay::ended(result),
    {
        let admin = match Self::get_admin(env) {
            Ok(admin) => admin,
            Err(_) => {
                assert(env@ =~= env@.asking(seq![]));
                return Err(IssuerError::IssuerNotFound);
            },
        };
        Self::require_auth(env, &admin);
        let active_count = Self::get_active_issuer_count(env);
        if new_max < active_count && !allow_below_usage {
            return Err(IssuerError::MaxBelowActiveUsage);
        }
        env.perform(Effect::Put(Entry::MaxActiveIssuers(new_max)));
        Self::extend_instance_ttl(env);
        env.perform(
            Effect::Publish(
                Event::MaxActiveIssuersChanged(
                    MaxActiveIssuersChanged { new_max, active_count, changed_by: admin },
                ),
            ),
        );
        assert(env@.journal =~= old(env)@.journal + crate::rules::set_max_effects(
            old(env)@,
            new_max,
        ));
        Ok(())
    }

    /// Sets the reactivation cooldown, in seconds, of the suspensions to come.
    pub fn set_reactivation_cooldown(env: &mut Env, cooldown_seconds: u64) -> (result: Result<
        (),
        IssuerError,
    >)
        ensures
            match crate::rules::set_cooldown_refusal(old(env)@.state) {
                Some(error) => result == Err::<(), IssuerError>(error) && final(env)@ == old(env)@,
                None => result == Ok::<(), IssuerError>(()) && final(env)@ == old(env)@.after(
                    crate::rules::set_cooldown_state(old(env)@.state, cooldown_seconds),
                    crate::rules::set_cooldown_effects(old(env)@, cooldown_seconds),
                ),
            },
            crate::replay::carried_out(
                old(env)@,
                final(env)@,
                (Call::SetReactivationCooldown { cooldown_seconds }),
            ),
            crate::replay::answer(
                old(env)@.state,
                old(env)@.timestamp,
                (Call::SetReactivationCooldown { cooldown_seconds }),
            ) == crate::replay::ended(result),
    {
        let admin = match Self::get_admin(env) {
            Ok(admin) => admin,
            Err(_) => {
                return Err(IssuerError::IssuerNotFound);
            },
        };
        Self::require_auth(env, &admin);
        env.perform(Effect::Put(Entry::ReactivationCooldown(cooldown_seconds)));
        Self::extend_instance_ttl(env);
        env.perform(
            Effect::Publish(
                Event::ReactivationCooldownChanged(
                    ReactivationCooldownChanged {
                        new_cooldown_seconds: cooldown_seconds,
                        changed_by: admin,
                    },
                ),
            ),
        );
        assert(env@.journal =~= old(env)@.journal + crate::rules::set_cooldown_effects(
            old(env)@,
            cooldown_seconds,
        ));
        Ok(())
    }

    // ── upgrade governance ──────────────────────────────────────────────────

    /// The contract version. It starts at 1 and only grows.
    pub fn get_contract_version(env: &Env) -> (result: u32)
        ensures
            result == env@.state.version(),
    {
        env.contract_version().unwrap_or(0)
    }

    /// Puts a WASM hash on the upgrade allowlist, for a version above the
    /// current one.
    pub fn approve_upgrade(env: &mut Env, wasm_hash: BytesN<32>, new_version: u32)
        requires
            crate::rules::approve_abort(old(env)@.state, new_version) is None,
        ensures
            final(env)@ == old(env)@.after(
                crate::rules::approve_state(old(env)@.state, wasm_hash, new_version),
                crate::rules::approve_effects(old(env)@, wasm_hash, new_version),
            ),
            crate::replay::carried_out(
                old(env)@,
                final(env)@,
                (Call::ApproveUpgrade { hash: wasm_hash, new_version }),
            ),
            crate::replay::answer(
                old(env)@.state,
                old(env)@.timestamp,
                (Call::ApproveUpgrade { hash: wasm_hash, new_version }),
            ) == Answer::Done,
    {
        if let Ok(admin) = Self::get_admin(env) {
            Self::require_auth(env, &admin);
            env.perform(Effect::Put(Entry::AllowedWasm(wasm_hash, new_version)));
            Self::extend_instance_ttl(env);
            env.perform(
                Effect::Publish(
                    Event::UpgradeAllowlisted(
                        UpgradeAllowlisted {
                            wasm_hash,
                            new_contract_version: new_version,
                            approved_by: admin,
                        },
                    ),
                ),
            );
            assert(env@.journal =~= old(env)@.journal + crate::rules::approve_effects(
                old(env)@,
                wasm_hash,
                new_version,
            ));
        }
    }

    /// Takes a WASM hash off the allowlist without applying it.
    pub fn revoke_upgrade(env: &mut Env, wasm_hash: BytesN<32>)
        requires
            crate::rules::withdraw_abort(old(env)@.state) is None,
        ensures
            final(env)@ == old(env)@.after(
                crate::rules::withdraw_state(old(env)@.state, wasm_hash),
                crate::rules::withdraw_effects(old(env)@, wasm_hash),
            ),
            crate::replay::carried_out(
                old(env)@,
                final(env)@,
                (Call::RevokeUpgrade { hash: wasm_hash }),
            ),
            crate::replay::answer(
                old(env)@.state,
                old(env)@.timestamp,
                (Call::RevokeUpgrade { hash: wasm_hash }),
            ) == Answer::Done,
    {
        if let Ok(admin) = Self::get_admin(env) {
            Self::require_auth(env, &admin);
            env.perform(Effect::Remove(DataKey::AllowedWasm(wasm_hash)));
            env.perform(
                Effect::Publish(
                    Event::UpgradeRevoked(UpgradeRevoked { wasm_hash, revoked_by: admin }),
                ),
            );
            assert(env@.journal =~= old(env)@.journal + crate::rules::withdraw_effects(
                old(env)@,
                wasm_hash,
            ));
        }
    }

    /// Whether a WASM hash is on the allowlist.
    pub fn is_upgrade_allowed(env: &Env, wasm_hash: BytesN<32>) -> (result: bool)
        ensures
            result == env@.state.allowed_wasm.contains_key(wasm_hash),
    {
        env.allowed_wasm(&wasm_hash).is_some()
    }

    /// Applies an upgrade from the allowlist: the entry is consumed, so that it
    /// cannot be used again, and the version advances.
    pub fn upgrade_contract(env: &mut Env, wasm_hash: BytesN<32>)
        requires
            crate::rules::upgrade_abort(old(env)@.state, wasm_hash) is None,
        ensures
            final(env)@ == old(env)@.after(
                crate::rules::upgrade_state(old(env)@.state, wasm_hash),
                crate::rules::upgrade_effects(old(env)@, wasm_hash),
            ),
            crate::replay::carried_out(
                old(env)@,
                final(env)@,
                (Call::UpgradeContract { hash: wasm_hash }),
            ),
            crate::replay::answer(
                old(env)@.state,
                old(env)@.timestamp,
                (Call::UpgradeContract { hash: wasm_hash }),
            ) == Answer::Done,
    {
        if let (Ok(admin), Some(new_version)) = (
            Self::get_admin(env),
            env.allowed_wasm(&wasm_hash),
        ) {
            Self::require_auth(env, &admin);
            let old_version = Self::get_contract_version(env);
            env.perform(Effect::Remove(DataKey::AllowedWasm(wasm_hash)));
            env.perform(Effect::UpdateWasm(wasm_hash));
            env.perform(Effect::Put(Entry::ContractVersion(new_version)));
            Self::extend_instance_ttl(env);
            env.perform(
                Effect::Publish(
                    Event::ContractUpgraded(
                        ContractUpgraded {
                            new_wasm_hash: wasm_hash,
                            old_contract_version: old_version,
                            new_contract_version: new_version,
                            upgraded_by: admin,
                        },
                    ),
                ),
            );
            assert(env@.journal =~= old(env)@.journal + crate::rules::upgrade_effects(
                old(env)@,
                wasm_hash,
            ));
        }
    }

    // ── shared steps ────────────────────────────────────────────────────────

    fn require_valid_admin(valid_principal: bool) -> (result: Result<(), ContractError>)
        ensures
            result == (if valid_principal {
                Ok::<(), ContractError>(())
            } else {
                Err::<(), ContractError>(ContractError::InvalidInput)
            }),
    {
        if !valid_principal {
            return Err(ContractError::InvalidInput);
        }
        Ok(())
    }

    fn require_valid_issuer_address(valid_principal: bool) -> (result: Result<(), IssuerError>)
        ensures
            result == (if valid_principal {
                Ok::<(), IssuerError>(())
            } else {
                Err::<(), IssuerError>(IssuerError::InvalidAddress)
            }),
    {
        if !valid_principal {
            return Err(IssuerError::InvalidAddress);
        }
        Ok(())
    }

    /// Gives an issuer another status. Whatever can refuse the change is looked
    /// at before anything is written.
    fn set_status(env: &mut Env, issuer_id_hash: BytesN<32>, status: IssuerStatus) -> (result:
        Result<(), IssuerError>)
        requires
            crate::rules::status_refusal(
                old(env)@.state,
                old(env)@.timestamp,
                issuer_id_hash,
                status,
            ) is None ==> old(env)@.state.epoch() < u64::MAX,
        ensures
            match crate::rules::status_refusal(
                old(env)@.state,
                old(env)@.timestamp,
                issuer_id_hash,
                status,
            ) {
                Some(error) => result == Err::<(), IssuerError>(error) && final(env)@ == old(
                    env,
                )@.asking(crate::rules::admin_demand(old(env)@.state)),
                None => result == Ok::<(), IssuerError>(()) && final(env)@ == old(env)@.after(
                    crate::rules::status_state(
                        old(env)@.state,
                        old(env)@.timestamp,
                        issuer_id_hash,
                        status,
                    ),
                    crate::rules::status_effects(old(env)@, issuer_id_hash, status),
                ),
            },
    {
        let admin = match Self::get_admin(env) {
            Ok(admin) => admin,
            Err(_) => {
                assert(env@ =~= env@.asking(seq![]));
                return Err(IssuerError::IssuerNotFound);
            },
        };
        Self::require_auth(env, &admin);
        let mut record = match env.issuer(&issuer_id_hash) {
            Some(record) => record,
            None => {
                return Err(IssuerError::IssuerNotFound);
            },
        };
        let previous = record.status;
        if previous == IssuerStatus::Revoked && status != IssuerStatus::Revoked {
            return Err(IssuerError::InvalidTransition);
        }
        let now = env.timestamp();
        match status {
            IssuerStatus::Active => {
                if previous == IssuerStatus::Suspended {
                    let earliest = Self::earliest_reactivation(env, &issuer_id_hash);
                    if now < earliest {
                        return Err(IssuerError::ReactivationCooldownActive);
                    }
                    match Self::reserve_active_capacity(env) {
                        Ok(()) => {},
                        Err(error) => {
                            return Err(error);
                        },
                    }
                    env.perform(Effect::Remove(DataKey::ReactivatableAt(issuer_id_hash)));
                }
            },
            IssuerStatus::Suspended => {
                if previous == IssuerStatus::Active {
                    Self::release_active_capacity(env);
                }
                if previous != IssuerStatus::Revoked {
                    let cooldown = Self::get_reactivation_cooldown(env);
                    let earliest = now.saturating_add(cooldown);
                    env.perform(Effect::Put(Entry::ReactivatableAt(issuer_id_hash, earliest)));
                    Self::extend_ttl(env, DataKey::ReactivatableAt(issuer_id_hash));
                }
            },
            IssuerStatus::Revoked => {
                if previous == IssuerStatus::Active {
                    Self::release_active_capacity(env);
                }
                if previous == IssuerStatus::Suspended {
                    env.perform(Effect::Remove(DataKey::ReactivatableAt(issuer_id_hash)));
                }
            },
        }
        assert(env@.journal =~= old(env)@.journal + crate::rules::admin_demand(old(env)@.state)
            + crate::rules::transition_effects(old(env)@, issuer_id_hash, status));
        record.status = status;
        record.updated_at = now;
        env.perform(Effect::Put(Entry::Issuer(issuer_id_hash, record)));
        Self::extend_ttl(env, DataKey::Issuer(issuer_id_hash));
        let epoch = Self::bump_epoch(env);
        let event = match status {
            IssuerStatus::Active => Event::IssuerReactivated(
                IssuerReactivated { issuer_id_hash, updated_at: now, epoch },
            ),
            IssuerStatus::Suspended => Event::IssuerSuspended(
                IssuerSuspended { issuer_id_hash, updated_at: now, epoch },
            ),
            IssuerStatus::Revoked => Event::IssuerRevoked(
                IssuerRevoked { issuer_id_hash, updated_at: now, epoch },
            ),
        };
        env.perform(Effect::Publish(event));
        assert(env@.journal =~= old(env)@.journal + crate::rules::status_effects(
            old(env)@,
            issuer_id_hash,
            status,
        ));
        Ok(())
    }

    /// Advances the registry epoch by one and returns it.
    fn bump_epoch(env: &mut Env) -> (result: u64)
        requires
            old(env)@.state.epoch() < u64::MAX,
        ensures
            result == old(env)@.state.epoch() + 1,
            final(env)@ == old(env)@.after(
                old(env)@.state.put(Entry::IssuerEpoch(result)),
                seq![
                    Effect::Put(Entry::IssuerEpoch(result)),
                    Effect::ExtendInstanceTtl(old(env)@.parameters.ttl),
                ],
            ),
    {
        let next: u64 = Self::get_issuer_epoch(env) + 1;
        env.perform(Effect::Put(Entry::IssuerEpoch(next)));
        Self::extend_instance_ttl(env);
        assert(env@.journal =~= old(env)@.journal + seq![
            Effect::Put(Entry::IssuerEpoch(next)),
            Effect::ExtendInstanceTtl(old(env)@.parameters.ttl),
        ]);
        next
    }

    /// Takes one slot of the capacity, where one is left.
    fn reserve_active_capacity(env: &mut Env) -> (result: Result<(), IssuerError>)
        ensures
            if old(env)@.state.has_capacity() {
                &&& result == Ok::<(), IssuerError>(())
                &&& final(env)@ == old(env)@.after(
                    crate::rules::reserve_state(old(env)@.state),
                    seq![
                        Effect::Put(
                            Entry::ActiveIssuerCount(crate::rules::reserved_count(old(env)@.state)),
                        ),
                        Effect::ExtendInstanceTtl(old(env)@.parameters.ttl),
                    ],
                )
            } else {
                &&& result == Err::<(), IssuerError>(IssuerError::IssuerCapacityExceeded)
                &&& final(env)@ == old(env)@
            },
    {
        let count = Self::get_active_issuer_count(env);
        let max = Self::get_max_active_issuers(env);
        if count >= max {
            return Err(IssuerError::IssuerCapacityExceeded);
        }
        let next: u32 = count + 1;
        env.perform(Effect::Put(Entry::ActiveIssuerCount(next)));
        Self::extend_instance_ttl(env);
        assert(env@.journal =~= old(env)@.journal + seq![
            Effect::Put(Entry::ActiveIssuerCount(next)),
            Effect::ExtendInstanceTtl(old(env)@.parameters.ttl),
        ]);
        Ok(())
    }

    /// Gives one slot of the capacity back.
    fn release_active_capacity(env: &mut Env)
        ensures
            final(env)@ == old(env)@.after(
                crate::rules::release_state(old(env)@.state),
                seq![
                    Effect::Put(
                        Entry::ActiveIssuerCount(crate::rules::released_count(old(env)@.state)),
                    ),
                    Effect::ExtendInstanceTtl(old(env)@.parameters.ttl),
                ],
            ),
    {
        let count = Self::get_active_issuer_count(env);
        let next = count.saturating_sub(1);
        env.perform(Effect::Put(Entry::ActiveIssuerCount(next)));
        Self::extend_instance_ttl(env);
        assert(env@.journal =~= old(env)@.journal + seq![
            Effect::Put(Entry::ActiveIssuerCount(next)),
            Effect::ExtendInstanceTtl(old(env)@.parameters.ttl),
        ]);
    }

    fn earliest_reactivation(env: &Env, issuer_id_hash: &BytesN<32>) -> (result: u64)
        ensures
            result == env@.state.earliest_reactivation(*issuer_id_hash),
    {
        env.reactivatable_at(issuer_id_hash).unwrap_or(0)
    }

    fn extend_instance_ttl(env: &mut Env)
        ensures
            final(env)@ == old(env)@.asking(
                seq![Effect::ExtendInstanceTtl(old(env)@.parameters.ttl)],
            ),
    {
        let ttl = env.parameters().ttl;
        env.perform(Effect::ExtendInstanceTtl(ttl));
    }

    fn extend_ttl(env: &mut Env, key: DataKey)
        ensures
            final(env)@ == old(env)@.asking(
                seq![Effect::ExtendTtl(key, old(env)@.parameters.ttl)],
            ),
    {
        let ttl = env.parameters().ttl;
        env.perform(Effect::ExtendTtl(key, ttl));
    }

    pub(crate) fn require_auth(env: &mut Env, address: &Address)
        ensures
            final(env)@ == old(env)@.asking(seq![Effect::RequireAuth(*address)]),
    {
        env.perform(Effect::RequireAuth(*address));
    }
}

} // verus!
