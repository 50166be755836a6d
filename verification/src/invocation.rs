//! The calls that can abort, for any input: where a call would have to stop the
//! whole invocation, the abort comes back as a value. The administrator's
//! authorization has then been asked for, and nothing has changed.
//!
//! The answer of a call that was refused is `Err(Ok(error))`; that of an abort
//! is `Err(Err(abort))`.

use crate::bytes::{Address, BytesN, Key};
use crate::contract::IssuerRegistryContract;
use crate::env::Env;
use crate::laws::Call;
use crate::model::{IssuerError, IssuerStatus};
use crate::rules::Abort;
use vstd::prelude::*;

verus! {

impl Abort {
    /// The text that the abort is reported with.
    pub fn message(self) -> (result: &'static str)
        ensures
            result@ == crate::rules::abort_message(self),
    {
        match self {
            Abort::NotInitialized => "contract not initialized",
            Abort::VersionNotGreater => "new_version must be greater than current contract version",
            Abort::NotAllowlisted => "wasm hash not on allowlist",
            Abort::VersionNotAdvanced => "upgrade would not advance contract version",
            Abort::EpochOverflow => "issuer epoch overflow: reached maximum",
        }
    }
}

/// Sorts the answer of a call that did not abort.
fn answered(result: Result<(), IssuerError>) -> (sorted: Result<(), Result<IssuerError, Abort>>)
    ensures
        sorted == match result {
            Ok(()) => Ok::<(), Result<IssuerError, Abort>>(()),
            Err(error) => Err::<(), Result<IssuerError, Abort>>(Ok(error)),
        },
{
    match result {
        Ok(()) => Ok(()),
        Err(error) => Err(Ok(error)),
    }
}

impl IssuerRegistryContract {
    // ── what refuses a call ─────────────────────────────────────────────────

    fn register_refusal(
        env: &Env,
        id: &BytesN<32>,
        address: &Address,
        valid_principal: bool,
    ) -> (result: Option<IssuerError>)
        ensures
            result == crate::rules::register_refusal(env@.state, *id, *address, valid_principal),
    {
        if env.admin().is_none() {
            Some(IssuerError::IssuerNotFound)
        } else if !valid_principal {
            Some(IssuerError::InvalidAddress)
        } else if env.issuer(id).is_some() {
            Some(IssuerError::IssuerAlreadyRegistered)
        } else if env.address_issuer(address).is_some() {
            Some(IssuerError::IssuerAddressAlreadyRegistered)
        } else if Self::get_active_issuer_count(env) >= Self::get_max_active_issuers(env) {
            Some(IssuerError::IssuerCapacityExceeded)
        } else {
            None
        }
    }

    fn update_refusal(env: &Env, id: &BytesN<32>) -> (result: Option<IssuerError>)
        ensures
            result == crate::rules::update_refusal(env@.state, *id),
    {
        match (env.admin(), env.issuer(id)) {
            (Some(_), Some(record)) => if record.status == IssuerStatus::Revoked {
                Some(IssuerError::IssuerRevoked)
            } else {
                None
            },
            _ => Some(IssuerError::IssuerNotFound),
        }
    }

    fn status_refusal(env: &Env, id: &BytesN<32>, status: IssuerStatus) -> (result: Option<
        IssuerError,
    >)
        ensures
            result == crate::rules::status_refusal(env@.state, env@.timestamp, *id, status),
    {
        let previous = match (env.admin(), env.issuer(id)) {
            (Some(_), Some(record)) => record.status,
            _ => {
                return Some(IssuerError::IssuerNotFound);
            },
        };
        if previous == IssuerStatus::Revoked && status != IssuerStatus::Revoked {
            Some(IssuerError::InvalidTransition)
        } else if previous == IssuerStatus::Suspended && status == IssuerStatus::Active {
            if env.timestamp() < Self::get_earliest_reactivation(env, *id) {
                Some(IssuerError::ReactivationCooldownActive)
            } else if Self::get_active_issuer_count(env) >= Self::get_max_active_issuers(env) {
                Some(IssuerError::IssuerCapacityExceeded)
            } else {
                None
            }
        } else {
            None
        }
    }

    fn rotate_refusal(
        env: &Env,
        id: &BytesN<32>,
        address: &Address,
        valid_principal: bool,
    ) -> (result: Option<IssuerError>)
        ensures
            result == crate::rules::rotate_refusal(env@.state, *id, *address, valid_principal),
    {
        if env.admin().is_none() {
            return Some(IssuerError::IssuerNotFound);
        }
        if !valid_principal {
            return Some(IssuerError::InvalidAddress);
        }
        match env.issuer(id) {
            None => Some(IssuerError::IssuerNotFound),
            Some(record) => if record.status == IssuerStatus::Revoked {
                Some(IssuerError::IssuerRevoked)
            } else if address.same(&record.issuer_address) {
                Some(IssuerError::InvalidAddress)
            } else if env.address_issuer(address).is_some() {
                Some(IssuerError::IssuerAddressAlreadyRegistered)
            } else {
                None
            },
        }
    }

    /// Asks for the administrator's authorization, where there is one: a call
    /// that aborts does so only after that.
    fn demand_admin(env: &mut Env)
        ensures
            final(env)@ == old(env)@.asking(crate::rules::admin_demand(old(env)@.state)),
    {
        match Self::get_admin(env) {
            Ok(admin) => Self::require_auth(env, &admin),
            Err(_) => {
                assert(env@ =~= env@.asking(seq![]));
            },
        }
    }

    // ── issuers ─────────────────────────────────────────────────────────────

    /// [`IssuerRegistryContract::register_issuer`] for any input.
    pub fn try_register_issuer(
        env: &mut Env,
        issuer_id_hash: BytesN<32>,
        issuer_address: Address,
        metadata_hash: BytesN<32>,
        valid_principal: bool,
    ) -> (result: Result<(), Result<IssuerError, Abort>>)
        ensures
            match crate::rules::register_refusal(
                old(env)@.state,
                issuer_id_hash,
                issuer_address,
                valid_principal,
            ) {
                Some(error) => {
                    &&& result == Err::<(), Result<IssuerError, Abort>>(Ok(error))
                    &&& final(env)@ == old(env)@.asking(
                        crate::rules::register_demand(old(env)@.state, valid_principal),
                    )
                },
                None => match crate::rules::epoch_abort(old(env)@.state) {
                    Some(abort) => {
                        &&& result == Err::<(), Result<IssuerError, Abort>>(Err(abort))
                        &&& final(env)@ == old(env)@.asking(
                            crate::rules::admin_demand(old(env)@.state),
                        )
                    },
                    None => {
                        &&& result == Ok::<(), Result<IssuerError, Abort>>(())
                        &&& final(env)@ == old(env)@.after(
                            crate::rules::register_state(
                                old(env)@.state,
                                old(env)@.timestamp,
                                issuer_id_hash,
                                issuer_address,
                                metadata_hash,
                            ),
                            crate::rules::register_effects(
                                old(env)@,
                                issuer_id_hash,
                                issuer_address,
                                metadata_hash,
                            ),
                        )
                    },
                },
            },
            crate::replay::carried_out(
                old(env)@,
                final(env)@,
                (Call::RegisterIssuer {
                    id: issuer_id_hash,
                    address: issuer_address,
                    metadata: metadata_hash,
                    valid_principal,
                }),
            ),
            crate::replay::answer(
                old(env)@.state,
                old(env)@.timestamp,
                (Call::RegisterIssuer {
                    id: issuer_id_hash,
                    address: issuer_address,
                    metadata: metadata_hash,
                    valid_principal,
                }),
            ) == crate::replay::settled(result),
    {
        if Self::get_issuer_epoch(env) == u64::MAX && Self::register_refusal(
            env,
            &issuer_id_hash,
            &issuer_address,
            valid_principal,
        ).is_none() {
            Self::demand_admin(env);
            return Err(Err(Abort::EpochOverflow));
        }
        answered(
            Self::register_issuer(
                env,
                issuer_id_hash,
                issuer_address,
                metadata_hash,
                valid_principal,
            ),
        )
    }

    /// [`IssuerRegistryContract::update_issuer`] for any input.
    pub fn try_update_issuer(
        env: &mut Env,
        issuer_id_hash: BytesN<32>,
        metadata_hash: BytesN<32>,
    ) -> (result: Result<(), Result<IssuerError, Abort>>)
        ensures
            match crate::rules::update_refusal(old(env)@.state, issuer_id_hash) {
                Some(error) => {
                    &&& result == Err::<(), Result<IssuerError, Abort>>(Ok(error))
                    &&& final(env)@ == old(env)@.asking(crate::rules::admin_demand(old(env)@.state))
                },
                None => match crate::rules::epoch_abort(old(env)@.state) {
                    Some(abort) => {
                        &&& result == Err::<(), Result<IssuerError, Abort>>(Err(abort))
                        &&& final(env)@ == old(env)@.asking(
                            crate::rules::admin_demand(old(env)@.state),
                        )
                    },
                    None => {
                        &&& result == Ok::<(), Result<IssuerError, Abort>>(())
                        &&& final(env)@ == old(env)@.after(
                            crate::rules::update_state(
                                old(env)@.state,
                                old(env)@.timestamp,
                                issuer_id_hash,
                                metadata_hash,
                            ),
                            crate::rules::update_effects(old(env)@, issuer_id_hash, metadata_hash),
                        )
                    },
                },
            },
            crate::replay::carried_out(
                old(env)@,
                final(env)@,
                (Call::UpdateIssuer { id: issuer_id_hash, metadata: metadata_hash }),
            ),
            crate::replay::answer(
                old(env)@.state,
                old(env)@.timestamp,
                (Call::UpdateIssuer { id: issuer_id_hash, metadata: metadata_hash }),
            ) == crate::replay::settled(result),
    {
        if Self::get_issuer_epoch(env) == u64::MAX && Self::update_refusal(
            env,
            &issuer_id_hash,
        ).is_none() {
            Self::demand_admin(env);
            return Err(Err(Abort::EpochOverflow));
        }
        answered(Self::update_issuer(env, issuer_id_hash, metadata_hash))
    }

    /// [`IssuerRegistryContract::suspend_issuer`] for any input.
    pub fn try_suspend_issuer(
        env: &mut Env,
        issuer_id_hash: BytesN<32>,
    ) -> (result: Result<(), Result<IssuerError, Abort>>)
        ensures
            match crate::rules::status_refusal(
                old(env)@.state,
                old(env)@.timestamp,
                issuer_id_hash,
                IssuerStatus::Suspended,
            ) {
                Some(error) => {
                    &&& result == Err::<(), Result<IssuerError, Abort>>(Ok(error))
                    &&& final(env)@ == old(env)@.asking(crate::rules::admin_demand(old(env)@.state))
                },
                None => match crate::rules::epoch_abort(old(env)@.state) {
                    Some(abort) => {
                        &&& result == Err::<(), Result<IssuerError, Abort>>(Err(abort))
                        &&& final(env)@ == old(env)@.asking(
                            crate::rules::admin_demand(old(env)@.state),
                        )
                    },
                    None => {
                        &&& result == Ok::<(), Result<IssuerError, Abort>>(())
                        &&& final(env)@ == old(env)@.after(
                            crate::rules::status_state(
                                old(env)@.state,
                                old(env)@.timestamp,
                                issuer_id_hash,
                                IssuerStatus::Suspended,
                            ),
                            crate::rules::status_effects(
                                old(env)@,
                                issuer_id_hash,
                                IssuerStatus::Suspended,
                            ),
                        )
                    },
                },
            },
            crate::replay::carried_out(
                old(env)@,
                final(env)@,
                (Call::SetStatus { id: issuer_id_hash, status: IssuerStatus::Suspended }),
            ),
            crate::replay::answer(
                old(env)@.state,
                old(env)@.timestamp,
                (Call::SetStatus { id: issuer_id_hash, status: IssuerStatus::Suspended }),
            ) == crate::replay::settled(result),
    {
        if Self::get_issuer_epoch(env) == u64::MAX && Self::status_refusal(
            env,
            &issuer_id_hash,
            IssuerStatus::Suspended,
        ).is_none() {
            Self::demand_admin(env);
            return Err(Err(Abort::EpochOverflow));
        }
        answered(Self::suspend_issuer(env, issuer_id_hash))
    }

    /// [`IssuerRegistryContract::reactivate_issuer`] for any input.
    pub fn try_reactivate_issuer(
        env: &mut Env,
        issuer_id_hash: BytesN<32>,
    ) -> (result: Result<(), Result<IssuerError, Abort>>)
        ensures
            match crate::rules::status_refusal(
                old(env)@.state,
                old(env)@.timestamp,
                issuer_id_hash,
                IssuerStatus::Active,
            ) {
                Some(error) => {
                    &&& result == Err::<(), Result<IssuerError, Abort>>(Ok(error))
                    &&& final(env)@ == old(env)@.asking(crate::rules::admin_demand(old(env)@.state))
                },
                None => match crate::rules::epoch_abort(old(env)@.state) {
                    Some(abort) => {
                        &&& result == Err::<(), Result<IssuerError, Abort>>(Err(abort))
                        &&& final(env)@ == old(env)@.asking(
                            crate::rules::admin_demand(old(env)@.state),
                        )
                    },
                    None => {
                        &&& result == Ok::<(), Result<IssuerError, Abort>>(())
                        &&& final(env)@ == old(env)@.after(
                            crate::rules::status_state(
                                old(env)@.state,
                                old(env)@.timestamp,
                                issuer_id_hash,
                                IssuerStatus::Active,
                            ),
                            crate::rules::status_effects(
                                old(env)@,
                                issuer_id_hash,
                                IssuerStatus::Active,
                            ),
                        )
                    },
                },
            },
            crate::replay::carried_out(
                old(env)@,
                final(env)@,
                (Call::SetStatus { id: issuer_id_hash, status: IssuerStatus::Active }),
            ),
            crate::replay::answer(
                old(env)@.state,
                old(env)@.timestamp,
                (Call::SetStatus { id: issuer_id_hash, status: IssuerStatus::Active }),
            ) == crate::replay::settled(result),
    {
        if Self::get_issuer_epoch(env) == u64::MAX && Self::status_refusal(
            env,
            &issuer_id_hash,
            IssuerStatus::Active,
        ).is_none() {
            Self::demand_admin(env);
            return Err(Err(Abort::EpochOverflow));
        }
        answered(Self::reactivate_issuer(env, issuer_id_hash))
    }

    /// [`IssuerRegistryContract::revoke_issuer`] for any input.
    pub fn try_revoke_issuer(
        env: &mut Env,
        issuer_id_hash: BytesN<32>,
    ) -> (result: Result<(), Result<IssuerError, Abort>>)
        ensures
            match crate::rules::status_refusal(
                old(env)@.state,
                old(env)@.timestamp,
                issuer_id_hash,
                IssuerStatus::Revoked,
            ) {
                Some(error) => {
                    &&& result == Err::<(), Result<IssuerError, Abort>>(Ok(error))
                    &&& final(env)@ == old(env)@.asking(crate::rules::admin_demand(old(env)@.state))
                },
                None => match crate::rules::epoch_abort(old(env)@.state) {
                    Some(abort) => {
                        &&& result == Err::<(), Result<IssuerError, Abort>>(Err(abort))
                        &&& final(env)@ == old(env)@.asking(
                            crate::rules::admin_demand(old(env)@.state),
                        )
                    },
                    None => {
                        &&& result == Ok::<(), Result<IssuerError, Abort>>(())
                        &&& final(env)@ == old(env)@.after(
                            crate::rules::status_state(
                                old(env)@.state,
                                old(env)@.timestamp,
                                issuer_id_hash,
                                IssuerStatus::Revoked,
                            ),
                            crate::rules::status_effects(
                                old(env)@,
                                issuer_id_hash,
                                IssuerStatus::Revoked,
                            ),
                        )
                    },
                },
            },
            crate::replay::carried_out(
                old(env)@,
                final(env)@,
                (Call::SetStatus { id: issuer_id_hash, status: IssuerStatus::Revoked }),
            ),
            crate::replay::answer(
                old(env)@.state,
                old(env)@.timestamp,
                (Call::SetStatus { id: issuer_id_hash, status: IssuerStatus::Revoked }),
            ) == crate::replay::settled(result),
    {
        if Self::get_issuer_epoch(env) == u64::MAX && Self::status_refusal(
            env,
            &issuer_id_hash,
            IssuerStatus::Revoked,
        ).is_none() {
            Self::demand_admin(env);
            return Err(Err(Abort::EpochOverflow));
        }
        answered(Self::revoke_issuer(env, issuer_id_hash))
    }

    /// [`IssuerRegistryContract::rotate_issuer_address`] for any input.
    pub fn try_rotate_issuer_address(
        env: &mut Env,
        issuer_id_hash: BytesN<32>,
        new_address: Address,
        valid_principal: bool,
    ) -> (result: Result<(), Result<IssuerError, Abort>>)
        ensures
            match crate::rules::rotate_refusal(
                old(env)@.state,
                issuer_id_hash,
                new_address,
                valid_principal,
            ) {
                Some(error) => {
                    &&& result == Err::<(), Result<IssuerError, Abort>>(Ok(error))
                    &&& final(env)@ == old(env)@.asking(
                        crate::rules::register_demand(old(env)@.state, valid_principal),
                    )
                },
                None => match crate::rules::epoch_abort(old(env)@.state) {
                    Some(abort) => {
                        &&& result == Err::<(), Result<IssuerError, Abort>>(Err(abort))
                        &&& final(env)@ == old(env)@.asking(
                            crate::rules::admin_demand(old(env)@.state),
                        )
                    },
                    None => {
                        &&& result == Ok::<(), Result<IssuerError, Abort>>(())
                        &&& final(env)@ == old(env)@.after(
                            crate::rules::rotate_state(
                                old(env)@.state,
                                old(env)@.timestamp,
                                issuer_id_hash,
                                new_address,
                            ),
                            crate::rules::rotate_effects(old(env)@, issuer_id_hash, new_address),
                        )
                    },
                },
            },
            crate::replay::carried_out(
                old(env)@,
                final(env)@,
                (Call::RotateIssuerAddress {
                    id: issuer_id_hash,
                    address: new_address,
                    valid_principal,
                }),
            ),
            crate::replay::answer(
                old(env)@.state,
                old(env)@.timestamp,
                (Call::RotateIssuerAddress {
                    id: issuer_id_hash,
                    address: new_address,
                    valid_principal,
                }),
            ) == crate::replay::settled(result),
    {
        if Self::get_issuer_epoch(env) == u64::MAX && Self::rotate_refusal(
            env,
            &issuer_id_hash,
            &new_address,
            valid_principal,
        ).is_none() {
            Self::demand_admin(env);
            return Err(Err(Abort::EpochOverflow));
        }
        answered(Self::rotate_issuer_address(env, issuer_id_hash, new_address, valid_principal))
    }

    // ── upgrade governance ──────────────────────────────────────────────────

    /// [`IssuerRegistryContract::approve_upgrade`] for any input.
    pub fn try_approve_upgrade(env: &mut Env, wasm_hash: BytesN<32>, new_version: u32) -> (result:
        Result<(), Abort>)
        ensures
            match crate::rules::approve_abort(old(env)@.state, new_version) {
                Some(abort) => result == Err::<(), Abort>(abort) && final(env)@ == old(env)@.asking(
                    crate::rules::admin_demand(old(env)@.state),
                ),
                None => result == Ok::<(), Abort>(()) && final(env)@ == old(env)@.after(
                    crate::rules::approve_state(old(env)@.state, wasm_hash, new_version),
                    crate::rules::approve_effects(old(env)@, wasm_hash, new_version),
                ),
            },
            crate::replay::carried_out(
                old(env)@,
                final(env)@,
                (Call::ApproveUpgrade { hash: wasm_hash, new_version }),
            ),
            crate::replay::answer(
                old(env)@.state,
                old(env)@.timestamp,
                (Call::ApproveUpgrade { hash: wasm_hash, new_version }),
            ) == crate::replay::stopped(result),
    {
        if env.admin().is_none() {
            Self::demand_admin(env);
            return Err(Abort::NotInitialized);
        }
        if new_version <= Self::get_contract_version(env) {
            Self::demand_admin(env);
            return Err(Abort::VersionNotGreater);
        }
        Self::approve_upgrade(env, wasm_hash, new_version);
        Ok(())
    }

    /// [`IssuerRegistryContract::revoke_upgrade`] for any input.
    pub fn try_revoke_upgrade(env: &mut Env, wasm_hash: BytesN<32>) -> (result: Result<(), Abort>)
        ensures
            match crate::rules::withdraw_abort(old(env)@.state) {
                Some(abort) => result == Err::<(), Abort>(abort) && final(env)@ == old(env)@.asking(
                    crate::rules::admin_demand(old(env)@.state),
                ),
                None => result == Ok::<(), Abort>(()) && final(env)@ == old(env)@.after(
                    crate::rules::withdraw_state(old(env)@.state, wasm_hash),
                    crate::rules::withdraw_effects(old(env)@, wasm_hash),
                ),
            },
            crate::replay::carried_out(
                old(env)@,
                final(env)@,
                (Call::RevokeUpgrade { hash: wasm_hash }),
            ),
            crate::replay::answer(
                old(env)@.state,
                old(env)@.timestamp,
                (Call::RevokeUpgrade { hash: wasm_hash }),
            ) == crate::replay::stopped(result),
    {
        if env.admin().is_none() {
            Self::demand_admin(env);
            return Err(Abort::NotInitialized);
        }
        Self::revoke_upgrade(env, wasm_hash);
        Ok(())
    }

    /// [`IssuerRegistryContract::upgrade_contract`] for any input.
    pub fn try_upgrade_contract(env: &mut Env, wasm_hash: BytesN<32>) -> (result: Result<(), Abort>)
        ensures
            match crate::rules::upgrade_abort(old(env)@.state, wasm_hash) {
                Some(abort) => result == Err::<(), Abort>(abort) && final(env)@ == old(env)@.asking(
                    crate::rules::admin_demand(old(env)@.state),
                ),
                None => result == Ok::<(), Abort>(()) && final(env)@ == old(env)@.after(
                    crate::rules::upgrade_state(old(env)@.state, wasm_hash),
                    crate::rules::upgrade_effects(old(env)@, wasm_hash),
                ),
            },
            crate::replay::carried_out(
                old(env)@,
                final(env)@,
                (Call::UpgradeContract { hash: wasm_hash }),
            ),
            crate::replay::answer(
                old(env)@.state,
                old(env)@.timestamp,
                (Call::UpgradeContract { hash: wasm_hash }),
            ) == crate::replay::stopped(result),
    {
        if env.admin().is_none() {
            Self::demand_admin(env);
            return Err(Abort::NotInitialized);
        }
        if !Self::is_upgrade_allowed(env, wasm_hash) {
            Self::demand_admin(env);
            return Err(Abort::NotAllowlisted);
        }
        if let Some(new_version) = env.allowed_wasm(&wasm_hash) {
            if new_version <= Self::get_contract_version(env) {
                Self::demand_admin(env);
                return Err(Abort::VersionNotAdvanced);
            }
        }
        Self::upgrade_contract(env, wasm_hash);
        Ok(())
    }
}

} // verus!
