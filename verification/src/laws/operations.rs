//! What each operation is for: which answer it owes to which inputs, and what is
//! on the ledger afterwards.

use crate::bytes::{Address, BytesN};
use crate::env::{DataKey, Entry, State};
use crate::laws::entries::{has_entry, same_but};
use crate::laws::{accepted, step, Call};
use crate::model::{ContractError, IssuerError, IssuerStatus};
use crate::replay::{answer, Answer};
use crate::rules::{issuer_answer, issuer_by_address_answer, Abort};
use vstd::prelude::*;

verus! {

// ---------------------------------------------------------------------------
// initialize, migrate
// ---------------------------------------------------------------------------

/// Initialization succeeds exactly where there is no administrator yet and the
/// proposed one is a valid principal; an administrator in place is named as the
/// reason before an invalid proposal is.
pub proof fn law_initialize_owes(s: State, now: u64, admin: Address, valid_principal: bool)
    ensures
        ({
            let a = answer(s, now, Call::Initialize { admin, valid_principal });
            &&& a is Done <==> s.admin is None && valid_principal
            &&& a == Answer::ContractRefused(ContractError::AlreadyInitialized) <==> s.admin is Some
            &&& a == Answer::ContractRefused(ContractError::InvalidInput) <==> s.admin is None
                && !valid_principal
        }),
{
}

/// Initialization puts the administrator and the starting figures on record, and
/// nothing else.
pub proof fn law_initialize_records(s: State, now: u64, admin: Address, valid_principal: bool)
    requires
        accepted(s, now, Call::Initialize { admin, valid_principal }),
    ensures
        ({
            let t = step(s, now, Call::Initialize { admin, valid_principal });
            &&& has_entry(t, Entry::Admin(admin))
            &&& has_entry(t, Entry::ContractVersion(1))
            &&& has_entry(t, Entry::IssuerEpoch(0))
            &&& has_entry(t, Entry::MaxActiveIssuers(u32::MAX))
            &&& has_entry(t, Entry::ActiveIssuerCount(0))
            &&& has_entry(t, Entry::ReactivationCooldown(0))
            &&& same_but(
                s,
                t,
                set![
                    DataKey::Admin,
                    DataKey::ContractVersion,
                    DataKey::IssuerEpoch,
                    DataKey::MaxActiveIssuers,
                    DataKey::ActiveIssuerCount,
                    DataKey::ReactivationCooldown,
                ],
            )
        }),
{
}

/// Migration succeeds exactly where there is an administrator.
pub proof fn law_migrate_owes(s: State, now: u64, active_issuer_count: u32)
    ensures
        ({
            let a = answer(s, now, Call::Migrate { active_issuer_count });
            &&& a is Done <==> s.admin is Some
            &&& a == Answer::Refused(IssuerError::IssuerNotFound) <==> s.admin is None
        }),
{
}

/// Migration puts the number it is handed on record, and each of the other three
/// figures at its default where it was absent; a figure that was there is kept.
pub proof fn law_migrate_records(s: State, now: u64, active_issuer_count: u32)
    requires
        accepted(s, now, Call::Migrate { active_issuer_count }),
    ensures
        ({
            let t = step(s, now, Call::Migrate { active_issuer_count });
            &&& has_entry(t, Entry::ActiveIssuerCount(active_issuer_count))
            &&& s.issuer_epoch is Some ==> t.issuer_epoch == s.issuer_epoch
            &&& s.issuer_epoch is None ==> has_entry(t, Entry::IssuerEpoch(0))
            &&& s.max_active_issuers is Some ==> t.max_active_issuers == s.max_active_issuers
            &&& s.max_active_issuers is None ==> has_entry(t, Entry::MaxActiveIssuers(u32::MAX))
            &&& s.reactivation_cooldown is Some ==> t.reactivation_cooldown
                == s.reactivation_cooldown
            &&& s.reactivation_cooldown is None ==> has_entry(t, Entry::ReactivationCooldown(0))
            &&& same_but(
                s,
                t,
                set![
                    DataKey::IssuerEpoch,
                    DataKey::MaxActiveIssuers,
                    DataKey::ActiveIssuerCount,
                    DataKey::ReactivationCooldown,
                ],
            )
        }),
{
}

// ---------------------------------------------------------------------------
// register_issuer
// ---------------------------------------------------------------------------

/// A registration succeeds exactly where there is an administrator, the address
/// is a valid principal, the id and the address are free, the count lies below
/// the bound and the epoch can advance. Otherwise the first of these that fails
/// is the answer.
pub proof fn law_register_owes(
    s: State,
    now: u64,
    id: BytesN<32>,
    address: Address,
    metadata: BytesN<32>,
    valid_principal: bool,
)
    ensures
        ({
            let a = answer(s, now, Call::RegisterIssuer { id, address, metadata, valid_principal });
            let heard = s.admin is Some && valid_principal;
            let id_free = !s.issuers.contains_key(id);
            let address_free = !s.address_issuers.contains_key(address);
            let room = s.active_count() < s.max_active();
            &&& a is Done <==> heard && id_free && address_free && room && s.epoch() < u64::MAX
            &&& a == Answer::Refused(IssuerError::IssuerNotFound) <==> s.admin is None
            &&& a == Answer::Refused(IssuerError::InvalidAddress) <==> s.admin is Some
                && !valid_principal
            &&& a == Answer::Refused(IssuerError::IssuerAlreadyRegistered) <==> heard && !id_free
            &&& a == Answer::Refused(IssuerError::IssuerAddressAlreadyRegistered) <==> heard
                && id_free && !address_free
            &&& a == Answer::Refused(IssuerError::IssuerCapacityExceeded) <==> heard && id_free
                && address_free && !room
            &&& a == Answer::Aborted(Abort::EpochOverflow) <==> heard && id_free && address_free
                && room && s.epoch() == u64::MAX
        }),
{
}

/// A registration puts an active issuer on record with the id, the address, the
/// metadata and the time that it was called with, makes the address lead to it,
/// takes a slot and advances the epoch; nothing else changes.
pub proof fn law_register_records(
    s: State,
    now: u64,
    id: BytesN<32>,
    address: Address,
    metadata: BytesN<32>,
    valid_principal: bool,
)
    requires
        accepted(s, now, Call::RegisterIssuer { id, address, metadata, valid_principal }),
    ensures
        ({
            let t = step(s, now, Call::RegisterIssuer { id, address, metadata, valid_principal });
            let record = issuer_answer(t, id)->Ok_0;
            &&& issuer_answer(t, id) is Ok
            &&& record.issuer_id_hash == id
            &&& record.issuer_address == address
            &&& record.metadata_hash == metadata
            &&& record.status == IssuerStatus::Active
            &&& record.created_at == now
            &&& record.updated_at == now
            &&& has_entry(t, Entry::Issuer(id, record))
            &&& has_entry(t, Entry::AddressIssuer(address, id))
            &&& t.active_issuer_count is Some
            &&& t.active_count() == s.active_count() + 1
            &&& t.issuer_epoch is Some
            &&& t.epoch() == s.epoch() + 1
            &&& same_but(
                s,
                t,
                set![
                    DataKey::Issuer(id),
                    DataKey::AddressIssuer(address),
                    DataKey::ActiveIssuerCount,
                    DataKey::IssuerEpoch,
                ],
            )
        }),
{
}

// ---------------------------------------------------------------------------
// update_issuer
// ---------------------------------------------------------------------------

/// An update succeeds exactly where there is an administrator, the issuer is on
/// record, active or suspended, and the epoch can advance.
pub proof fn law_update_owes(s: State, now: u64, id: BytesN<32>, metadata: BytesN<32>)
    ensures
        ({
            let a = answer(s, now, Call::UpdateIssuer { id, metadata });
            let known = s.admin is Some && s.issuers.contains_key(id);
            let live = s.issuers[id].status == IssuerStatus::Active || s.issuers[id].status
                == IssuerStatus::Suspended;
            &&& a is Done <==> known && live && s.epoch() < u64::MAX
            &&& a == Answer::Refused(IssuerError::IssuerNotFound) <==> !known
            &&& a == Answer::Refused(IssuerError::IssuerRevoked) <==> known && !live
            &&& a == Answer::Aborted(Abort::EpochOverflow) <==> known && live && s.epoch()
                == u64::MAX
        }),
{
}

/// After an update the issuer has the metadata that the call was made with, as of
/// the time of the call, and is otherwise what it was, whatever its status. The
/// epoch advances, and nothing else changes.
pub proof fn law_update_records(s: State, now: u64, id: BytesN<32>, metadata: BytesN<32>)
    requires
        accepted(s, now, Call::UpdateIssuer { id, metadata }),
    ensures
        ({
            let t = step(s, now, Call::UpdateIssuer { id, metadata });
            let record = issuer_answer(t, id)->Ok_0;
            &&& issuer_answer(t, id) is Ok
            &&& has_entry(t, Entry::Issuer(id, record))
            &&& record.metadata_hash == metadata
            &&& record.updated_at == now
            &&& record.issuer_id_hash == s.issuers[id].issuer_id_hash
            &&& record.issuer_address == s.issuers[id].issuer_address
            &&& record.status == s.issuers[id].status
            &&& record.created_at == s.issuers[id].created_at
            &&& t.issuer_epoch is Some
            &&& t.epoch() == s.epoch() + 1
            &&& same_but(s, t, set![DataKey::Issuer(id), DataKey::IssuerEpoch])
        }),
{
}

/// Of two updates the later one counts: the issuer is as if the first had never
/// been made.
pub proof fn law_last_update_counts(
    s: State,
    now: u64,
    later: u64,
    id: BytesN<32>,
    first: BytesN<32>,
    second: BytesN<32>,
)
    requires
        accepted(s, now, Call::UpdateIssuer { id, metadata: first }),
        s.epoch() + 2 <= u64::MAX,
    ensures
        ({
            let t = step(s, now, Call::UpdateIssuer { id, metadata: first });
            &&& accepted(t, later, Call::UpdateIssuer { id, metadata: second })
            &&& step(t, later, Call::UpdateIssuer { id, metadata: second }).issuers == step(
                s,
                later,
                Call::UpdateIssuer { id, metadata: second },
            ).issuers
        }),
{
    let t = step(s, now, Call::UpdateIssuer { id, metadata: first });
    assert(step(t, later, Call::UpdateIssuer { id, metadata: second }).issuers =~= step(
        s,
        later,
        Call::UpdateIssuer { id, metadata: second },
    ).issuers);
}

// ---------------------------------------------------------------------------
// suspend_issuer, reactivate_issuer, revoke_issuer
// ---------------------------------------------------------------------------

/// A change of status is refused where the issuer is unknown; where it is revoked
/// and is to be anything else; and, for a suspended issuer that is to be active,
/// before its deadline and then where the count has reached the bound. It aborts
/// where the epoch cannot advance, and succeeds in every other case.
pub proof fn law_status_owes(s: State, now: u64, id: BytesN<32>, status: IssuerStatus)
    ensures
        ({
            let a = answer(s, now, Call::SetStatus { id, status });
            let known = s.admin is Some && s.issuers.contains_key(id);
            let final_state = s.issuers[id].status == IssuerStatus::Revoked && status
                != IssuerStatus::Revoked;
            let back = s.issuers[id].status == IssuerStatus::Suspended && status
                == IssuerStatus::Active;
            let early = back && s.reactivatable_at.contains_key(id) && now
                < s.reactivatable_at[id];
            let full = back && s.active_count() >= s.max_active();
            &&& a is Done <==> known && !final_state && !early && !full && s.epoch() < u64::MAX
            &&& a == Answer::Refused(IssuerError::IssuerNotFound) <==> !known
            &&& a == Answer::Refused(IssuerError::InvalidTransition) <==> known && final_state
            &&& a == Answer::Refused(IssuerError::ReactivationCooldownActive) <==> known && early
            &&& a == Answer::Refused(IssuerError::IssuerCapacityExceeded) <==> known && !early
                && full
            &&& a == Answer::Aborted(Abort::EpochOverflow) <==> known && !final_state && !early
                && !full && s.epoch() == u64::MAX
        }),
{
}

/// After a change of status the issuer can be read with that status, as of the
/// time of the call, and is otherwise what it was. The epoch advances. Besides
/// these only the count and the deadline of that issuer can change.
pub proof fn law_status_records(s: State, now: u64, id: BytesN<32>, status: IssuerStatus)
    requires
        accepted(s, now, Call::SetStatus { id, status }),
    ensures
        ({
            let t = step(s, now, Call::SetStatus { id, status });
            let record = issuer_answer(t, id)->Ok_0;
            &&& issuer_answer(t, id) is Ok
            &&& has_entry(t, Entry::Issuer(id, record))
            &&& record.status == status
            &&& record.updated_at == now
            &&& record.issuer_id_hash == s.issuers[id].issuer_id_hash
            &&& record.issuer_address == s.issuers[id].issuer_address
            &&& record.metadata_hash == s.issuers[id].metadata_hash
            &&& record.created_at == s.issuers[id].created_at
            &&& t.is_active(id) <==> status == IssuerStatus::Active
            &&& t.issuer_epoch is Some
            &&& t.epoch() == s.epoch() + 1
            &&& same_but(
                s,
                t,
                set![
                    DataKey::Issuer(id),
                    DataKey::IssuerEpoch,
                    DataKey::ActiveIssuerCount,
                    DataKey::ReactivatableAt(id),
                ],
            )
        }),
{
}

/// The count follows the status: one more where an issuer becomes active, one
/// less (but not below 0) where it ceases to be, and untouched otherwise.
pub proof fn law_status_moves_the_count(s: State, now: u64, id: BytesN<32>, status: IssuerStatus)
    requires
        accepted(s, now, Call::SetStatus { id, status }),
    ensures
        ({
            let t = step(s, now, Call::SetStatus { id, status });
            &&& !s.is_active(id) && t.is_active(id) ==> {
                &&& t.active_issuer_count is Some
                &&& t.active_count() == s.active_count() + 1
                &&& t.active_count() <= t.max_active()
            }
            &&& s.is_active(id) && !t.is_active(id) ==> {
                &&& t.active_issuer_count is Some
                &&& s.active_count() > 0 ==> t.active_count() == s.active_count() - 1
                &&& s.active_count() == 0 ==> t.active_count() == 0
            }
            &&& s.is_active(id) == t.is_active(id) ==> t.active_issuer_count
                == s.active_issuer_count
        }),
{
}

/// The deadline follows the status: a suspension fixes it at the time of the call
/// plus the cooldown in force (held at the end of time), whether or not the
/// issuer was suspended already; to leave a suspension takes it off the record;
/// any other change leaves it as it was.
pub proof fn law_status_moves_the_deadline(
    s: State,
    now: u64,
    id: BytesN<32>,
    status: IssuerStatus,
)
    requires
        accepted(s, now, Call::SetStatus { id, status }),
    ensures
        ({
            let t = step(s, now, Call::SetStatus { id, status });
            let suspended = s.issuers[id].status == IssuerStatus::Suspended;
            &&& status == IssuerStatus::Suspended ==> {
                &&& t.reactivatable_at.contains_key(id)
                &&& now + s.cooldown() <= u64::MAX ==> t.reactivatable_at[id] == now + s.cooldown()
                &&& now + s.cooldown() > u64::MAX ==> t.reactivatable_at[id] == u64::MAX
            }
            &&& status != IssuerStatus::Suspended && suspended
                ==> !t.reactivatable_at.contains_key(id)
            &&& status != IssuerStatus::Suspended && !suspended ==> t.reactivatable_at
                == s.reactivatable_at
        }),
{
}

/// Between its suspension and the end of the cooldown then in force an issuer is
/// refused; at the end it is not, where there is room.
pub proof fn law_cooldown_runs_from_the_suspension(
    s: State,
    now: u64,
    later: u64,
    id: BytesN<32>,
)
    requires
        accepted(s, now, Call::SetStatus { id, status: IssuerStatus::Suspended }),
        now + s.cooldown() <= u64::MAX,
        s.epoch() + 2 <= u64::MAX,
    ensures
        ({
            let t = step(s, now, Call::SetStatus { id, status: IssuerStatus::Suspended });
            let a = answer(t, later, Call::SetStatus { id, status: IssuerStatus::Active });
            &&& a == Answer::Refused(IssuerError::ReactivationCooldownActive) <==> later < now
                + s.cooldown()
            &&& a is Done <==> later >= now + s.cooldown() && t.active_count() < t.max_active()
        }),
{
}

// ---------------------------------------------------------------------------
// rotate_issuer_address
// ---------------------------------------------------------------------------

/// A rotation succeeds exactly where there is an administrator, the new address
/// is a valid principal, the issuer is on record, active or suspended, the
/// address is neither the one in use nor that of another issuer, and the epoch
/// can advance. Otherwise the first of these that fails is the answer.
pub proof fn law_rotate_owes(
    s: State,
    now: u64,
    id: BytesN<32>,
    address: Address,
    valid_principal: bool,
)
    ensures
        ({
            let a = answer(s, now, Call::RotateIssuerAddress { id, address, valid_principal });
            let heard = s.admin is Some && valid_principal;
            let known = s.issuers.contains_key(id);
            let live = s.issuers[id].status == IssuerStatus::Active || s.issuers[id].status
                == IssuerStatus::Suspended;
            let differs = s.issuers[id].issuer_address != address;
            let free = !s.address_issuers.contains_key(address);
            &&& a is Done <==> heard && known && live && differs && free && s.epoch() < u64::MAX
            &&& a == Answer::Refused(IssuerError::IssuerNotFound) <==> s.admin is None || (heard
                && !known)
            &&& a == Answer::Refused(IssuerError::IssuerRevoked) <==> heard && known && !live
            &&& a == Answer::Refused(IssuerError::InvalidAddress) <==> (s.admin is Some
                && !valid_principal) || (heard && known && live && !differs)
            &&& a == Answer::Refused(IssuerError::IssuerAddressAlreadyRegistered) <==> heard
                && known && live && differs && !free
            &&& a == Answer::Aborted(Abort::EpochOverflow) <==> heard && known && live && differs
                && free && s.epoch() == u64::MAX
        }),
{
}

/// After a rotation the issuer is at the new address, as of the time of the call,
/// and is otherwise what it was, whatever its status; the new address leads to it
/// and the old one to nobody. The epoch advances, and nothing else changes.
pub proof fn law_rotate_records(
    s: State,
    now: u64,
    id: BytesN<32>,
    address: Address,
    valid_principal: bool,
)
    requires
        accepted(s, now, Call::RotateIssuerAddress { id, address, valid_principal }),
    ensures
        ({
            let t = step(s, now, Call::RotateIssuerAddress { id, address, valid_principal });
            let old_address = s.issuers[id].issuer_address;
            let record = issuer_answer(t, id)->Ok_0;
            &&& issuer_answer(t, id) is Ok
            &&& issuer_by_address_answer(t, address) == issuer_answer(t, id)
            &&& has_entry(t, Entry::Issuer(id, record))
            &&& record.issuer_address == address
            &&& record.updated_at == now
            &&& record.issuer_id_hash == s.issuers[id].issuer_id_hash
            &&& record.metadata_hash == s.issuers[id].metadata_hash
            &&& record.status == s.issuers[id].status
            &&& record.created_at == s.issuers[id].created_at
            &&& has_entry(t, Entry::AddressIssuer(address, id))
            &&& !t.address_issuers.contains_key(old_address)
            &&& t.issuer_epoch is Some
            &&& t.epoch() == s.epoch() + 1
            &&& same_but(
                s,
                t,
                set![
                    DataKey::Issuer(id),
                    DataKey::AddressIssuer(address),
                    DataKey::AddressIssuer(old_address),
                    DataKey::IssuerEpoch,
                ],
            )
        }),
{
}

/// A rotation can be undone: the old address is free, and to move back there
/// leaves the addresses as they were, where they led to the issuer before.
pub proof fn law_rotation_can_be_undone(
    s: State,
    now: u64,
    later: u64,
    id: BytesN<32>,
    address: Address,
)
    requires
        accepted(s, now, Call::RotateIssuerAddress { id, address, valid_principal: true }),
        has_entry(s, Entry::AddressIssuer(s.issuers[id].issuer_address, id)),
        s.epoch() + 2 <= u64::MAX,
    ensures
        ({
            let t = step(s, now, Call::RotateIssuerAddress { id, address, valid_principal: true });
            let home = Call::RotateIssuerAddress {
                id,
                address: s.issuers[id].issuer_address,
                valid_principal: true,
            };
            &&& accepted(t, later, home)
            &&& step(t, later, home).address_issuers == s.address_issuers
            &&& step(t, later, home).issuers[id].issuer_address == s.issuers[id].issuer_address
        }),
{
    let t = step(s, now, Call::RotateIssuerAddress { id, address, valid_principal: true });
    let home = Call::RotateIssuerAddress {
        id,
        address: s.issuers[id].issuer_address,
        valid_principal: true,
    };
    assert(step(t, later, home).address_issuers =~= s.address_issuers);
}

// ---------------------------------------------------------------------------
// set_max_active_issuers, set_reactivation_cooldown
// ---------------------------------------------------------------------------

/// A new bound is accepted exactly where there is an administrator and it does
/// not lie below the count, or that is allowed.
pub proof fn law_set_max_owes(s: State, now: u64, new_max: u32, allow_below_usage: bool)
    ensures
        ({
            let a = answer(s, now, Call::SetMaxActiveIssuers { new_max, allow_below_usage });
            let fits = allow_below_usage || s.active_count() <= new_max;
            &&& a is Done <==> s.admin is Some && fits
            &&& a == Answer::Refused(IssuerError::IssuerNotFound) <==> s.admin is None
            &&& a == Answer::Refused(IssuerError::MaxBelowActiveUsage) <==> s.admin is Some
                && !fits
        }),
{
}

/// The bound on record is the one that the call was made with, whatever it was
/// before, and nothing else changes.
pub proof fn law_set_max_records(s: State, now: u64, new_max: u32, allow_below_usage: bool)
    requires
        accepted(s, now, Call::SetMaxActiveIssuers { new_max, allow_below_usage }),
    ensures
        ({
            let t = step(s, now, Call::SetMaxActiveIssuers { new_max, allow_below_usage });
            &&& has_entry(t, Entry::MaxActiveIssuers(new_max))
            &&& t.max_active() == new_max
            &&& same_but(s, t, set![DataKey::MaxActiveIssuers])
        }),
{
}

/// A new cooldown is accepted exactly where there is an administrator.
pub proof fn law_set_cooldown_owes(s: State, now: u64, cooldown_seconds: u64)
    ensures
        ({
            let a = answer(s, now, Call::SetReactivationCooldown { cooldown_seconds });
            &&& a is Done <==> s.admin is Some
            &&& a == Answer::Refused(IssuerError::IssuerNotFound) <==> s.admin is None
        }),
{
}

/// The cooldown on record is the one that the call was made with, whether longer
/// or shorter than before, and nothing else changes.
pub proof fn law_set_cooldown_records(s: State, now: u64, cooldown_seconds: u64)
    requires
        s.admin is Some,
    ensures
        ({
            let t = step(s, now, Call::SetReactivationCooldown { cooldown_seconds });
            &&& has_entry(t, Entry::ReactivationCooldown(cooldown_seconds))
            &&& t.cooldown() == cooldown_seconds
            &&& same_but(s, t, set![DataKey::ReactivationCooldown])
        }),
{
}

/// A suspension after a new cooldown has been set runs for that cooldown, whatever
/// it was before.
pub proof fn law_new_cooldown_governs_later_suspensions(
    s: State,
    set_at: u64,
    now: u64,
    id: BytesN<32>,
    cooldown_seconds: u64,
)
    requires
        accepted(s, now, Call::SetStatus { id, status: IssuerStatus::Suspended }),
        now + cooldown_seconds <= u64::MAX,
    ensures
        ({
            let t = step(s, set_at, Call::SetReactivationCooldown { cooldown_seconds });
            let u = step(t, now, Call::SetStatus { id, status: IssuerStatus::Suspended });
            &&& accepted(t, now, Call::SetStatus { id, status: IssuerStatus::Suspended })
            &&& u.earliest_reactivation(id) == now + cooldown_seconds
        }),
{
}

// ---------------------------------------------------------------------------
// approve_upgrade, revoke_upgrade, upgrade_contract
// ---------------------------------------------------------------------------

/// An approval succeeds exactly where there is an administrator and the version
/// lies above the current one.
pub proof fn law_approve_owes(s: State, now: u64, hash: BytesN<32>, new_version: u32)
    ensures
        ({
            let a = answer(s, now, Call::ApproveUpgrade { hash, new_version });
            &&& a is Done <==> s.admin is Some && new_version > s.version()
            &&& a == Answer::Aborted(Abort::NotInitialized) <==> s.admin is None
            &&& a == Answer::Aborted(Abort::VersionNotGreater) <==> s.admin is Some && new_version
                <= s.version()
        }),
{
}

/// An approval puts the hash on the allowlist for the version that the call was
/// made with, in place of any earlier one, and changes nothing else.
pub proof fn law_approve_records(s: State, now: u64, hash: BytesN<32>, new_version: u32)
    requires
        accepted(s, now, Call::ApproveUpgrade { hash, new_version }),
    ensures
        ({
            let t = step(s, now, Call::ApproveUpgrade { hash, new_version });
            &&& has_entry(t, Entry::AllowedWasm(hash, new_version))
            &&& same_but(s, t, set![DataKey::AllowedWasm(hash)])
        }),
{
}

/// A withdrawal succeeds exactly where there is an administrator.
pub proof fn law_withdraw_owes(s: State, now: u64, hash: BytesN<32>)
    ensures
        ({
            let a = answer(s, now, Call::RevokeUpgrade { hash });
            &&& a is Done <==> s.admin is Some
            &&& a == Answer::Aborted(Abort::NotInitialized) <==> s.admin is None
        }),
{
}

/// After a withdrawal the hash is not on the allowlist, whether or not it was
/// before, and nothing else has changed.
pub proof fn law_withdraw_records(s: State, now: u64, hash: BytesN<32>)
    requires
        accepted(s, now, Call::RevokeUpgrade { hash }),
    ensures
        ({
            let t = step(s, now, Call::RevokeUpgrade { hash });
            &&& !t.allowed_wasm.contains_key(hash)
            &&& same_but(s, t, set![DataKey::AllowedWasm(hash)])
        }),
{
}

/// An upgrade succeeds exactly where there is an administrator and the hash is on
/// the allowlist for a version above the current one.
pub proof fn law_upgrade_owes(s: State, now: u64, hash: BytesN<32>)
    ensures
        ({
            let a = answer(s, now, Call::UpgradeContract { hash });
            let listed = s.allowed_wasm.contains_key(hash);
            let ahead = s.allowed_wasm[hash] > s.version();
            &&& a is Done <==> s.admin is Some && listed && ahead
            &&& a == Answer::Aborted(Abort::NotInitialized) <==> s.admin is None
            &&& a == Answer::Aborted(Abort::NotAllowlisted) <==> s.admin is Some && !listed
            &&& a == Answer::Aborted(Abort::VersionNotAdvanced) <==> s.admin is Some && listed
                && !ahead
        }),
{
}

/// After an upgrade the version is the approved one, the approval is used up, and
/// nothing else has changed.
pub proof fn law_upgrade_records(s: State, now: u64, hash: BytesN<32>, new_version: u32)
    requires
        accepted(s, now, Call::UpgradeContract { hash }),
        has_entry(s, Entry::AllowedWasm(hash, new_version)),
    ensures
        ({
            let t = step(s, now, Call::UpgradeContract { hash });
            &&& has_entry(t, Entry::ContractVersion(new_version))
            &&& t.version() == new_version
            &&& !t.allowed_wasm.contains_key(hash)
            &&& same_but(s, t, set![DataKey::AllowedWasm(hash), DataKey::ContractVersion])
        }),
{
}

/// What has been approved can be applied, and leads to the approved version.
pub proof fn law_approval_enables_the_upgrade(
    s: State,
    now: u64,
    later: u64,
    hash: BytesN<32>,
    new_version: u32,
)
    requires
        accepted(s, now, Call::ApproveUpgrade { hash, new_version }),
    ensures
        ({
            let t = step(s, now, Call::ApproveUpgrade { hash, new_version });
            &&& accepted(t, later, Call::UpgradeContract { hash })
            &&& step(t, later, Call::UpgradeContract { hash }).version() == new_version
        }),
{
}

} // verus!
