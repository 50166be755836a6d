//! What holds of every call and of every history of calls.

pub mod entries;
pub mod operations;

use crate::bytes::{Address, BytesN};
use crate::env::State;
use crate::model::{IssuerError, IssuerStatus};
use crate::rules::{
    approve_abort, approve_state, epoch_abort, initialize_refusal, initialize_state, issuer_answer,
    issuer_by_address_answer, migrate_refusal, migrate_state, new_record, reactivation_deadline,
    register_refusal, register_state, release_state, released_count, reserve_state, rotate_refusal,
    rotate_state, set_cooldown_refusal, set_cooldown_state, set_max_refusal, set_max_state,
    status_refusal, status_state, update_refusal, update_state, upgrade_abort, upgrade_state,
    with_address, with_status, withdraw_abort, withdraw_state, Abort,
};
use vstd::prelude::*;

verus! {

/// A call that can change the ledger. `valid_principal` says whether the address
/// in the call can act as a principal.
pub enum Call {
    Initialize { admin: Address, valid_principal: bool },
    Migrate { active_issuer_count: u32 },
    RegisterIssuer {
        id: BytesN<32>,
        address: Address,
        metadata: BytesN<32>,
        valid_principal: bool,
    },
    UpdateIssuer { id: BytesN<32>, metadata: BytesN<32> },
    /// `suspend_issuer`, `reactivate_issuer` or `revoke_issuer`.
    SetStatus { id: BytesN<32>, status: IssuerStatus },
    RotateIssuerAddress { id: BytesN<32>, address: Address, valid_principal: bool },
    SetMaxActiveIssuers { new_max: u32, allow_below_usage: bool },
    SetReactivationCooldown { cooldown_seconds: u64 },
    ApproveUpgrade { hash: BytesN<32>, new_version: u32 },
    RevokeUpgrade { hash: BytesN<32> },
    UpgradeContract { hash: BytesN<32> },
}

/// Whether a call is one of those that change an issuer.
pub open spec fn changes_issuer(call: Call) -> bool {
    ||| call is RegisterIssuer
    ||| call is UpdateIssuer
    ||| call is SetStatus
    ||| call is RotateIssuerAddress
}

/// Whether a call at time `now` is neither refused nor aborted.
pub open spec fn accepted(s: State, now: u64, call: Call) -> bool {
    &&& changes_issuer(call) ==> epoch_abort(s) is None
    &&& match call {
        Call::Initialize { valid_principal, .. } => initialize_refusal(s, valid_principal) is None,
        Call::Migrate { .. } => migrate_refusal(s) is None,
        Call::RegisterIssuer { id, address, valid_principal, .. } => register_refusal(
            s,
            id,
            address,
            valid_principal,
        ) is None,
        Call::UpdateIssuer { id, .. } => update_refusal(s, id) is None,
        Call::SetStatus { id, status } => status_refusal(s, now, id, status) is None,
        Call::RotateIssuerAddress { id, address, valid_principal } => rotate_refusal(
            s,
            id,
            address,
            valid_principal,
        ) is None,
        Call::SetMaxActiveIssuers { new_max, allow_below_usage } => set_max_refusal(
            s,
            new_max,
            allow_below_usage,
        ) is None,
        Call::SetReactivationCooldown { .. } => set_cooldown_refusal(s) is None,
        Call::ApproveUpgrade { new_version, .. } => approve_abort(s, new_version) is None,
        Call::RevokeUpgrade { .. } => withdraw_abort(s) is None,
        Call::UpgradeContract { hash } => upgrade_abort(s, hash) is None,
    }
}

/// The ledger after a call at time `now`.
pub open spec fn step(s: State, now: u64, call: Call) -> State {
    if !accepted(s, now, call) {
        s
    } else {
        match call {
            Call::Initialize { admin, .. } => initialize_state(s, admin),
            Call::Migrate { active_issuer_count } => migrate_state(s, active_issuer_count),
            Call::RegisterIssuer { id, address, metadata, .. } => register_state(
                s,
                now,
                id,
                address,
                metadata,
            ),
            Call::UpdateIssuer { id, metadata } => update_state(s, now, id, metadata),
            Call::SetStatus { id, status } => status_state(s, now, id, status),
            Call::RotateIssuerAddress { id, address, .. } => rotate_state(s, now, id, address),
            Call::SetMaxActiveIssuers { new_max, .. } => set_max_state(s, new_max),
            Call::SetReactivationCooldown { cooldown_seconds } => set_cooldown_state(
                s,
                cooldown_seconds,
            ),
            Call::ApproveUpgrade { hash, new_version } => approve_state(s, hash, new_version),
            Call::RevokeUpgrade { hash } => withdraw_state(s, hash),
            Call::UpgradeContract { hash } => upgrade_state(s, hash),
        }
    }
}

/// The ledger after a history of calls, each with its time, the earliest first.
pub open spec fn run(s: State, history: Seq<(u64, Call)>) -> State
    decreases history.len(),
{
    if history.len() == 0 {
        s
    } else {
        step(run(s, history.drop_last()), history.last().0, history.last().1)
    }
}

// ---------------------------------------------------------------------------
// Initialization
// ---------------------------------------------------------------------------

/// Before the contract has an administrator, no call but `initialize` changes
/// anything.
pub proof fn law_nothing_before_initialization(s: State, now: u64, call: Call)
    requires
        s.admin is None,
        !(call is Initialize),
    ensures
        !accepted(s, now, call),
        step(s, now, call) == s,
{
}

/// Initialization gives the contract its administrator and the documented
/// starting figures.
pub proof fn law_initial_figures(s: State, now: u64, admin: Address)
    requires
        s.admin is None,
    ensures
        ({
            let t = step(s, now, Call::Initialize { admin, valid_principal: true });
            &&& t.admin == Some(admin)
            &&& t.version() == 1
            &&& t.epoch() == 0
            &&& t.active_count() == 0
            &&& t.max_active() == u32::MAX
            &&& t.cooldown() == 0
        }),
{
}

/// A contract that has an administrator keeps that one through any history of
/// calls: no second initialization, by whomever, gets through.
pub proof fn law_admin_is_permanent(s: State, history: Seq<(u64, Call)>)
    requires
        s.admin is Some,
    ensures
        run(s, history).admin == s.admin,
    decreases history.len(),
{
    if history.len() > 0 {
        law_admin_is_permanent(s, history.drop_last());
    }
}

/// To migrate twice with the same count is to migrate once, and apart from the
/// count no figure that can be read changes.
pub proof fn law_migration_is_idempotent(s: State, count: u32)
    ensures
        migrate_state(migrate_state(s, count), count) == migrate_state(s, count),
        migrate_state(s, count).epoch() == s.epoch(),
        migrate_state(s, count).max_active() == s.max_active(),
        migrate_state(s, count).cooldown() == s.cooldown(),
        migrate_state(s, count).active_count() == count,
{
}

// ---------------------------------------------------------------------------
// Epoch
// ---------------------------------------------------------------------------

/// On a contract that has an administrator, the epoch advances by exactly one
/// on every accepted change of an issuer, and on nothing else.
pub proof fn law_epoch_counts_changes(s: State, now: u64, call: Call)
    requires
        s.admin is Some,
    ensures
        step(s, now, call).epoch() == s.epoch() + (if accepted(s, now, call) && changes_issuer(
            call,
        ) {
            1int
        } else {
            0int
        }),
{
}

/// A stable epoch means that no issuer has changed: where the epoch is the same
/// after a history of calls, so are the records and the addresses.
pub proof fn law_stable_epoch_means_no_change(s: State, history: Seq<(u64, Call)>)
    requires
        s.admin is Some,
    ensures
        run(s, history).epoch() >= s.epoch(),
        run(s, history).epoch() == s.epoch() ==> {
            &&& run(s, history).issuers == s.issuers
            &&& run(s, history).address_issuers == s.address_issuers
        },
    decreases history.len(),
{
    if history.len() > 0 {
        let before = run(s, history.drop_last());
        law_stable_epoch_means_no_change(s, history.drop_last());
        law_admin_is_permanent(s, history.drop_last());
        law_epoch_counts_changes(before, history.last().0, history.last().1);
    }
}

// ---------------------------------------------------------------------------
// Life cycle
// ---------------------------------------------------------------------------

/// A registered issuer can be read back by its id and by its address, and is
/// active.
pub proof fn law_registration_is_readable(
    s: State,
    now: u64,
    id: BytesN<32>,
    address: Address,
    metadata: BytesN<32>,
    valid_principal: bool,
)
    requires
        accepted(s, now, Call::RegisterIssuer { id, address, metadata, valid_principal }),
    ensures
        ({
            let t = step(s, now, Call::RegisterIssuer { id, address, metadata, valid_principal });
            let record = new_record(id, address, metadata, now);
            &&& issuer_answer(t, id) == Ok::<_, IssuerError>(record)
            &&& issuer_by_address_answer(t, address) == Ok::<_, IssuerError>(record)
            &&& t.is_active(id)
            &&& t.is_active_address(address)
        }),
{
}

/// A registered id, and a registered address, cannot be registered again.
pub proof fn law_no_duplicate_registration(
    s: State,
    id: BytesN<32>,
    address: Address,
    valid_principal: bool,
)
    requires
        s.issuers.contains_key(id) || s.address_issuers.contains_key(address),
    ensures
        register_refusal(s, id, address, valid_principal) is Some,
        s.admin is Some && valid_principal && s.issuers.contains_key(id) ==> register_refusal(
            s,
            id,
            address,
            valid_principal,
        ) == Some(IssuerError::IssuerAlreadyRegistered),
{
}

/// A call on one issuer leaves the record and the deadline of every other issuer
/// as they were.
pub proof fn law_other_issuers_untouched(s: State, now: u64, call: Call, other: BytesN<32>)
    requires
        match call {
            Call::RegisterIssuer { id, .. } => id != other,
            Call::UpdateIssuer { id, .. } => id != other,
            Call::SetStatus { id, .. } => id != other,
            Call::RotateIssuerAddress { id, .. } => id != other,
            _ => true,
        },
    ensures
        step(s, now, call).issuers.get(other) == s.issuers.get(other),
        step(s, now, call).reactivatable_at.get(other) == s.reactivatable_at.get(other),
{
}

/// An issuer that has been registered stays on record, under the same id and
/// with the same time of registration.
pub proof fn law_issuers_stay_on_record(s: State, history: Seq<(u64, Call)>, id: BytesN<32>)
    requires
        s.issuers.contains_key(id),
    ensures
        run(s, history).issuers.contains_key(id),
        run(s, history).issuers[id].issuer_id_hash == s.issuers[id].issuer_id_hash,
        run(s, history).issuers[id].created_at == s.issuers[id].created_at,
    decreases history.len(),
{
    if history.len() > 0 {
        law_issuers_stay_on_record(s, history.drop_last(), id);
    }
}

/// Revocation is for good: whatever is called afterwards, whenever, the issuer
/// stays revoked with the record it had, but for the time of a repeated
/// revocation.
pub proof fn law_revocation_is_permanent(s: State, history: Seq<(u64, Call)>, id: BytesN<32>)
    requires
        s.issuers.contains_key(id),
        s.issuers[id].status == IssuerStatus::Revoked,
    ensures
        ({
            let record = run(s, history).issuers[id];
            &&& run(s, history).issuers.contains_key(id)
            &&& record == with_status(s.issuers[id], IssuerStatus::Revoked, record.updated_at)
            &&& !run(s, history).is_active(id)
        }),
    decreases history.len(),
{
    if history.len() > 0 {
        law_revocation_is_permanent(s, history.drop_last(), id);
    }
}

/// What a revoked issuer is answered: it can be neither suspended nor
/// reactivated, whatever the cooldown, nor updated, nor moved.
pub proof fn law_revoked_issuer_is_refused(
    s: State,
    now: u64,
    id: BytesN<32>,
    address: Address,
)
    requires
        s.admin is Some,
        s.issuers.contains_key(id),
        s.issuers[id].status == IssuerStatus::Revoked,
    ensures
        status_refusal(s, now, id, IssuerStatus::Active) == Some(IssuerError::InvalidTransition),
        status_refusal(s, now, id, IssuerStatus::Suspended) == Some(IssuerError::InvalidTransition),
        update_refusal(s, id) == Some(IssuerError::IssuerRevoked),
        rotate_refusal(s, id, address, true) == Some(IssuerError::IssuerRevoked),
{
}

/// After a rotation the new address leads to the issuer and the old one to
/// nobody.
pub proof fn law_rotation_moves_the_address(
    s: State,
    now: u64,
    id: BytesN<32>,
    address: Address,
    valid_principal: bool,
)
    requires
        accepted(s, now, Call::RotateIssuerAddress { id, address, valid_principal }),
    ensures
        ({
            let t = step(s, now, Call::RotateIssuerAddress { id, address, valid_principal });
            let record = with_address(s.issuers[id], address, now);
            &&& issuer_answer(t, id) == Ok::<_, IssuerError>(record)
            &&& issuer_by_address_answer(t, address) == Ok::<_, IssuerError>(record)
            &&& issuer_by_address_answer(t, s.issuers[id].issuer_address) == Err::<
                crate::model::IssuerRecord,
                _,
            >(IssuerError::IssuerAddressNotFound)
            &&& t.is_active_address(address) == s.is_active(id)
            &&& !t.is_active_address(s.issuers[id].issuer_address)
        }),
{
}

/// The two ways to ask after an address agree: it is active exactly where its
/// record can be read and says so.
pub proof fn law_lookups_agree(s: State, address: Address)
    ensures
        s.is_active_address(address) <==> (issuer_by_address_answer(s, address) matches Ok(record)
            && record.status == IssuerStatus::Active),
{
}

// ---------------------------------------------------------------------------
// Capacity
// ---------------------------------------------------------------------------

/// An issuer becomes active only where the capacity has room, and the count then
/// stays within the bound.
pub proof fn law_capacity_is_respected(s: State, now: u64, call: Call)
    requires
        accepted(s, now, call),
        step(s, now, call).active_count() > s.active_count(),
        !(call is Migrate),
    ensures
        s.active_count() < s.max_active(),
        step(s, now, call).active_count() == s.active_count() + 1,
        step(s, now, call).active_count() <= step(s, now, call).max_active(),
{
}

/// To give a slot back lowers the count by one, but not below 0, and touches
/// nothing else.
pub proof fn law_release_lowers_the_count(s: State)
    ensures
        release_state(s).active_count() == if s.active_count() == 0 {
            0
        } else {
            s.active_count() - 1
        },
        release_state(s) == (State {
            active_issuer_count: release_state(s).active_issuer_count,
            ..s
        }),
{
}

/// To give a slot back undoes that it was taken: the count is the one from
/// before, and nothing else has changed.
pub proof fn law_release_undoes_reservation(s: State)
    requires
        s.has_capacity(),
    ensures
        reserve_state(s).active_count() == s.active_count() + 1,
        release_state(reserve_state(s)).active_count() == s.active_count(),
        release_state(reserve_state(s)) == (State {
            active_issuer_count: Some(s.active_count()),
            ..s
        }),
{
}

/// A new issuer that is suspended or revoked gives back the slot that its
/// registration took.
pub proof fn law_new_issuer_gives_its_slot_back(
    s: State,
    now: u64,
    later: u64,
    id: BytesN<32>,
    address: Address,
    metadata: BytesN<32>,
    valid_principal: bool,
    status: IssuerStatus,
)
    requires
        accepted(s, now, Call::RegisterIssuer { id, address, metadata, valid_principal }),
        s.epoch() + 2 <= u64::MAX,
        status != IssuerStatus::Active,
    ensures
        ({
            let t = step(s, now, Call::RegisterIssuer { id, address, metadata, valid_principal });
            &&& t.active_count() == s.active_count() + 1
            &&& accepted(t, later, Call::SetStatus { id, status })
            &&& step(t, later, Call::SetStatus { id, status }).active_count() == s.active_count()
        }),
{
}

/// A suspension frees a slot: the next registration or reactivation that
/// nothing else refuses finds room, where the bound was kept before.
pub proof fn law_suspension_frees_a_slot(s: State, now: u64, id: BytesN<32>)
    requires
        accepted(s, now, Call::SetStatus { id, status: IssuerStatus::Suspended }),
        s.issuers[id].status == IssuerStatus::Active,
        0 < s.active_count() <= s.max_active(),
    ensures
        step(s, now, Call::SetStatus { id, status: IssuerStatus::Suspended }).has_capacity(),
{
}

/// A new bound affects no present issuer and does not move the count. One below
/// the count is refused unless that is asked for.
pub proof fn law_new_bound_affects_no_issuer(
    s: State,
    now: u64,
    new_max: u32,
    allow_below_usage: bool,
)
    requires
        s.admin is Some,
    ensures
        ({
            let t = step(s, now, Call::SetMaxActiveIssuers { new_max, allow_below_usage });
            &&& t.issuers == s.issuers
            &&& t.active_count() == s.active_count()
            &&& t.max_active() == if new_max < s.active_count() && !allow_below_usage {
                s.max_active()
            } else {
                new_max
            }
        }),
{
}

// ---------------------------------------------------------------------------
// Cooldown
// ---------------------------------------------------------------------------

/// The earliest reactivation of an issuer is fixed when it is suspended: only a
/// change of that issuer's status moves it, and so in particular no change of the
/// cooldown.
pub proof fn law_deadline_is_fixed(s: State, now: u64, call: Call, id: BytesN<32>)
    requires
        match call {
            Call::SetStatus { id: target, .. } => target != id,
            _ => true,
        },
    ensures
        step(s, now, call).earliest_reactivation(id) == s.earliest_reactivation(id),
{
}

/// A suspension takes its deadline from the cooldown then in force and from
/// nothing earlier; it never lies before the suspension.
pub proof fn law_suspension_fixes_the_deadline(s: State, now: u64, id: BytesN<32>)
    requires
        accepted(s, now, Call::SetStatus { id, status: IssuerStatus::Suspended }),
    ensures
        ({
            let t = step(s, now, Call::SetStatus { id, status: IssuerStatus::Suspended });
            &&& t.earliest_reactivation(id) == reactivation_deadline(s, now)
            &&& t.earliest_reactivation(id) >= now
            &&& now + s.cooldown() <= u64::MAX ==> t.earliest_reactivation(id) == now
                + s.cooldown()
            &&& now + s.cooldown() > u64::MAX ==> t.earliest_reactivation(id) == u64::MAX
        }),
{
}

/// A suspended issuer that is reactivated or revoked has no cooldown pending any
/// longer.
pub proof fn law_leaving_suspension_drops_the_deadline(
    s: State,
    now: u64,
    id: BytesN<32>,
    status: IssuerStatus,
)
    requires
        accepted(s, now, Call::SetStatus { id, status }),
        s.issuers[id].status == IssuerStatus::Suspended,
        status != IssuerStatus::Suspended,
    ensures
        step(s, now, Call::SetStatus { id, status }).earliest_reactivation(id) == 0,
        step(s, now, Call::SetStatus { id, status }).reactivatable_at == s.reactivatable_at.remove(
            id,
        ),
{
}

/// A suspended issuer is refused before its deadline, and from the deadline on
/// is not refused on account of the cooldown.
pub proof fn law_cooldown_is_enforced(s: State, now: u64, id: BytesN<32>)
    requires
        s.admin is Some,
        s.issuers.contains_key(id),
        s.issuers[id].status == IssuerStatus::Suspended,
    ensures
        status_refusal(s, now, id, IssuerStatus::Active) == Some(
            IssuerError::ReactivationCooldownActive,
        ) <==> now < s.earliest_reactivation(id),
        now >= s.earliest_reactivation(id) && s.has_capacity() ==> status_refusal(
            s,
            now,
            id,
            IssuerStatus::Active,
        ) is None,
{
}

/// A reactivation undoes a suspension: from the deadline on it is accepted, and
/// apart from the times and the epoch the issuer and the count are what they
/// were. The bound on the active issuers must have been kept before.
pub proof fn law_reactivation_undoes_suspension(s: State, now: u64, later: u64, id: BytesN<32>)
    requires
        accepted(s, now, Call::SetStatus { id, status: IssuerStatus::Suspended }),
        s.issuers[id].status == IssuerStatus::Active,
        0 < s.active_count() <= s.max_active(),
        s.epoch() + 2 <= u64::MAX,
        later >= reactivation_deadline(s, now),
    ensures
        ({
            let suspended = step(s, now, Call::SetStatus { id, status: IssuerStatus::Suspended });
            let back = step(
                suspended,
                later,
                Call::SetStatus { id, status: IssuerStatus::Active },
            );
            &&& suspended.active_count() == s.active_count() - 1
            &&& !suspended.is_active(id)
            &&& accepted(suspended, later, Call::SetStatus { id, status: IssuerStatus::Active })
            &&& back.issuers == s.issuers.insert(
                id,
                with_status(s.issuers[id], IssuerStatus::Active, later),
            )
            &&& back.active_count() == s.active_count()
            &&& back.reactivatable_at == s.reactivatable_at.remove(id)
            &&& back.epoch() == s.epoch() + 2
            &&& back.address_issuers == s.address_issuers
        }),
{
    let suspended = step(s, now, Call::SetStatus { id, status: IssuerStatus::Suspended });
    let back = step(suspended, later, Call::SetStatus { id, status: IssuerStatus::Active });
    assert(released_count(s) == s.active_count() - 1);
    assert(back.issuers =~= s.issuers.insert(
        id,
        with_status(s.issuers[id], IssuerStatus::Active, later),
    ));
    assert(back.reactivatable_at =~= s.reactivatable_at.remove(id));
}

// ---------------------------------------------------------------------------
// Upgrades
// ---------------------------------------------------------------------------

/// Through any history of calls the version of a contract that has an
/// administrator never goes back.
pub proof fn law_version_never_decreases(s: State, history: Seq<(u64, Call)>)
    requires
        s.admin is Some,
    ensures
        run(s, history).version() >= s.version(),
    decreases history.len(),
{
    if history.len() > 0 {
        law_version_never_decreases(s, history.drop_last());
        law_admin_is_permanent(s, history.drop_last());
    }
}

/// Only an upgrade changes the version, and it raises it to the approved one.
pub proof fn law_only_upgrades_change_the_version(s: State, now: u64, call: Call)
    requires
        s.admin is Some,
        step(s, now, call).version() != s.version(),
    ensures
        call is UpgradeContract,
        s.allowed_wasm.contains_key(call->UpgradeContract_hash),
        step(s, now, call).version() == s.allowed_wasm[call->UpgradeContract_hash],
        step(s, now, call).version() > s.version(),
{
}

/// An approval is used up by the upgrade: the same hash cannot be applied again
/// until it is approved again, for a version above the one reached.
pub proof fn law_upgrade_cannot_be_replayed(s: State, now: u64, hash: BytesN<32>)
    requires
        accepted(s, now, Call::UpgradeContract { hash }),
    ensures
        ({
            let t = step(s, now, Call::UpgradeContract { hash });
            &&& !t.allowed_wasm.contains_key(hash)
            &&& upgrade_abort(t, hash) == Some(Abort::NotAllowlisted)
            &&& forall|version: u32|
                version <= s.allowed_wasm[hash] ==> approve_abort(t, version) == Some(
                    Abort::VersionNotGreater,
                )
        }),
{
}

/// A withdrawn approval cannot be applied, and a withdrawal undoes an approval
/// of a hash that was not on the allowlist.
pub proof fn law_withdrawal_undoes_approval(
    s: State,
    now: u64,
    hash: BytesN<32>,
    new_version: u32,
)
    requires
        accepted(s, now, Call::ApproveUpgrade { hash, new_version }),
        !s.allowed_wasm.contains_key(hash),
    ensures
        ({
            let approved = step(s, now, Call::ApproveUpgrade { hash, new_version });
            let withdrawn = step(approved, now, Call::RevokeUpgrade { hash });
            &&& upgrade_abort(approved, hash) is None
            &&& upgrade_abort(withdrawn, hash) == Some(Abort::NotAllowlisted)
            &&& withdrawn == s
        }),
{
    let approved = step(s, now, Call::ApproveUpgrade { hash, new_version });
    let withdrawn = step(approved, now, Call::RevokeUpgrade { hash });
    assert(withdrawn.allowed_wasm =~= s.allowed_wasm);
}

/// The governance of upgrades leaves the issuers, their addresses and deadlines,
/// the epoch and the policy as they were.
pub proof fn law_upgrades_preserve_issuers(s: State, now: u64, call: Call)
    requires
        call is ApproveUpgrade || call is RevokeUpgrade || call is UpgradeContract,
    ensures
        ({
            let t = step(s, now, call);
            &&& t == State {
                allowed_wasm: t.allowed_wasm,
                contract_version: t.contract_version,
                ..s
            }
        }),
{
}

} // verus!
