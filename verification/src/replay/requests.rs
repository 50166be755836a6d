//! What a call asks of the host: the authorization, the writes, the longer
//! lifetimes, the new code and the event, each exactly where it is owed.

use crate::bytes::{Address, BytesN};
use crate::env::{DataKey, Effect, Entry, EnvView, State};
use crate::event::{
    ContractUpgraded, Event, IssuerAddressRotated, IssuerMetadataUpdated, IssuerReactivated,
    IssuerRegistered, IssuerRevoked, IssuerSuspended, MaxActiveIssuersChanged,
    ReactivationCooldownChanged, UpgradeAllowlisted, UpgradeRevoked,
};
use crate::laws::entries::{has_entry, name};
use crate::laws::{accepted, step, Call};
use crate::model::IssuerStatus;
use crate::replay::{effects, holds, law_answer_decides};
use crate::rules::{
    active_address_effects, issuer_by_address_effects, issuer_effects, transition_effects,
};
use vstd::prelude::*;

verus! {

/// Whether `effect` is among those asked for.
pub open spec fn asked(effects: Seq<Effect>, effect: Effect) -> bool {
    exists|i: int| 0 <= i < effects.len() && #[trigger] effects[i] == effect
}

/// Whether `effect` is among those asked for after place `i`.
pub open spec fn asked_after(effects: Seq<Effect>, i: int, effect: Effect) -> bool {
    exists|j: int| i < j < effects.len() && #[trigger] effects[j] == effect
}

/// How many effects an accepted call asks for.
proof fn lemma_size(v: EnvView, call: Call)
    requires
        accepted(v.state, v.timestamp, call),
    ensures
        match call {
            Call::Initialize { .. } => effects(v, call).len() == 8,
            Call::Migrate { .. } => 3 <= effects(v, call).len() <= 6,
            Call::RegisterIssuer { .. } => effects(v, call).len() == 10,
            Call::UpdateIssuer { .. } => effects(v, call).len() == 6,
            Call::SetStatus { id, status } => effects(v, call).len() == transition_effects(
                v,
                id,
                status,
            ).len() + 6 && transition_effects(v, id, status).len() <= 4,
            Call::RotateIssuerAddress { .. } => effects(v, call).len() == 9,
            Call::SetMaxActiveIssuers { .. } => effects(v, call).len() == 4,
            Call::SetReactivationCooldown { .. } => effects(v, call).len() == 4,
            Call::ApproveUpgrade { .. } => effects(v, call).len() == 4,
            Call::RevokeUpgrade { .. } => effects(v, call).len() == 3,
            Call::UpgradeContract { .. } => effects(v, call).len() == 6,
        },
{
    law_answer_decides(v.state, v.timestamp, call);
}

// ---------------------------------------------------------------------------
// Authorization
// ---------------------------------------------------------------------------

/// An authorization is asked for wherever there is somebody to ask: of the
/// administrator to be by an initialization that is accepted, and of the
/// administrator by every other call, even one that is then refused or aborts;
/// only an address that is no valid principal is turned away before that.
#[verifier::rlimit(40)]
pub proof fn law_authorization_is_asked_for(v: EnvView, call: Call)
    ensures
        effects(v, call).len() > 0 <==> match call {
            Call::Initialize { valid_principal, .. } => v.state.admin is None && valid_principal,
            Call::RegisterIssuer { valid_principal, .. } => v.state.admin is Some
                && valid_principal,
            Call::RotateIssuerAddress { valid_principal, .. } => v.state.admin is Some
                && valid_principal,
            _ => v.state.admin is Some,
        },
        effects(v, call).len() > 0 ==> effects(v, call)[0] == Effect::RequireAuth(
            match call {
                Call::Initialize { admin, .. } => admin,
                _ => v.state.admin->0,
            },
        ),
{
    law_answer_decides(v.state, v.timestamp, call);
    if accepted(v.state, v.timestamp, call) {
        lemma_size(v, call);
    }
}

/// No more than that one authorization is asked for.
#[verifier::rlimit(40)]
pub proof fn law_one_authorization(v: EnvView, call: Call, i: int)
    requires
        0 < i < effects(v, call).len(),
    ensures
        !(effects(v, call)[i] is RequireAuth),
{
    let fx = effects(v, call);
    law_answer_decides(v.state, v.timestamp, call);
    if accepted(v.state, v.timestamp, call) {
        lemma_size(v, call);
        if let Call::SetStatus { id, status } = call {
            let change = transition_effects(v, id, status);
            if 1 <= i <= change.len() {
                assert(fx[i] == change[i - 1]);
            }
        }
    }
}

// ---------------------------------------------------------------------------
// New code
// ---------------------------------------------------------------------------

/// An upgrade that is accepted asks the host to replace the code by the one with
/// the approved hash, whatever the versions are.
pub proof fn law_upgrade_replaces_the_code(v: EnvView, hash: BytesN<32>)
    requires
        accepted(v.state, v.timestamp, Call::UpgradeContract { hash }),
    ensures
        asked(effects(v, Call::UpgradeContract { hash }), Effect::UpdateWasm(hash)),
{
    let fx = effects(v, Call::UpgradeContract { hash });
    lemma_size(v, Call::UpgradeContract { hash });
    assert(fx[2] == Effect::UpdateWasm(hash));
}

/// The code is replaced by nothing but an accepted upgrade, by nothing but the
/// code with its hash, and once.
#[verifier::rlimit(40)]
pub proof fn law_only_upgrades_replace_the_code(v: EnvView, call: Call, i: int, j: int)
    requires
        0 <= i < effects(v, call).len(),
        effects(v, call)[i] is UpdateWasm,
    ensures
        accepted(v.state, v.timestamp, call),
        call is UpgradeContract,
        effects(v, call)[i] == Effect::UpdateWasm(call->UpgradeContract_hash),
        0 <= j < effects(v, call).len() && effects(v, call)[j] is UpdateWasm ==> i == j,
{
    let fx = effects(v, call);
    law_answer_decides(v.state, v.timestamp, call);
    if accepted(v.state, v.timestamp, call) {
        lemma_size(v, call);
        if let Call::SetStatus { id, status } = call {
            let change = transition_effects(v, id, status);
            if 1 <= i <= change.len() {
                assert(fx[i] == change[i - 1]);
            }
        }
    }
}

// ---------------------------------------------------------------------------
// Events
// ---------------------------------------------------------------------------

/// The event that an accepted call owes to its inputs and to the ledger before and
/// after it.
pub open spec fn owed_event(s: State, t: State, now: u64, call: Call) -> Option<Event> {
    match call {
        Call::Initialize { .. } => None,
        Call::Migrate { .. } => None,
        Call::RegisterIssuer { id, address, metadata, .. } => Some(
            Event::IssuerRegistered(
                IssuerRegistered {
                    issuer_id_hash: id,
                    issuer_address: address,
                    metadata_hash: metadata,
                    created_at: now,
                    epoch: t.epoch(),
                },
            ),
        ),
        Call::UpdateIssuer { id, metadata } => Some(
            Event::IssuerMetadataUpdated(
                IssuerMetadataUpdated {
                    issuer_id_hash: id,
                    metadata_hash: metadata,
                    updated_at: now,
                    epoch: t.epoch(),
                },
            ),
        ),
        Call::SetStatus { id, status: IssuerStatus::Active } => Some(
            Event::IssuerReactivated(
                IssuerReactivated { issuer_id_hash: id, updated_at: now, epoch: t.epoch() },
            ),
        ),
        Call::SetStatus { id, status: IssuerStatus::Suspended } => Some(
            Event::IssuerSuspended(
                IssuerSuspended { issuer_id_hash: id, updated_at: now, epoch: t.epoch() },
            ),
        ),
        Call::SetStatus { id, status: IssuerStatus::Revoked } => Some(
            Event::IssuerRevoked(
                IssuerRevoked { issuer_id_hash: id, updated_at: now, epoch: t.epoch() },
            ),
        ),
        Call::RotateIssuerAddress { id, address, .. } => Some(
            Event::IssuerAddressRotated(
                IssuerAddressRotated {
                    issuer_id_hash: id,
                    old_address: s.issuers[id].issuer_address,
                    new_address: address,
                    updated_at: now,
                    epoch: t.epoch(),
                },
            ),
        ),
        Call::SetMaxActiveIssuers { new_max, .. } => Some(
            Event::MaxActiveIssuersChanged(
                MaxActiveIssuersChanged {
                    new_max,
                    active_count: s.active_count(),
                    changed_by: s.admin->0,
                },
            ),
        ),
        Call::SetReactivationCooldown { cooldown_seconds } => Some(
            Event::ReactivationCooldownChanged(
                ReactivationCooldownChanged {
                    new_cooldown_seconds: cooldown_seconds,
                    changed_by: s.admin->0,
                },
            ),
        ),
        Call::ApproveUpgrade { hash, new_version } => Some(
            Event::UpgradeAllowlisted(
                UpgradeAllowlisted {
                    wasm_hash: hash,
                    new_contract_version: new_version,
                    approved_by: s.admin->0,
                },
            ),
        ),
        Call::RevokeUpgrade { hash } => Some(
            Event::UpgradeRevoked(UpgradeRevoked { wasm_hash: hash, revoked_by: s.admin->0 }),
        ),
        Call::UpgradeContract { hash } => Some(
            Event::ContractUpgraded(
                ContractUpgraded {
                    new_wasm_hash: hash,
                    old_contract_version: s.version(),
                    new_contract_version: t.version(),
                    upgraded_by: s.admin->0,
                },
            ),
        ),
    }
}

/// An accepted call publishes the event that says what it was called with and
/// what it has changed, as the last thing it does.
#[verifier::rlimit(40)]
pub proof fn law_event_tells_what_happened(v: EnvView, call: Call)
    requires
        accepted(v.state, v.timestamp, call),
    ensures
        match owed_event(v.state, step(v.state, v.timestamp, call), v.timestamp, call) {
            Some(event) => effects(v, call).len() > 0 && effects(v, call).last()
                == Effect::Publish(event),
            None => call is Initialize || call is Migrate,
        },
{
    lemma_size(v, call);
}

/// Nothing else is published: not twice, not by a call that is refused or aborts,
/// and not by an initialization or a migration.
#[verifier::rlimit(40)]
pub proof fn law_no_other_event(v: EnvView, call: Call, i: int)
    requires
        0 <= i < effects(v, call).len(),
        effects(v, call)[i] is Publish,
    ensures
        accepted(v.state, v.timestamp, call),
        i == effects(v, call).len() - 1,
        !(call is Initialize) && !(call is Migrate),
{
    let fx = effects(v, call);
    law_answer_decides(v.state, v.timestamp, call);
    if accepted(v.state, v.timestamp, call) {
        lemma_size(v, call);
        if let Call::SetStatus { id, status } = call {
            let change = transition_effects(v, id, status);
            if 1 <= i <= change.len() {
                assert(fx[i] == change[i - 1]);
            }
        }
    }
}

// ---------------------------------------------------------------------------
// Writes
// ---------------------------------------------------------------------------

/// The entries that an accepted call writes or removes, even where they stay what
/// they were.
pub open spec fn touches(s: State, call: Call, key: DataKey) -> bool {
    match call {
        Call::Initialize { .. } => key is Admin || key is ContractVersion || key is IssuerEpoch
            || key is MaxActiveIssuers || key is ActiveIssuerCount || key is ReactivationCooldown,
        Call::Migrate { .. } => key is ActiveIssuerCount || (key is IssuerEpoch
            && s.issuer_epoch is None) || (key is MaxActiveIssuers && s.max_active_issuers is None)
            || (key is ReactivationCooldown && s.reactivation_cooldown is None),
        Call::RegisterIssuer { id, address, .. } => key == DataKey::Issuer(id) || key
            == DataKey::AddressIssuer(address) || key is ActiveIssuerCount || key is IssuerEpoch,
        Call::UpdateIssuer { id, .. } => key == DataKey::Issuer(id) || key is IssuerEpoch,
        Call::SetStatus { id, status } => {
            let was_active = s.issuers[id].status == IssuerStatus::Active;
            let was_suspended = s.issuers[id].status == IssuerStatus::Suspended;
            ||| key == DataKey::Issuer(id)
            ||| key is IssuerEpoch
            ||| key is ActiveIssuerCount && was_active && status != IssuerStatus::Active
            ||| key is ActiveIssuerCount && was_suspended && status == IssuerStatus::Active
            ||| key == DataKey::ReactivatableAt(id) && status == IssuerStatus::Suspended
            ||| key == DataKey::ReactivatableAt(id) && was_suspended
        },
        Call::RotateIssuerAddress { id, address, .. } => key == DataKey::Issuer(id) || key
            == DataKey::AddressIssuer(address) || key == DataKey::AddressIssuer(
            s.issuers[id].issuer_address,
        ) || key is IssuerEpoch,
        Call::SetMaxActiveIssuers { .. } => key is MaxActiveIssuers,
        Call::SetReactivationCooldown { .. } => key is ReactivationCooldown,
        Call::ApproveUpgrade { hash, .. } => key == DataKey::AllowedWasm(hash),
        Call::RevokeUpgrade { hash } => key == DataKey::AllowedWasm(hash),
        Call::UpgradeContract { hash } => key == DataKey::AllowedWasm(hash)
            || key is ContractVersion,
    }
}

/// Whether an effect, where it is a write, is one that the call owes and puts on
/// record what the ledger has afterwards; a removal likewise.
pub open spec fn is_owed(s: State, t: State, call: Call, effect: Effect) -> bool {
    match effect {
        Effect::Put(entry) => touches(s, call, name(entry)) && has_entry(t, entry),
        Effect::Remove(key) => touches(s, call, key) && !holds(t, key),
        _ => true,
    }
}

proof fn lemma_status_writes_are_owed(v: EnvView, id: BytesN<32>, status: IssuerStatus, i: int)
    requires
        accepted(v.state, v.timestamp, Call::SetStatus { id, status }),
        0 <= i < effects(v, Call::SetStatus { id, status }).len(),
    ensures
        is_owed(
            v.state,
            step(v.state, v.timestamp, Call::SetStatus { id, status }),
            Call::SetStatus { id, status },
            effects(v, Call::SetStatus { id, status })[i],
        ),
{
    let call = Call::SetStatus { id, status };
    let fx = effects(v, call);
    let change = transition_effects(v, id, status);
    law_answer_decides(v.state, v.timestamp, call);
    lemma_size(v, call);
    if 1 <= i <= change.len() {
        assert(fx[i] == change[i - 1]);
    } else if i > change.len() {
        let k = i - change.len();
        assert(1 <= k <= 5);
    }
}

proof fn lemma_migrate_writes_are_owed(v: EnvView, active_issuer_count: u32, i: int)
    requires
        accepted(v.state, v.timestamp, Call::Migrate { active_issuer_count }),
        0 <= i < effects(v, Call::Migrate { active_issuer_count }).len(),
    ensures
        is_owed(
            v.state,
            step(v.state, v.timestamp, Call::Migrate { active_issuer_count }),
            Call::Migrate { active_issuer_count },
            effects(v, Call::Migrate { active_issuer_count })[i],
        ),
{
    law_answer_decides(v.state, v.timestamp, Call::Migrate { active_issuer_count });
    lemma_size(v, Call::Migrate { active_issuer_count });
}

proof fn lemma_rotate_writes_are_owed(v: EnvView, call: Call, i: int)
    requires
        call is RotateIssuerAddress,
        accepted(v.state, v.timestamp, call),
        0 <= i < effects(v, call).len(),
    ensures
        is_owed(v.state, step(v.state, v.timestamp, call), call, effects(v, call)[i]),
{
    law_answer_decides(v.state, v.timestamp, call);
    lemma_size(v, call);
}

proof fn lemma_register_writes_are_owed(v: EnvView, call: Call, i: int)
    requires
        call is RegisterIssuer,
        accepted(v.state, v.timestamp, call),
        0 <= i < effects(v, call).len(),
    ensures
        is_owed(v.state, step(v.state, v.timestamp, call), call, effects(v, call)[i]),
{
    law_answer_decides(v.state, v.timestamp, call);
    lemma_size(v, call);
}

proof fn lemma_other_writes_are_owed(v: EnvView, call: Call, i: int)
    requires
        !(call is SetStatus || call is Migrate || call is RotateIssuerAddress
            || call is RegisterIssuer),
        accepted(v.state, v.timestamp, call),
        0 <= i < effects(v, call).len(),
    ensures
        is_owed(v.state, step(v.state, v.timestamp, call), call, effects(v, call)[i]),
{
    law_answer_decides(v.state, v.timestamp, call);
    lemma_size(v, call);
}

/// A write or a removal is asked for by accepted calls alone. It is one of those
/// that the call owes, and says what the ledger has afterwards.
pub proof fn law_no_other_write(v: EnvView, call: Call, i: int)
    requires
        0 <= i < effects(v, call).len(),
        effects(v, call)[i] is Put || effects(v, call)[i] is Remove,
    ensures
        accepted(v.state, v.timestamp, call),
        is_owed(v.state, step(v.state, v.timestamp, call), call, effects(v, call)[i]),
{
    law_answer_decides(v.state, v.timestamp, call);
    if accepted(v.state, v.timestamp, call) {
        match call {
            Call::SetStatus { id, status } => lemma_status_writes_are_owed(v, id, status, i),
            Call::Migrate { active_issuer_count } => lemma_migrate_writes_are_owed(
                v,
                active_issuer_count,
                i,
            ),
            Call::RotateIssuerAddress { .. } => lemma_rotate_writes_are_owed(v, call, i),
            Call::RegisterIssuer { .. } => lemma_register_writes_are_owed(v, call, i),
            _ => lemma_other_writes_are_owed(v, call, i),
        }
    }
}

/// Whether an entry, where it is on record afterwards, is asked to be written, and
/// asked to be removed where nothing is.
pub open spec fn is_written(fx: Seq<Effect>, t: State, entry: Entry) -> bool {
    &&& has_entry(t, entry) ==> asked(fx, Effect::Put(entry))
    &&& !holds(t, name(entry)) ==> asked(fx, Effect::Remove(name(entry)))
}

proof fn lemma_status_writes(v: EnvView, id: BytesN<32>, status: IssuerStatus, entry: Entry)
    requires
        accepted(v.state, v.timestamp, Call::SetStatus { id, status }),
        touches(v.state, Call::SetStatus { id, status }, name(entry)),
    ensures
        is_written(
            effects(v, Call::SetStatus { id, status }),
            step(v.state, v.timestamp, Call::SetStatus { id, status }),
            entry,
        ),
{
    let call = Call::SetStatus { id, status };
    let fx = effects(v, call);
    let t = step(v.state, v.timestamp, call);
    let change = transition_effects(v, id, status);
    let n = change.len() as int;
    law_answer_decides(v.state, v.timestamp, call);
    lemma_size(v, call);
    assert forall|i: int| 0 <= i < n implies #[trigger] fx[i + 1] == change[i] by {}
    assert(n > 0 ==> fx[1] == change[0]);
    assert(n > 2 ==> fx[3] == change[2]);
    assert(fx[n + 1] == Effect::Put(Entry::Issuer(id, t.issuers[id])));
    assert(fx[n + 3] == Effect::Put(Entry::IssuerEpoch(t.epoch())));
}

proof fn lemma_migrate_writes(v: EnvView, active_issuer_count: u32, entry: Entry)
    requires
        accepted(v.state, v.timestamp, Call::Migrate { active_issuer_count }),
        touches(v.state, Call::Migrate { active_issuer_count }, name(entry)),
    ensures
        is_written(
            effects(v, Call::Migrate { active_issuer_count }),
            step(v.state, v.timestamp, Call::Migrate { active_issuer_count }),
            entry,
        ),
{
    let call = Call::Migrate { active_issuer_count };
    let fx = effects(v, call);
    law_answer_decides(v.state, v.timestamp, call);
    lemma_size(v, call);
    let e: int = if v.state.issuer_epoch is None { 1 } else { 0 };
    let m: int = if v.state.max_active_issuers is None { 1 } else { 0 };
    let c: int = if v.state.reactivation_cooldown is None { 1 } else { 0 };
    assert(e == 1 ==> fx[1] == Effect::Put(Entry::IssuerEpoch(0)));
    assert(m == 1 ==> fx[e + 1] == Effect::Put(Entry::MaxActiveIssuers(u32::MAX)));
    assert(c == 1 ==> fx[e + m + 1] == Effect::Put(Entry::ReactivationCooldown(0)));
    assert(fx[e + m + c + 1] == Effect::Put(Entry::ActiveIssuerCount(active_issuer_count)));
}

proof fn lemma_issuer_writes(v: EnvView, call: Call, entry: Entry)
    requires
        call is RegisterIssuer || call is UpdateIssuer || call is RotateIssuerAddress,
        accepted(v.state, v.timestamp, call),
        touches(v.state, call, name(entry)),
    ensures
        is_written(effects(v, call), step(v.state, v.timestamp, call), entry),
{
    let fx = effects(v, call);
    let t = step(v.state, v.timestamp, call);
    law_answer_decides(v.state, v.timestamp, call);
    lemma_size(v, call);
    match call {
        Call::RegisterIssuer { id, address, .. } => {
            assert(fx[1] == Effect::Put(Entry::ActiveIssuerCount(t.active_count())));
            assert(fx[3] == Effect::Put(Entry::Issuer(id, t.issuers[id])));
            assert(fx[4] == Effect::Put(Entry::AddressIssuer(address, id)));
            assert(fx[7] == Effect::Put(Entry::IssuerEpoch(t.epoch())));
        },
        Call::UpdateIssuer { id, .. } => {
            assert(fx[1] == Effect::Put(Entry::Issuer(id, t.issuers[id])));
            assert(fx[3] == Effect::Put(Entry::IssuerEpoch(t.epoch())));
        },
        Call::RotateIssuerAddress { id, address, .. } => {
            assert(fx[1] == Effect::Remove(
                DataKey::AddressIssuer(v.state.issuers[id].issuer_address),
            ));
            assert(fx[2] == Effect::Put(Entry::Issuer(id, t.issuers[id])));
            assert(fx[3] == Effect::Put(Entry::AddressIssuer(address, id)));
            assert(fx[6] == Effect::Put(Entry::IssuerEpoch(t.epoch())));
        },
        _ => {},
    }
}

proof fn lemma_other_writes(v: EnvView, call: Call, entry: Entry)
    requires
        !(call is SetStatus || call is Migrate || call is RegisterIssuer || call is UpdateIssuer
            || call is RotateIssuerAddress),
        accepted(v.state, v.timestamp, call),
        touches(v.state, call, name(entry)),
    ensures
        is_written(effects(v, call), step(v.state, v.timestamp, call), entry),
{
    let fx = effects(v, call);
    let t = step(v.state, v.timestamp, call);
    law_answer_decides(v.state, v.timestamp, call);
    lemma_size(v, call);
    match call {
        Call::Initialize { admin, .. } => {
            assert(fx[1] == Effect::Put(Entry::Admin(admin)));
            assert(fx[2] == Effect::Put(Entry::ContractVersion(1)));
            assert(fx[3] == Effect::Put(Entry::IssuerEpoch(0)));
            assert(fx[4] == Effect::Put(Entry::MaxActiveIssuers(u32::MAX)));
            assert(fx[5] == Effect::Put(Entry::ActiveIssuerCount(0)));
            assert(fx[6] == Effect::Put(Entry::ReactivationCooldown(0)));
        },
        Call::UpgradeContract { hash } => {
            assert(fx[1] == Effect::Remove(DataKey::AllowedWasm(hash)));
            assert(fx[3] == Effect::Put(Entry::ContractVersion(t.version())));
        },
        Call::RevokeUpgrade { hash } => {
            assert(fx[1] == Effect::Remove(DataKey::AllowedWasm(hash)));
        },
        Call::ApproveUpgrade { hash, new_version } => {
            assert(fx[1] == Effect::Put(Entry::AllowedWasm(hash, new_version)));
        },
        Call::SetMaxActiveIssuers { new_max, .. } => {
            assert(fx[1] == Effect::Put(Entry::MaxActiveIssuers(new_max)));
        },
        Call::SetReactivationCooldown { cooldown_seconds } => {
            assert(fx[1] == Effect::Put(Entry::ReactivationCooldown(cooldown_seconds)));
        },
        _ => {},
    }
}

/// An accepted call asks for every write that it owes: an entry that is on record
/// afterwards is written, and what is no longer there is removed.
pub proof fn law_every_owed_write_is_asked_for(v: EnvView, call: Call, entry: Entry)
    requires
        accepted(v.state, v.timestamp, call),
        touches(v.state, call, name(entry)),
    ensures
        is_written(effects(v, call), step(v.state, v.timestamp, call), entry),
{
    match call {
        Call::SetStatus { id, status } => lemma_status_writes(v, id, status, entry),
        Call::Migrate { active_issuer_count } => lemma_migrate_writes(
            v,
            active_issuer_count,
            entry,
        ),
        Call::RegisterIssuer { .. } => lemma_issuer_writes(v, call, entry),
        Call::UpdateIssuer { .. } => lemma_issuer_writes(v, call, entry),
        Call::RotateIssuerAddress { .. } => lemma_issuer_writes(v, call, entry),
        _ => lemma_other_writes(v, call, entry),
    }
}

// ---------------------------------------------------------------------------
// Lifetimes
// ---------------------------------------------------------------------------

/// What extends the lifetime of an entry: records, addresses and deadlines stand
/// on their own, all other entries live with the contract instance.
pub open spec fn extension(v: EnvView, key: DataKey) -> Effect {
    if key is Issuer || key is AddressIssuer || key is ReactivatableAt {
        Effect::ExtendTtl(key, v.parameters.ttl)
    } else {
        Effect::ExtendInstanceTtl(v.parameters.ttl)
    }
}

/// Whether what is asked for at place `i`, where it is a write, is followed by an
/// extension of the lifetime of the entry.
pub open spec fn lives_on(v: EnvView, fx: Seq<Effect>, i: int) -> bool {
    fx[i] is Put ==> asked_after(fx, i, extension(v, name(fx[i]->Put_0)))
}

proof fn lemma_status_writes_live_on(v: EnvView, id: BytesN<32>, status: IssuerStatus, i: int)
    requires
        accepted(v.state, v.timestamp, Call::SetStatus { id, status }),
        0 <= i < effects(v, Call::SetStatus { id, status }).len(),
    ensures
        lives_on(v, effects(v, Call::SetStatus { id, status }), i),
{
    let call = Call::SetStatus { id, status };
    let fx = effects(v, call);
    let change = transition_effects(v, id, status);
    let n = change.len() as int;
    law_answer_decides(v.state, v.timestamp, call);
    lemma_size(v, call);
    assert(fx[n + 2] == extension(v, DataKey::Issuer(id)));
    assert(fx[n + 4] == Effect::ExtendInstanceTtl(v.parameters.ttl));
    if 1 <= i <= n {
        assert(fx[i] == change[i - 1]);
        if i < n {
            assert(fx[i + 1] == change[i]);
        }
    }
}

proof fn lemma_other_writes_live_on(v: EnvView, call: Call, i: int)
    requires
        !(call is SetStatus),
        accepted(v.state, v.timestamp, call),
        0 <= i < effects(v, call).len(),
    ensures
        lives_on(v, effects(v, call), i),
{
    let fx = effects(v, call);
    law_answer_decides(v.state, v.timestamp, call);
    lemma_size(v, call);
    match call {
        Call::Initialize { .. } => {
            assert(fx[7] == Effect::ExtendInstanceTtl(v.parameters.ttl));
        },
        Call::Migrate { .. } => {
            assert(fx[fx.len() - 1] == Effect::ExtendInstanceTtl(v.parameters.ttl));
        },
        Call::RegisterIssuer { id, address, .. } => {
            assert(fx[5] == extension(v, DataKey::Issuer(id)));
            assert(fx[6] == extension(v, DataKey::AddressIssuer(address)));
            assert(fx[8] == Effect::ExtendInstanceTtl(v.parameters.ttl));
        },
        Call::UpdateIssuer { id, .. } => {
            assert(fx[2] == extension(v, DataKey::Issuer(id)));
            assert(fx[4] == Effect::ExtendInstanceTtl(v.parameters.ttl));
        },
        Call::RotateIssuerAddress { id, address, .. } => {
            assert(fx[4] == extension(v, DataKey::Issuer(id)));
            assert(fx[5] == extension(v, DataKey::AddressIssuer(address)));
            assert(fx[7] == Effect::ExtendInstanceTtl(v.parameters.ttl));
        },
        Call::UpgradeContract { .. } => {
            assert(fx[4] == Effect::ExtendInstanceTtl(v.parameters.ttl));
        },
        Call::RevokeUpgrade { .. } => {},
        _ => {
            assert(fx[2] == Effect::ExtendInstanceTtl(v.parameters.ttl));
        },
    }
}

/// Whatever a call writes gets a longer lifetime afterwards, by the shared policy.
pub proof fn law_written_entries_live_on(v: EnvView, call: Call, i: int)
    requires
        0 <= i < effects(v, call).len(),
    ensures
        lives_on(v, effects(v, call), i),
{
    law_answer_decides(v.state, v.timestamp, call);
    if accepted(v.state, v.timestamp, call) {
        match call {
            Call::SetStatus { id, status } => lemma_status_writes_live_on(v, id, status, i),
            _ => lemma_other_writes_live_on(v, call, i),
        }
    }
}

/// Whether an effect, where it extends a lifetime, does so by the shared policy,
/// and of an entry that the call writes.
pub open spec fn is_owed_extension(v: EnvView, call: Call, effect: Effect) -> bool {
    match effect {
        Effect::ExtendTtl(key, ttl) => ttl == v.parameters.ttl && touches(v.state, call, key)
            && !(call is RevokeUpgrade),
        Effect::ExtendInstanceTtl(ttl) => ttl == v.parameters.ttl && !(call is RevokeUpgrade),
        _ => true,
    }
}

proof fn lemma_status_extensions_are_owed(v: EnvView, call: Call, i: int)
    requires
        call is SetStatus,
        accepted(v.state, v.timestamp, call),
        0 <= i < effects(v, call).len(),
    ensures
        is_owed_extension(v, call, effects(v, call)[i]),
{
    let fx = effects(v, call);
    let change = transition_effects(v, call->SetStatus_id, call->status);
    law_answer_decides(v.state, v.timestamp, call);
    lemma_size(v, call);
    if 1 <= i <= change.len() {
        assert(fx[i] == change[i - 1]);
    }
}

proof fn lemma_issuer_extensions_are_owed(v: EnvView, call: Call, i: int)
    requires
        call is RegisterIssuer || call is UpdateIssuer || call is RotateIssuerAddress,
        accepted(v.state, v.timestamp, call),
        0 <= i < effects(v, call).len(),
    ensures
        is_owed_extension(v, call, effects(v, call)[i]),
{
    law_answer_decides(v.state, v.timestamp, call);
    lemma_size(v, call);
}

proof fn lemma_other_extensions_are_owed(v: EnvView, call: Call, i: int)
    requires
        !(call is SetStatus || call is RegisterIssuer || call is UpdateIssuer
            || call is RotateIssuerAddress),
        accepted(v.state, v.timestamp, call),
        0 <= i < effects(v, call).len(),
    ensures
        is_owed_extension(v, call, effects(v, call)[i]),
{
    law_answer_decides(v.state, v.timestamp, call);
    lemma_size(v, call);
}

/// Lifetimes are extended by the shared policy alone, and only by calls that are
/// accepted; of the entries that stand on their own, only those that the call
/// writes. A withdrawal of an approval, which writes nothing, extends nothing.
pub proof fn law_no_other_extension(v: EnvView, call: Call, i: int)
    requires
        0 <= i < effects(v, call).len(),
        effects(v, call)[i] is ExtendTtl || effects(v, call)[i] is ExtendInstanceTtl,
    ensures
        accepted(v.state, v.timestamp, call),
        is_owed_extension(v, call, effects(v, call)[i]),
{
    law_answer_decides(v.state, v.timestamp, call);
    if accepted(v.state, v.timestamp, call) {
        match call {
            Call::SetStatus { .. } => lemma_status_extensions_are_owed(v, call, i),
            Call::RegisterIssuer { .. } => lemma_issuer_extensions_are_owed(v, call, i),
            Call::UpdateIssuer { .. } => lemma_issuer_extensions_are_owed(v, call, i),
            Call::RotateIssuerAddress { .. } => lemma_issuer_extensions_are_owed(v, call, i),
            _ => lemma_other_extensions_are_owed(v, call, i),
        }
    }
}

// ---------------------------------------------------------------------------
// Lookups
// ---------------------------------------------------------------------------

/// A lookup by id asks for a longer lifetime of the record that it finds, and for
/// nothing else; where it finds none it asks for nothing.
pub proof fn law_lookup_extends_the_record(v: EnvView, id: BytesN<32>, effect: Effect)
    ensures
        asked(issuer_effects(v, id), effect) <==> v.state.issuers.contains_key(id) && effect
            == extension(v, DataKey::Issuer(id)),
        issuer_effects(v, id).len() <= 1,
{
    if v.state.issuers.contains_key(id) {
        assert(issuer_effects(v, id)[0] == extension(v, DataKey::Issuer(id)));
    }
}

/// A lookup by address asks for a longer lifetime of the address, where it leads
/// to a record, and for nothing else.
pub proof fn law_lookup_by_address_extends_the_address(
    v: EnvView,
    address: Address,
    effect: Effect,
)
    ensures
        asked(issuer_by_address_effects(v, address), effect) <==> {
            &&& v.state.address_issuers.contains_key(address)
            &&& v.state.issuers.contains_key(v.state.address_issuers[address])
            &&& effect == extension(v, DataKey::AddressIssuer(address))
        },
        issuer_by_address_effects(v, address).len() <= 1,
{
    if v.state.address_issuers.contains_key(address) && v.state.issuers.contains_key(
        v.state.address_issuers[address],
    ) {
        assert(issuer_by_address_effects(v, address)[0] == extension(
            v,
            DataKey::AddressIssuer(address),
        ));
    }
}

/// To ask whether an address is active asks for a longer lifetime of the record
/// that it leads to, and for nothing else.
pub proof fn law_activity_lookup_extends_the_record(v: EnvView, address: Address, effect: Effect)
    ensures
        asked(active_address_effects(v, address), effect) <==> {
            &&& v.state.address_issuers.contains_key(address)
            &&& v.state.issuers.contains_key(v.state.address_issuers[address])
            &&& effect == extension(v, DataKey::Issuer(v.state.address_issuers[address]))
        },
        active_address_effects(v, address).len() <= 1,
{
    if v.state.address_issuers.contains_key(address) && v.state.issuers.contains_key(
        v.state.address_issuers[address],
    ) {
        assert(active_address_effects(v, address)[0] == extension(
            v,
            DataKey::Issuer(v.state.address_issuers[address]),
        ));
    }
}

} // verus!
