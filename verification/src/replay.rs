//! What holds of the journal: performed by the host, it leaves on the ledger
//! what the call says; it starts with the authorization; and it reports each
//! change once.

pub mod requests;

use crate::bytes::{Address, BytesN};
use crate::env::{DataKey, Effect, Entry, EnvView, State};
use crate::event::Event;
use crate::laws::{accepted, changes_issuer, step, Call};
use crate::model::{ContractError, IssuerError, IssuerStatus};
use crate::rules::{
    admin_demand, approve_abort, approve_effects, approve_state, epoch_abort, initialize_effects,
    initialize_refusal, initialize_state, migrate_effects,
    migrate_refusal, migrate_state, put_if, register_demand, register_effects, register_refusal,
    register_state, rotate_effects, rotate_refusal, rotate_state, set_cooldown_effects,
    set_cooldown_refusal, set_cooldown_state, set_max_effects, set_max_refusal, set_max_state,
    status_effects, status_refusal, status_state, transition_effects, update_effects,
    update_refusal, update_state, upgrade_abort, upgrade_effects, upgrade_state, withdraw_abort,
    withdraw_effects, withdraw_state, Abort,
};
use vstd::prelude::*;

verus! {

/// How a call ends.
pub enum Answer {
    Done,
    ContractRefused(ContractError),
    Refused(IssuerError),
    Aborted(Abort),
}

/// The end of a call on an issuer that `refusal` may refuse.
pub open spec fn issuer_change_answer(s: State, refusal: Option<IssuerError>) -> Answer {
    match refusal {
        Some(error) => Answer::Refused(error),
        None => abort_answer(epoch_abort(s)),
    }
}

/// The end of a call that only an error can refuse.
pub open spec fn policy_answer(refusal: Option<IssuerError>) -> Answer {
    match refusal {
        Some(error) => Answer::Refused(error),
        None => Answer::Done,
    }
}

/// The end of a call that only an abort can stop.
pub open spec fn abort_answer(abort: Option<Abort>) -> Answer {
    match abort {
        Some(abort) => Answer::Aborted(abort),
        None => Answer::Done,
    }
}

/// How a call at time `now` ends.
pub open spec fn answer(s: State, now: u64, call: Call) -> Answer {
    match call {
        Call::Initialize { valid_principal, .. } => match initialize_refusal(s, valid_principal) {
            Some(error) => Answer::ContractRefused(error),
            None => Answer::Done,
        },
        Call::Migrate { .. } => policy_answer(migrate_refusal(s)),
        Call::RegisterIssuer { id, address, valid_principal, .. } => issuer_change_answer(
            s,
            register_refusal(s, id, address, valid_principal),
        ),
        Call::UpdateIssuer { id, .. } => issuer_change_answer(s, update_refusal(s, id)),
        Call::SetStatus { id, status } => issuer_change_answer(
            s,
            status_refusal(s, now, id, status),
        ),
        Call::RotateIssuerAddress { id, address, valid_principal } => issuer_change_answer(
            s,
            rotate_refusal(s, id, address, valid_principal),
        ),
        Call::SetMaxActiveIssuers { new_max, allow_below_usage } => policy_answer(
            set_max_refusal(s, new_max, allow_below_usage),
        ),
        Call::SetReactivationCooldown { .. } => policy_answer(set_cooldown_refusal(s)),
        Call::ApproveUpgrade { new_version, .. } => abort_answer(approve_abort(s, new_version)),
        Call::RevokeUpgrade { .. } => abort_answer(withdraw_abort(s)),
        Call::UpgradeContract { hash } => abort_answer(upgrade_abort(s, hash)),
    }
}

/// What an accepted call asks of the host.
pub open spec fn accepted_effects(v: EnvView, call: Call) -> Seq<Effect> {
    match call {
        Call::Initialize { admin, .. } => initialize_effects(v, admin),
        Call::Migrate { active_issuer_count } => migrate_effects(v, active_issuer_count),
        Call::RegisterIssuer { id, address, metadata, .. } => register_effects(
            v,
            id,
            address,
            metadata,
        ),
        Call::UpdateIssuer { id, metadata } => update_effects(v, id, metadata),
        Call::SetStatus { id, status } => status_effects(v, id, status),
        Call::RotateIssuerAddress { id, address, .. } => rotate_effects(v, id, address),
        Call::SetMaxActiveIssuers { new_max, .. } => set_max_effects(v, new_max),
        Call::SetReactivationCooldown { cooldown_seconds } => set_cooldown_effects(
            v,
            cooldown_seconds,
        ),
        Call::ApproveUpgrade { hash, new_version } => approve_effects(v, hash, new_version),
        Call::RevokeUpgrade { hash } => withdraw_effects(v, hash),
        Call::UpgradeContract { hash } => upgrade_effects(v, hash),
    }
}

/// What a call asks of the host, however it ends.
pub open spec fn effects(v: EnvView, call: Call) -> Seq<Effect> {
    match answer(v.state, v.timestamp, call) {
        Answer::Done => accepted_effects(v, call),
        Answer::ContractRefused(_) => seq![],
        Answer::Refused(_) => match call {
            Call::RegisterIssuer { valid_principal, .. } => register_demand(
                v.state,
                valid_principal,
            ),
            Call::RotateIssuerAddress { valid_principal, .. } => register_demand(
                v.state,
                valid_principal,
            ),
            _ => admin_demand(v.state),
        },
        Answer::Aborted(_) => admin_demand(v.state),
    }
}

/// The ledger once the host has performed `effects` in order.
pub open spec fn replay(s: State, effects: Seq<Effect>) -> State
    decreases effects.len(),
{
    if effects.len() == 0 {
        s
    } else {
        replay(s, effects.drop_last()).apply(effects.last())
    }
}

/// Whether a call has left the environment as it should: the ledger as the call
/// leaves it, and in the journal what it asks for, behind what was there.
pub open spec fn carried_out(before: EnvView, after: EnvView, call: Call) -> bool {
    after == before.after(step(before.state, before.timestamp, call), effects(before, call))
}

/// The end of a call that returned `result`.
pub open spec fn ended(result: Result<(), IssuerError>) -> Answer {
    match result {
        Ok(()) => Answer::Done,
        Err(error) => Answer::Refused(error),
    }
}

/// The end of a call that returned `result` and may have aborted.
pub open spec fn settled(result: Result<(), Result<IssuerError, Abort>>) -> Answer {
    match result {
        Ok(()) => Answer::Done,
        Err(Ok(error)) => Answer::Refused(error),
        Err(Err(abort)) => Answer::Aborted(abort),
    }
}

/// The end of a call that returned `result` and only an abort can stop.
pub open spec fn stopped(result: Result<(), Abort>) -> Answer {
    match result {
        Ok(()) => Answer::Done,
        Err(abort) => Answer::Aborted(abort),
    }
}

/// The events among `effects`, in order.
pub open spec fn published(effects: Seq<Effect>) -> Seq<Event>
    decreases effects.len(),
{
    if effects.len() == 0 {
        seq![]
    } else {
        match effects.last() {
            Effect::Publish(event) => published(effects.drop_last()).push(event),
            _ => published(effects.drop_last()),
        }
    }
}

/// The registry epoch that an event carries, where it reports a change of an
/// issuer.
pub open spec fn event_epoch(event: Event) -> Option<u64> {
    match event {
        Event::IssuerRegistered(e) => Some(e.epoch),
        Event::IssuerMetadataUpdated(e) => Some(e.epoch),
        Event::IssuerSuspended(e) => Some(e.epoch),
        Event::IssuerReactivated(e) => Some(e.epoch),
        Event::IssuerRevoked(e) => Some(e.epoch),
        Event::IssuerAddressRotated(e) => Some(e.epoch),
        _ => None,
    }
}

proof fn lemma_replay_concat(s: State, first: Seq<Effect>, second: Seq<Effect>)
    ensures
        replay(s, first + second) == replay(replay(s, first), second),
    decreases second.len(),
{
    if second.len() == 0 {
        assert(first + second =~= first);
    } else {
        lemma_replay_concat(s, first, second.drop_last());
        assert((first + second).drop_last() =~= first + second.drop_last());
        assert((first + second).last() == second.last());
    }
}

/// The ledger once the effect at place `i`, if there is one, has been performed
/// as well.
spec fn performed(s: State, effects: Seq<Effect>, i: int) -> State {
    if i < effects.len() {
        s.apply(effects[i])
    } else {
        s
    }
}

proof fn lemma_replay_one_more(s: State, effects: Seq<Effect>, n: int)
    requires
        0 <= n,
    ensures
        replay(s, effects.take(least(n + 1, effects))) == performed(
            replay(s, effects.take(least(n, effects))),
            effects,
            n,
        ),
{
    if n < effects.len() {
        assert(effects.take(n + 1).drop_last() =~= effects.take(n));
    }
}

/// `n`, or the number of effects where there are fewer.
spec fn least(n: int, effects: Seq<Effect>) -> int {
    if n < effects.len() {
        n
    } else {
        effects.len() as int
    }
}

/// Up to eight effects, one after the other.
proof fn lemma_replay_short(s: State, effects: Seq<Effect>)
    requires
        effects.len() <= 8,
    ensures
        ({
            let s0 = performed(s, effects, 0);
            let s1 = performed(s0, effects, 1);
            let s2 = performed(s1, effects, 2);
            let s3 = performed(s2, effects, 3);
            let s4 = performed(s3, effects, 4);
            let s5 = performed(s4, effects, 5);
            let s6 = performed(s5, effects, 6);
            replay(s, effects) == performed(s6, effects, 7)
        }),
{
    assert(effects.take(0) =~= Seq::empty());
    lemma_replay_one_more(s, effects, 0);
    lemma_replay_one_more(s, effects, 1);
    lemma_replay_one_more(s, effects, 2);
    lemma_replay_one_more(s, effects, 3);
    lemma_replay_one_more(s, effects, 4);
    lemma_replay_one_more(s, effects, 5);
    lemma_replay_one_more(s, effects, 6);
    lemma_replay_one_more(s, effects, 7);
    assert(effects.take(least(8, effects)) =~= effects);
}

/// An authorization alone changes nothing on the ledger.
proof fn lemma_replay_demand(s: State, demand: Seq<Effect>)
    requires
        demand == admin_demand(s) || demand == Seq::<Effect>::empty(),
    ensures
        replay(s, demand) == s,
{
    reveal_with_fuel(replay, 2);
}

/// Effects of which none is an event publish none.
proof fn lemma_published_none(effects: Seq<Effect>)
    requires
        forall|i: int| 0 <= i < effects.len() ==> !(#[trigger] effects[i] is Publish),
    ensures
        published(effects) == Seq::<Event>::empty(),
    decreases effects.len(),
{
    if effects.len() > 0 {
        lemma_published_none(effects.drop_last());
    }
}

/// Effects of which only the last is an event publish that one.
proof fn lemma_published_last(effects: Seq<Effect>, event: Event)
    requires
        effects.len() > 0,
        effects.last() == Effect::Publish(event),
        forall|i: int| 0 <= i < effects.len() - 1 ==> !(#[trigger] effects[i] is Publish),
    ensures
        published(effects) == seq![event],
{
    lemma_published_none(effects.drop_last());
}

/// How a call ends says whether it is accepted.
pub proof fn law_answer_decides(s: State, now: u64, call: Call)
    ensures
        accepted(s, now, call) <==> answer(s, now, call) is Done,
{
}

proof fn lemma_initialize_replays(v: EnvView, admin: Address)
    requires
        v.state.admin is None,
    ensures
        replay(v.state, initialize_effects(v, admin)) == initialize_state(v.state, admin),
{
    let fx = initialize_effects(v, admin);
    assert(fx.len() == 8);
    lemma_replay_short(v.state, fx);
    assert(replay(v.state, fx) =~= initialize_state(v.state, admin));
}

proof fn lemma_put_if_replays(s: State, absent: bool, entry: Entry)
    ensures
        replay(s, put_if(absent, entry)) == if absent {
            s.put(entry)
        } else {
            s
        },
{
    reveal_with_fuel(replay, 2);
}

proof fn lemma_migrate_replays(v: EnvView, count: u32)
    requires
        v.state.admin is Some,
    ensures
        replay(v.state, migrate_effects(v, count)) == migrate_state(v.state, count),
{
    let s = v.state;
    let demand = admin_demand(s);
    let epoch = put_if(s.issuer_epoch is None, Entry::IssuerEpoch(0));
    let max = put_if(s.max_active_issuers is None, Entry::MaxActiveIssuers(u32::MAX));
    let cooldown = put_if(s.reactivation_cooldown is None, Entry::ReactivationCooldown(0));
    let rest = seq![
        Effect::Put(Entry::ActiveIssuerCount(count)),
        Effect::ExtendInstanceTtl(v.parameters.ttl),
    ];
    lemma_replay_demand(s, demand);
    lemma_replay_concat(s, demand, epoch);
    let s1 = replay(s, demand + epoch);
    lemma_put_if_replays(s, s.issuer_epoch is None, Entry::IssuerEpoch(0));
    lemma_replay_concat(s, demand + epoch, max);
    let s2 = replay(s, demand + epoch + max);
    lemma_put_if_replays(s1, s.max_active_issuers is None, Entry::MaxActiveIssuers(u32::MAX));
    lemma_replay_concat(s, demand + epoch + max, cooldown);
    let s3 = replay(s, demand + epoch + max + cooldown);
    lemma_put_if_replays(s2, s.reactivation_cooldown is None, Entry::ReactivationCooldown(0));
    lemma_replay_concat(s, demand + epoch + max + cooldown, rest);
    assert(rest.len() == 2);
    lemma_replay_short(s3, rest);
    assert(replay(s, migrate_effects(v, count)) =~= migrate_state(s, count));
}

proof fn lemma_register_replays(
    v: EnvView,
    id: BytesN<32>,
    address: Address,
    metadata: BytesN<32>,
)
    requires
        v.state.admin is Some,
    ensures
        replay(v.state, register_effects(v, id, address, metadata)) == register_state(
            v.state,
            v.timestamp,
            id,
            address,
            metadata,
        ),
{
    let fx = register_effects(v, id, address, metadata);
    let change = fx.take(fx.len() - 3);
    let advance = fx.skip(fx.len() - 3);
    assert(fx =~= change + advance);
    lemma_replay_concat(v.state, change, advance);
    lemma_replay_short(v.state, change);
    lemma_replay_short(replay(v.state, change), advance);
    assert(replay(v.state, fx) =~= register_state(v.state, v.timestamp, id, address, metadata));
}

proof fn lemma_update_replays(v: EnvView, id: BytesN<32>, metadata: BytesN<32>)
    requires
        v.state.admin is Some,
    ensures
        replay(v.state, update_effects(v, id, metadata)) == update_state(
            v.state,
            v.timestamp,
            id,
            metadata,
        ),
{
    let fx = update_effects(v, id, metadata);
    let change = fx.take(fx.len() - 3);
    let advance = fx.skip(fx.len() - 3);
    assert(fx =~= change + advance);
    lemma_replay_concat(v.state, change, advance);
    lemma_replay_short(v.state, change);
    lemma_replay_short(replay(v.state, change), advance);
    assert(replay(v.state, fx) =~= update_state(v.state, v.timestamp, id, metadata));
}

proof fn lemma_status_replays(v: EnvView, id: BytesN<32>, status: IssuerStatus)
    requires
        status_refusal(v.state, v.timestamp, id, status) is None,
    ensures
        replay(v.state, status_effects(v, id, status)) == status_state(
            v.state,
            v.timestamp,
            id,
            status,
        ),
{
    let fx = status_effects(v, id, status);
    let change = fx.take(fx.len() - 3);
    let advance = fx.skip(fx.len() - 3);
    assert(fx =~= change + advance);
    lemma_replay_concat(v.state, change, advance);
    lemma_replay_short(v.state, change);
    lemma_replay_short(replay(v.state, change), advance);
    assert(replay(v.state, fx) =~= status_state(v.state, v.timestamp, id, status));
}

proof fn lemma_rotate_replays(v: EnvView, id: BytesN<32>, address: Address)
    requires
        v.state.admin is Some,
    ensures
        replay(v.state, rotate_effects(v, id, address)) == rotate_state(
            v.state,
            v.timestamp,
            id,
            address,
        ),
{
    let fx = rotate_effects(v, id, address);
    let change = fx.take(fx.len() - 3);
    let advance = fx.skip(fx.len() - 3);
    assert(fx =~= change + advance);
    lemma_replay_concat(v.state, change, advance);
    lemma_replay_short(v.state, change);
    lemma_replay_short(replay(v.state, change), advance);
    assert(replay(v.state, fx) =~= rotate_state(v.state, v.timestamp, id, address));
}

proof fn lemma_set_max_replays(v: EnvView, new_max: u32)
    requires
        v.state.admin is Some,
    ensures
        replay(v.state, set_max_effects(v, new_max)) == set_max_state(v.state, new_max),
{
    let fx = set_max_effects(v, new_max);
    assert(fx.len() == 4);
    lemma_replay_short(v.state, fx);
    assert(replay(v.state, fx) =~= set_max_state(v.state, new_max));
}

proof fn lemma_set_cooldown_replays(v: EnvView, seconds: u64)
    requires
        v.state.admin is Some,
    ensures
        replay(v.state, set_cooldown_effects(v, seconds)) == set_cooldown_state(v.state, seconds),
{
    let fx = set_cooldown_effects(v, seconds);
    assert(fx.len() == 4);
    lemma_replay_short(v.state, fx);
    assert(replay(v.state, fx) =~= set_cooldown_state(v.state, seconds));
}

proof fn lemma_approve_replays(v: EnvView, hash: BytesN<32>, version: u32)
    requires
        v.state.admin is Some,
    ensures
        replay(v.state, approve_effects(v, hash, version)) == approve_state(v.state, hash, version),
{
    let fx = approve_effects(v, hash, version);
    assert(fx.len() == 4);
    lemma_replay_short(v.state, fx);
    assert(replay(v.state, fx) =~= approve_state(v.state, hash, version));
}

proof fn lemma_withdraw_replays(v: EnvView, hash: BytesN<32>)
    requires
        v.state.admin is Some,
    ensures
        replay(v.state, withdraw_effects(v, hash)) == withdraw_state(v.state, hash),
{
    let fx = withdraw_effects(v, hash);
    assert(fx.len() == 3);
    lemma_replay_short(v.state, fx);
    assert(replay(v.state, fx) =~= withdraw_state(v.state, hash));
}

proof fn lemma_upgrade_replays(v: EnvView, hash: BytesN<32>)
    requires
        v.state.admin is Some,
    ensures
        replay(v.state, upgrade_effects(v, hash)) == upgrade_state(v.state, hash),
{
    let fx = upgrade_effects(v, hash);
    assert(fx.len() == 6);
    lemma_replay_short(v.state, fx);
    assert(replay(v.state, fx) =~= upgrade_state(v.state, hash));
}

/// Performed by the host, what a call asks for leaves on the ledger what the
/// call says: nothing is forgotten and nothing else is touched.
pub proof fn law_journal_replays(v: EnvView, call: Call)
    ensures
        replay(v.state, effects(v, call)) == step(v.state, v.timestamp, call),
{
    law_answer_decides(v.state, v.timestamp, call);
    if !accepted(v.state, v.timestamp, call) {
        lemma_replay_demand(v.state, effects(v, call));
    } else {
        match call {
            Call::Initialize { admin, .. } => lemma_initialize_replays(v, admin),
            Call::Migrate { active_issuer_count } => lemma_migrate_replays(v, active_issuer_count),
            Call::RegisterIssuer { id, address, metadata, .. } => lemma_register_replays(
                v,
                id,
                address,
                metadata,
            ),
            Call::UpdateIssuer { id, metadata } => lemma_update_replays(v, id, metadata),
            Call::SetStatus { id, status } => lemma_status_replays(v, id, status),
            Call::RotateIssuerAddress { id, address, .. } => lemma_rotate_replays(v, id, address),
            Call::SetMaxActiveIssuers { new_max, .. } => lemma_set_max_replays(v, new_max),
            Call::SetReactivationCooldown { cooldown_seconds } => lemma_set_cooldown_replays(
                v,
                cooldown_seconds,
            ),
            Call::ApproveUpgrade { hash, new_version } => lemma_approve_replays(
                v,
                hash,
                new_version,
            ),
            Call::RevokeUpgrade { hash } => lemma_withdraw_replays(v, hash),
            Call::UpgradeContract { hash } => lemma_upgrade_replays(v, hash),
        }
    }
}

/// The events of an accepted call: `initialize` and `migrate` publish none,
/// every other call exactly one. The event of a change of an issuer carries the
/// epoch that the change leads to.
pub proof fn law_one_event_per_change(v: EnvView, call: Call)
    requires
        accepted(v.state, v.timestamp, call),
    ensures
        published(effects(v, call)).len() == if call is Initialize || call is Migrate {
            0int
        } else {
            1int
        },
        changes_issuer(call) ==> event_epoch(published(effects(v, call))[0]) == Some(
            step(v.state, v.timestamp, call).epoch(),
        ),
{
    let fx = effects(v, call);
    law_answer_decides(v.state, v.timestamp, call);
    if call is Initialize || call is Migrate {
        lemma_published_none(fx);
    } else {
        match call {
            Call::SetStatus { id, status } => {
                let change = transition_effects(v, id, status);
                assert(fx.len() == change.len() + 6);
                assert(change.len() <= 4);
                assert forall|i: int| 0 <= i < fx.len() - 1 implies !(#[trigger] fx[i]
                    is Publish) by {
                    if 1 <= i <= change.len() {
                        assert(fx[i] == change[i - 1]);
                    }
                }
            },
            _ => {},
        }
        lemma_published_last(fx, fx.last()->Publish_0);
    }
}

/// A call that is refused or aborted publishes nothing and writes nothing: all
/// that it may have asked for is the administrator's authorization.
pub proof fn law_refused_call_leaves_no_trace(v: EnvView, call: Call)
    requires
        !accepted(v.state, v.timestamp, call),
    ensures
        effects(v, call) == Seq::<Effect>::empty() || (v.state.admin is Some && effects(v, call)
            == seq![Effect::RequireAuth(v.state.admin->0)]),
        published(effects(v, call)) == Seq::<Event>::empty(),
        step(v.state, v.timestamp, call) == v.state,
{
    law_answer_decides(v.state, v.timestamp, call);
    lemma_published_none(effects(v, call));
}

/// Whether the ledger has an entry of this name.
pub open spec fn holds(s: State, key: DataKey) -> bool {
    match key {
        DataKey::Admin => s.admin is Some,
        DataKey::Issuer(id) => s.issuers.contains_key(id),
        DataKey::AddressIssuer(address) => s.address_issuers.contains_key(address),
        DataKey::AllowedWasm(hash) => s.allowed_wasm.contains_key(hash),
        DataKey::ContractVersion => s.contract_version is Some,
        DataKey::IssuerEpoch => s.issuer_epoch is Some,
        DataKey::MaxActiveIssuers => s.max_active_issuers is Some,
        DataKey::ActiveIssuerCount => s.active_issuer_count is Some,
        DataKey::ReactivationCooldown => s.reactivation_cooldown is Some,
        DataKey::ReactivatableAt(id) => s.reactivatable_at.contains_key(id),
    }
}

/// A call extends the lifetime only of entries that it leaves on the ledger, and
/// by the shared policy.
pub proof fn law_extended_entries_exist(v: EnvView, call: Call, i: int)
    requires
        0 <= i < effects(v, call).len(),
        effects(v, call)[i] is ExtendTtl,
    ensures
        holds(step(v.state, v.timestamp, call), effects(v, call)[i]->ExtendTtl_0),
        effects(v, call)[i]->ExtendTtl_1 == v.parameters.ttl,
{
    let fx = effects(v, call);
    law_answer_decides(v.state, v.timestamp, call);
    if !accepted(v.state, v.timestamp, call) {
        assert(fx.len() <= 1);
        assert(fx[0] is RequireAuth);
    } else {
        match call {
            Call::Initialize { .. } => assert(fx.len() == 8),
            Call::RegisterIssuer { .. } => assert(fx.len() == 10),
            Call::UpdateIssuer { .. } => assert(fx.len() == 6),
            Call::SetStatus { id, status } => {
                let change = transition_effects(v, id, status);
                assert(fx.len() == change.len() + 6);
                assert(change.len() <= 4);
                if 1 <= i <= change.len() {
                    assert(fx[i] == change[i - 1]);
                    assert(fx[i] is ExtendTtl ==> fx[i]->ExtendTtl_0 == DataKey::ReactivatableAt(
                        id,
                    ) && status == IssuerStatus::Suspended);
                }
            },
            Call::RotateIssuerAddress { .. } => assert(fx.len() == 9),
            Call::UpgradeContract { .. } => assert(fx.len() == 6),
            Call::RevokeUpgrade { .. } => assert(fx.len() == 3),
            Call::Migrate { .. } => assert(3 <= fx.len() <= 6),
            _ => assert(fx.len() == 4),
        }
    }
}

/// Only the administrator changes anything: a call that asks the host for
/// anything asks first for the authorization of the administrator (of the
/// administrator to be, where it is `initialize`), and so the host stops it
/// before the first write unless that address has given it.
pub proof fn law_admin_authorizes_first(v: EnvView, call: Call)
    requires
        effects(v, call).len() > 0,
    ensures
        effects(v, call)[0] == Effect::RequireAuth(
            match call {
                Call::Initialize { admin, .. } => admin,
                _ => v.state.admin->0,
            },
        ),
        call is Initialize || v.state.admin is Some,
{
}

/// A call that changes the ledger asks for an authorization.
pub proof fn law_every_change_is_authorized(v: EnvView, call: Call)
    requires
        step(v.state, v.timestamp, call) != v.state,
    ensures
        effects(v, call).len() > 0,
{
    law_answer_decides(v.state, v.timestamp, call);
}

} // verus!
