//! What a ledger entry is: what is written can be read, what is removed cannot,
//! and the figures, records and lookups that callers see are the entries on
//! record.

use crate::bytes::{Address, BytesN};
use crate::env::{DataKey, Effect, Entry, EnvView, State};
use crate::model::{IssuerError, IssuerRecord, IssuerStatus};
use crate::rules::{issuer_answer, issuer_by_address_answer};
use vstd::prelude::*;

verus! {

/// The name that an entry stands under.
pub open spec fn name(entry: Entry) -> DataKey {
    match entry {
        Entry::Admin(_) => DataKey::Admin,
        Entry::Issuer(id, _) => DataKey::Issuer(id),
        Entry::AddressIssuer(address, _) => DataKey::AddressIssuer(address),
        Entry::AllowedWasm(hash, _) => DataKey::AllowedWasm(hash),
        Entry::ContractVersion(_) => DataKey::ContractVersion,
        Entry::IssuerEpoch(_) => DataKey::IssuerEpoch,
        Entry::MaxActiveIssuers(_) => DataKey::MaxActiveIssuers,
        Entry::ActiveIssuerCount(_) => DataKey::ActiveIssuerCount,
        Entry::ReactivationCooldown(_) => DataKey::ReactivationCooldown,
        Entry::ReactivatableAt(id, _) => DataKey::ReactivatableAt(id),
    }
}

/// Whether the ledger has exactly this entry.
pub open spec fn has_entry(s: State, entry: Entry) -> bool {
    match entry {
        Entry::Admin(admin) => s.admin == Some(admin),
        Entry::Issuer(id, record) => s.issuers.contains_key(id) && s.issuers[id] == record,
        Entry::AddressIssuer(address, id) => s.address_issuers.contains_key(address)
            && s.address_issuers[address] == id,
        Entry::AllowedWasm(hash, version) => s.allowed_wasm.contains_key(hash)
            && s.allowed_wasm[hash] == version,
        Entry::ContractVersion(version) => s.contract_version == Some(version),
        Entry::IssuerEpoch(epoch) => s.issuer_epoch == Some(epoch),
        Entry::MaxActiveIssuers(max) => s.max_active_issuers == Some(max),
        Entry::ActiveIssuerCount(count) => s.active_issuer_count == Some(count),
        Entry::ReactivationCooldown(seconds) => s.reactivation_cooldown == Some(seconds),
        Entry::ReactivatableAt(id, time) => s.reactivatable_at.contains_key(id)
            && s.reactivatable_at[id] == time,
    }
}

/// Whether the two ledgers have the same entries but for those under `names`.
pub open spec fn same_but(s: State, t: State, names: Set<DataKey>) -> bool {
    forall|entry: Entry|
        !names.contains(name(entry)) ==> #[trigger] has_entry(t, entry) == has_entry(s, entry)
}

/// Whether two maps agree on a key.
spec fn same_at<K, V>(a: Map<K, V>, b: Map<K, V>, key: K) -> bool {
    &&& a.contains_key(key) == b.contains_key(key)
    &&& a.contains_key(key) ==> a[key] == b[key]
}

proof fn lemma_same_map<K, V>(a: Map<K, V>, b: Map<K, V>)
    requires
        forall|key: K| #[trigger] same_at(a, b, key),
    ensures
        a == b,
{
    assert forall|key: K| a.dom().contains(key) == b.dom().contains(key) by {
        assert(same_at(a, b, key));
    }
    assert forall|key: K| #[trigger] a.dom().contains(key) implies a[key] == b[key] by {
        assert(same_at(a, b, key));
    }
    assert(a =~= b);
}

/// Two ledgers with the same entries are the same.
pub proof fn law_entries_are_all_there_is(s: State, t: State)
    requires
        same_but(s, t, Set::empty()),
    ensures
        s == t,
{
    assert(s.admin == t.admin) by {
        if let Some(admin) = s.admin {
            assert(has_entry(t, Entry::Admin(admin)));
        }
        if let Some(admin) = t.admin {
            assert(has_entry(t, Entry::Admin(admin)));
        }
    }
    assert(s.contract_version == t.contract_version) by {
        if let Some(version) = s.contract_version {
            assert(has_entry(t, Entry::ContractVersion(version)));
        }
        if let Some(version) = t.contract_version {
            assert(has_entry(t, Entry::ContractVersion(version)));
        }
    }
    assert(s.issuer_epoch == t.issuer_epoch) by {
        if let Some(epoch) = s.issuer_epoch {
            assert(has_entry(t, Entry::IssuerEpoch(epoch)));
        }
        if let Some(epoch) = t.issuer_epoch {
            assert(has_entry(t, Entry::IssuerEpoch(epoch)));
        }
    }
    assert(s.max_active_issuers == t.max_active_issuers) by {
        if let Some(max) = s.max_active_issuers {
            assert(has_entry(t, Entry::MaxActiveIssuers(max)));
        }
        if let Some(max) = t.max_active_issuers {
            assert(has_entry(t, Entry::MaxActiveIssuers(max)));
        }
    }
    assert(s.active_issuer_count == t.active_issuer_count) by {
        if let Some(count) = s.active_issuer_count {
            assert(has_entry(t, Entry::ActiveIssuerCount(count)));
        }
        if let Some(count) = t.active_issuer_count {
            assert(has_entry(t, Entry::ActiveIssuerCount(count)));
        }
    }
    assert(s.reactivation_cooldown == t.reactivation_cooldown) by {
        if let Some(seconds) = s.reactivation_cooldown {
            assert(has_entry(t, Entry::ReactivationCooldown(seconds)));
        }
        if let Some(seconds) = t.reactivation_cooldown {
            assert(has_entry(t, Entry::ReactivationCooldown(seconds)));
        }
    }
    assert forall|hash: BytesN<32>| same_at(s.allowed_wasm, t.allowed_wasm, hash) by {
        assert(has_entry(s, Entry::AllowedWasm(hash, s.allowed_wasm[hash])) == has_entry(
            t,
            Entry::AllowedWasm(hash, s.allowed_wasm[hash]),
        ));
        assert(has_entry(s, Entry::AllowedWasm(hash, t.allowed_wasm[hash])) == has_entry(
            t,
            Entry::AllowedWasm(hash, t.allowed_wasm[hash]),
        ));
    }
    lemma_same_map(s.allowed_wasm, t.allowed_wasm);
    assert forall|id: BytesN<32>| same_at(s.issuers, t.issuers, id) by {
        assert(has_entry(s, Entry::Issuer(id, s.issuers[id])) == has_entry(
            t,
            Entry::Issuer(id, s.issuers[id]),
        ));
        assert(has_entry(s, Entry::Issuer(id, t.issuers[id])) == has_entry(
            t,
            Entry::Issuer(id, t.issuers[id]),
        ));
    }
    lemma_same_map(s.issuers, t.issuers);
    assert forall|address: Address| same_at(s.address_issuers, t.address_issuers, address) by {
        assert(has_entry(s, Entry::AddressIssuer(address, s.address_issuers[address])) == has_entry(
            t,
            Entry::AddressIssuer(address, s.address_issuers[address]),
        ));
        assert(has_entry(s, Entry::AddressIssuer(address, t.address_issuers[address])) == has_entry(
            t,
            Entry::AddressIssuer(address, t.address_issuers[address]),
        ));
    }
    lemma_same_map(s.address_issuers, t.address_issuers);
    assert forall|id: BytesN<32>| same_at(s.reactivatable_at, t.reactivatable_at, id) by {
        assert(has_entry(s, Entry::ReactivatableAt(id, s.reactivatable_at[id])) == has_entry(
            t,
            Entry::ReactivatableAt(id, s.reactivatable_at[id]),
        ));
        assert(has_entry(s, Entry::ReactivatableAt(id, t.reactivatable_at[id])) == has_entry(
            t,
            Entry::ReactivatableAt(id, t.reactivatable_at[id]),
        ));
    }
    lemma_same_map(s.reactivatable_at, t.reactivatable_at);
}

/// The empty ledger has no entry.
pub proof fn law_empty_ledger_has_no_entry(entry: Entry)
    ensures
        !has_entry(State::empty(), entry),
{
}

/// There is at most one entry under a name.
pub proof fn law_one_entry_per_name(s: State, first: Entry, second: Entry)
    requires
        has_entry(s, first),
        has_entry(s, second),
        name(first) == name(second),
    ensures
        first == second,
{
}

/// An entry that has been written is on record, and every other entry is as it
/// was.
pub proof fn law_write_is_recorded(s: State, entry: Entry)
    ensures
        has_entry(s.put(entry), entry),
        same_but(s, s.put(entry), set![name(entry)]),
{
}

/// Under a name that has been removed there is no entry, and every other entry is
/// as it was.
pub proof fn law_removal_is_recorded(s: State, key: DataKey)
    ensures
        forall|entry: Entry| name(entry) == key ==> !#[trigger] has_entry(s.remove(key), entry),
        same_but(s, s.remove(key), set![key]),
{
}

/// A host that performs a write or a removal records it; nothing else that a call
/// can ask for touches the ledger entries.
pub proof fn law_only_writes_touch_the_ledger(s: State, effect: Effect)
    ensures
        match effect {
            Effect::Put(entry) => has_entry(s.apply(effect), entry) && same_but(
                s,
                s.apply(effect),
                set![name(entry)],
            ),
            Effect::Remove(key) => same_but(s, s.apply(effect), set![key]) && forall|entry: Entry|
                name(entry) == key ==> !#[trigger] has_entry(s.apply(effect), entry),
            _ => s.apply(effect) == s,
        },
{
}

/// To ask for more leaves what has been asked for before, and the time and the
/// parameters, as they were.
pub proof fn law_journal_only_grows(v: EnvView, state: State, effects: Seq<Effect>, i: int)
    ensures
        v.after(state, effects).state == state,
        v.after(state, effects).timestamp == v.timestamp,
        v.after(state, effects).parameters == v.parameters,
        v.after(state, effects).journal.len() == v.journal.len() + effects.len(),
        0 <= i < v.journal.len() ==> v.after(state, effects).journal[i] == v.journal[i],
        0 <= i < effects.len() ==> v.after(state, effects).journal[v.journal.len() + i]
            == effects[i],
        v.asking(effects) == v.after(v.state, effects),
{
}

/// A figure reads as the entry on record, whatever its value.
pub proof fn law_figures_are_the_entries_on_record(
    s: State,
    epoch: u64,
    count: u32,
    max: u32,
    seconds: u64,
    version: u32,
)
    ensures
        has_entry(s, Entry::IssuerEpoch(epoch)) ==> s.epoch() == epoch,
        has_entry(s, Entry::ActiveIssuerCount(count)) ==> s.active_count() == count,
        has_entry(s, Entry::MaxActiveIssuers(max)) ==> s.max_active() == max,
        has_entry(s, Entry::ReactivationCooldown(seconds)) ==> s.cooldown() == seconds,
        has_entry(s, Entry::ContractVersion(version)) ==> s.version() == version,
{
}

/// A figure that is not on record reads as its default: 0, and no limit for the
/// number of active issuers.
pub proof fn law_figures_have_defaults(s: State)
    ensures
        s.issuer_epoch is None ==> s.epoch() == 0,
        s.active_issuer_count is None ==> s.active_count() == 0,
        s.max_active_issuers is None ==> s.max_active() == u32::MAX,
        s.reactivation_cooldown is None ==> s.cooldown() == 0,
        s.contract_version is None ==> s.version() == 0,
{
}

/// The earliest reactivation of an issuer is the time on record for it, and 0
/// where there is none.
pub proof fn law_earliest_reactivation_is_the_time_on_record(s: State, id: BytesN<32>, time: u64)
    ensures
        has_entry(s, Entry::ReactivatableAt(id, time)) ==> s.earliest_reactivation(id) == time,
        !s.reactivatable_at.contains_key(id) ==> s.earliest_reactivation(id) == 0,
{
}

/// There is room for one more active issuer exactly where the count lies below
/// the bound.
pub proof fn law_room_is_a_count_below_the_bound(s: State)
    ensures
        s.has_capacity() <==> s.active_count() < s.max_active(),
{
}

/// An issuer is read exactly as it is on record, whatever its status: a suspended
/// or revoked one too. It is missing exactly where nothing is on record.
pub proof fn law_lookup_gives_the_record(s: State, id: BytesN<32>, record: IssuerRecord)
    ensures
        issuer_answer(s, id) == Ok::<_, IssuerError>(record) <==> has_entry(
            s,
            Entry::Issuer(id, record),
        ),
        issuer_answer(s, id) is Ok <==> s.issuers.contains_key(id),
        issuer_answer(s, id) is Err ==> issuer_answer(s, id)->Err_0 == IssuerError::IssuerNotFound,
{
}

/// A lookup by address gives the record of the issuer that the address leads to,
/// whatever its status, and tells an unknown address from a missing record.
pub proof fn law_lookup_by_address_gives_the_record(
    s: State,
    address: Address,
    record: IssuerRecord,
)
    ensures
        issuer_by_address_answer(s, address) == Ok::<_, IssuerError>(record) <==> exists|
            id: BytesN<32>,
        |
            has_entry(s, Entry::AddressIssuer(address, id)) && #[trigger] has_entry(
                s,
                Entry::Issuer(id, record),
            ),
        issuer_by_address_answer(s, address) == Err::<IssuerRecord, _>(
            IssuerError::IssuerAddressNotFound,
        ) <==> !s.address_issuers.contains_key(address),
        issuer_by_address_answer(s, address) == Err::<IssuerRecord, _>(IssuerError::IssuerNotFound)
            <==> s.address_issuers.contains_key(address) && !s.issuers.contains_key(
            s.address_issuers[address],
        ),
{
    if issuer_by_address_answer(s, address) == Ok::<_, IssuerError>(record) {
        let id = s.address_issuers[address];
        assert(has_entry(s, Entry::AddressIssuer(address, id)));
        assert(has_entry(s, Entry::Issuer(id, record)));
    }
}

/// An issuer is active exactly where its record says so, and an address exactly
/// where it leads to such a record.
pub proof fn law_activity_is_the_status_on_record(s: State, id: BytesN<32>, address: Address)
    ensures
        s.is_active(id) <==> s.issuers.contains_key(id) && s.issuers[id].status
            == IssuerStatus::Active,
        has_entry(s, Entry::AddressIssuer(address, id)) ==> s.is_active_address(address)
            == s.is_active(id),
        !s.address_issuers.contains_key(address) ==> !s.is_active_address(address),
{
}

} // verus!
