//! Which ledger entries a call depends on. The host need hand over no others:
//! besides the contract instance these are the entries under the ids, addresses
//! and hashes that the call itself names.

use crate::bytes::{Address, BytesN};
use crate::env::{EnvView, State};
use crate::laws::Call;
use crate::model::IssuerStatus;
use crate::replay::{answer, effects};
use crate::rules::{
    active_address_effects, issuer_answer, issuer_by_address_answer, issuer_by_address_effects,
    issuer_effects,
};
use vstd::prelude::*;

verus! {

/// The ledger with nothing on record but the contract instance, the records and
/// the deadlines of the given issuers, and the entries under the given addresses
/// and hashes.
pub open spec fn restricted(
    s: State,
    ids: Set<BytesN<32>>,
    deadlines: Set<BytesN<32>>,
    addresses: Set<Address>,
    hashes: Set<BytesN<32>>,
) -> State {
    State {
        issuers: s.issuers.restrict(ids),
        reactivatable_at: s.reactivatable_at.restrict(deadlines),
        address_issuers: s.address_issuers.restrict(addresses),
        allowed_wasm: s.allowed_wasm.restrict(hashes),
        ..s
    }
}

/// The issuer ids that a call names.
pub open spec fn named_ids(call: Call) -> Set<BytesN<32>> {
    match call {
        Call::RegisterIssuer { id, .. } => set![id],
        Call::UpdateIssuer { id, .. } => set![id],
        Call::SetStatus { id, .. } => set![id],
        Call::RotateIssuerAddress { id, .. } => set![id],
        _ => set![],
    }
}

/// The issuers whose deadlines a call looks at.
pub open spec fn named_deadlines(call: Call) -> Set<BytesN<32>> {
    match call {
        Call::SetStatus { id, status: IssuerStatus::Active } => set![id],
        _ => set![],
    }
}

/// The issuer addresses that a call names.
pub open spec fn named_addresses(call: Call) -> Set<Address> {
    match call {
        Call::RegisterIssuer { address, .. } => set![address],
        Call::RotateIssuerAddress { address, .. } => set![address],
        _ => set![],
    }
}

/// The WASM hashes that a call names.
pub open spec fn named_hashes(call: Call) -> Set<BytesN<32>> {
    match call {
        Call::UpgradeContract { hash } => set![hash],
        _ => set![],
    }
}

/// A call ends the same way and asks the host for the same things whatever the
/// ledger holds besides the contract instance and the entries that it names.
pub proof fn law_calls_are_local(v: EnvView, call: Call)
    ensures
        ({
            let seen = EnvView {
                state: restricted(
                    v.state,
                    named_ids(call),
                    named_deadlines(call),
                    named_addresses(call),
                    named_hashes(call),
                ),
                ..v
            };
            &&& answer(seen.state, v.timestamp, call) == answer(v.state, v.timestamp, call)
            &&& effects(seen, call) == effects(v, call)
        }),
{
}

/// To read an issuer by its id takes its record alone.
pub proof fn law_lookup_by_id_is_local(v: EnvView, id: BytesN<32>)
    ensures
        ({
            let seen = EnvView {
                state: restricted(v.state, set![id], set![], set![], set![]),
                ..v
            };
            &&& issuer_answer(seen.state, id) == issuer_answer(v.state, id)
            &&& seen.state.is_active(id) == v.state.is_active(id)
            &&& issuer_effects(seen, id) == issuer_effects(v, id)
        }),
{
}

/// To read the earliest reactivation of an issuer takes its deadline alone.
pub proof fn law_deadline_lookup_is_local(s: State, id: BytesN<32>)
    ensures
        restricted(s, set![], set![id], set![], set![]).earliest_reactivation(id)
            == s.earliest_reactivation(id),
{
}

/// To ask whether a WASM hash is allowed takes its allowlist entry alone.
pub proof fn law_allowlist_lookup_is_local(s: State, hash: BytesN<32>)
    ensures
        restricted(s, set![], set![], set![], set![hash]).allowed_wasm.contains_key(hash)
            == s.allowed_wasm.contains_key(hash),
{
}

/// To read an issuer by its address takes the address and the record that it
/// leads to.
pub proof fn law_lookup_by_address_is_local(v: EnvView, address: Address)
    ensures
        ({
            let seen = EnvView {
                state: restricted(
                    v.state,
                    set![v.state.address_issuers[address]],
                    set![],
                    set![address],
                    set![],
                ),
                ..v
            };
            &&& issuer_by_address_answer(seen.state, address) == issuer_by_address_answer(
                v.state,
                address,
            )
            &&& seen.state.is_active_address(address) == v.state.is_active_address(address)
            &&& issuer_by_address_effects(seen, address) == issuer_by_address_effects(v, address)
            &&& active_address_effects(seen, address) == active_address_effects(v, address)
        }),
{
}

} // verus!
