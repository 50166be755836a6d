//! What stays true of the ledger through every history of calls: the records,
//! the addresses and the deadlines fit together, and the count of active issuers
//! is their number.

use crate::bytes::{Address, BytesN};
use crate::env::State;
use crate::laws::{run, step, Call};
use crate::model::IssuerStatus;
use vstd::prelude::*;

verus! {

/// Each record stands under its own id, and its address leads back to it.
pub open spec fn records_are_indexed(s: State) -> bool {
    forall|id: BytesN<32>| #[trigger]
        s.issuers.contains_key(id) ==> {
            &&& s.issuers[id].issuer_id_hash == id
            &&& s.address_issuers.contains_key(s.issuers[id].issuer_address)
            &&& s.address_issuers[s.issuers[id].issuer_address] == id
        }
}

/// Each address leads to a record that holds it.
pub open spec fn addresses_are_held(s: State) -> bool {
    forall|address: Address| #[trigger]
        s.address_issuers.contains_key(address) ==> {
            &&& s.issuers.contains_key(s.address_issuers[address])
            &&& s.issuers[s.address_issuers[address]].issuer_address == address
        }
}

/// A cooldown is pending for suspended issuers alone: no other issuer, and nobody
/// who is not registered, has a deadline on record.
pub open spec fn only_suspended_have_deadlines(s: State) -> bool {
    forall|id: BytesN<32>| #[trigger]
        s.reactivatable_at.contains_key(id) ==> {
            &&& s.issuers.contains_key(id)
            &&& s.issuers[id].status == IssuerStatus::Suspended
        }
}

/// A deadline is on record for every suspended issuer.
pub open spec fn suspended_have_deadlines(s: State) -> bool {
    forall|id: BytesN<32>| #[trigger]
        s.issuers.contains_key(id) && s.issuers[id].status == IssuerStatus::Suspended
            ==> s.reactivatable_at.contains_key(id)
}

/// Either the contract has an administrator, or nothing is on record.
pub open spec fn started_or_empty(s: State) -> bool {
    s.admin is Some || s == State::empty()
}

/// The ledger fits together.
pub open spec fn sound(s: State) -> bool {
    &&& started_or_empty(s)
    &&& s.admin is Some ==> s.version() >= 1
    &&& s.issuers.dom().finite()
    &&& records_are_indexed(s)
    &&& addresses_are_held(s)
    &&& only_suspended_have_deadlines(s)
    &&& suspended_have_deadlines(s)
}

/// A ledger without entries fits together, and its count is exact.
pub proof fn law_empty_ledger_is_sound()
    ensures
        sound(State::empty()),
        accounted(State::empty()),
{
    assert(active_ids(State::empty()) =~= Set::empty());
}

/// Every call keeps the records and the addresses in step, whatever else is on
/// the ledger.
pub proof fn law_every_call_keeps_the_index(s: State, now: u64, call: Call)
    requires
        records_are_indexed(s),
        addresses_are_held(s),
    ensures
        records_are_indexed(step(s, now, call)),
        addresses_are_held(step(s, now, call)),
{
    let t = step(s, now, call);
    match call {
        Call::RotateIssuerAddress { id, address, .. } => {
            if t != s {
                let old_address = s.issuers[id].issuer_address;
                assert forall|other: BytesN<32>| #[trigger] t.issuers.contains_key(other) implies {
                    &&& t.issuers[other].issuer_id_hash == other
                    &&& t.address_issuers.contains_key(t.issuers[other].issuer_address)
                    &&& t.address_issuers[t.issuers[other].issuer_address] == other
                } by {
                    assert(s.issuers.contains_key(other));
                }
                assert forall|a: Address| #[trigger] t.address_issuers.contains_key(a) implies {
                    &&& t.issuers.contains_key(t.address_issuers[a])
                    &&& t.issuers[t.address_issuers[a]].issuer_address == a
                } by {
                    if a != address {
                        assert(a != old_address);
                        assert(s.address_issuers.contains_key(a));
                    }
                }
            }
        },
        _ => {},
    }
}

/// Every call keeps it so that a cooldown is pending for suspended issuers alone.
pub proof fn law_every_call_keeps_deadlines_to_the_suspended(s: State, now: u64, call: Call)
    requires
        only_suspended_have_deadlines(s),
    ensures
        only_suspended_have_deadlines(step(s, now, call)),
{
}

/// Every call keeps a deadline on record for every suspended issuer.
pub proof fn law_every_call_keeps_the_deadlines(s: State, now: u64, call: Call)
    requires
        suspended_have_deadlines(s),
    ensures
        suspended_have_deadlines(step(s, now, call)),
{
}

/// Every call leaves a ledger that fits together as one that does.
pub proof fn law_every_call_keeps_the_ledger_sound(s: State, now: u64, call: Call)
    requires
        sound(s),
    ensures
        sound(step(s, now, call)),
{
    law_every_call_keeps_the_index(s, now, call);
    law_every_call_keeps_deadlines_to_the_suspended(s, now, call);
    law_every_call_keeps_the_deadlines(s, now, call);
}

/// After any history of calls on an empty ledger, it fits together.
pub proof fn law_every_history_is_sound(history: Seq<(u64, Call)>)
    ensures
        sound(run(State::empty(), history)),
    decreases history.len(),
{
    if history.len() > 0 {
        law_every_history_is_sound(history.drop_last());
        law_every_call_keeps_the_ledger_sound(
            run(State::empty(), history.drop_last()),
            history.last().0,
            history.last().1,
        );
    } else {
        law_empty_ledger_is_sound();
    }
}

/// No two issuers hold the same address.
pub proof fn law_addresses_are_unique(s: State, first: BytesN<32>, second: BytesN<32>)
    requires
        records_are_indexed(s),
        s.issuers.contains_key(first),
        s.issuers.contains_key(second),
        s.issuers[first].issuer_address == s.issuers[second].issuer_address,
    ensures
        first == second,
{
}

/// The id of an issuer and its address are two ways to ask the same thing.
pub proof fn law_id_and_address_agree(s: State, id: BytesN<32>)
    requires
        records_are_indexed(s),
        s.issuers.contains_key(id),
    ensures
        crate::rules::issuer_by_address_answer(s, s.issuers[id].issuer_address)
            == crate::rules::issuer_answer(s, id),
        s.is_active_address(s.issuers[id].issuer_address) == s.is_active(id),
{
}

/// The earliest reactivation of whoever is not suspended is 0: of an issuer that
/// is active or revoked, and of one that is not on record.
pub proof fn law_no_deadline_without_suspension(s: State, id: BytesN<32>)
    requires
        only_suspended_have_deadlines(s),
        !(s.issuers.contains_key(id) && s.issuers[id].status == IssuerStatus::Suspended),
    ensures
        s.earliest_reactivation(id) == 0,
{
}

/// The earliest reactivation of an issuer that has never been suspended is 0,
/// whatever else has been called.
pub proof fn law_no_deadline_before_suspension(history: Seq<(u64, Call)>, id: BytesN<32>)
    requires
        forall|i: int| 0 <= i < history.len() ==> #[trigger] history[i].1 != (Call::SetStatus {
            id,
            status: IssuerStatus::Suspended,
        }),
    ensures
        !run(State::empty(), history).reactivatable_at.contains_key(id),
        run(State::empty(), history).earliest_reactivation(id) == 0,
    decreases history.len(),
{
    if history.len() > 0 {
        let before = history.drop_last();
        assert forall|i: int| 0 <= i < before.len() implies #[trigger] before[i].1 != (
        Call::SetStatus { id, status: IssuerStatus::Suspended }) by {
            assert(before[i] == history[i]);
        }
        law_no_deadline_before_suspension(before, id);
        assert(history[history.len() - 1] == history.last());
    }
}

// ---------------------------------------------------------------------------
// The count of active issuers
// ---------------------------------------------------------------------------

/// The issuers on record as active.
pub open spec fn active_ids(s: State) -> Set<BytesN<32>> {
    Set::new(|id: BytesN<32>| s.is_active(id))
}

/// The count on record is the number of active issuers.
pub open spec fn accounted(s: State) -> bool {
    &&& s.issuers.dom().finite()
    &&& s.active_count() == active_ids(s).len()
}

proof fn lemma_active_ids_finite(s: State)
    requires
        s.issuers.dom().finite(),
    ensures
        active_ids(s).finite(),
{
    vstd::set_lib::lemma_set_subset_finite(s.issuers.dom(), active_ids(s));
}

/// Every call but a migration keeps the count equal to the number of active
/// issuers.
pub proof fn law_count_is_exact(s: State, now: u64, call: Call)
    requires
        started_or_empty(s),
        accounted(s),
        !(call is Migrate),
    ensures
        accounted(step(s, now, call)),
{
    let t = step(s, now, call);
    lemma_active_ids_finite(s);
    match call {
        Call::RegisterIssuer { id, .. } => {
            if t != s {
                assert(!active_ids(s).contains(id));
                assert(active_ids(t) =~= active_ids(s).insert(id));
            }
        },
        Call::SetStatus { id, status } => {
            if t != s {
                if status == IssuerStatus::Active {
                    assert(active_ids(t) =~= active_ids(s).insert(id));
                } else {
                    assert(active_ids(t) =~= active_ids(s).remove(id));
                    if s.is_active(id) {
                        assert(active_ids(s).contains(id));
                        assert(active_ids(s).remove(id).len() + 1 == active_ids(s).len());
                    }
                }
            }
        },
        Call::Initialize { .. } => {
            assert(active_ids(t) =~= active_ids(s));
            if s.admin is None {
                assert(active_ids(s) =~= Set::empty());
            }
        },
        _ => {
            assert(active_ids(t) =~= active_ids(s));
        },
    }
}

/// Whatever the count was before, a migration makes it the number of active
/// issuers exactly where it is handed that number.
pub proof fn law_migration_sets_the_count(s: State, now: u64, active_issuer_count: u32)
    requires
        s.admin is Some,
        s.issuers.dom().finite(),
    ensures
        accounted(step(s, now, Call::Migrate { active_issuer_count })) <==> active_issuer_count
            == active_ids(s).len(),
{
    let t = step(s, now, Call::Migrate { active_issuer_count });
    assert(active_ids(t) =~= active_ids(s));
}

/// Whether every migration in a history is handed the number of issuers that are
/// active by then.
pub open spec fn migrations_are_exact(s: State, history: Seq<(u64, Call)>) -> bool {
    forall|i: int|
        0 <= i < history.len() && (#[trigger] history[i]).1 is Migrate
            ==> history[i].1->active_issuer_count == active_ids(run(s, history.take(i))).len()
}

proof fn lemma_migrations_are_exact_before(s: State, history: Seq<(u64, Call)>)
    requires
        history.len() > 0,
        migrations_are_exact(s, history),
    ensures
        migrations_are_exact(s, history.drop_last()),
        history.last().1 is Migrate ==> history.last().1->active_issuer_count == active_ids(
            run(s, history.drop_last()),
        ).len(),
{
    let before = history.drop_last();
    assert forall|i: int|
        0 <= i < before.len() && (#[trigger] before[i]).1 is Migrate implies
        before[i].1->active_issuer_count == active_ids(run(s, before.take(i))).len() by {
        assert(before[i] == history[i]);
        assert(before.take(i) =~= history.take(i));
    }
    assert(history[history.len() - 1] == history.last());
    assert(history.take(history.len() - 1) =~= before);
}

/// After any history of calls the count is the number of active issuers, where it
/// was before and every migration is handed the right number.
pub proof fn law_count_is_exact_through_histories(s: State, history: Seq<(u64, Call)>)
    requires
        started_or_empty(s),
        accounted(s),
        migrations_are_exact(s, history),
    ensures
        started_or_empty(run(s, history)),
        accounted(run(s, history)),
    decreases history.len(),
{
    if history.len() > 0 {
        let before = run(s, history.drop_last());
        lemma_migrations_are_exact_before(s, history);
        law_count_is_exact_through_histories(s, history.drop_last());
        if history.last().1 is Migrate {
            if before.admin is Some {
                law_migration_sets_the_count(
                    before,
                    history.last().0,
                    history.last().1->active_issuer_count,
                );
            }
        } else {
            law_count_is_exact(before, history.last().0, history.last().1);
        }
    }
}

/// Whether a history asks nowhere for a bound below the usage.
pub open spec fn bounds_respect_usage(history: Seq<(u64, Call)>) -> bool {
    forall|i: int|
        0 <= i < history.len() ==> !((#[trigger] history[i]).1 is SetMaxActiveIssuers
            && history[i].1->allow_below_usage)
}

/// After any history of calls no more issuers are active than the bound allows,
/// where that held before, every migration is handed the right number, and no
/// bound below the usage is asked for.
pub proof fn law_bound_is_kept_through_histories(s: State, history: Seq<(u64, Call)>)
    requires
        started_or_empty(s),
        accounted(s),
        s.active_count() <= s.max_active(),
        migrations_are_exact(s, history),
        bounds_respect_usage(history),
    ensures
        active_ids(run(s, history)).len() <= run(s, history).max_active(),
    decreases history.len(),
{
    law_count_is_exact_through_histories(s, history);
    if history.len() > 0 {
        let before = history.drop_last();
        lemma_migrations_are_exact_before(s, history);
        assert forall|i: int| 0 <= i < before.len() implies !((#[trigger] before[i]).1
            is SetMaxActiveIssuers && before[i].1->allow_below_usage) by {
            assert(before[i] == history[i]);
        }
        law_bound_is_kept_through_histories(s, before);
        law_count_is_exact_through_histories(s, before);
        assert(history[history.len() - 1] == history.last());
    }
}

/// Where the count is exact it never has to be held at 0: an active issuer that
/// is suspended or revoked is one of those counted.
pub proof fn law_count_never_underflows(s: State, id: BytesN<32>)
    requires
        accounted(s),
        s.is_active(id),
    ensures
        s.active_count() >= 1,
        crate::rules::released_count(s) == s.active_count() - 1,
{
    lemma_active_ids_finite(s);
    assert(active_ids(s).contains(id));
    if active_ids(s).len() == 0 {
        active_ids(s).lemma_len0_is_empty();
    }
}

} // verus!
