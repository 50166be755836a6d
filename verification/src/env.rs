//! The environment of a call: the ledger entries that it reads, the ledger
//! time, and the journal of what it asks of the host.

use crate::bytes::{Address, BytesN};
use crate::event::Event;
use crate::model::{IssuerRecord, Parameters, TtlPolicy};
use crate::table::Table;
use vstd::prelude::*;

verus! {

/// The name of a ledger entry.
#[derive(Clone, Copy, Debug, PartialEq, Eq)]
pub enum DataKey {
    /// The administrator.
    Admin,
    /// An issuer's record, by the issuer's id.
    Issuer(BytesN<32>),
    /// The id of the issuer that holds an address.
    AddressIssuer(Address),
    /// The contract version that an allowlisted WASM hash leads to.
    AllowedWasm(BytesN<32>),
    /// The contract version, which only grows.
    ContractVersion,
    /// The registry epoch, advanced once per visible change of an issuer.
    IssuerEpoch,
    /// The most issuers that may be active at once.
    MaxActiveIssuers,
    /// The number of active issuers.
    ActiveIssuerCount,
    /// The least time, in seconds, between a suspension and a reactivation.
    ReactivationCooldown,
    /// The earliest time at which an issuer may be reactivated, fixed when it
    /// was suspended.
    ReactivatableAt(BytesN<32>),
}

/// A ledger entry: its name and its value.
#[derive(Clone, Copy, Debug, PartialEq, Eq)]
pub enum Entry {
    Admin(Address),
    Issuer(BytesN<32>, IssuerRecord),
    AddressIssuer(Address, BytesN<32>),
    AllowedWasm(BytesN<32>, u32),
    ContractVersion(u32),
    IssuerEpoch(u64),
    MaxActiveIssuers(u32),
    ActiveIssuerCount(u32),
    ReactivationCooldown(u64),
    ReactivatableAt(BytesN<32>, u64),
}

/// Something that a call asks of the host.
#[derive(Clone, Copy, Debug, PartialEq, Eq)]
pub enum Effect {
    /// Abort the whole call unless this address has authorized it.
    RequireAuth(Address),
    /// Write an entry, in place of any of the same name.
    Put(Entry),
    /// Remove an entry.
    Remove(DataKey),
    /// Extend the lifetime of the contract instance, which holds the
    /// administrator, the versions, the policy and the allowlist.
    ExtendInstanceTtl(TtlPolicy),
    /// Extend the lifetime of an entry that stands on its own.
    ExtendTtl(DataKey, TtlPolicy),
    /// Replace the contract's own code.
    UpdateWasm(BytesN<32>),
    /// Publish an event.
    Publish(Event),
}

/// The registry's ledger entries, as mathematical values.
#[verifier::ext_equal]
pub struct State {
    pub admin: Option<Address>,
    pub contract_version: Option<u32>,
    pub issuer_epoch: Option<u64>,
    pub max_active_issuers: Option<u32>,
    pub active_issuer_count: Option<u32>,
    pub reactivation_cooldown: Option<u64>,
    pub allowed_wasm: Map<BytesN<32>, u32>,
    pub issuers: Map<BytesN<32>, IssuerRecord>,
    pub address_issuers: Map<Address, BytesN<32>>,
    pub reactivatable_at: Map<BytesN<32>, u64>,
}

impl State {
    /// A ledger without any entry.
    pub open spec fn empty() -> State {
        State {
            admin: None,
            contract_version: None,
            issuer_epoch: None,
            max_active_issuers: None,
            active_issuer_count: None,
            reactivation_cooldown: None,
            allowed_wasm: Map::empty(),
            issuers: Map::empty(),
            address_issuers: Map::empty(),
            reactivatable_at: Map::empty(),
        }
    }

    /// The entries once `entry` has been written.
    pub open spec fn put(self, entry: Entry) -> State {
        match entry {
            Entry::Admin(admin) => State { admin: Some(admin), ..self },
            Entry::Issuer(id, record) => State { issuers: self.issuers.insert(id, record), ..self },
            Entry::AddressIssuer(address, id) => State {
                address_issuers: self.address_issuers.insert(address, id),
                ..self
            },
            Entry::AllowedWasm(hash, version) => State {
                allowed_wasm: self.allowed_wasm.insert(hash, version),
                ..self
            },
            Entry::ContractVersion(version) => State { contract_version: Some(version), ..self },
            Entry::IssuerEpoch(epoch) => State { issuer_epoch: Some(epoch), ..self },
            Entry::MaxActiveIssuers(max) => State { max_active_issuers: Some(max), ..self },
            Entry::ActiveIssuerCount(count) => State { active_issuer_count: Some(count), ..self },
            Entry::ReactivationCooldown(seconds) => State {
                reactivation_cooldown: Some(seconds),
                ..self
            },
            Entry::ReactivatableAt(id, time) => State {
                reactivatable_at: self.reactivatable_at.insert(id, time),
                ..self
            },
        }
    }

    /// The entries once the one named `key` has been removed.
    pub open spec fn remove(self, key: DataKey) -> State {
        match key {
            DataKey::Admin => State { admin: None, ..self },
            DataKey::Issuer(id) => State { issuers: self.issuers.remove(id), ..self },
            DataKey::AddressIssuer(address) => State {
                address_issuers: self.address_issuers.remove(address),
                ..self
            },
            DataKey::AllowedWasm(hash) => State {
                allowed_wasm: self.allowed_wasm.remove(hash),
                ..self
            },
            DataKey::ContractVersion => State { contract_version: None, ..self },
            DataKey::IssuerEpoch => State { issuer_epoch: None, ..self },
            DataKey::MaxActiveIssuers => State { max_active_issuers: None, ..self },
            DataKey::ActiveIssuerCount => State { active_issuer_count: None, ..self },
            DataKey::ReactivationCooldown => State { reactivation_cooldown: None, ..self },
            DataKey::ReactivatableAt(id) => State {
                reactivatable_at: self.reactivatable_at.remove(id),
                ..self
            },
        }
    }

    /// The entries once the host has performed `effect`.
    pub open spec fn apply(self, effect: Effect) -> State {
        match effect {
            Effect::Put(entry) => self.put(entry),
            Effect::Remove(key) => self.remove(key),
            _ => self,
        }
    }
}

/// What an [`Env`] holds, as mathematical values.
#[verifier::ext_equal]
pub struct EnvView {
    /// The ledger entries.
    pub state: State,
    /// The ledger time, in seconds.
    pub timestamp: u64,
    /// The figures shared between contracts.
    pub parameters: Parameters,
    /// What has been asked of the host, in order.
    pub journal: Seq<Effect>,
}

impl EnvView {
    /// The same environment once `effects` have been asked for as well, and
    /// `state` is what they leave on the ledger.
    pub open spec fn after(self, state: State, effects: Seq<Effect>) -> EnvView {
        EnvView { state, journal: self.journal + effects, ..self }
    }

    /// The same environment once `effects` have been asked for as well, none
    /// of which touches the ledger entries.
    pub open spec fn asking(self, effects: Seq<Effect>) -> EnvView {
        self.after(self.state, effects)
    }
}

/// The environment of a call.
#[derive(Debug)]
pub struct Env {
    admin: Option<Address>,
    contract_version: Option<u32>,
    issuer_epoch: Option<u64>,
    max_active_issuers: Option<u32>,
    active_issuer_count: Option<u32>,
    reactivation_cooldown: Option<u64>,
    allowed_wasm: Table<BytesN<32>, u32>,
    issuers: Table<BytesN<32>, IssuerRecord>,
    address_issuers: Table<Address, BytesN<32>>,
    reactivatable_at: Table<BytesN<32>, u64>,
    timestamp: u64,
    parameters: Parameters,
    journal: Vec<Effect>,
}

impl View for Env {
    type V = EnvView;

    closed spec fn view(&self) -> EnvView {
        EnvView {
            state: State {
                admin: self.admin,
                contract_version: self.contract_version,
                issuer_epoch: self.issuer_epoch,
                max_active_issuers: self.max_active_issuers,
                active_issuer_count: self.active_issuer_count,
                reactivation_cooldown: self.reactivation_cooldown,
                allowed_wasm: self.allowed_wasm@,
                issuers: self.issuers@,
                address_issuers: self.address_issuers@,
                reactivatable_at: self.reactivatable_at@,
            },
            timestamp: self.timestamp,
            parameters: self.parameters,
            journal: self.journal@,
        }
    }
}

impl Env {
    /// The environment of a call on a ledger without entries.
    pub fn new(parameters: Parameters, timestamp: u64) -> (env: Env)
        ensures
            env@ == (EnvView {
                state: State::empty(),
                timestamp,
                parameters,
                journal: Seq::empty(),
            }),
    {
        Env {
            admin: None,
            contract_version: None,
            issuer_epoch: None,
            max_active_issuers: None,
            active_issuer_count: None,
            reactivation_cooldown: None,
            allowed_wasm: Table::new(),
            issuers: Table::new(),
            address_issuers: Table::new(),
            reactivatable_at: Table::new(),
            timestamp,
            parameters,
            journal: Vec::new(),
        }
    }

    /// Takes over an entry that the ledger holds.
    pub fn load(&mut self, entry: Entry)
        ensures
            final(self)@ == (EnvView { state: old(self)@.state.put(entry), ..old(self)@ }),
    {
        match entry {
            Entry::Admin(admin) => {
                self.admin = Some(admin);
            },
            Entry::Issuer(id, record) => {
                self.issuers.insert(id, record);
            },
            Entry::AddressIssuer(address, id) => {
                self.address_issuers.insert(address, id);
            },
            Entry::AllowedWasm(hash, version) => {
                self.allowed_wasm.insert(hash, version);
            },
            Entry::ContractVersion(version) => {
                self.contract_version = Some(version);
            },
            Entry::IssuerEpoch(epoch) => {
                self.issuer_epoch = Some(epoch);
            },
            Entry::MaxActiveIssuers(max) => {
                self.max_active_issuers = Some(max);
            },
            Entry::ActiveIssuerCount(count) => {
                self.active_issuer_count = Some(count);
            },
            Entry::ReactivationCooldown(seconds) => {
                self.reactivation_cooldown = Some(seconds);
            },
            Entry::ReactivatableAt(id, time) => {
                self.reactivatable_at.insert(id, time);
            },
        }
    }

    /// Forgets an entry that the ledger no longer holds.
    pub(crate) fn unload(&mut self, key: DataKey)
        ensures
            final(self)@ == (EnvView { state: old(self)@.state.remove(key), ..old(self)@ }),
    {
        match key {
            DataKey::Admin => {
                self.admin = None;
            },
            DataKey::Issuer(id) => {
                self.issuers.remove(&id);
            },
            DataKey::AddressIssuer(address) => {
                self.address_issuers.remove(&address);
            },
            DataKey::AllowedWasm(hash) => {
                self.allowed_wasm.remove(&hash);
            },
            DataKey::ContractVersion => {
                self.contract_version = None;
            },
            DataKey::IssuerEpoch => {
                self.issuer_epoch = None;
            },
            DataKey::MaxActiveIssuers => {
                self.max_active_issuers = None;
            },
            DataKey::ActiveIssuerCount => {
                self.active_issuer_count = None;
            },
            DataKey::ReactivationCooldown => {
                self.reactivation_cooldown = None;
            },
            DataKey::ReactivatableAt(id) => {
                self.reactivatable_at.remove(&id);
            },
        }
    }

    /// Asks the host for `effect`, and takes over what it changes.
    pub(crate) fn perform(&mut self, effect: Effect)
        ensures
            final(self)@ == old(self)@.after(old(self)@.state.apply(effect), seq![effect]),
    {
        match effect {
            Effect::Put(entry) => {
                self.load(entry);
            },
            Effect::Remove(key) => {
                self.unload(key);
            },
            _ => {},
        }
        self.journal.push(effect);
        assert(self@.journal =~= old(self)@.journal + seq![effect]);
    }

    /// What has been asked of the host, in order.
    pub fn journal(&self) -> (result: &Vec<Effect>)
        ensures
            result@ == self@.journal,
    {
        &self.journal
    }

    /// Hands over what has been asked of the host and starts anew.
    pub fn take_journal(&mut self) -> (result: Vec<Effect>)
        ensures
            result@ == old(self)@.journal,
            final(self)@ == (EnvView { journal: Seq::empty(), ..old(self)@ }),
    {
        let mut journal: Vec<Effect> = Vec::new();
        std::mem::swap(&mut journal, &mut self.journal);
        journal
    }

    /// The ledger time, in seconds.
    pub fn timestamp(&self) -> (result: u64)
        ensures
            result == self@.timestamp,
    {
        self.timestamp
    }

    /// Moves the ledger time.
    pub fn set_timestamp(&mut self, timestamp: u64)
        ensures
            final(self)@ == (EnvView { timestamp, ..old(self)@ }),
    {
        self.timestamp = timestamp;
    }

    /// The figures shared between contracts.
    pub fn parameters(&self) -> (result: Parameters)
        ensures
            result == self@.parameters,
    {
        self.parameters
    }

    /// The administrator, once there is one.
    pub fn admin(&self) -> (result: Option<Address>)
        ensures
            result == self@.state.admin,
    {
        self.admin
    }

    /// The contract version entry.
    pub fn contract_version(&self) -> (result: Option<u32>)
        ensures
            result == self@.state.contract_version,
    {
        self.contract_version
    }

    /// The registry epoch entry.
    pub fn issuer_epoch(&self) -> (result: Option<u64>)
        ensures
            result == self@.state.issuer_epoch,
    {
        self.issuer_epoch
    }

    /// The entry that bounds the number of active issuers.
    pub fn max_active_issuers(&self) -> (result: Option<u32>)
        ensures
            result == self@.state.max_active_issuers,
    {
        self.max_active_issuers
    }

    /// The entry that counts the active issuers.
    pub fn active_issuer_count(&self) -> (result: Option<u32>)
        ensures
            result == self@.state.active_issuer_count,
    {
        self.active_issuer_count
    }

    /// The reactivation cooldown entry.
    pub fn reactivation_cooldown(&self) -> (result: Option<u64>)
        ensures
            result == self@.state.reactivation_cooldown,
    {
        self.reactivation_cooldown
    }

    /// The version that an allowlisted WASM hash leads to.
    pub fn allowed_wasm(&self, hash: &BytesN<32>) -> (result: Option<u32>)
        ensures
            result == self@.state.allowed_wasm.get(*hash),
    {
        self.allowed_wasm.get(hash)
    }

    /// The record of an issuer.
    pub fn issuer(&self, id: &BytesN<32>) -> (result: Option<IssuerRecord>)
        ensures
            result == self@.state.issuers.get(*id),
    {
        self.issuers.get(id)
    }

    /// The id of the issuer that holds an address.
    pub fn address_issuer(&self, address: &Address) -> (result: Option<BytesN<32>>)
        ensures
            result == self@.state.address_issuers.get(*address),
    {
        self.address_issuers.get(address)
    }

    /// The earliest reactivation time on record for an issuer.
    pub fn reactivatable_at(&self, id: &BytesN<32>) -> (result: Option<u64>)
        ensures
            result == self@.state.reactivatable_at.get(*id),
    {
        self.reactivatable_at.get(id)
    }
}

} // verus!
