use issuer_registry::bytes::{Address, BytesN};
use issuer_registry::contract::IssuerRegistryContract;
use issuer_registry::env::{DataKey, Effect, Entry, Env};
use issuer_registry::event::Event;
use issuer_registry::model::{
    ContractError, InterfaceVersion, IssuerError, IssuerRecord, IssuerStatus, Parameters,
    TtlPolicy,
};
use issuer_registry::rules::Abort;
use std::cell::{Cell, RefCell};

const ADMIN: &[u8; 56] = b"GCFIRY65OQE7DFP5KLNS2PF2LVZMUZYJX4OZIEQ36N2IQANUB5XVYOJR";
const ISSUER_ONE: &[u8; 56] = b"GCATS5YOVB6ROX2WUNKGNQ2MP3GMXDMKSG2O4N5CLX3A6W4PZGZZI55U";
const ISSUER_TWO: &[u8; 56] = b"GDWUSKGGFDI4FRXK5EBTRECZSVQSSWJHHJOGH6JWG3AUMFFMQ435DIAG";

const TTL_THRESHOLD_LEDGERS: u32 = 17_280;
const TTL_EXTEND_TO_LEDGERS: u32 = 518_400;
const MIN_TTL_LEDGERS: u32 = 4_096;

const PARAMETERS: Parameters = Parameters {
    interface_version: InterfaceVersion { major: 1 },
    ttl: TtlPolicy {
        threshold: TTL_THRESHOLD_LEDGERS,
        extend_to: TTL_EXTEND_TO_LEDGERS,
    },
};

/// Why the host stops an invocation.
#[derive(Debug, PartialEq)]
enum HostError {
    Unauthorized(Address),
    Abort(Abort),
}

/// A ledger and a host for one contract: hands each call the entries, performs
/// the journal that comes back, and drops it where the call fails.
struct Host {
    entries: RefCell<Vec<(DataKey, Entry)>>,
    lifetimes: RefCell<Vec<(DataKey, u32)>>,
    events: RefCell<Vec<Event>>,
    upgrades: RefCell<Vec<BytesN<32>>>,
    signers: RefCell<Option<Vec<Address>>>,
    timestamp: Cell<u64>,
}

fn key_of(entry: &Entry) -> DataKey {
    match entry {
        Entry::Admin(_) => DataKey::Admin,
        Entry::Issuer(id, _) => DataKey::Issuer(*id),
        Entry::AddressIssuer(address, _) => DataKey::AddressIssuer(*address),
        Entry::AllowedWasm(hash, _) => DataKey::AllowedWasm(*hash),
        Entry::ContractVersion(_) => DataKey::ContractVersion,
        Entry::IssuerEpoch(_) => DataKey::IssuerEpoch,
        Entry::MaxActiveIssuers(_) => DataKey::MaxActiveIssuers,
        Entry::ActiveIssuerCount(_) => DataKey::ActiveIssuerCount,
        Entry::ReactivationCooldown(_) => DataKey::ReactivationCooldown,
        Entry::ReactivatableAt(id, _) => DataKey::ReactivatableAt(*id),
    }
}

impl Host {
    /// A host that takes every authorization as given.
    fn mock_all_auths() -> Host {
        Host {
            entries: RefCell::new(Vec::new()),
            lifetimes: RefCell::new(Vec::new()),
            events: RefCell::new(Vec::new()),
            upgrades: RefCell::new(Vec::new()),
            signers: RefCell::new(None),
            timestamp: Cell::new(0),
        }
    }

    /// From here on only these addresses have authorized a call.
    fn set_auths(&self, signers: &[Address]) {
        *self.signers.borrow_mut() = Some(signers.to_vec());
    }

    fn set_timestamp(&self, timestamp: u64) {
        self.timestamp.set(timestamp);
    }

    fn has(&self, key: DataKey) -> bool {
        self.entries.borrow().iter().any(|(k, _)| *k == key)
    }

    fn set(&self, entry: Entry) {
        let key = key_of(&entry);
        let is_new = !self.has(key);
        self.remove(key);
        self.entries.borrow_mut().push((key, entry));
        if is_new {
            self.lifetimes.borrow_mut().push((key, MIN_TTL_LEDGERS));
        }
    }

    fn remove(&self, key: DataKey) {
        self.entries.borrow_mut().retain(|(k, _)| *k != key);
    }

    fn get_ttl(&self, key: DataKey) -> u32 {
        self.lifetimes
            .borrow()
            .iter()
            .find(|(k, _)| *k == key)
            .unwrap()
            .1
    }

    fn env(&self) -> Env {
        let mut env = Env::new(PARAMETERS, self.timestamp.get());
        for (_, entry) in self.entries.borrow().iter() {
            env.load(*entry);
        }
        env
    }

    /// Runs a call and performs what it asks for. The call decides whether its
    /// outcome is kept.
    fn invoke<T>(&self, call: impl FnOnce(&mut Env) -> (T, bool)) -> Result<T, HostError> {
        self.events.borrow_mut().clear();
        let mut env = self.env();
        let (answer, kept) = call(&mut env);
        let journal = env.take_journal();
        for effect in &journal {
            if let (Effect::RequireAuth(address), Some(signers)) =
                (effect, &*self.signers.borrow())
            {
                if !signers.contains(address) {
                    return Err(HostError::Unauthorized(*address));
                }
            }
        }
        if kept {
            for effect in journal {
                match effect {
                    Effect::RequireAuth(_) | Effect::ExtendInstanceTtl(_) => {}
                    Effect::Put(entry) => self.set(entry),
                    Effect::Remove(key) => self.remove(key),
                    Effect::ExtendTtl(key, policy) => {
                        for (k, ttl) in self.lifetimes.borrow_mut().iter_mut() {
                            if *k == key && *ttl < policy.threshold {
                                *ttl = policy.extend_to;
                            }
                        }
                    }
                    Effect::UpdateWasm(hash) => self.upgrades.borrow_mut().push(hash),
                    Effect::Publish(event) => self.events.borrow_mut().push(event),
                }
            }
        }
        Ok(answer)
    }
}

/// The calls as a client makes them: those without `try_` panic where the call
/// fails.
struct Client {
    host: Host,
}

type Failure<E> = Result<E, HostError>;

fn sorted<E>(result: Result<Result<(), E>, HostError>) -> Result<(), Failure<E>> {
    match result {
        Ok(Ok(())) => Ok(()),
        Ok(Err(error)) => Err(Ok(error)),
        Err(stop) => Err(Err(stop)),
    }
}

fn sorted_abort(
    result: Result<Result<(), Result<IssuerError, Abort>>, HostError>,
) -> Result<(), Failure<IssuerError>> {
    match result {
        Ok(Ok(())) => Ok(()),
        Ok(Err(Ok(error))) => Err(Ok(error)),
        Ok(Err(Err(abort))) => Err(Err(HostError::Abort(abort))),
        Err(stop) => Err(Err(stop)),
    }
}

fn must<E: std::fmt::Debug>(result: Result<(), Failure<E>>) {
    match result {
        Ok(()) => {}
        Err(Ok(error)) => panic!("{:?}", error),
        Err(Err(HostError::Abort(abort))) => panic!("{}", abort.message()),
        Err(Err(stop)) => panic!("{:?}", stop),
    }
}

impl Client {
    fn try_initialize(&self, admin: &Address) -> Result<(), Failure<ContractError>> {
        sorted(self.host.invoke(|env| {
            let answer = IssuerRegistryContract::initialize(env, *admin, true);
            let kept = answer.is_ok();
            (answer, kept)
        }))
    }

    fn initialize(&self, admin: &Address) {
        must(self.try_initialize(admin));
    }

    fn migrate(&self, count: &u32) {
        must(sorted(self.host.invoke(|env| {
            let answer = IssuerRegistryContract::migrate(env, *count);
            let kept = answer.is_ok();
            (answer, kept)
        })));
    }

    fn get_admin(&self) -> Address {
        IssuerRegistryContract::get_admin(&self.host.env()).unwrap()
    }

    fn try_register_issuer(
        &self,
        id: &BytesN<32>,
        address: &Address,
        metadata: &BytesN<32>,
    ) -> Result<(), Failure<IssuerError>> {
        sorted_abort(self.host.invoke(|env| {
            let answer =
                IssuerRegistryContract::try_register_issuer(env, *id, *address, *metadata, true);
            let kept = answer.is_ok();
            (answer, kept)
        }))
    }

    fn register_issuer(&self, id: &BytesN<32>, address: &Address, metadata: &BytesN<32>) {
        must(self.try_register_issuer(id, address, metadata));
    }

    fn try_update_issuer(
        &self,
        id: &BytesN<32>,
        metadata: &BytesN<32>,
    ) -> Result<(), Failure<IssuerError>> {
        sorted_abort(self.host.invoke(|env| {
            let answer = IssuerRegistryContract::try_update_issuer(env, *id, *metadata);
            let kept = answer.is_ok();
            (answer, kept)
        }))
    }

    fn update_issuer(&self, id: &BytesN<32>, metadata: &BytesN<32>) {
        must(self.try_update_issuer(id, metadata));
    }

    fn suspend_issuer(&self, id: &BytesN<32>) {
        must(sorted_abort(self.host.invoke(|env| {
            let answer = IssuerRegistryContract::try_suspend_issuer(env, *id);
            let kept = answer.is_ok();
            (answer, kept)
        })));
    }

    fn try_reactivate_issuer(&self, id: &BytesN<32>) -> Result<(), Failure<IssuerError>> {
        sorted_abort(self.host.invoke(|env| {
            let answer = IssuerRegistryContract::try_reactivate_issuer(env, *id);
            let kept = answer.is_ok();
            (answer, kept)
        }))
    }

    fn reactivate_issuer(&self, id: &BytesN<32>) {
        must(self.try_reactivate_issuer(id));
    }

    fn try_revoke_issuer(&self, id: &BytesN<32>) -> Result<(), Failure<IssuerError>> {
        sorted_abort(self.host.invoke(|env| {
            let answer = IssuerRegistryContract::try_revoke_issuer(env, *id);
            let kept = answer.is_ok();
            (answer, kept)
        }))
    }

    fn revoke_issuer(&self, id: &BytesN<32>) {
        must(self.try_revoke_issuer(id));
    }

    fn try_rotate_issuer_address(
        &self,
        id: &BytesN<32>,
        address: &Address,
    ) -> Result<(), Failure<IssuerError>> {
        sorted_abort(self.host.invoke(|env| {
            let answer =
                IssuerRegistryContract::try_rotate_issuer_address(env, *id, *address, true);
            let kept = answer.is_ok();
            (answer, kept)
        }))
    }

    fn rotate_issuer_address(&self, id: &BytesN<32>, address: &Address) {
        must(self.try_rotate_issuer_address(id, address));
    }

    fn try_get_issuer(&self, id: &BytesN<32>) -> Result<IssuerRecord, Failure<IssuerError>> {
        match self
            .host
            .invoke(|env| (IssuerRegistryContract::get_issuer(env, *id), true))
        {
            Ok(Ok(record)) => Ok(record),
            Ok(Err(error)) => Err(Ok(error)),
            Err(stop) => Err(Err(stop)),
        }
    }

    fn get_issuer(&self, id: &BytesN<32>) -> IssuerRecord {
        self.try_get_issuer(id).unwrap()
    }

    fn is_active_issuer(&self, id: &BytesN<32>) -> bool {
        self.host
            .invoke(|env| (IssuerRegistryContract::is_active_issuer(env, *id), true))
            .unwrap()
    }

    fn is_active_address(&self, address: &Address) -> bool {
        self.host
            .invoke(|env| {
                (
                    IssuerRegistryContract::is_active_address(env, *address),
                    true,
                )
            })
            .unwrap()
    }

    fn interface_version(&self) -> InterfaceVersion {
        IssuerRegistryContract::interface_version(&self.host.env())
    }

    fn get_issuer_epoch(&self) -> u64 {
        IssuerRegistryContract::get_issuer_epoch(&self.host.env())
    }

    fn get_active_issuer_count(&self) -> u32 {
        IssuerRegistryContract::get_active_issuer_count(&self.host.env())
    }

    fn get_max_active_issuers(&self) -> u32 {
        IssuerRegistryContract::get_max_active_issuers(&self.host.env())
    }

    fn get_earliest_reactivation(&self, id: &BytesN<32>) -> u64 {
        IssuerRegistryContract::get_earliest_reactivation(&self.host.env(), *id)
    }

    fn try_set_max_active_issuers(
        &self,
        max: &u32,
        allow: &bool,
    ) -> Result<(), Failure<IssuerError>> {
        sorted(self.host.invoke(|env| {
            let answer = IssuerRegistryContract::set_max_active_issuers(env, *max, *allow);
            let kept = answer.is_ok();
            (answer, kept)
        }))
    }

    fn set_max_active_issuers(&self, max: &u32, allow: &bool) {
        must(self.try_set_max_active_issuers(max, allow));
    }

    fn set_reactivation_cooldown(&self, seconds: &u64) {
        must(sorted(self.host.invoke(|env| {
            let answer = IssuerRegistryContract::set_reactivation_cooldown(env, *seconds);
            let kept = answer.is_ok();
            (answer, kept)
        })));
    }

    fn get_contract_version(&self) -> u32 {
        IssuerRegistryContract::get_contract_version(&self.host.env())
    }

    fn try_approve_upgrade(&self, hash: &BytesN<32>, version: &u32) -> Result<(), HostError> {
        match self.host.invoke(|env| {
            let answer = IssuerRegistryContract::try_approve_upgrade(env, *hash, *version);
            let kept = answer.is_ok();
            (answer, kept)
        }) {
            Ok(Ok(())) => Ok(()),
            Ok(Err(abort)) => Err(HostError::Abort(abort)),
            Err(stop) => Err(stop),
        }
    }

    fn approve_upgrade(&self, hash: &BytesN<32>, version: &u32) {
        must::<IssuerError>(self.try_approve_upgrade(hash, version).map_err(Err));
    }

    fn revoke_upgrade(&self, hash: &BytesN<32>) {
        match self.host.invoke(|env| {
            let answer = IssuerRegistryContract::try_revoke_upgrade(env, *hash);
            let kept = answer.is_ok();
            (answer, kept)
        }) {
            Ok(Ok(())) => {}
            Ok(Err(abort)) => panic!("{}", abort.message()),
            Err(stop) => panic!("{:?}", stop),
        }
    }

    fn is_upgrade_allowed(&self, hash: &BytesN<32>) -> bool {
        IssuerRegistryContract::is_upgrade_allowed(&self.host.env(), *hash)
    }

    fn try_upgrade_contract(&self, hash: &BytesN<32>) -> Result<(), HostError> {
        match self.host.invoke(|env| {
            let answer = IssuerRegistryContract::try_upgrade_contract(env, *hash);
            let kept = answer.is_ok();
            (answer, kept)
        }) {
            Ok(Ok(())) => Ok(()),
            Ok(Err(abort)) => Err(HostError::Abort(abort)),
            Err(stop) => Err(stop),
        }
    }

    fn upgrade_contract(&self, hash: &BytesN<32>) {
        must::<IssuerError>(self.try_upgrade_contract(hash).map_err(Err));
    }

    fn event_count(&self) -> usize {
        self.host.events.borrow().len()
    }
}

fn bytes(value: u8) -> BytesN<32> {
    BytesN::from_array(&[value; 32])
}

fn address(strkey: &[u8; 56]) -> Address {
    Address::from_strkey(strkey)
}

fn deploy() -> Client {
    Client {
        host: Host::mock_all_auths(),
    }
}

fn setup() -> (Client, Address) {
    let client = deploy();
    let admin = address(ADMIN);
    client.initialize(&admin);
    (client, admin)
}

// ── behaviour ────────────────────────────────────────────────────────────────

#[test]
fn registers_and_reads_active_issuer() {
    let (client, _admin) = setup();
    let issuer_id = bytes(1);
    let metadata_hash = bytes(2);
    let issuer_address = address(ISSUER_ONE);

    client.register_issuer(&issuer_id, &issuer_address, &metadata_hash);

    let record = client.get_issuer(&issuer_id);
    assert_eq!(record.issuer_id_hash, issuer_id);
    assert_eq!(record.issuer_address, issuer_address);
    assert_eq!(record.metadata_hash, metadata_hash);
    assert_eq!(record.status, IssuerStatus::Active);
    assert!(client.is_active_issuer(&issuer_id));
    assert!(client.is_active_address(&issuer_address));
}

#[test]
fn status_transitions_reject_reactivated_revoked_issuer() {
    let (client, _admin) = setup();
    let issuer_id = bytes(1);
    let issuer_address = address(ISSUER_ONE);

    client.register_issuer(&issuer_id, &issuer_address, &bytes(2));
    client.suspend_issuer(&issuer_id);
    assert!(!client.is_active_issuer(&issuer_id));

    client.reactivate_issuer(&issuer_id);
    assert!(client.is_active_issuer(&issuer_id));

    client.revoke_issuer(&issuer_id);
    assert!(!client.is_active_issuer(&issuer_id));
}

#[test]
fn rejects_duplicate_issuer_id() {
    let (client, _admin) = setup();
    let issuer_id = bytes(1);
    let issuer_address = address(ISSUER_ONE);

    client.register_issuer(&issuer_id, &issuer_address, &bytes(2));

    let result = client.try_register_issuer(&issuer_id, &address(ISSUER_TWO), &bytes(3));
    assert_eq!(result, Err(Ok(IssuerError::IssuerAlreadyRegistered)));
}

#[test]
fn revoked_issuer_cannot_be_reactivated() {
    let (client, _admin) = setup();
    let issuer_id = bytes(1);
    let issuer_address = address(ISSUER_ONE);

    client.register_issuer(&issuer_id, &issuer_address, &bytes(2));
    client.revoke_issuer(&issuer_id);

    let result = client.try_reactivate_issuer(&issuer_id);
    assert_eq!(result, Err(Ok(IssuerError::InvalidTransition)));
}

#[test]
fn extends_issuer_storage_ttl() {
    let (client, _admin) = setup();
    let issuer_id = bytes(1);
    let issuer_address = address(ISSUER_ONE);

    client.register_issuer(&issuer_id, &issuer_address, &bytes(2));

    assert!(client.host.get_ttl(DataKey::Issuer(issuer_id)) > TTL_THRESHOLD_LEDGERS);
    assert!(client.host.get_ttl(DataKey::AddressIssuer(issuer_address)) > TTL_THRESHOLD_LEDGERS);
}

// ── upgrade governance ───────────────────────────────────────────────────────

#[test]
fn contract_version_initialized_to_one() {
    let (client, _admin) = setup();
    assert_eq!(client.get_contract_version(), 1);
}

#[test]
fn approve_and_check_allowlist() {
    let (client, _admin) = setup();
    let hash = bytes(0xab);

    assert!(!client.is_upgrade_allowed(&hash));
    client.approve_upgrade(&hash, &2);
    assert!(client.is_upgrade_allowed(&hash));
}

#[test]
fn revoke_removes_from_allowlist() {
    let (client, _admin) = setup();
    let hash = bytes(0xcd);

    client.approve_upgrade(&hash, &2);
    client.revoke_upgrade(&hash);
    assert!(!client.is_upgrade_allowed(&hash));
}

#[test]
#[should_panic(expected = "new_version must be greater than current contract version")]
fn approve_upgrade_rejects_downgrade_version() {
    let (client, _admin) = setup();
    client.approve_upgrade(&bytes(1), &1);
}

#[test]
#[should_panic(expected = "wasm hash not on allowlist")]
fn upgrade_contract_rejects_non_allowlisted_hash() {
    let (client, _admin) = setup();
    client.upgrade_contract(&bytes(0xff));
}

/// An upgrade without the administrator's authorization is stopped.
#[test]
#[should_panic]
fn upgrade_contract_requires_admin_auth() {
    let client = deploy();
    let admin = address(ADMIN);

    client.initialize(&admin);
    let hash = BytesN::from_array(&[0xde; 32]);
    client.approve_upgrade(&hash, &2);
    client.host.set_auths(&[]);

    client.upgrade_contract(&hash);
}

#[test]
fn upgrade_advances_version_and_consumes_allowlist() {
    let (client, _admin) = setup();
    let hash = bytes(0x42);

    client.approve_upgrade(&hash, &2);
    client.upgrade_contract(&hash);

    assert_eq!(client.get_contract_version(), 2);
    assert!(!client.is_upgrade_allowed(&hash));
}

#[test]
#[should_panic(expected = "wasm hash not on allowlist")]
fn upgrade_hash_cannot_be_replayed() {
    let (client, _admin) = setup();
    let hash = bytes(0x42);

    client.approve_upgrade(&hash, &2);
    client.upgrade_contract(&hash);
    client.upgrade_contract(&hash);
}

/// The issuers survive an upgrade.
#[test]
fn state_preserved_across_upgrade() {
    let (client, _admin) = setup();
    let issuer_id = bytes(1);
    let issuer_address = address(ISSUER_ONE);

    client.register_issuer(&issuer_id, &issuer_address, &bytes(2));
    assert!(client.is_active_issuer(&issuer_id));

    let hash = bytes(0x77);
    client.approve_upgrade(&hash, &2);
    client.upgrade_contract(&hash);

    assert!(client.is_active_issuer(&issuer_id));
    assert_eq!(client.get_contract_version(), 2);
}

#[test]
#[should_panic(expected = "new_version must be greater than current contract version")]
fn cannot_re_approve_old_version_after_upgrade() {
    let (client, _admin) = setup();
    let hash_v2 = bytes(0x01);
    let old_hash = bytes(0x02);

    client.approve_upgrade(&hash_v2, &2);
    client.upgrade_contract(&hash_v2);

    client.approve_upgrade(&old_hash, &1);
}

// ── events ───────────────────────────────────────────────────────────────────

#[test]
fn register_issuer_emits_one_event() {
    let (client, _admin) = setup();
    client.register_issuer(&bytes(1), &address(ISSUER_ONE), &bytes(2));

    assert_eq!(
        client.event_count(),
        1,
        "expected exactly one event on registration"
    );
}

#[test]
fn register_issuer_failure_emits_no_success_event() {
    let (client, _admin) = setup();
    let issuer_id = bytes(1);
    let issuer_address = address(ISSUER_ONE);

    client.register_issuer(&issuer_id, &issuer_address, &bytes(2));

    let result = client.try_register_issuer(&issuer_id, &issuer_address, &bytes(3));
    assert!(result.is_err(), "expected panic on duplicate");
    assert_eq!(
        client.event_count(),
        0,
        "no success event should be emitted on a failed registration"
    );
}

#[test]
fn update_issuer_emits_one_event() {
    let (client, _admin) = setup();
    let issuer_id = bytes(1);
    let new_metadata = bytes(99);

    client.register_issuer(&issuer_id, &address(ISSUER_ONE), &bytes(2));
    client.update_issuer(&issuer_id, &new_metadata);

    assert_eq!(
        client.event_count(),
        1,
        "expected exactly one event on metadata update"
    );
}

#[test]
fn update_revoked_issuer_emits_no_event() {
    let (client, _admin) = setup();
    let issuer_id = bytes(1);

    client.register_issuer(&issuer_id, &address(ISSUER_ONE), &bytes(2));
    client.revoke_issuer(&issuer_id);

    let result = client.try_update_issuer(&issuer_id, &bytes(99));
    assert!(result.is_err(), "expected panic on revoked issuer update");
    assert_eq!(
        client.event_count(),
        0,
        "no success event should be emitted on a failed update"
    );
}

#[test]
fn suspend_issuer_emits_one_event() {
    let (client, _admin) = setup();
    let issuer_id = bytes(1);

    client.register_issuer(&issuer_id, &address(ISSUER_ONE), &bytes(2));
    client.suspend_issuer(&issuer_id);

    assert_eq!(
        client.event_count(),
        1,
        "expected exactly one event on suspension"
    );
}

#[test]
fn reactivate_issuer_emits_one_event() {
    let (client, _admin) = setup();
    let issuer_id = bytes(1);

    client.register_issuer(&issuer_id, &address(ISSUER_ONE), &bytes(2));
    client.suspend_issuer(&issuer_id);
    client.reactivate_issuer(&issuer_id);

    assert_eq!(
        client.event_count(),
        1,
        "expected exactly one event on reactivation"
    );
}

#[test]
fn revoke_issuer_emits_one_event() {
    let (client, _admin) = setup();
    let issuer_id = bytes(1);

    client.register_issuer(&issuer_id, &address(ISSUER_ONE), &bytes(2));
    client.revoke_issuer(&issuer_id);

    assert_eq!(
        client.event_count(),
        1,
        "expected exactly one event on revocation"
    );
}

#[test]
fn rotate_address_emits_one_event() {
    let (client, _admin) = setup();
    let issuer_id = bytes(1);
    let old_address = address(ISSUER_ONE);
    let new_address = address(ISSUER_TWO);

    client.register_issuer(&issuer_id, &old_address, &bytes(2));
    client.rotate_issuer_address(&issuer_id, &new_address);

    assert_eq!(
        client.event_count(),
        1,
        "expected exactly one event on address rotation"
    );
}

#[test]
fn rotate_revoked_issuer_address_emits_no_event() {
    let (client, _admin) = setup();
    let issuer_id = bytes(1);
    let old_address = address(ISSUER_ONE);
    let new_address = address(ISSUER_TWO);

    client.register_issuer(&issuer_id, &old_address, &bytes(2));
    client.revoke_issuer(&issuer_id);

    let result = client.try_rotate_issuer_address(&issuer_id, &new_address);
    assert!(result.is_err(), "expected panic on revoked issuer rotation");
    assert_eq!(
        client.event_count(),
        0,
        "no success event should be emitted on a failed rotation"
    );
}

#[test]
fn each_mutation_emits_exactly_one_event() {
    let (client, _admin) = setup();
    let issuer_id = bytes(1);
    let issuer_address = address(ISSUER_ONE);
    let new_address = address(ISSUER_TWO);

    client.register_issuer(&issuer_id, &issuer_address, &bytes(2));
    assert_eq!(client.event_count(), 1);

    client.update_issuer(&issuer_id, &bytes(3));
    assert_eq!(client.event_count(), 1);

    client.suspend_issuer(&issuer_id);
    assert_eq!(client.event_count(), 1);

    client.reactivate_issuer(&issuer_id);
    assert_eq!(client.event_count(), 1);

    client.rotate_issuer_address(&issuer_id, &new_address);
    assert_eq!(client.event_count(), 1);

    client.revoke_issuer(&issuer_id);
    assert_eq!(client.event_count(), 1);
}

// ── authorization ────────────────────────────────────────────────────────────

/// The issuer's own signature is a valid one, but not the administrator's.
#[test]
fn revoke_issuer_rejects_a_valid_signature_from_the_issuer_itself() {
    let client = deploy();
    let admin = address(ADMIN);
    client.initialize(&admin);

    let issuer_id = bytes(1);
    let issuer_address = address(ISSUER_TWO);
    client.register_issuer(&issuer_id, &issuer_address, &bytes(2));

    client.host.set_auths(&[issuer_address]);

    let result = client.try_revoke_issuer(&issuer_id);
    assert!(
        result.is_err(),
        "the issuer's own valid signature must not authorize revoking itself; only the admin's signature may"
    );
    assert_eq!(result, Err(Err(HostError::Unauthorized(admin))));

    assert_eq!(client.get_issuer(&issuer_id).status, IssuerStatus::Active);
}

// ── numeric boundaries ───────────────────────────────────────────────────────

#[test]
fn contract_version_initialized_and_upgradeable() {
    let (client, _admin) = setup();

    assert_eq!(client.get_contract_version(), 1);

    client.approve_upgrade(&bytes(1), &2);
    assert!(client.is_upgrade_allowed(&bytes(1)));
}

#[test]
fn contract_version_upgrade_boundaries() {
    let (client, _admin) = setup();

    client.approve_upgrade(&bytes(1), &2);
    client.upgrade_contract(&bytes(1));
    assert_eq!(client.get_contract_version(), 2);

    client.approve_upgrade(&bytes(2), &u32::MAX);
    client.upgrade_contract(&bytes(2));
    assert_eq!(client.get_contract_version(), u32::MAX);
}

#[test]
#[should_panic(expected = "new_version must be greater than current contract version")]
fn contract_version_equal_current_rejected() {
    let (client, _admin) = setup();
    client.approve_upgrade(&bytes(1), &1);
}

#[test]
#[should_panic(expected = "new_version must be greater than current contract version")]
fn contract_version_below_current_rejected() {
    let (client, _admin) = setup();
    client.approve_upgrade(&bytes(1), &0);
}

#[test]
fn failed_upgrade_version_downgrade_leaves_state_unchanged() {
    let (client, _admin) = setup();

    let contract_version_before = client.get_contract_version();
    let hash = bytes(0x88);

    let result = client.try_approve_upgrade(&hash, &0);
    assert!(result.is_err());

    assert_eq!(
        client.get_contract_version(),
        contract_version_before,
        "contract version must not change on failed upgrade approval"
    );
    assert!(
        !client.is_upgrade_allowed(&hash),
        "failed upgrade approval must not add hash to allowlist"
    );
}

// ── initialization ───────────────────────────────────────────────────────────

#[test]
fn initialization_writes_exactly_documented_state() {
    let client = deploy();
    let admin = address(ADMIN);

    client.initialize(&admin);

    assert_eq!(client.get_admin(), admin, "admin must be set");
    assert_eq!(
        client.get_contract_version(),
        1,
        "contract version must be exactly 1 after initialization"
    );
    assert!(
        client.host.has(DataKey::Admin),
        "Admin key must exist in instance storage"
    );
    assert!(
        client.host.has(DataKey::ContractVersion),
        "ContractVersion key must exist in instance storage"
    );
}

#[test]
fn reinitialization_by_same_admin_fails_atomically() {
    let client = deploy();
    let admin = address(ADMIN);

    client.initialize(&admin);
    let contract_version_after_first = client.get_contract_version();

    let result = client.try_initialize(&admin);
    assert!(result.is_err(), "re-initialization must panic");

    assert_eq!(
        client.get_admin(),
        admin,
        "admin must not change after failed re-initialization"
    );
    assert_eq!(
        client.get_contract_version(),
        contract_version_after_first,
        "contract version must not change after failed re-initialization"
    );
}

#[test]
fn reinitialization_by_different_admin_fails_atomically() {
    let client = deploy();
    let admin = address(ADMIN);
    let other = address(ISSUER_ONE);

    client.initialize(&admin);
    let stored_admin = client.get_admin();
    let contract_version_after_first = client.get_contract_version();

    let result = client.try_initialize(&other);
    assert!(
        result.is_err(),
        "re-initialization by different admin must panic"
    );

    assert_eq!(
        client.get_admin(),
        stored_admin,
        "admin must not change when different address attempts re-initialization"
    );
    assert_eq!(
        client.get_contract_version(),
        contract_version_after_first,
        "contract version must not change after failed re-initialization by different admin"
    );
}

#[test]
fn reinitialization_guard_is_absolute() {
    let client = deploy();
    let admin = address(ADMIN);

    client.initialize(&admin);

    for attempt in 1..=3 {
        let result = client.try_initialize(&admin);
        assert!(
            result.is_err(),
            "re-initialization attempt {} must fail",
            attempt
        );
        assert_eq!(
            client.get_admin(),
            admin,
            "admin must not change after re-initialization attempt {}",
            attempt
        );
    }
}

#[test]
fn initialization_state_stable_across_operations() {
    let (client, admin) = setup();

    assert_eq!(client.get_admin(), admin);
    assert_eq!(client.get_contract_version(), 1);

    client.register_issuer(&bytes(1), &address(ISSUER_ONE), &bytes(2));

    assert_eq!(
        client.get_admin(),
        admin,
        "admin must not change after issuer registration"
    );
    assert_eq!(
        client.get_contract_version(),
        1,
        "contract version must not change on issuer registration"
    );
}

#[test]
fn issuer_registry_initialization_spec_summary() {
    let client = deploy();
    let admin = address(ADMIN);

    client.initialize(&admin);
    assert_eq!(client.get_admin(), admin);
    assert_eq!(client.get_contract_version(), 1);
    assert_eq!(client.event_count(), 0);

    assert!(client.try_initialize(&admin).is_err());
}

// ── interface version ────────────────────────────────────────────────────────

#[test]
fn exposes_a_stable_interface_version() {
    let (client, _admin) = setup();
    let version = client.interface_version();
    assert_eq!(version, PARAMETERS.interface_version);
    assert_eq!(version.major, 1);
}

// ── epoch ────────────────────────────────────────────────────────────────────

#[test]
fn epoch_starts_at_zero_and_advances_once_per_mutation() {
    let (client, _admin) = setup();
    assert_eq!(client.get_issuer_epoch(), 0);

    let issuer_id = bytes(1);
    client.register_issuer(&issuer_id, &address(ISSUER_ONE), &bytes(2));
    assert_eq!(client.get_issuer_epoch(), 1);

    client.update_issuer(&issuer_id, &bytes(3));
    assert_eq!(client.get_issuer_epoch(), 2);

    client.suspend_issuer(&issuer_id);
    assert_eq!(client.get_issuer_epoch(), 3);

    client.reactivate_issuer(&issuer_id);
    assert_eq!(client.get_issuer_epoch(), 4);

    client.rotate_issuer_address(&issuer_id, &address(ISSUER_TWO));
    assert_eq!(client.get_issuer_epoch(), 5);

    client.revoke_issuer(&issuer_id);
    assert_eq!(client.get_issuer_epoch(), 6);
}

#[test]
fn failed_mutation_does_not_advance_epoch() {
    let (client, _admin) = setup();
    let issuer_id = bytes(1);
    client.register_issuer(&issuer_id, &address(ISSUER_ONE), &bytes(2));
    let epoch = client.get_issuer_epoch();

    let result = client.try_register_issuer(&issuer_id, &address(ISSUER_TWO), &bytes(3));
    assert!(result.is_err());
    assert_eq!(client.get_issuer_epoch(), epoch);
}

#[test]
fn register_emits_one_event_and_advances_epoch() {
    let (client, _admin) = setup();
    client.register_issuer(&bytes(1), &address(ISSUER_ONE), &bytes(2));

    assert_eq!(client.event_count(), 1);
    assert_eq!(client.get_issuer_epoch(), 1);
}

#[test]
#[should_panic(expected = "issuer epoch overflow")]
fn epoch_overflow_panics_rather_than_wrapping() {
    let (client, _admin) = setup();
    client.host.set(Entry::IssuerEpoch(u64::MAX));
    client.register_issuer(&bytes(1), &address(ISSUER_ONE), &bytes(2));
}

#[test]
fn migrate_initializes_epoch_deterministically() {
    let (client, _admin) = setup();
    client.host.remove(DataKey::IssuerEpoch);
    client.migrate(&0);
    assert_eq!(client.get_issuer_epoch(), 0);
}

// ── capacity ─────────────────────────────────────────────────────────────────

#[test]
fn capacity_defaults_to_unlimited() {
    let (client, _admin) = setup();
    assert_eq!(client.get_max_active_issuers(), u32::MAX);
    assert_eq!(client.get_active_issuer_count(), 0);
}

#[test]
fn active_count_tracks_lifecycle_transitions() {
    let (client, _admin) = setup();
    let id = bytes(1);

    client.register_issuer(&id, &address(ISSUER_ONE), &bytes(2));
    assert_eq!(client.get_active_issuer_count(), 1);

    client.suspend_issuer(&id);
    assert_eq!(client.get_active_issuer_count(), 0);

    client.reactivate_issuer(&id);
    assert_eq!(client.get_active_issuer_count(), 1);

    client.revoke_issuer(&id);
    assert_eq!(client.get_active_issuer_count(), 0);
}

#[test]
fn revoking_a_suspended_issuer_does_not_change_count() {
    let (client, _admin) = setup();
    let id = bytes(1);
    client.register_issuer(&id, &address(ISSUER_ONE), &bytes(2));
    client.suspend_issuer(&id);
    assert_eq!(client.get_active_issuer_count(), 0);
    client.revoke_issuer(&id);
    assert_eq!(client.get_active_issuer_count(), 0);
}

#[test]
fn registration_at_capacity_is_rejected() {
    let (client, _admin) = setup();
    client.set_max_active_issuers(&1, &false);
    client.register_issuer(&bytes(1), &address(ISSUER_ONE), &bytes(2));

    let result = client.try_register_issuer(&bytes(3), &address(ISSUER_TWO), &bytes(4));
    assert_eq!(result, Err(Ok(IssuerError::IssuerCapacityExceeded)));
    assert_eq!(client.get_active_issuer_count(), 1);
    let result = client.try_get_issuer(&bytes(3));
    assert_eq!(result, Err(Ok(IssuerError::IssuerNotFound)));
}

#[test]
fn suspending_frees_a_capacity_slot() {
    let (client, _admin) = setup();
    client.set_max_active_issuers(&1, &false);
    let first = bytes(1);
    client.register_issuer(&first, &address(ISSUER_ONE), &bytes(2));
    client.suspend_issuer(&first);

    client.register_issuer(&bytes(3), &address(ISSUER_TWO), &bytes(4));
    assert_eq!(client.get_active_issuer_count(), 1);
}

#[test]
fn reactivation_re_checks_capacity() {
    let (client, _admin) = setup();
    let first = bytes(1);
    let second = bytes(3);
    client.register_issuer(&first, &address(ISSUER_ONE), &bytes(2));
    client.suspend_issuer(&first);
    client.register_issuer(&second, &address(ISSUER_TWO), &bytes(4));
    client.set_max_active_issuers(&1, &true);

    let result = client.try_reactivate_issuer(&first);
    assert_eq!(result, Err(Ok(IssuerError::IssuerCapacityExceeded)));
    assert_eq!(client.get_issuer(&first).status, IssuerStatus::Suspended);
}

#[test]
fn max_below_usage_requires_override() {
    let (client, _admin) = setup();
    client.register_issuer(&bytes(1), &address(ISSUER_ONE), &bytes(2));

    let result = client.try_set_max_active_issuers(&0, &false);
    assert_eq!(result, Err(Ok(IssuerError::MaxBelowActiveUsage)));
    assert_eq!(client.get_max_active_issuers(), u32::MAX);

    client.set_max_active_issuers(&0, &true);
    assert_eq!(client.get_max_active_issuers(), 0);
}

#[test]
fn migrate_sets_active_count() {
    let (client, _admin) = setup();
    client.migrate(&42);
    assert_eq!(client.get_active_issuer_count(), 42);
}

// ── cooldown ─────────────────────────────────────────────────────────────────

#[test]
fn zero_cooldown_permits_immediate_reactivation() {
    let (client, _admin) = setup();
    let id = bytes(1);
    client.register_issuer(&id, &address(ISSUER_ONE), &bytes(2));
    client.suspend_issuer(&id);
    client.reactivate_issuer(&id);
    assert!(client.is_active_issuer(&id));
}

#[test]
fn reactivation_before_cooldown_is_rejected() {
    let (client, _admin) = setup();
    client.host.set_timestamp(1_000);
    client.set_reactivation_cooldown(&500);
    let id = bytes(1);
    client.register_issuer(&id, &address(ISSUER_ONE), &bytes(2));
    client.suspend_issuer(&id);
    assert_eq!(client.get_earliest_reactivation(&id), 1_500);

    let result = client.try_reactivate_issuer(&id);
    assert_eq!(result, Err(Ok(IssuerError::ReactivationCooldownActive)));
    assert_eq!(client.get_issuer(&id).status, IssuerStatus::Suspended);
}

#[test]
fn reactivation_at_exact_boundary_is_permitted() {
    let (client, _admin) = setup();
    client.host.set_timestamp(1_000);
    client.set_reactivation_cooldown(&500);
    let id = bytes(1);
    client.register_issuer(&id, &address(ISSUER_ONE), &bytes(2));
    client.suspend_issuer(&id);

    client.host.set_timestamp(1_500);
    client.reactivate_issuer(&id);
    assert!(client.is_active_issuer(&id));
}

#[test]
fn lowering_cooldown_does_not_retroactively_shorten_an_active_suspension() {
    let (client, _admin) = setup();
    client.host.set_timestamp(1_000);
    client.set_reactivation_cooldown(&1_000);
    let id = bytes(1);
    client.register_issuer(&id, &address(ISSUER_ONE), &bytes(2));
    client.suspend_issuer(&id);
    assert_eq!(client.get_earliest_reactivation(&id), 2_000);

    client.set_reactivation_cooldown(&0);
    assert_eq!(client.get_earliest_reactivation(&id), 2_000);
    client.host.set_timestamp(1_500);
    let result = client.try_reactivate_issuer(&id);
    assert_eq!(result, Err(Ok(IssuerError::ReactivationCooldownActive)));
}

#[test]
fn re_suspension_recomputes_the_deadline_from_the_current_cooldown() {
    let (client, _admin) = setup();
    client.host.set_timestamp(1_000);
    client.set_reactivation_cooldown(&500);
    let id = bytes(1);
    client.register_issuer(&id, &address(ISSUER_ONE), &bytes(2));
    client.suspend_issuer(&id);
    client.host.set_timestamp(1_500);
    client.reactivate_issuer(&id);

    client.set_reactivation_cooldown(&200);
    client.host.set_timestamp(2_000);
    client.suspend_issuer(&id);
    assert_eq!(client.get_earliest_reactivation(&id), 2_200);
}

#[test]
fn cooldown_deadline_saturates_and_does_not_overflow() {
    let (client, _admin) = setup();
    client.host.set_timestamp(10);
    client.set_reactivation_cooldown(&u64::MAX);
    let id = bytes(1);
    client.register_issuer(&id, &address(ISSUER_ONE), &bytes(2));
    client.suspend_issuer(&id);
    assert_eq!(client.get_earliest_reactivation(&id), u64::MAX);
}

#[test]
fn revoked_issuer_stays_non_reactivatable_regardless_of_cooldown() {
    let (client, _admin) = setup();
    client.set_reactivation_cooldown(&0);
    let id = bytes(1);
    client.register_issuer(&id, &address(ISSUER_ONE), &bytes(2));
    client.revoke_issuer(&id);

    let result = client.try_reactivate_issuer(&id);
    assert_eq!(result, Err(Ok(IssuerError::InvalidTransition)));
}

#[test]
fn suspended_then_revoked_issuer_has_no_cooldown_pending() {
    let (client, _admin) = setup();
    client.host.set_timestamp(1_000);
    client.set_reactivation_cooldown(&500);
    let id = bytes(1);
    client.register_issuer(&id, &address(ISSUER_ONE), &bytes(2));
    client.suspend_issuer(&id);
    assert_eq!(client.get_earliest_reactivation(&id), 1_500);
    client.revoke_issuer(&id);
    assert_eq!(client.get_earliest_reactivation(&id), 0);
    assert!(!client.host.has(DataKey::ReactivatableAt(id)));
}

#[test]
fn missing_authorization_comes_before_an_abort() {
    let (client, admin) = setup();
    client.host.set_auths(&[address(ISSUER_ONE)]);
    assert_eq!(
        client.try_approve_upgrade(&bytes(9), &1),
        Err(HostError::Unauthorized(admin))
    );
    assert_eq!(
        client.try_upgrade_contract(&bytes(9)),
        Err(HostError::Unauthorized(admin))
    );
    client.host.set_auths(&[admin]);
    assert_eq!(
        client.try_approve_upgrade(&bytes(9), &1),
        Err(HostError::Abort(Abort::VersionNotGreater))
    );
    assert_eq!(
        client.try_upgrade_contract(&bytes(9)),
        Err(HostError::Abort(Abort::NotAllowlisted))
    );
}
