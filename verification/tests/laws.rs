use issuer_registry::bytes::{Address, BytesN, Key};
use issuer_registry::contract::IssuerRegistryContract as Registry;
use issuer_registry::env::{DataKey, Effect, Entry, Env};
use issuer_registry::event::{
    ContractUpgraded, Event, IssuerAddressRotated, IssuerMetadataUpdated, IssuerReactivated,
    IssuerRegistered, IssuerRevoked, IssuerSuspended, MaxActiveIssuersChanged,
    ReactivationCooldownChanged, UpgradeAllowlisted, UpgradeRevoked,
};
use issuer_registry::model::{
    ContractError, InterfaceVersion, IssuerError, IssuerRecord, IssuerStatus, Parameters,
    TtlPolicy,
};
use issuer_registry::rules::Abort;
use issuer_registry::table::Table;

const TTL: TtlPolicy = TtlPolicy {
    threshold: 100,
    extend_to: 1_000,
};

const PARAMETERS: Parameters = Parameters {
    interface_version: InterfaceVersion { major: 1 },
    ttl: TTL,
};

fn id(value: u8) -> BytesN<32> {
    BytesN::from_array(&[value; 32])
}

fn account(value: u8) -> Address {
    let mut strkey = [b'A'; 56];
    strkey[0] = b'G';
    strkey[55] = value;
    Address::from_strkey(&strkey)
}

const ADMIN: u8 = b'Z';

fn started(timestamp: u64) -> Env {
    let mut env = Env::new(PARAMETERS, timestamp);
    assert_eq!(Registry::initialize(&mut env, account(ADMIN), true), Ok(()));
    env.take_journal();
    env
}

fn with_issuer(timestamp: u64) -> Env {
    let mut env = started(timestamp);
    assert_eq!(
        Registry::register_issuer(&mut env, id(1), account(b'1'), id(2), true),
        Ok(())
    );
    env.take_journal();
    env
}

fn published(journal: &[Effect]) -> Vec<Event> {
    journal
        .iter()
        .filter_map(|effect| match effect {
            Effect::Publish(event) => Some(*event),
            _ => None,
        })
        .collect()
}

// ── building blocks ──────────────────────────────────────────────────────────

#[test]
fn byte_strings_compare_by_every_byte() {
    let mut last = [7u8; 32];
    last[31] = 8;
    assert!(id(7).same(&id(7)));
    assert!(!id(7).same(&BytesN::from_array(&last)));
    assert!(account(b'1').same(&account(b'1')));
    assert!(!account(b'1').same(&account(b'2')));
    assert_eq!(id(7).to_array(), [7u8; 32]);
}

#[test]
fn table_keeps_the_last_value_of_a_key() {
    let mut table: Table<BytesN<32>, u32> = Table::new();
    assert_eq!(table.get(&id(1)), None);
    table.insert(id(1), 10);
    table.insert(id(2), 20);
    table.insert(id(1), 11);
    assert_eq!(table.get(&id(1)), Some(11));
    assert_eq!(table.get(&id(2)), Some(20));
    table.remove(&id(1));
    assert_eq!(table.get(&id(1)), None);
    assert_eq!(table.get(&id(2)), Some(20));
    table.remove(&id(9));
    assert_eq!(table.get(&id(2)), Some(20));
}

#[test]
fn environment_hands_back_what_it_was_given() {
    let mut env = Env::new(PARAMETERS, 5);
    assert_eq!(env.timestamp(), 5);
    assert_eq!(env.parameters(), PARAMETERS);
    assert_eq!(env.admin(), None);
    env.load(Entry::Admin(account(ADMIN)));
    env.load(Entry::ContractVersion(3));
    env.load(Entry::IssuerEpoch(4));
    env.load(Entry::MaxActiveIssuers(5));
    env.load(Entry::ActiveIssuerCount(6));
    env.load(Entry::ReactivationCooldown(7));
    env.load(Entry::AllowedWasm(id(8), 9));
    env.load(Entry::AddressIssuer(account(b'1'), id(10)));
    env.load(Entry::ReactivatableAt(id(11), 12));
    assert_eq!(Registry::get_admin(&env), Ok(account(ADMIN)));
    assert_eq!(Registry::get_contract_version(&env), 3);
    assert_eq!(Registry::get_issuer_epoch(&env), 4);
    assert_eq!(Registry::get_max_active_issuers(&env), 5);
    assert_eq!(Registry::get_active_issuer_count(&env), 6);
    assert_eq!(Registry::get_reactivation_cooldown(&env), 7);
    assert!(Registry::is_upgrade_allowed(&env, id(8)));
    assert_eq!(env.address_issuer(&account(b'1')), Some(id(10)));
    assert_eq!(Registry::get_earliest_reactivation(&env, id(11)), 12);
    assert!(env.journal().is_empty());
    env.set_timestamp(6);
    assert_eq!(env.timestamp(), 6);
}

#[test]
fn figures_have_defaults_before_initialization() {
    let env = Env::new(PARAMETERS, 0);
    assert_eq!(
        Registry::get_admin(&env),
        Err(ContractError::NotInitialized)
    );
    assert_eq!(Registry::get_contract_version(&env), 0);
    assert_eq!(Registry::get_issuer_epoch(&env), 0);
    assert_eq!(Registry::get_active_issuer_count(&env), 0);
    assert_eq!(Registry::get_max_active_issuers(&env), u32::MAX);
    assert_eq!(Registry::get_reactivation_cooldown(&env), 0);
    assert_eq!(Registry::get_earliest_reactivation(&env, id(1)), 0);
    assert_eq!(Registry::interface_version(&env).major, 1);
}

// ── journals ─────────────────────────────────────────────────────────────────

#[test]
fn initialization_asks_for_exactly_its_entries() {
    let mut env = Env::new(PARAMETERS, 0);
    assert_eq!(Registry::initialize(&mut env, account(ADMIN), true), Ok(()));
    assert_eq!(
        env.take_journal(),
        vec![
            Effect::RequireAuth(account(ADMIN)),
            Effect::Put(Entry::Admin(account(ADMIN))),
            Effect::Put(Entry::ContractVersion(1)),
            Effect::Put(Entry::IssuerEpoch(0)),
            Effect::Put(Entry::MaxActiveIssuers(u32::MAX)),
            Effect::Put(Entry::ActiveIssuerCount(0)),
            Effect::Put(Entry::ReactivationCooldown(0)),
            Effect::ExtendInstanceTtl(TTL),
        ]
    );
}

#[test]
fn registration_asks_for_exactly_its_changes() {
    let mut env = started(77);
    assert_eq!(
        Registry::register_issuer(&mut env, id(1), account(b'1'), id(2), true),
        Ok(())
    );
    let record = IssuerRecord {
        issuer_id_hash: id(1),
        issuer_address: account(b'1'),
        metadata_hash: id(2),
        status: IssuerStatus::Active,
        created_at: 77,
        updated_at: 77,
    };
    assert_eq!(
        env.take_journal(),
        vec![
            Effect::RequireAuth(account(ADMIN)),
            Effect::Put(Entry::ActiveIssuerCount(1)),
            Effect::ExtendInstanceTtl(TTL),
            Effect::Put(Entry::Issuer(id(1), record)),
            Effect::Put(Entry::AddressIssuer(account(b'1'), id(1))),
            Effect::ExtendTtl(DataKey::Issuer(id(1)), TTL),
            Effect::ExtendTtl(DataKey::AddressIssuer(account(b'1')), TTL),
            Effect::Put(Entry::IssuerEpoch(1)),
            Effect::ExtendInstanceTtl(TTL),
            Effect::Publish(Event::IssuerRegistered(IssuerRegistered {
                issuer_id_hash: id(1),
                issuer_address: account(b'1'),
                metadata_hash: id(2),
                created_at: 77,
                epoch: 1,
            })),
        ]
    );
}

#[test]
fn suspension_and_reactivation_ask_for_exactly_their_changes() {
    let mut env = with_issuer(100);
    let registered = env.issuer(&id(1)).unwrap();
    assert_eq!(Registry::set_reactivation_cooldown(&mut env, 50), Ok(()));
    env.take_journal();
    env.set_timestamp(200);
    assert_eq!(Registry::suspend_issuer(&mut env, id(1)), Ok(()));
    let mut record = registered;
    record.status = IssuerStatus::Suspended;
    record.updated_at = 200;
    assert_eq!(
        env.take_journal(),
        vec![
            Effect::RequireAuth(account(ADMIN)),
            Effect::Put(Entry::ActiveIssuerCount(0)),
            Effect::ExtendInstanceTtl(TTL),
            Effect::Put(Entry::ReactivatableAt(id(1), 250)),
            Effect::ExtendTtl(DataKey::ReactivatableAt(id(1)), TTL),
            Effect::Put(Entry::Issuer(id(1), record)),
            Effect::ExtendTtl(DataKey::Issuer(id(1)), TTL),
            Effect::Put(Entry::IssuerEpoch(2)),
            Effect::ExtendInstanceTtl(TTL),
            Effect::Publish(Event::IssuerSuspended(IssuerSuspended {
                issuer_id_hash: id(1),
                updated_at: 200,
                epoch: 2,
            })),
        ]
    );
    env.set_timestamp(250);
    assert_eq!(Registry::reactivate_issuer(&mut env, id(1)), Ok(()));
    record.status = IssuerStatus::Active;
    record.updated_at = 250;
    assert_eq!(
        env.take_journal(),
        vec![
            Effect::RequireAuth(account(ADMIN)),
            Effect::Put(Entry::ActiveIssuerCount(1)),
            Effect::ExtendInstanceTtl(TTL),
            Effect::Remove(DataKey::ReactivatableAt(id(1))),
            Effect::Put(Entry::Issuer(id(1), record)),
            Effect::ExtendTtl(DataKey::Issuer(id(1)), TTL),
            Effect::Put(Entry::IssuerEpoch(3)),
            Effect::ExtendInstanceTtl(TTL),
            Effect::Publish(Event::IssuerReactivated(IssuerReactivated {
                issuer_id_hash: id(1),
                updated_at: 250,
                epoch: 3,
            })),
        ]
    );
}

#[test]
fn repeated_status_changes_leave_the_count_alone() {
    let mut env = with_issuer(10);
    assert_eq!(Registry::reactivate_issuer(&mut env, id(1)), Ok(()));
    assert_eq!(Registry::get_active_issuer_count(&env), 1);
    assert_eq!(Registry::suspend_issuer(&mut env, id(1)), Ok(()));
    env.set_timestamp(20);
    assert_eq!(Registry::suspend_issuer(&mut env, id(1)), Ok(()));
    assert_eq!(Registry::get_active_issuer_count(&env), 0);
    assert_eq!(Registry::get_earliest_reactivation(&env, id(1)), 20);
    env.take_journal();
    assert_eq!(Registry::revoke_issuer(&mut env, id(1)), Ok(()));
    assert_eq!(
        published(&env.take_journal()),
        vec![Event::IssuerRevoked(IssuerRevoked {
            issuer_id_hash: id(1),
            updated_at: 20,
            epoch: 5,
        })]
    );
    env.set_timestamp(30);
    assert_eq!(Registry::revoke_issuer(&mut env, id(1)), Ok(()));
    assert_eq!(Registry::get_issuer_epoch(&env), 6);
    assert_eq!(env.issuer(&id(1)).unwrap().updated_at, 30);
}

#[test]
fn rotation_asks_for_exactly_its_changes() {
    let mut env = with_issuer(5);
    let mut record = env.issuer(&id(1)).unwrap();
    env.set_timestamp(6);
    assert_eq!(
        Registry::rotate_issuer_address(&mut env, id(1), account(b'2'), true),
        Ok(())
    );
    record.issuer_address = account(b'2');
    record.updated_at = 6;
    assert_eq!(
        env.take_journal(),
        vec![
            Effect::RequireAuth(account(ADMIN)),
            Effect::Remove(DataKey::AddressIssuer(account(b'1'))),
            Effect::Put(Entry::Issuer(id(1), record)),
            Effect::Put(Entry::AddressIssuer(account(b'2'), id(1))),
            Effect::ExtendTtl(DataKey::Issuer(id(1)), TTL),
            Effect::ExtendTtl(DataKey::AddressIssuer(account(b'2')), TTL),
            Effect::Put(Entry::IssuerEpoch(2)),
            Effect::ExtendInstanceTtl(TTL),
            Effect::Publish(Event::IssuerAddressRotated(IssuerAddressRotated {
                issuer_id_hash: id(1),
                old_address: account(b'1'),
                new_address: account(b'2'),
                updated_at: 6,
                epoch: 2,
            })),
        ]
    );
}

#[test]
fn update_asks_for_exactly_its_changes() {
    let mut env = with_issuer(5);
    let mut record = env.issuer(&id(1)).unwrap();
    env.set_timestamp(9);
    assert_eq!(Registry::update_issuer(&mut env, id(1), id(3)), Ok(()));
    record.metadata_hash = id(3);
    record.updated_at = 9;
    assert_eq!(
        env.take_journal(),
        vec![
            Effect::RequireAuth(account(ADMIN)),
            Effect::Put(Entry::Issuer(id(1), record)),
            Effect::ExtendTtl(DataKey::Issuer(id(1)), TTL),
            Effect::Put(Entry::IssuerEpoch(2)),
            Effect::ExtendInstanceTtl(TTL),
            Effect::Publish(Event::IssuerMetadataUpdated(IssuerMetadataUpdated {
                issuer_id_hash: id(1),
                metadata_hash: id(3),
                updated_at: 9,
                epoch: 2,
            })),
        ]
    );
}

#[test]
fn upgrades_ask_for_exactly_their_changes() {
    let mut env = started(0);
    Registry::approve_upgrade(&mut env, id(7), 4);
    assert_eq!(
        env.take_journal(),
        vec![
            Effect::RequireAuth(account(ADMIN)),
            Effect::Put(Entry::AllowedWasm(id(7), 4)),
            Effect::ExtendInstanceTtl(TTL),
            Effect::Publish(Event::UpgradeAllowlisted(UpgradeAllowlisted {
                wasm_hash: id(7),
                new_contract_version: 4,
                approved_by: account(ADMIN),
            })),
        ]
    );
    Registry::upgrade_contract(&mut env, id(7));
    assert_eq!(
        env.take_journal(),
        vec![
            Effect::RequireAuth(account(ADMIN)),
            Effect::Remove(DataKey::AllowedWasm(id(7))),
            Effect::UpdateWasm(id(7)),
            Effect::Put(Entry::ContractVersion(4)),
            Effect::ExtendInstanceTtl(TTL),
            Effect::Publish(Event::ContractUpgraded(ContractUpgraded {
                new_wasm_hash: id(7),
                old_contract_version: 1,
                new_contract_version: 4,
                upgraded_by: account(ADMIN),
            })),
        ]
    );
    Registry::revoke_upgrade(&mut env, id(7));
    assert_eq!(
        env.take_journal(),
        vec![
            Effect::RequireAuth(account(ADMIN)),
            Effect::Remove(DataKey::AllowedWasm(id(7))),
            Effect::Publish(Event::UpgradeRevoked(UpgradeRevoked {
                wasm_hash: id(7),
                revoked_by: account(ADMIN),
            })),
        ]
    );
}

#[test]
fn policy_changes_ask_for_exactly_their_changes() {
    let mut env = with_issuer(0);
    assert_eq!(
        Registry::set_max_active_issuers(&mut env, 9, false),
        Ok(())
    );
    assert_eq!(
        env.take_journal(),
        vec![
            Effect::RequireAuth(account(ADMIN)),
            Effect::Put(Entry::MaxActiveIssuers(9)),
            Effect::ExtendInstanceTtl(TTL),
            Effect::Publish(Event::MaxActiveIssuersChanged(MaxActiveIssuersChanged {
                new_max: 9,
                active_count: 1,
                changed_by: account(ADMIN),
            })),
        ]
    );
    assert_eq!(Registry::set_reactivation_cooldown(&mut env, 60), Ok(()));
    assert_eq!(
        env.take_journal(),
        vec![
            Effect::RequireAuth(account(ADMIN)),
            Effect::Put(Entry::ReactivationCooldown(60)),
            Effect::ExtendInstanceTtl(TTL),
            Effect::Publish(Event::ReactivationCooldownChanged(
                ReactivationCooldownChanged {
                    new_cooldown_seconds: 60,
                    changed_by: account(ADMIN),
                }
            )),
        ]
    );
}

#[test]
fn migration_writes_only_what_is_absent() {
    let mut env = Env::new(PARAMETERS, 0);
    env.load(Entry::Admin(account(ADMIN)));
    env.load(Entry::MaxActiveIssuers(3));
    assert_eq!(Registry::migrate(&mut env, 2), Ok(()));
    assert_eq!(
        env.take_journal(),
        vec![
            Effect::RequireAuth(account(ADMIN)),
            Effect::Put(Entry::IssuerEpoch(0)),
            Effect::Put(Entry::ReactivationCooldown(0)),
            Effect::Put(Entry::ActiveIssuerCount(2)),
            Effect::ExtendInstanceTtl(TTL),
        ]
    );
    assert_eq!(Registry::get_max_active_issuers(&env), 3);

    assert_eq!(Registry::migrate(&mut env, 2), Ok(()));
    assert_eq!(
        env.take_journal(),
        vec![
            Effect::RequireAuth(account(ADMIN)),
            Effect::Put(Entry::ActiveIssuerCount(2)),
            Effect::ExtendInstanceTtl(TTL),
        ]
    );
}

#[test]
fn reads_extend_what_they_find() {
    let mut env = with_issuer(0);
    assert!(Registry::get_issuer(&mut env, id(1)).is_ok());
    assert!(Registry::is_active_issuer(&mut env, id(1)));
    assert!(Registry::is_active_address(&mut env, account(b'1')));
    let extended = Effect::ExtendTtl(DataKey::Issuer(id(1)), TTL);
    assert_eq!(env.take_journal(), vec![extended, extended, extended]);

    assert_eq!(
        Registry::get_issuer_by_address(&mut env, account(b'1')),
        Registry::get_issuer(&mut env, id(1))
    );
    assert_eq!(
        env.take_journal(),
        vec![
            Effect::ExtendTtl(DataKey::AddressIssuer(account(b'1')), TTL),
            extended,
        ]
    );

    assert!(!Registry::is_active_issuer(&mut env, id(9)));
    assert!(!Registry::is_active_address(&mut env, account(b'9')));
    assert!(env.journal().is_empty());
}

// ── refusals ─────────────────────────────────────────────────────────────────

#[test]
fn initialization_is_refused_for_an_invalid_principal() {
    let mut env = Env::new(PARAMETERS, 0);
    assert_eq!(
        Registry::initialize(&mut env, account(ADMIN), false),
        Err(ContractError::InvalidInput)
    );
    assert!(env.journal().is_empty());
    assert_eq!(env.admin(), None);
}

#[test]
fn second_initialization_is_refused() {
    let mut env = started(0);
    assert_eq!(
        Registry::initialize(&mut env, account(b'1'), false),
        Err(ContractError::AlreadyInitialized)
    );
    assert!(env.journal().is_empty());
    assert_eq!(Registry::get_admin(&env), Ok(account(ADMIN)));
}

#[test]
fn nothing_is_accepted_before_initialization() {
    let mut env = Env::new(PARAMETERS, 0);
    let missing = Err(Ok(IssuerError::IssuerNotFound));
    assert_eq!(
        Registry::try_register_issuer(&mut env, id(1), account(b'1'), id(2), false),
        missing
    );
    assert_eq!(
        Registry::try_update_issuer(&mut env, id(1), id(2)),
        missing
    );
    assert_eq!(Registry::try_suspend_issuer(&mut env, id(1)), missing);
    assert_eq!(Registry::try_reactivate_issuer(&mut env, id(1)), missing);
    assert_eq!(Registry::try_revoke_issuer(&mut env, id(1)), missing);
    assert_eq!(
        Registry::try_rotate_issuer_address(&mut env, id(1), account(b'1'), true),
        missing
    );
    let refused = Err(IssuerError::IssuerNotFound);
    assert_eq!(Registry::migrate(&mut env, 1), refused);
    assert_eq!(Registry::set_max_active_issuers(&mut env, 1, true), refused);
    assert_eq!(Registry::set_reactivation_cooldown(&mut env, 1), refused);
    let aborted = Err(Abort::NotInitialized);
    assert_eq!(Registry::try_approve_upgrade(&mut env, id(1), 2), aborted);
    assert_eq!(Registry::try_revoke_upgrade(&mut env, id(1)), aborted);
    assert_eq!(Registry::try_upgrade_contract(&mut env, id(1)), aborted);
    assert!(env.journal().is_empty());
}

#[test]
fn refused_calls_ask_for_the_authorization_alone() {
    let mut env = with_issuer(0);
    let demand = vec![Effect::RequireAuth(account(ADMIN))];

    assert_eq!(
        Registry::register_issuer(&mut env, id(3), account(b'1'), id(4), true),
        Err(IssuerError::IssuerAddressAlreadyRegistered)
    );
    assert_eq!(env.take_journal(), demand);
    assert_eq!(
        Registry::update_issuer(&mut env, id(9), id(4)),
        Err(IssuerError::IssuerNotFound)
    );
    assert_eq!(env.take_journal(), demand);
    assert_eq!(
        Registry::suspend_issuer(&mut env, id(9)),
        Err(IssuerError::IssuerNotFound)
    );
    assert_eq!(env.take_journal(), demand);
    assert_eq!(
        Registry::rotate_issuer_address(&mut env, id(1), account(b'1'), true),
        Err(IssuerError::InvalidAddress)
    );
    assert_eq!(env.take_journal(), demand);
    assert_eq!(
        Registry::set_max_active_issuers(&mut env, 0, false),
        Err(IssuerError::MaxBelowActiveUsage)
    );
    assert_eq!(env.take_journal(), demand);

    // An invalid address is turned away before the authorization.
    assert_eq!(
        Registry::register_issuer(&mut env, id(3), account(b'3'), id(4), false),
        Err(IssuerError::InvalidAddress)
    );
    assert_eq!(
        Registry::rotate_issuer_address(&mut env, id(9), account(b'3'), false),
        Err(IssuerError::InvalidAddress)
    );
    assert!(env.journal().is_empty());
    assert_eq!(Registry::get_issuer_epoch(&env), 1);
}

#[test]
fn rotation_is_refused_where_the_address_is_taken_or_the_issuer_gone() {
    let mut env = with_issuer(0);
    assert_eq!(
        Registry::register_issuer(&mut env, id(3), account(b'3'), id(4), true),
        Ok(())
    );
    assert_eq!(
        Registry::rotate_issuer_address(&mut env, id(1), account(b'3'), true),
        Err(IssuerError::IssuerAddressAlreadyRegistered)
    );
    assert_eq!(
        Registry::rotate_issuer_address(&mut env, id(9), account(b'4'), true),
        Err(IssuerError::IssuerNotFound)
    );
    assert_eq!(Registry::revoke_issuer(&mut env, id(1)), Ok(()));
    assert_eq!(
        Registry::rotate_issuer_address(&mut env, id(1), account(b'4'), true),
        Err(IssuerError::IssuerRevoked)
    );
    assert_eq!(
        Registry::update_issuer(&mut env, id(1), id(5)),
        Err(IssuerError::IssuerRevoked)
    );
}

#[test]
fn lookups_by_address_tell_what_is_missing() {
    let mut env = with_issuer(0);
    assert_eq!(
        Registry::get_issuer_by_address(&mut env, account(b'9')),
        Err(IssuerError::IssuerAddressNotFound)
    );
    env.load(Entry::AddressIssuer(account(b'8'), id(8)));
    assert_eq!(
        Registry::get_issuer_by_address(&mut env, account(b'8')),
        Err(IssuerError::IssuerNotFound)
    );
    assert!(!Registry::is_active_address(&mut env, account(b'8')));
}

// ── aborts ───────────────────────────────────────────────────────────────────

#[test]
fn a_full_epoch_aborts_changes_but_not_refusals() {
    let mut env = with_issuer(0);
    env.load(Entry::IssuerEpoch(u64::MAX));
    let aborted = Err(Err(Abort::EpochOverflow));
    assert_eq!(
        Registry::try_register_issuer(&mut env, id(3), account(b'3'), id(4), true),
        aborted
    );
    assert_eq!(
        Registry::try_update_issuer(&mut env, id(1), id(4)),
        aborted
    );
    assert_eq!(Registry::try_suspend_issuer(&mut env, id(1)), aborted);
    assert_eq!(Registry::try_reactivate_issuer(&mut env, id(1)), aborted);
    assert_eq!(Registry::try_revoke_issuer(&mut env, id(1)), aborted);
    assert_eq!(
        Registry::try_rotate_issuer_address(&mut env, id(1), account(b'3'), true),
        aborted
    );
    assert_eq!(
        env.take_journal(),
        vec![Effect::RequireAuth(account(ADMIN)); 6]
    );
    assert_eq!(
        Registry::try_register_issuer(&mut env, id(1), account(b'3'), id(4), true),
        Err(Ok(IssuerError::IssuerAlreadyRegistered))
    );
    assert_eq!(Registry::get_issuer_epoch(&env), u64::MAX);

    env.load(Entry::IssuerEpoch(u64::MAX - 1));
    assert_eq!(Registry::try_update_issuer(&mut env, id(1), id(4)), Ok(()));
    assert_eq!(Registry::get_issuer_epoch(&env), u64::MAX);
}

#[test]
fn upgrade_to_a_version_already_reached_aborts() {
    let mut env = started(0);
    assert_eq!(Registry::try_approve_upgrade(&mut env, id(1), 2), Ok(()));
    assert_eq!(Registry::try_approve_upgrade(&mut env, id(2), 2), Ok(()));
    assert_eq!(Registry::try_upgrade_contract(&mut env, id(1)), Ok(()));
    env.take_journal();
    assert_eq!(
        Registry::try_upgrade_contract(&mut env, id(2)),
        Err(Abort::VersionNotAdvanced)
    );
    assert_eq!(
        Registry::try_upgrade_contract(&mut env, id(1)),
        Err(Abort::NotAllowlisted)
    );
    assert_eq!(
        Registry::try_approve_upgrade(&mut env, id(1), 2),
        Err(Abort::VersionNotGreater)
    );
    assert_eq!(
        env.take_journal(),
        vec![Effect::RequireAuth(account(ADMIN)); 3]
    );
    assert!(Registry::is_upgrade_allowed(&env, id(2)));
    assert_eq!(Registry::get_contract_version(&env), 2);
}

#[test]
fn aborts_are_reported_in_words() {
    assert_eq!(Abort::NotInitialized.message(), "contract not initialized");
    assert_eq!(
        Abort::VersionNotGreater.message(),
        "new_version must be greater than current contract version"
    );
    assert_eq!(
        Abort::NotAllowlisted.message(),
        "wasm hash not on allowlist"
    );
    assert_eq!(
        Abort::VersionNotAdvanced.message(),
        "upgrade would not advance contract version"
    );
    assert_eq!(
        Abort::EpochOverflow.message(),
        "issuer epoch overflow: reached maximum"
    );
}

// ── histories ────────────────────────────────────────────────────────────────

#[test]
fn revoked_issuer_stays_revoked_whatever_follows() {
    let mut env = with_issuer(0);
    assert_eq!(Registry::try_revoke_issuer(&mut env, id(1)), Ok(()));
    let record = env.issuer(&id(1)).unwrap();
    env.set_timestamp(u64::MAX);
    for _ in 0..2 {
        assert_eq!(
            Registry::try_reactivate_issuer(&mut env, id(1)),
            Err(Ok(IssuerError::InvalidTransition))
        );
        assert_eq!(
            Registry::try_suspend_issuer(&mut env, id(1)),
            Err(Ok(IssuerError::InvalidTransition))
        );
        assert_eq!(
            Registry::try_register_issuer(&mut env, id(1), account(b'5'), id(6), true),
            Err(Ok(IssuerError::IssuerAlreadyRegistered))
        );
        assert_eq!(Registry::set_reactivation_cooldown(&mut env, 0), Ok(()));
    }
    assert_eq!(env.issuer(&id(1)), Some(record));
    assert!(!Registry::is_active_address(&mut env, account(b'1')));
}

#[test]
fn reactivation_restores_the_issuer_and_the_count() {
    let mut env = with_issuer(1_000);
    let before = env.issuer(&id(1)).unwrap();
    assert_eq!(Registry::set_reactivation_cooldown(&mut env, 500), Ok(()));
    assert_eq!(Registry::suspend_issuer(&mut env, id(1)), Ok(()));
    env.set_timestamp(1_499);
    assert_eq!(
        Registry::reactivate_issuer(&mut env, id(1)),
        Err(IssuerError::ReactivationCooldownActive)
    );
    env.set_timestamp(1_500);
    assert_eq!(Registry::reactivate_issuer(&mut env, id(1)), Ok(()));
    let mut expected = before;
    expected.updated_at = 1_500;
    assert_eq!(env.issuer(&id(1)), Some(expected));
    assert_eq!(Registry::get_active_issuer_count(&env), 1);
    assert_eq!(Registry::get_earliest_reactivation(&env, id(1)), 0);
    assert_eq!(Registry::get_issuer_epoch(&env), 3);
}

#[test]
fn rotated_address_can_be_taken_by_another_issuer() {
    let mut env = with_issuer(0);
    assert_eq!(
        Registry::rotate_issuer_address(&mut env, id(1), account(b'2'), true),
        Ok(())
    );
    assert_eq!(
        Registry::get_issuer_by_address(&mut env, account(b'1')),
        Err(IssuerError::IssuerAddressNotFound)
    );
    assert_eq!(
        Registry::register_issuer(&mut env, id(3), account(b'1'), id(4), true),
        Ok(())
    );
    assert_eq!(
        Registry::get_issuer_by_address(&mut env, account(b'1'))
            .unwrap()
            .issuer_id_hash,
        id(3)
    );
    assert_eq!(
        Registry::get_issuer_by_address(&mut env, account(b'2'))
            .unwrap()
            .issuer_id_hash,
        id(1)
    );
}

#[test]
fn withdrawn_approval_leaves_no_trace() {
    let mut env = started(0);
    assert_eq!(
        Registry::try_upgrade_contract(&mut env, id(7)),
        Err(Abort::NotAllowlisted)
    );
    Registry::approve_upgrade(&mut env, id(7), 2);
    Registry::revoke_upgrade(&mut env, id(7));
    assert!(!Registry::is_upgrade_allowed(&env, id(7)));
    assert_eq!(
        Registry::try_upgrade_contract(&mut env, id(7)),
        Err(Abort::NotAllowlisted)
    );
    assert_eq!(Registry::get_contract_version(&env), 1);
}

#[test]
fn only_changes_of_issuers_advance_the_epoch() {
    let mut env = with_issuer(0);
    assert_eq!(Registry::migrate(&mut env, 1), Ok(()));
    assert_eq!(
        Registry::set_max_active_issuers(&mut env, 4, false),
        Ok(())
    );
    assert_eq!(Registry::set_reactivation_cooldown(&mut env, 4), Ok(()));
    Registry::approve_upgrade(&mut env, id(7), 2);
    Registry::revoke_upgrade(&mut env, id(7));
    Registry::approve_upgrade(&mut env, id(7), 2);
    Registry::upgrade_contract(&mut env, id(7));
    assert!(Registry::get_issuer(&mut env, id(1)).is_ok());
    assert_eq!(Registry::get_issuer_epoch(&env), 1);
}

#[test]
fn count_is_the_number_of_active_issuers() {
    let mut env = started(0);
    for n in 1..=5u8 {
        assert_eq!(
            Registry::register_issuer(&mut env, id(n), account(b'a' + n), id(99), true),
            Ok(())
        );
    }
    assert_eq!(Registry::suspend_issuer(&mut env, id(2)), Ok(()));
    assert_eq!(Registry::revoke_issuer(&mut env, id(3)), Ok(()));
    assert_eq!(Registry::revoke_issuer(&mut env, id(2)), Ok(()));
    assert_eq!(Registry::suspend_issuer(&mut env, id(4)), Ok(()));
    assert_eq!(Registry::reactivate_issuer(&mut env, id(4)), Ok(()));
    let mut active: u32 = 0;
    for n in 1..=5u8 {
        if Registry::is_active_issuer(&mut env, id(n)) {
            active += 1;
        }
    }
    assert_eq!(active, 3);
    assert_eq!(Registry::get_active_issuer_count(&env), active);
}

#[test]
fn tightened_bound_holds_for_later_activations_only() {
    let mut env = with_issuer(0);
    assert_eq!(
        Registry::register_issuer(&mut env, id(3), account(b'3'), id(4), true),
        Ok(())
    );
    assert_eq!(Registry::set_max_active_issuers(&mut env, 1, true), Ok(()));
    assert!(Registry::is_active_issuer(&mut env, id(1)));
    assert!(Registry::is_active_issuer(&mut env, id(3)));
    assert_eq!(Registry::suspend_issuer(&mut env, id(1)), Ok(()));
    assert_eq!(
        Registry::reactivate_issuer(&mut env, id(1)),
        Err(IssuerError::IssuerCapacityExceeded)
    );
    assert_eq!(Registry::suspend_issuer(&mut env, id(3)), Ok(()));
    assert_eq!(Registry::reactivate_issuer(&mut env, id(1)), Ok(()));
}

#[test]
fn count_does_not_go_below_zero() {
    let mut env = with_issuer(0);
    assert_eq!(Registry::migrate(&mut env, 0), Ok(()));
    assert_eq!(Registry::suspend_issuer(&mut env, id(1)), Ok(()));
    assert_eq!(Registry::get_active_issuer_count(&env), 0);
}

/// A call that is handed only the entries it names asks for the same things as
/// one that is handed the whole ledger.
#[test]
fn unnamed_entries_make_no_difference() {
    let mut whole = with_issuer(0);
    assert_eq!(
        Registry::register_issuer(&mut whole, id(3), account(b'3'), id(4), true),
        Ok(())
    );
    whole.take_journal();

    let mut part = Env::new(PARAMETERS, 0);
    part.load(Entry::Admin(account(ADMIN)));
    part.load(Entry::ContractVersion(1));
    part.load(Entry::IssuerEpoch(2));
    part.load(Entry::MaxActiveIssuers(u32::MAX));
    part.load(Entry::ActiveIssuerCount(2));
    part.load(Entry::ReactivationCooldown(0));
    part.load(Entry::Issuer(id(1), whole.issuer(&id(1)).unwrap()));

    assert_eq!(
        Registry::rotate_issuer_address(&mut whole, id(1), account(b'5'), true),
        Ok(())
    );
    assert_eq!(
        Registry::rotate_issuer_address(&mut part, id(1), account(b'5'), true),
        Ok(())
    );
    assert_eq!(whole.take_journal(), part.take_journal());
}

#[test]
fn deadline_is_on_record_from_suspension_to_reactivation() {
    let mut env = with_issuer(10);
    assert_eq!(Registry::update_issuer(&mut env, id(1), id(4)), Ok(()));
    assert_eq!(Registry::get_earliest_reactivation(&env, id(1)), 0);
    assert_eq!(Registry::suspend_issuer(&mut env, id(1)), Ok(()));
    assert_eq!(Registry::get_earliest_reactivation(&env, id(1)), 10);
    assert_eq!(Registry::get_earliest_reactivation(&env, id(2)), 0);
    assert_eq!(Registry::reactivate_issuer(&mut env, id(1)), Ok(()));
    assert_eq!(Registry::get_earliest_reactivation(&env, id(1)), 0);
}

#[test]
fn bound_is_kept_however_issuers_come_and_go() {
    let mut env = started(0);
    assert_eq!(
        Registry::set_max_active_issuers(&mut env, 2, false),
        Ok(())
    );
    for n in 1..=2u8 {
        assert_eq!(
            Registry::register_issuer(&mut env, id(n), account(b'0' + n), id(99), true),
            Ok(())
        );
    }
    assert_eq!(
        Registry::register_issuer(&mut env, id(3), account(b'3'), id(99), true),
        Err(IssuerError::IssuerCapacityExceeded)
    );
    assert_eq!(
        Registry::set_max_active_issuers(&mut env, 1, false),
        Err(IssuerError::MaxBelowActiveUsage)
    );
    assert_eq!(Registry::suspend_issuer(&mut env, id(1)), Ok(()));
    assert_eq!(
        Registry::register_issuer(&mut env, id(3), account(b'3'), id(99), true),
        Ok(())
    );
    assert_eq!(
        Registry::reactivate_issuer(&mut env, id(1)),
        Err(IssuerError::IssuerCapacityExceeded)
    );
    assert_eq!(Registry::get_active_issuer_count(&env), 2);
    assert_eq!(Registry::get_max_active_issuers(&env), 2);
}

#[test]
fn revocation_of_a_suspended_issuer_drops_its_deadline() {
    let mut env = started(1_000);
    assert_eq!(Registry::set_reactivation_cooldown(&mut env, 500), Ok(()));
    assert_eq!(
        Registry::register_issuer(&mut env, id(1), account(b'1'), id(2), true),
        Ok(())
    );
    assert_eq!(Registry::suspend_issuer(&mut env, id(1)), Ok(()));
    assert_eq!(Registry::get_earliest_reactivation(&env, id(1)), 1_500);
    let mut record = env.issuer(&id(1)).unwrap();
    env.take_journal();

    assert_eq!(Registry::revoke_issuer(&mut env, id(1)), Ok(()));
    assert_eq!(Registry::get_earliest_reactivation(&env, id(1)), 0);
    assert_eq!(env.reactivatable_at(&id(1)), None);
    assert_eq!(Registry::get_active_issuer_count(&env), 0);
    record.status = IssuerStatus::Revoked;
    assert_eq!(
        env.take_journal(),
        vec![
            Effect::RequireAuth(account(ADMIN)),
            Effect::Remove(DataKey::ReactivatableAt(id(1))),
            Effect::Put(Entry::Issuer(id(1), record)),
            Effect::ExtendTtl(DataKey::Issuer(id(1)), TTL),
            Effect::Put(Entry::IssuerEpoch(3)),
            Effect::ExtendInstanceTtl(TTL),
            Effect::Publish(Event::IssuerRevoked(IssuerRevoked {
                issuer_id_hash: id(1),
                updated_at: 1_000,
                epoch: 3,
            })),
        ]
    );
}

#[test]
fn revocation_of_an_active_issuer_asks_for_exactly_its_changes() {
    let mut env = with_issuer(7);
    let mut record = env.issuer(&id(1)).unwrap();
    assert_eq!(Registry::revoke_issuer(&mut env, id(1)), Ok(()));
    record.status = IssuerStatus::Revoked;
    assert_eq!(
        env.take_journal(),
        vec![
            Effect::RequireAuth(account(ADMIN)),
            Effect::Put(Entry::ActiveIssuerCount(0)),
            Effect::ExtendInstanceTtl(TTL),
            Effect::Put(Entry::Issuer(id(1), record)),
            Effect::ExtendTtl(DataKey::Issuer(id(1)), TTL),
            Effect::Put(Entry::IssuerEpoch(2)),
            Effect::ExtendInstanceTtl(TTL),
            Effect::Publish(Event::IssuerRevoked(IssuerRevoked {
                issuer_id_hash: id(1),
                updated_at: 7,
                epoch: 2,
            })),
        ]
    );
    assert_eq!(Registry::get_earliest_reactivation(&env, id(1)), 0);
}

#[test]
fn new_issuer_gives_its_slot_back() {
    let mut env = with_issuer(0);
    assert_eq!(
        Registry::register_issuer(&mut env, id(3), account(b'3'), id(4), true),
        Ok(())
    );
    assert_eq!(Registry::get_active_issuer_count(&env), 2);
    assert_eq!(Registry::revoke_issuer(&mut env, id(3)), Ok(()));
    assert_eq!(Registry::get_active_issuer_count(&env), 1);
}

#[test]
fn migration_repairs_the_count_of_a_ledger_without_deadlines() {
    let mut env = with_issuer(0);
    let mut suspended = env.issuer(&id(1)).unwrap();
    suspended.issuer_id_hash = id(3);
    suspended.issuer_address = account(b'3');
    suspended.status = IssuerStatus::Suspended;
    env.load(Entry::Issuer(id(3), suspended));
    env.load(Entry::AddressIssuer(account(b'3'), id(3)));
    env.load(Entry::ActiveIssuerCount(9));

    assert_eq!(Registry::migrate(&mut env, 1), Ok(()));
    assert_eq!(Registry::get_earliest_reactivation(&env, id(3)), 0);
    assert_eq!(Registry::reactivate_issuer(&mut env, id(3)), Ok(()));
    assert_eq!(Registry::get_active_issuer_count(&env), 2);
    assert!(Registry::is_active_address(&mut env, account(b'3')));
}
