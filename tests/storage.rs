use mock_sep_40::keys::price_key;
use mock_sep_40::storage::{
    bump_fits_network, bump_instance, get_admin, get_admin_option, get_asset_index, get_assets, get_base, get_decimals,
    get_last_timestamp, get_price, get_resolution, set_admin, set_asset_index, set_assets, set_base,
    set_decimals, set_last_timestamp, set_price, set_resolution, StorageError, LEDGER_BUMP,
    LEDGER_THRESHOLD,
};
use sep_40_oracle::Asset;
use soroban_sdk::testutils::storage::{Instance as _, Temporary as _};
use soroban_sdk::testutils::{Address as _, EnvTestConfig, Ledger as _};
use soroban_sdk::{Address, Env, Symbol, Vec};

fn test_env() -> Env {
    Env::new_with_config(EnvTestConfig { capture_snapshot_at_drop: false })
}

/// Runs `f` inside the storage of a freshly registered contract.
fn in_contract<T>(env: &Env, f: impl FnOnce(&mut Env) -> T) -> T {
    let owner = Address::generate(env);
    let id = env.register_stellar_asset_contract_v2(owner).address();
    let mut inner = env.clone();
    env.as_contract(&id, || f(&mut inner))
}

fn advance(env: &Env, ledgers: u32) {
    let now = env.ledger().sequence();
    env.ledger().set_sequence_number(now + ledgers);
}

#[test]
fn price_key_places_timestamp_high_and_index_low() {
    assert_eq!(price_key(0, 0), 0);
    assert_eq!(price_key(3, 0), 3);
    assert_eq!(price_key(3, 5000), (5000u128 << 64) | 3);
    assert_eq!(price_key(255, u64::MAX), (u64::MAX as u128) << 64 | 255);
    assert_ne!(price_key(1, 0), price_key(0, 1));
}

#[test]
fn asset_index_round_trip() {
    let env = test_env();
    in_contract(&env, |e| {
        let stellar = Asset::Stellar(Address::generate(e));
        let other = Asset::Other(Symbol::new(e, "BTC"));
        set_asset_index(e, &stellar, 0);
        set_asset_index(e, &other, 255);
        assert_eq!(get_asset_index(e, &stellar), Ok(0));
        assert_eq!(get_asset_index(e, &other), Ok(255));
        set_asset_index(e, &stellar, 3);
        assert_eq!(get_asset_index(e, &stellar), Ok(3));
        assert_eq!(get_asset_index(e, &other), Ok(255));
    });
}

#[test]
fn asset_index_truncates_to_a_byte() {
    let env = test_env();
    in_contract(&env, |e| {
        let asset = Asset::Other(Symbol::new(e, "EURC"));
        set_asset_index(e, &asset, 256);
        assert_eq!(get_asset_index(e, &asset), Ok(0));
        set_asset_index(e, &asset, 300);
        assert_eq!(get_asset_index(e, &asset), Ok(44));
    });
}

#[test]
fn unregistered_asset_is_missing() {
    let env = test_env();
    in_contract(&env, |e| {
        let asset = Asset::Stellar(Address::generate(e));
        assert_eq!(get_asset_index(e, &asset), Err(StorageError::AssetMissing));
        let symbol = Asset::Other(Symbol::new(e, "XLM"));
        assert_eq!(get_asset_index(e, &symbol), Err(StorageError::AssetMissing));
    });
}

#[test]
fn asset_symbol_does_not_collide_with_fields() {
    let env = test_env();
    in_contract(&env, |e| {
        set_asset_index(e, &Asset::Other(Symbol::new(e, "res")), 9);
        assert_eq!(get_resolution(e), Err(StorageError::ConfigurationMissing));
        set_resolution(e, 300);
        assert_eq!(get_asset_index(e, &Asset::Other(Symbol::new(e, "res"))), Ok(9));
        assert_eq!(get_resolution(e), Ok(300));
    });
}

#[test]
fn price_round_trip() {
    let env = test_env();
    in_contract(&env, |e| {
        assert_eq!(get_price(e, 7, 1234), None);
        set_price(e, 7, -42, 1234);
        assert_eq!(get_price(e, 7, 1234), Some(-42));
        set_price(e, 7, i128::MAX, 1234);
        assert_eq!(get_price(e, 7, 1234), Some(i128::MAX));
        assert_eq!(get_price(e, 8, 1234), None);
        assert_eq!(get_price(e, 7, 1235), None);
    });
}

#[test]
fn stable_and_timed_prices() {
    let env = test_env();
    in_contract(&env, |e| {
        let x = Asset::Other(Symbol::new(e, "X"));
        set_asset_index(e, &x, 3);
        let index = get_asset_index(e, &x).unwrap();
        assert_eq!(index, 3);
        set_price(e, index, 1000, 0);
        set_price(e, index, 2000, 5000);
        assert_eq!(get_price(e, 3, 0), Some(1000));
        assert_eq!(get_price(e, 3, 5000), Some(2000));
        assert_eq!(get_price(e, 3, 9999), None);
    });
}

#[test]
fn reading_a_stable_price_extends_it() {
    let env = test_env();
    let (stable, timed) = (price_key(3, 0), price_key(3, 5000));
    let owner = Address::generate(&env);
    let id = env.register_stellar_asset_contract_v2(owner).address();
    let mut e = env.clone();
    env.as_contract(&id, || {
        set_price(&mut e, 3, 1000, 0);
        set_price(&mut e, 3, 2000, 5000);
        assert_eq!(e.storage().temporary().get_ttl(&stable), LEDGER_BUMP);
        assert_eq!(e.storage().temporary().get_ttl(&timed), LEDGER_BUMP);
    });
    advance(&env, 20000);
    env.as_contract(&id, || {
        assert_eq!(e.storage().temporary().get_ttl(&stable), LEDGER_BUMP - 20000);
        assert_eq!(get_price(&mut e, 3, 0), Some(1000));
        assert_eq!(get_price(&mut e, 3, 5000), Some(2000));
        assert_eq!(e.storage().temporary().get_ttl(&stable), LEDGER_BUMP);
        assert_eq!(e.storage().temporary().get_ttl(&timed), LEDGER_BUMP - 20000);
    });
}

#[test]
fn stable_price_above_threshold_is_left_alone() {
    let env = test_env();
    let stable = price_key(1, 0);
    let owner = Address::generate(&env);
    let id = env.register_stellar_asset_contract_v2(owner).address();
    let mut e = env.clone();
    env.as_contract(&id, || set_price(&mut e, 1, 5, 0));
    advance(&env, 100);
    env.as_contract(&id, || {
        assert_eq!(get_price(&mut e, 1, 0), Some(5));
        assert_eq!(e.storage().temporary().get_ttl(&stable), LEDGER_BUMP - 100);
    });
}

#[test]
fn last_timestamp_defaults_to_zero() {
    let env = test_env();
    in_contract(&env, |e| {
        assert_eq!(get_last_timestamp(e), 0);
        set_last_timestamp(e, 1_700_000_000);
        assert_eq!(get_last_timestamp(e), 1_700_000_000);
        set_last_timestamp(e, 5);
        assert_eq!(get_last_timestamp(e), 5);
        assert_eq!(e.storage().temporary().get_ttl(&Symbol::new(e, "timestamp")), LEDGER_BUMP);
    });
}

#[test]
fn assets_round_trip() {
    let env = test_env();
    in_contract(&env, |e| {
        assert_eq!(get_assets(e).len(), 0);
        let a = Address::generate(e);
        let mut list: Vec<Asset> = Vec::new(e);
        list.push_back(Asset::Stellar(a.clone()));
        list.push_back(Asset::Other(Symbol::new(e, "USD")));
        set_assets(e, &list);
        let back = get_assets(e);
        assert_eq!(back.len(), 2);
        assert!(matches!(back.get(0), Some(Asset::Stellar(x)) if x == a));
        assert!(matches!(back.get(1), Some(Asset::Other(s)) if s == Symbol::new(e, "USD")));
        set_assets(e, &Vec::new(e));
        assert_eq!(get_assets(e).len(), 0);
    });
}

#[test]
fn admin_is_missing_until_set() {
    let env = test_env();
    in_contract(&env, |e| {
        assert_eq!(get_admin_option(e), None);
        assert_eq!(get_admin(e), Err(StorageError::ConfigurationMissing));
        let admin = Address::generate(e);
        set_admin(e, &admin);
        assert_eq!(get_admin_option(e), Some(admin.clone()));
        assert_eq!(get_admin(e), Ok(admin.clone()));
        let next = Address::generate(e);
        set_admin(e, &next);
        assert_eq!(get_admin(e), Ok(next));
    });
}

#[test]
fn configuration_fields_round_trip() {
    let env = test_env();
    in_contract(&env, |e| {
        assert_eq!(get_resolution(e), Err(StorageError::ConfigurationMissing));
        assert_eq!(get_decimals(e), Err(StorageError::ConfigurationMissing));
        assert!(matches!(get_base(e), Err(StorageError::ConfigurationMissing)));
        set_resolution(e, 300);
        set_decimals(e, 7);
        set_base(e, &Asset::Other(Symbol::new(e, "USD")));
        assert_eq!(get_resolution(e), Ok(300));
        assert_eq!(get_decimals(e), Ok(7));
        assert!(matches!(get_base(e), Ok(Asset::Other(s)) if s == Symbol::new(e, "USD")));
    });
}

#[test]
fn bump_instance_only_extends() {
    let env = test_env();
    let owner = Address::generate(&env);
    let id = env.register_stellar_asset_contract_v2(owner).address();
    let mut e = env.clone();
    env.as_contract(&id, || {
        bump_instance(&mut e);
        let first = e.storage().instance().get_ttl();
        assert!(first >= LEDGER_BUMP || first > LEDGER_THRESHOLD);
        bump_instance(&mut e);
        assert_eq!(e.storage().instance().get_ttl(), first);
    });
    let ttl = env.as_contract(&id, || e.storage().instance().get_ttl());
    advance(&env, ttl - LEDGER_THRESHOLD + 10);
    env.as_contract(&id, || {
        assert_eq!(e.storage().instance().get_ttl(), LEDGER_THRESHOLD - 10);
        bump_instance(&mut e);
        assert_eq!(e.storage().instance().get_ttl(), LEDGER_BUMP);
        bump_instance(&mut e);
        assert_eq!(e.storage().instance().get_ttl(), LEDGER_BUMP);
    });
}

#[test]
fn default_network_allows_the_bump_length() {
    let env = test_env();
    assert!(bump_fits_network(&env));
    assert_eq!(bump_fits_network(&env), env.storage().max_ttl() >= LEDGER_BUMP);
    env.ledger().set_max_entry_ttl(1000);
    assert!(env.storage().max_ttl() < LEDGER_BUMP);
    assert!(!bump_fits_network(&env));
}

#[test]
fn rewriting_a_price_resets_its_lifetime() {
    let env = test_env();
    let key = price_key(2, 10);
    let owner = Address::generate(&env);
    let id = env.register_stellar_asset_contract_v2(owner).address();
    let mut e = env.clone();
    env.as_contract(&id, || set_price(&mut e, 2, 1, 10));
    advance(&env, 500);
    env.as_contract(&id, || {
        assert_eq!(e.storage().temporary().get_ttl(&key), LEDGER_BUMP - 500);
        set_price(&mut e, 2, 9, 10);
        assert_eq!(e.storage().temporary().get_ttl(&key), LEDGER_BUMP);
        assert_eq!(get_price(&mut e, 2, 10), Some(9));
    });
}
