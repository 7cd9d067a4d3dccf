//! Typed accessors of the oracle's fields over the host's two storage tiers.
//!
//! Instance fields (admin, resolution, decimals, base asset, asset list and
//! asset indices) share the instance's lifetime; price samples and the last
//! timestamp live in the temporary tier, each with a lifetime of its own.
use vstd::prelude::*;
use soroban_sdk::{Address, Env};
use sep_40_oracle::Asset;
use crate::host::{
    assets_of, empty_assets, extended, instance_extend_ttl, instance_get_address,
    instance_get_address_index, instance_get_asset, instance_get_assets, instance_get_symbol_index,
    instance_get_u32, instance_of, instance_set_address, instance_set_address_index,
    instance_set_asset, instance_set_assets, instance_set_symbol_index, instance_set_u32,
    instance_ttl_of, max_ttl_of, temporary_extend_named, temporary_extend_price,
    temporary_get_price, temporary_get_u64, temporary_of, temporary_set_price, temporary_set_u64,
    temporary_ttl_of, valid_symbol, fresh_temporary_ttl_of, max_ttl, StoreKey, StoreVal,
};
use crate::keys::{price_key, price_key_of};

verus! {

/// Remaining lifetime, in ledgers, at or under which the instance is extended (7 days at 5 s a ledger).
pub const LEDGER_THRESHOLD: u32 = 120960;

/// Lifetime, in ledgers, that extended entries get (8 days at 5 s a ledger).
pub const LEDGER_BUMP: u32 = 138240;

/// Why an accessor found nothing to return.
#[derive(Debug, Clone, Copy, PartialEq, Eq, Structural)]
pub enum StorageError {
    /// A field that initialisation sets is not set.
    ConfigurationMissing,
    /// The asset has no index.
    AssetMissing,
}

pub open spec fn admin_key() -> StoreKey {
    StoreKey::Named("admin"@)
}

pub open spec fn resolution_key() -> StoreKey {
    StoreKey::Named("res"@)
}

pub open spec fn decimals_key() -> StoreKey {
    StoreKey::Named("decimals"@)
}

pub open spec fn base_key() -> StoreKey {
    StoreKey::Named("base"@)
}

pub open spec fn assets_key() -> StoreKey {
    StoreKey::Named("assets"@)
}

pub open spec fn timestamp_key() -> StoreKey {
    StoreKey::Named("timestamp"@)
}

/// The key of an asset's index: its address or its symbol, under the tag `index`.
pub open spec fn index_key(asset: Asset) -> StoreKey {
    match asset {
        Asset::Stellar(a) => StoreKey::AddressIndex("index"@, a),
        Asset::Other(s) => StoreKey::SymbolIndex("index"@, s),
    }
}

/// The key of the price of asset index `asset` at `timestamp`.
pub open spec fn price_store_key(asset: u8, timestamp: u64) -> StoreKey {
    StoreKey::Price(price_key_of(asset, timestamp) as u128)
}

/// The type of value that each kind of key holds.
pub open spec fn fits(k: StoreKey, v: StoreVal) -> bool {
    match k {
        StoreKey::Named(n) => {
            &&& n == "admin"@ ==> v is Addr
            &&& (n == "res"@ || n == "decimals"@) ==> v is Num
            &&& n == "base"@ ==> v is Asset
            &&& n == "assets"@ ==> v is Assets
            &&& n == "timestamp"@ ==> v is Time
        },
        StoreKey::AddressIndex(_, _) => v is Num,
        StoreKey::SymbolIndex(_, _) => v is Num,
        StoreKey::Price(_) => v is Price,
    }
}

/// Every entry holds the type of value that its key calls for.
pub open spec fn well_typed(m: Map<StoreKey, StoreVal>) -> bool {
    forall|k: StoreKey| #[trigger] m.contains_key(k) ==> fits(k, m[k])
}

/// The storage invariant: both tiers are well typed, and every temporary entry has a lifetime.
///
/// Callers cannot test it; it holds of storage that only these accessors have
/// written, and every setter keeps it.
pub open spec fn storage_wf(env: Env) -> bool {
    &&& well_typed(instance_of(env))
    &&& well_typed(temporary_of(env))
    &&& forall|k: StoreKey| #[trigger] temporary_of(env).contains_key(k) ==> temporary_ttl_of(env).contains_key(k)
}

pub open spec fn admin_in(m: Map<StoreKey, StoreVal>) -> Option<Address> {
    match m.get(admin_key()) {
        Some(StoreVal::Addr(a)) => Some(a),
        _ => None,
    }
}

/// The integer field under `k`, if set.
pub open spec fn num_in(m: Map<StoreKey, StoreVal>, k: StoreKey) -> Option<u32> {
    match m.get(k) {
        Some(StoreVal::Num(n)) => Some(n),
        _ => None,
    }
}

pub open spec fn base_in(m: Map<StoreKey, StoreVal>) -> Option<Asset> {
    match m.get(base_key()) {
        Some(StoreVal::Asset(a)) => Some(a),
        _ => None,
    }
}

pub open spec fn assets_in(m: Map<StoreKey, StoreVal>) -> Option<soroban_sdk::Vec<Asset>> {
    match m.get(assets_key()) {
        Some(StoreVal::Assets(v)) => Some(v),
        _ => None,
    }
}

/// The index stored for `asset`, if any, before truncation to a byte.
pub open spec fn index_in(m: Map<StoreKey, StoreVal>, asset: Asset) -> Option<u32> {
    num_in(m, index_key(asset))
}

pub open spec fn price_in(m: Map<StoreKey, StoreVal>, asset: u8, timestamp: u64) -> Option<i128> {
    match m.get(price_store_key(asset, timestamp)) {
        Some(StoreVal::Price(p)) => Some(p),
        _ => None,
    }
}

/// The last timestamp written, or 0 when none is.
pub open spec fn last_timestamp_in(m: Map<StoreKey, StoreVal>) -> u64 {
    match m.get(timestamp_key()) {
        Some(StoreVal::Time(t)) => t,
        _ => 0,
    }
}

/// The lifetime of the temporary entry under `k` right after a write to it: the
/// lifetime it had, or the starting lifetime when it was not there.
pub open spec fn ttl_after_write(env: Env, k: StoreKey) -> nat {
    if temporary_ttl_of(env).contains_key(k) {
        temporary_ttl_of(env)[k]
    } else {
        fresh_temporary_ttl_of(env)
    }
}

/// Whether the network lets entries be extended to `LEDGER_BUMP` ledgers, as
/// recording a price or a timestamp and reading a constant price need.
pub fn bump_fits_network(env: &Env) -> (r: bool)
    ensures
        r == (LEDGER_BUMP <= max_ttl_of(*env)),
{
    max_ttl(env) >= LEDGER_BUMP
}

/// The key names are valid symbols, and no two of them have the same length.
pub proof fn lemma_key_names()
    ensures
        valid_symbol("admin"@),
        valid_symbol("res"@),
        valid_symbol("decimals"@),
        valid_symbol("base"@),
        valid_symbol("assets"@),
        valid_symbol("timestamp"@),
        valid_symbol("index"@),
        "admin"@.len() == 5,
        "res"@.len() == 3,
        "decimals"@.len() == 8,
        "base"@.len() == 4,
        "assets"@.len() == 6,
        "timestamp"@.len() == 9,
{
    reveal_strlit("admin");
    reveal_strlit("res");
    reveal_strlit("decimals");
    reveal_strlit("base");
    reveal_strlit("assets");
    reveal_strlit("timestamp");
    reveal_strlit("index");
}

/// Writing a value that fits its key keeps a tier well typed.
pub proof fn lemma_insert_well_typed(m: Map<StoreKey, StoreVal>, k: StoreKey, v: StoreVal)
    requires
        well_typed(m),
        fits(k, v),
    ensures
        well_typed(m.insert(k, v)),
{
    assert forall|j: StoreKey| #[trigger] m.insert(k, v).contains_key(j) implies fits(j, m.insert(k, v)[j]) by {
        if j != k {
            assert(m.contains_key(j));
        }
    }
}

/// Extends the instance's lifetime to `LEDGER_BUMP` when at most `LEDGER_THRESHOLD` ledgers remain.
pub fn bump_instance(env: &mut Env)
    ensures
        instance_ttl_of(*final(env)) == extended(
            instance_ttl_of(*old(env)),
            LEDGER_THRESHOLD as nat,
            if LEDGER_BUMP <= max_ttl_of(*old(env)) { LEDGER_BUMP as nat } else { max_ttl_of(*old(env)) },
        ),
        instance_ttl_of(*final(env)) >= instance_ttl_of(*old(env)),
        LEDGER_BUMP <= max_ttl_of(*old(env)) ==> instance_ttl_of(*final(env)) > LEDGER_THRESHOLD,
        instance_of(*final(env)) == instance_of(*old(env)),
        temporary_of(*final(env)) == temporary_of(*old(env)),
        temporary_ttl_of(*final(env)) == temporary_ttl_of(*old(env)),
        max_ttl_of(*final(env)) == max_ttl_of(*old(env)),
{
    instance_extend_ttl(env, LEDGER_THRESHOLD, LEDGER_BUMP);
}

/// The admin address; `ConfigurationMissing` when it is not set.
pub fn get_admin(env: &Env) -> (r: Result<Address, StorageError>)
    requires
        storage_wf(*env),
    ensures
        match admin_in(instance_of(*env)) {
            Some(a) => r == Ok::<Address, StorageError>(a),
            None => r == Err::<Address, StorageError>(StorageError::ConfigurationMissing),
        },
{
    match get_admin_option(env) {
        Some(a) => Ok(a),
        None => Err(StorageError::ConfigurationMissing),
    }
}

/// The admin address, if set.
pub fn get_admin_option(env: &Env) -> (r: Option<Address>)
    requires
        storage_wf(*env),
    ensures
        r == admin_in(instance_of(*env)),
{
    proof {
        lemma_key_names();
    }
    instance_get_address(env, "admin")
}

/// Sets the admin address, replacing any earlier one.
pub fn set_admin(env: &mut Env, admin: &Address)
    ensures
        instance_of(*final(env)) == instance_of(*old(env)).insert(admin_key(), StoreVal::Addr(*admin)),
        temporary_of(*final(env)) == temporary_of(*old(env)),
        temporary_ttl_of(*final(env)) == temporary_ttl_of(*old(env)),
        instance_ttl_of(*final(env)) == instance_ttl_of(*old(env)),
        max_ttl_of(*final(env)) == max_ttl_of(*old(env)),
        storage_wf(*old(env)) ==> storage_wf(*final(env)),
{
    proof {
        lemma_key_names();
        if storage_wf(*env) {
            lemma_insert_well_typed(instance_of(*env), admin_key(), StoreVal::Addr(*admin));
        }
    }
    instance_set_address(env, "admin", admin);
}

/// The sampling period; `ConfigurationMissing` when it is not set.
pub fn get_resolution(env: &Env) -> (r: Result<u32, StorageError>)
    requires
        storage_wf(*env),
    ensures
        match num_in(instance_of(*env), resolution_key()) {
            Some(n) => r == Ok::<u32, StorageError>(n),
            None => r == Err::<u32, StorageError>(StorageError::ConfigurationMissing),
        },
{
    proof {
        lemma_key_names();
    }
    match instance_get_u32(env, "res") {
        Some(n) => Ok(n),
        None => Err(StorageError::ConfigurationMissing),
    }
}

/// Sets the sampling period, replacing any earlier one.
pub fn set_resolution(env: &mut Env, res: u32)
    ensures
        instance_of(*final(env)) == instance_of(*old(env)).insert(resolution_key(), StoreVal::Num(res)),
        temporary_of(*final(env)) == temporary_of(*old(env)),
        temporary_ttl_of(*final(env)) == temporary_ttl_of(*old(env)),
        instance_ttl_of(*final(env)) == instance_ttl_of(*old(env)),
        max_ttl_of(*final(env)) == max_ttl_of(*old(env)),
        storage_wf(*old(env)) ==> storage_wf(*final(env)),
{
    proof {
        lemma_key_names();
        if storage_wf(*env) {
            lemma_insert_well_typed(instance_of(*env), resolution_key(), StoreVal::Num(res));
        }
    }
    instance_set_u32(env, "res", res);
}

/// The number of decimals reported; `ConfigurationMissing` when it is not set.
pub fn get_decimals(env: &Env) -> (r: Result<u32, StorageError>)
    requires
        storage_wf(*env),
    ensures
        match num_in(instance_of(*env), decimals_key()) {
            Some(n) => r == Ok::<u32, StorageError>(n),
            None => r == Err::<u32, StorageError>(StorageError::ConfigurationMissing),
        },
{
    proof {
        lemma_key_names();
    }
    match instance_get_u32(env, "decimals") {
        Some(n) => Ok(n),
        None => Err(StorageError::ConfigurationMissing),
    }
}

/// Sets the number of decimals, replacing any earlier one.
pub fn set_decimals(env: &mut Env, decimals: u32)
    ensures
        instance_of(*final(env)) == instance_of(*old(env)).insert(decimals_key(), StoreVal::Num(decimals)),
        temporary_of(*final(env)) == temporary_of(*old(env)),
        temporary_ttl_of(*final(env)) == temporary_ttl_of(*old(env)),
        instance_ttl_of(*final(env)) == instance_ttl_of(*old(env)),
        max_ttl_of(*final(env)) == max_ttl_of(*old(env)),
        storage_wf(*old(env)) ==> storage_wf(*final(env)),
{
    proof {
        lemma_key_names();
        if storage_wf(*env) {
            lemma_insert_well_typed(instance_of(*env), decimals_key(), StoreVal::Num(decimals));
        }
    }
    instance_set_u32(env, "decimals", decimals);
}

/// The base asset; `ConfigurationMissing` when it is not set.
pub fn get_base(env: &Env) -> (r: Result<Asset, StorageError>)
    requires
        storage_wf(*env),
    ensures
        match base_in(instance_of(*env)) {
            Some(a) => r == Ok::<Asset, StorageError>(a),
            None => r == Err::<Asset, StorageError>(StorageError::ConfigurationMissing),
        },
{
    proof {
        lemma_key_names();
    }
    match instance_get_asset(env, "base") {
        Some(a) => Ok(a),
        None => Err(StorageError::ConfigurationMissing),
    }
}

/// Sets the base asset, replacing any earlier one.
pub fn set_base(env: &mut Env, asset: &Asset)
    ensures
        instance_of(*final(env)) == instance_of(*old(env)).insert(base_key(), StoreVal::Asset(*asset)),
        temporary_of(*final(env)) == temporary_of(*old(env)),
        temporary_ttl_of(*final(env)) == temporary_ttl_of(*old(env)),
        instance_ttl_of(*final(env)) == instance_ttl_of(*old(env)),
        max_ttl_of(*final(env)) == max_ttl_of(*old(env)),
        storage_wf(*old(env)) ==> storage_wf(*final(env)),
{
    proof {
        lemma_key_names();
        if storage_wf(*env) {
            lemma_insert_well_typed(instance_of(*env), base_key(), StoreVal::Asset(*asset));
        }
    }
    instance_set_asset(env, "base", asset);
}

/// The list of assets; an empty list when none is set.
pub fn get_assets(env: &Env) -> (r: soroban_sdk::Vec<Asset>)
    requires
        storage_wf(*env),
    ensures
        match assets_in(instance_of(*env)) {
            Some(v) => r == v,
            None => assets_of(r) == Seq::<Asset>::empty(),
        },
{
    proof {
        lemma_key_names();
    }
    match instance_get_assets(env, "assets") {
        Some(v) => v,
        None => empty_assets(env),
    }
}

/// Sets the list of assets, replacing the whole earlier list.
pub fn set_assets(env: &mut Env, assets: &soroban_sdk::Vec<Asset>)
    ensures
        instance_of(*final(env)) == instance_of(*old(env)).insert(assets_key(), StoreVal::Assets(*assets)),
        temporary_of(*final(env)) == temporary_of(*old(env)),
        temporary_ttl_of(*final(env)) == temporary_ttl_of(*old(env)),
        instance_ttl_of(*final(env)) == instance_ttl_of(*old(env)),
        max_ttl_of(*final(env)) == max_ttl_of(*old(env)),
        storage_wf(*old(env)) ==> storage_wf(*final(env)),
{
    proof {
        lemma_key_names();
        if storage_wf(*env) {
            lemma_insert_well_typed(instance_of(*env), assets_key(), StoreVal::Assets(*assets));
        }
    }
    instance_set_assets(env, "assets", assets);
}

/// The asset's index, truncated to a byte; `AssetMissing` when the asset has none.
pub fn get_asset_index(env: &Env, asset: &Asset) -> (r: Result<u8, StorageError>)
    requires
        storage_wf(*env),
    ensures
        match index_in(instance_of(*env), *asset) {
            Some(i) => r == Ok::<u8, StorageError>((i % 256) as u8),
            None => r == Err::<u8, StorageError>(StorageError::AssetMissing),
        },
{
    proof {
        lemma_key_names();
    }
    let index = match asset {
        Asset::Stellar(address) => instance_get_address_index(env, "index", address),
        Asset::Other(symbol) => instance_get_symbol_index(env, "index", symbol),
    };
    match index {
        Some(i) => Ok((i % 256) as u8),
        None => Err(StorageError::AssetMissing),
    }
}

/// Sets the asset's index, replacing any earlier one.
///
/// The index is stored under the pair of the tag `index` and the asset's address
/// or symbol, not under the bare identifier, so that an asset symbol such as
/// `admin` cannot overwrite a configuration field.
pub fn set_asset_index(env: &mut Env, asset: &Asset, index: u32)
    ensures
        instance_of(*final(env)) == instance_of(*old(env)).insert(index_key(*asset), StoreVal::Num(index)),
        temporary_of(*final(env)) == temporary_of(*old(env)),
        temporary_ttl_of(*final(env)) == temporary_ttl_of(*old(env)),
        instance_ttl_of(*final(env)) == instance_ttl_of(*old(env)),
        max_ttl_of(*final(env)) == max_ttl_of(*old(env)),
        storage_wf(*old(env)) ==> storage_wf(*final(env)),
{
    proof {
        lemma_key_names();
        if storage_wf(*env) {
            lemma_insert_well_typed(instance_of(*env), index_key(*asset), StoreVal::Num(index));
        }
    }
    match asset {
        Asset::Stellar(address) => instance_set_address_index(env, "index", address, index),
        Asset::Other(symbol) => instance_set_symbol_index(env, "index", symbol, index),
    }
}

/// The price of asset index `asset` at `timestamp`, if recorded and still live.
///
/// A price at timestamp 0 stands for a constant price: reading it extends its
/// lifetime, so that it stays live for as long as it is read.
pub fn get_price(env: &mut Env, asset: u8, timestamp: u64) -> (r: Option<i128>)
    requires
        storage_wf(*old(env)),
        timestamp == 0 ==> LEDGER_BUMP <= max_ttl_of(*old(env)),
    ensures
        r == price_in(temporary_of(*old(env)), asset, timestamp),
        r is Some && timestamp == 0 ==> {
            &&& temporary_ttl_of(*final(env))[price_store_key(asset, timestamp)]
                >= temporary_ttl_of(*old(env))[price_store_key(asset, timestamp)]
            &&& temporary_ttl_of(*final(env))[price_store_key(asset, timestamp)] > LEDGER_THRESHOLD
        },
        r is Some && timestamp == 0 ==> temporary_ttl_of(*final(env)) == temporary_ttl_of(*old(env)).insert(
            price_store_key(asset, timestamp),
            extended(
                temporary_ttl_of(*old(env))[price_store_key(asset, timestamp)],
                LEDGER_THRESHOLD as nat,
                LEDGER_BUMP as nat,
            ),
        ),
        !(r is Some && timestamp == 0) ==> temporary_ttl_of(*final(env)) == temporary_ttl_of(*old(env)),
        temporary_of(*final(env)) == temporary_of(*old(env)),
        instance_of(*final(env)) == instance_of(*old(env)),
        instance_ttl_of(*final(env)) == instance_ttl_of(*old(env)),
        max_ttl_of(*final(env)) == max_ttl_of(*old(env)),
        storage_wf(*final(env)),
{
    let data_key = price_key(asset, timestamp);
    let result = temporary_get_price(env, data_key);
    if result.is_some() && timestamp == 0 {
        temporary_extend_price(env, data_key, LEDGER_THRESHOLD, LEDGER_BUMP);
    }
    result
}

/// Records the price of asset index `asset` at `timestamp` and extends the
/// entry's lifetime to `LEDGER_BUMP` ledgers unless more remain.
pub fn set_price(env: &mut Env, asset: u8, price: i128, timestamp: u64)
    requires
        LEDGER_BUMP <= max_ttl_of(*old(env)),
    ensures
        temporary_of(*final(env)) == temporary_of(*old(env)).insert(price_store_key(asset, timestamp), StoreVal::Price(price)),
        temporary_ttl_of(*final(env))[price_store_key(asset, timestamp)] == extended(
            ttl_after_write(*old(env), price_store_key(asset, timestamp)),
            LEDGER_BUMP as nat,
            LEDGER_BUMP as nat,
        ),
        ttl_after_write(*old(env), price_store_key(asset, timestamp)) <= LEDGER_BUMP
            ==> temporary_ttl_of(*final(env))[price_store_key(asset, timestamp)] == LEDGER_BUMP,
        temporary_ttl_of(*final(env))[price_store_key(asset, timestamp)] >= LEDGER_BUMP,
        forall|k: StoreKey|
            k != price_store_key(asset, timestamp) ==> #[trigger] temporary_ttl_of(*final(env)).get(k)
                == temporary_ttl_of(*old(env)).get(k),
        instance_of(*final(env)) == instance_of(*old(env)),
        instance_ttl_of(*final(env)) == instance_ttl_of(*old(env)),
        max_ttl_of(*final(env)) == max_ttl_of(*old(env)),
        storage_wf(*old(env)) ==> storage_wf(*final(env)),
{
    let data_key = price_key(asset, timestamp);
    let ghost e0 = *env;
    temporary_set_price(env, data_key, price);
    let ghost e1 = *env;
    temporary_extend_price(env, data_key, LEDGER_BUMP, LEDGER_BUMP);
    proof {
        let k = price_store_key(asset, timestamp);
        assert forall|j: StoreKey| j != k implies #[trigger] temporary_ttl_of(*env).get(j) == temporary_ttl_of(e0).get(j) by {
            assert(temporary_ttl_of(e1).get(j) == temporary_ttl_of(e0).get(j));
        }
        if storage_wf(e0) {
            lemma_insert_well_typed(temporary_of(e0), k, StoreVal::Price(price));
            assert forall|j: StoreKey| #[trigger] temporary_of(*env).contains_key(j) implies temporary_ttl_of(*env).contains_key(j) by {
                if j != k {
                    assert(temporary_of(e0).contains_key(j));
                    assert(temporary_ttl_of(e0).contains_key(j));
                    assert(temporary_ttl_of(e1).get(j) == temporary_ttl_of(e0).get(j));
                }
            }
        }
    }
}

/// The last timestamp recorded; 0 when none is.
pub fn get_last_timestamp(env: &Env) -> (r: u64)
    requires
        storage_wf(*env),
    ensures
        r == last_timestamp_in(temporary_of(*env)),
{
    proof {
        lemma_key_names();
    }
    match temporary_get_u64(env, "timestamp") {
        Some(t) => t,
        None => 0,
    }
}

/// Records the last timestamp and extends its entry's lifetime to `LEDGER_BUMP`
/// ledgers unless more remain.
pub fn set_last_timestamp(env: &mut Env, timestamp: u64)
    requires
        LEDGER_BUMP <= max_ttl_of(*old(env)),
    ensures
        temporary_of(*final(env)) == temporary_of(*old(env)).insert(timestamp_key(), StoreVal::Time(timestamp)),
        temporary_ttl_of(*final(env))[timestamp_key()] == extended(
            ttl_after_write(*old(env), timestamp_key()),
            LEDGER_BUMP as nat,
            LEDGER_BUMP as nat,
        ),
        ttl_after_write(*old(env), timestamp_key()) <= LEDGER_BUMP
            ==> temporary_ttl_of(*final(env))[timestamp_key()] == LEDGER_BUMP,
        temporary_ttl_of(*final(env))[timestamp_key()] >= LEDGER_BUMP,
        forall|k: StoreKey|
            k != timestamp_key() ==> #[trigger] temporary_ttl_of(*final(env)).get(k) == temporary_ttl_of(*old(env)).get(k),
        instance_of(*final(env)) == instance_of(*old(env)),
        instance_ttl_of(*final(env)) == instance_ttl_of(*old(env)),
        max_ttl_of(*final(env)) == max_ttl_of(*old(env)),
        storage_wf(*old(env)) ==> storage_wf(*final(env)),
{
    proof {
        lemma_key_names();
    }
    let ghost e0 = *env;
    temporary_set_u64(env, "timestamp", timestamp);
    let ghost e1 = *env;
    temporary_extend_named(env, "timestamp", LEDGER_BUMP, LEDGER_BUMP);
    proof {
        let k = timestamp_key();
        assert forall|j: StoreKey| j != k implies #[trigger] temporary_ttl_of(*env).get(j) == temporary_ttl_of(e0).get(j) by {
            assert(temporary_ttl_of(e1).get(j) == temporary_ttl_of(e0).get(j));
        }
        if storage_wf(e0) {
            lemma_insert_well_typed(temporary_of(e0), k, StoreVal::Time(timestamp));
            assert forall|j: StoreKey| #[trigger] temporary_of(*env).contains_key(j) implies temporary_ttl_of(*env).contains_key(j) by {
                if j != k {
                    assert(temporary_of(e0).contains_key(j));
                    assert(temporary_ttl_of(e0).contains_key(j));
                    assert(temporary_ttl_of(e1).get(j) == temporary_ttl_of(e0).get(j));
                }
            }
        }
    }
}

} // verus!
