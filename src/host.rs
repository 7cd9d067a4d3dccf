//! The ledger host's key-value storage, seen through a model of plain values.
//!
//! Each tier of the host is described by a map from [`StoreKey`] to [`StoreVal`];
//! the calls into `soroban_sdk` that read, write and extend entries are the only
//! trusted code of the library, and each states what it does to those maps.
//!
//! Every storage call must run inside a contract invocation, as all calls into
//! this library do: outside one the host has no contract storage and panics.
use vstd::prelude::*;
use soroban_sdk::{Address, Env, Symbol};
use sep_40_oracle::Asset;

verus! {

#[verifier::external_type_specification]
#[verifier::external_body]
pub struct ExEnv(Env);

#[verifier::external_type_specification]
#[verifier::external_body]
pub struct ExAddress(Address);

#[verifier::external_type_specification]
#[verifier::external_body]
pub struct ExSymbol(Symbol);

#[verifier::external_type_specification]
#[verifier::external_body]
#[verifier::reject_recursive_types(T)]
pub struct ExSorobanVec<T>(soroban_sdk::Vec<T>);

#[verifier::external_type_specification]
pub struct ExAsset(Asset);

/// A key of the flat key-value space, tagged by what kind of entry it names.
///
/// On the host a `Named` key is the symbol of that name, an index key is the
/// pair of its tag symbol and the asset's identifier, and a `Price` key is the
/// 128-bit integer itself, so distinct keys here are distinct keys there.
pub enum StoreKey {
    Named(Seq<char>),
    AddressIndex(Seq<char>, Address),
    SymbolIndex(Seq<char>, Symbol),
    Price(u128),
}

/// A value held in the key-value space, tagged by its type.
pub enum StoreVal {
    Addr(Address),
    Num(u32),
    Asset(Asset),
    Assets(soroban_sdk::Vec<Asset>),
    Price(i128),
    Time(u64),
}

/// The entries of the instance tier.
pub uninterp spec fn instance_of(env: Env) -> Map<StoreKey, StoreVal>;

/// The entries of the temporary tier.
pub uninterp spec fn temporary_of(env: Env) -> Map<StoreKey, StoreVal>;

/// The remaining lifetime, in ledgers, of each temporary entry.
pub uninterp spec fn temporary_ttl_of(env: Env) -> Map<StoreKey, nat>;

/// The remaining lifetime, in ledgers, of the contract instance.
pub uninterp spec fn instance_ttl_of(env: Env) -> nat;

/// The lifetime, in ledgers, that a temporary entry starts with when it is first written.
pub uninterp spec fn fresh_temporary_ttl_of(env: Env) -> nat;

/// The largest lifetime, in ledgers, that the network lets an entry be extended to.
pub uninterp spec fn max_ttl_of(env: Env) -> nat;

/// The assets held by a host vector, in order.
pub uninterp spec fn assets_of(v: soroban_sdk::Vec<Asset>) -> Seq<Asset>;

/// A character that a symbol may hold: `a-zA-Z0-9_`.
pub open spec fn symbol_char(c: char) -> bool {
    ('a' <= c && c <= 'z') || ('A' <= c && c <= 'Z') || ('0' <= c && c <= '9') || c == '_'
}

/// The names that `Symbol::new` accepts: at most 32 symbol characters.
pub open spec fn valid_symbol(s: Seq<char>) -> bool {
    &&& s.len() <= 32
    &&& forall|i: int| 0 <= i < s.len() ==> symbol_char(#[trigger] s[i])
}

/// The lifetime after an extension: it becomes `extend_to` when at most
/// `threshold` ledgers remain and `extend_to` is longer, and stays otherwise.
pub open spec fn extended(ttl: nat, threshold: nat, extend_to: nat) -> nat {
    if ttl <= threshold && extend_to > ttl {
        extend_to
    } else {
        ttl
    }
}

/// Relies on `Instance::get` with a symbol key: the stored address, if any.
#[verifier::external_body]
pub(crate) fn instance_get_address(env: &Env, name: &str) -> (r: Option<Address>)
    requires
        valid_symbol(name@),
        instance_of(*env).contains_key(StoreKey::Named(name@)) ==> instance_of(*env)[StoreKey::Named(name@)] is Addr,
    ensures
        match instance_of(*env).get(StoreKey::Named(name@)) {
            Some(StoreVal::Addr(a)) => r == Some(a),
            _ => r is None,
        },
{
    env.storage().instance().get(&Symbol::new(env, name))
}

/// Relies on `Instance::set` with a symbol key: the address replaces what the key held.
#[verifier::external_body]
pub(crate) fn instance_set_address(env: &mut Env, name: &str, value: &Address)
    requires
        valid_symbol(name@),
    ensures
        instance_of(*final(env)) == instance_of(*old(env)).insert(StoreKey::Named(name@), StoreVal::Addr(*value)),
        temporary_of(*final(env)) == temporary_of(*old(env)),
        temporary_ttl_of(*final(env)) == temporary_ttl_of(*old(env)),
        instance_ttl_of(*final(env)) == instance_ttl_of(*old(env)),
        max_ttl_of(*final(env)) == max_ttl_of(*old(env)),
{
    env.storage().instance().set(&Symbol::new(env, name), value)
}

/// Relies on `Instance::get` with a symbol key: the stored integer, if any.
#[verifier::external_body]
pub(crate) fn instance_get_u32(env: &Env, name: &str) -> (r: Option<u32>)
    requires
        valid_symbol(name@),
        instance_of(*env).contains_key(StoreKey::Named(name@)) ==> instance_of(*env)[StoreKey::Named(name@)] is Num,
    ensures
        match instance_of(*env).get(StoreKey::Named(name@)) {
            Some(StoreVal::Num(n)) => r == Some(n),
            _ => r is None,
        },
{
    env.storage().instance().get(&Symbol::new(env, name))
}

/// Relies on `Instance::set` with a symbol key: the integer replaces what the key held.
#[verifier::external_body]
pub(crate) fn instance_set_u32(env: &mut Env, name: &str, value: u32)
    requires
        valid_symbol(name@),
    ensures
        instance_of(*final(env)) == instance_of(*old(env)).insert(StoreKey::Named(name@), StoreVal::Num(value)),
        temporary_of(*final(env)) == temporary_of(*old(env)),
        temporary_ttl_of(*final(env)) == temporary_ttl_of(*old(env)),
        instance_ttl_of(*final(env)) == instance_ttl_of(*old(env)),
        max_ttl_of(*final(env)) == max_ttl_of(*old(env)),
{
    env.storage().instance().set(&Symbol::new(env, name), &value)
}

/// Relies on `Instance::get` with a symbol key: the stored asset, if any.
#[verifier::external_body]
pub(crate) fn instance_get_asset(env: &Env, name: &str) -> (r: Option<Asset>)
    requires
        valid_symbol(name@),
        instance_of(*env).contains_key(StoreKey::Named(name@)) ==> instance_of(*env)[StoreKey::Named(name@)] is Asset,
    ensures
        match instance_of(*env).get(StoreKey::Named(name@)) {
            Some(StoreVal::Asset(a)) => r == Some(a),
            _ => r is None,
        },
{
    env.storage().instance().get(&Symbol::new(env, name))
}

/// Relies on `Instance::set` with a symbol key: the asset replaces what the key held.
#[verifier::external_body]
pub(crate) fn instance_set_asset(env: &mut Env, name: &str, value: &Asset)
    requires
        valid_symbol(name@),
    ensures
        instance_of(*final(env)) == instance_of(*old(env)).insert(StoreKey::Named(name@), StoreVal::Asset(*value)),
        temporary_of(*final(env)) == temporary_of(*old(env)),
        temporary_ttl_of(*final(env)) == temporary_ttl_of(*old(env)),
        instance_ttl_of(*final(env)) == instance_ttl_of(*old(env)),
        max_ttl_of(*final(env)) == max_ttl_of(*old(env)),
{
    env.storage().instance().set(&Symbol::new(env, name), value)
}

/// Relies on `Instance::get` with a symbol key: the stored vector of assets, if any.
#[verifier::external_body]
pub(crate) fn instance_get_assets(env: &Env, name: &str) -> (r: Option<soroban_sdk::Vec<Asset>>)
    requires
        valid_symbol(name@),
        instance_of(*env).contains_key(StoreKey::Named(name@)) ==> instance_of(*env)[StoreKey::Named(name@)] is Assets,
    ensures
        match instance_of(*env).get(StoreKey::Named(name@)) {
            Some(StoreVal::Assets(v)) => r == Some(v),
            _ => r is None,
        },
{
    env.storage().instance().get(&Symbol::new(env, name))
}

/// Relies on `Instance::set` with a symbol key: the vector replaces what the key held.
#[verifier::external_body]
pub(crate) fn instance_set_assets(env: &mut Env, name: &str, value: &soroban_sdk::Vec<Asset>)
    requires
        valid_symbol(name@),
    ensures
        instance_of(*final(env)) == instance_of(*old(env)).insert(StoreKey::Named(name@), StoreVal::Assets(*value)),
        temporary_of(*final(env)) == temporary_of(*old(env)),
        temporary_ttl_of(*final(env)) == temporary_ttl_of(*old(env)),
        instance_ttl_of(*final(env)) == instance_ttl_of(*old(env)),
        max_ttl_of(*final(env)) == max_ttl_of(*old(env)),
{
    env.storage().instance().set(&Symbol::new(env, name), value)
}

/// Relies on `Vec::new`: a vector with no elements.
#[verifier::external_body]
pub(crate) fn empty_assets(env: &Env) -> (r: soroban_sdk::Vec<Asset>)
    ensures
        assets_of(r) == Seq::<Asset>::empty(),
{
    soroban_sdk::Vec::new(env)
}

/// Relies on `Instance::get` with the key `(tag, address)`: the stored index, if any.
#[verifier::external_body]
pub(crate) fn instance_get_address_index(env: &Env, tag: &str, id: &Address) -> (r: Option<u32>)
    requires
        valid_symbol(tag@),
        instance_of(*env).contains_key(StoreKey::AddressIndex(tag@, *id)) ==> instance_of(*env)[StoreKey::AddressIndex(tag@, *id)] is Num,
    ensures
        match instance_of(*env).get(StoreKey::AddressIndex(tag@, *id)) {
            Some(StoreVal::Num(n)) => r == Some(n),
            _ => r is None,
        },
{
    env.storage().instance().get(&(Symbol::new(env, tag), id.clone()))
}

/// Relies on `Instance::set` with the key `(tag, address)`: the index replaces what the key held.
#[verifier::external_body]
pub(crate) fn instance_set_address_index(env: &mut Env, tag: &str, id: &Address, value: u32)
    requires
        valid_symbol(tag@),
    ensures
        instance_of(*final(env)) == instance_of(*old(env)).insert(StoreKey::AddressIndex(tag@, *id), StoreVal::Num(value)),
        temporary_of(*final(env)) == temporary_of(*old(env)),
        temporary_ttl_of(*final(env)) == temporary_ttl_of(*old(env)),
        instance_ttl_of(*final(env)) == instance_ttl_of(*old(env)),
        max_ttl_of(*final(env)) == max_ttl_of(*old(env)),
{
    env.storage().instance().set(&(Symbol::new(env, tag), id.clone()), &value)
}

/// Relies on `Instance::get` with the key `(tag, symbol)`: the stored index, if any.
#[verifier::external_body]
pub(crate) fn instance_get_symbol_index(env: &Env, tag: &str, id: &Symbol) -> (r: Option<u32>)
    requires
        valid_symbol(tag@),
        instance_of(*env).contains_key(StoreKey::SymbolIndex(tag@, *id)) ==> instance_of(*env)[StoreKey::SymbolIndex(tag@, *id)] is Num,
    ensures
        match instance_of(*env).get(StoreKey::SymbolIndex(tag@, *id)) {
            Some(StoreVal::Num(n)) => r == Some(n),
            _ => r is None,
        },
{
    env.storage().instance().get(&(Symbol::new(env, tag), id.clone()))
}

/// Relies on `Instance::set` with the key `(tag, symbol)`: the index replaces what the key held.
#[verifier::external_body]
pub(crate) fn instance_set_symbol_index(env: &mut Env, tag: &str, id: &Symbol, value: u32)
    requires
        valid_symbol(tag@),
    ensures
        instance_of(*final(env)) == instance_of(*old(env)).insert(StoreKey::SymbolIndex(tag@, *id), StoreVal::Num(value)),
        temporary_of(*final(env)) == temporary_of(*old(env)),
        temporary_ttl_of(*final(env)) == temporary_ttl_of(*old(env)),
        instance_ttl_of(*final(env)) == instance_ttl_of(*old(env)),
        max_ttl_of(*final(env)) == max_ttl_of(*old(env)),
{
    env.storage().instance().set(&(Symbol::new(env, tag), id.clone()), &value)
}

/// Relies on `Instance::extend_ttl`: the instance's lifetime becomes `extend_to`,
/// clamped to the network's maximum, when at most `threshold` ledgers remain.
#[verifier::external_body]
pub(crate) fn instance_extend_ttl(env: &mut Env, threshold: u32, extend_to: u32)
    requires
        threshold <= extend_to,
    ensures
        instance_ttl_of(*final(env)) == extended(
            instance_ttl_of(*old(env)),
            threshold as nat,
            if extend_to <= max_ttl_of(*old(env)) { extend_to as nat } else { max_ttl_of(*old(env)) },
        ),
        instance_of(*final(env)) == instance_of(*old(env)),
        temporary_of(*final(env)) == temporary_of(*old(env)),
        temporary_ttl_of(*final(env)) == temporary_ttl_of(*old(env)),
        max_ttl_of(*final(env)) == max_ttl_of(*old(env)),
{
    env.storage().instance().extend_ttl(threshold, extend_to)
}

/// Relies on `Storage::max_ttl`: the largest lifetime an entry can be extended to now.
#[verifier::external_body]
pub(crate) fn max_ttl(env: &Env) -> (r: u32)
    ensures
        r == max_ttl_of(*env),
{
    env.storage().max_ttl()
}

/// Relies on `Temporary::get` with an integer key: the stored price, if any.
#[verifier::external_body]
pub(crate) fn temporary_get_price(env: &Env, key: u128) -> (r: Option<i128>)
    requires
        temporary_of(*env).contains_key(StoreKey::Price(key)) ==> temporary_of(*env)[StoreKey::Price(key)] is Price,
    ensures
        match temporary_of(*env).get(StoreKey::Price(key)) {
            Some(StoreVal::Price(p)) => r == Some(p),
            _ => r is None,
        },
{
    env.storage().temporary().get(&key)
}

/// Relies on `Temporary::set` with an integer key: the price replaces what the key held,
/// keeping the lifetime of an entry that was there and giving a new one the starting lifetime.
#[verifier::external_body]
pub(crate) fn temporary_set_price(env: &mut Env, key: u128, value: i128)
    ensures
        temporary_of(*final(env)) == temporary_of(*old(env)).insert(StoreKey::Price(key), StoreVal::Price(value)),
        temporary_ttl_of(*final(env)).contains_key(StoreKey::Price(key)),
        temporary_ttl_of(*final(env))[StoreKey::Price(key)] == if temporary_ttl_of(*old(env)).contains_key(StoreKey::Price(key)) {
            temporary_ttl_of(*old(env))[StoreKey::Price(key)]
        } else {
            fresh_temporary_ttl_of(*old(env))
        },
        forall|k: StoreKey| k != StoreKey::Price(key) ==> #[trigger] temporary_ttl_of(*final(env)).get(k) == temporary_ttl_of(*old(env)).get(k),
        instance_of(*final(env)) == instance_of(*old(env)),
        instance_ttl_of(*final(env)) == instance_ttl_of(*old(env)),
        max_ttl_of(*final(env)) == max_ttl_of(*old(env)),
{
    env.storage().temporary().set(&key, &value)
}

/// Relies on `Temporary::extend_ttl` with an integer key: the entry's lifetime becomes
/// `extend_to` when at most `threshold` ledgers remain.
#[verifier::external_body]
pub(crate) fn temporary_extend_price(env: &mut Env, key: u128, threshold: u32, extend_to: u32)
    requires
        threshold <= extend_to,
        extend_to <= max_ttl_of(*old(env)),
        temporary_of(*old(env)).contains_key(StoreKey::Price(key)),
        temporary_ttl_of(*old(env)).contains_key(StoreKey::Price(key)),
    ensures
        temporary_ttl_of(*final(env)) == temporary_ttl_of(*old(env)).insert(
            StoreKey::Price(key),
            extended(temporary_ttl_of(*old(env))[StoreKey::Price(key)], threshold as nat, extend_to as nat),
        ),
        temporary_of(*final(env)) == temporary_of(*old(env)),
        instance_of(*final(env)) == instance_of(*old(env)),
        instance_ttl_of(*final(env)) == instance_ttl_of(*old(env)),
        max_ttl_of(*final(env)) == max_ttl_of(*old(env)),
{
    env.storage().temporary().extend_ttl(&key, threshold, extend_to)
}

/// Relies on `Temporary::get` with a symbol key: the stored timestamp, if any.
#[verifier::external_body]
pub(crate) fn temporary_get_u64(env: &Env, name: &str) -> (r: Option<u64>)
    requires
        valid_symbol(name@),
        temporary_of(*env).contains_key(StoreKey::Named(name@)) ==> temporary_of(*env)[StoreKey::Named(name@)] is Time,
    ensures
        match temporary_of(*env).get(StoreKey::Named(name@)) {
            Some(StoreVal::Time(t)) => r == Some(t),
            _ => r is None,
        },
{
    env.storage().temporary().get(&Symbol::new(env, name))
}

/// Relies on `Temporary::set` with a symbol key: the timestamp replaces what the key held,
/// keeping the lifetime of an entry that was there and giving a new one the starting lifetime.
#[verifier::external_body]
pub(crate) fn temporary_set_u64(env: &mut Env, name: &str, value: u64)
    requires
        valid_symbol(name@),
    ensures
        temporary_of(*final(env)) == temporary_of(*old(env)).insert(StoreKey::Named(name@), StoreVal::Time(value)),
        temporary_ttl_of(*final(env)).contains_key(StoreKey::Named(name@)),
        temporary_ttl_of(*final(env))[StoreKey::Named(name@)] == if temporary_ttl_of(*old(env)).contains_key(StoreKey::Named(name@)) {
            temporary_ttl_of(*old(env))[StoreKey::Named(name@)]
        } else {
            fresh_temporary_ttl_of(*old(env))
        },
        forall|k: StoreKey| k != StoreKey::Named(name@) ==> #[trigger] temporary_ttl_of(*final(env)).get(k) == temporary_ttl_of(*old(env)).get(k),
        instance_of(*final(env)) == instance_of(*old(env)),
        instance_ttl_of(*final(env)) == instance_ttl_of(*old(env)),
        max_ttl_of(*final(env)) == max_ttl_of(*old(env)),
{
    env.storage().temporary().set(&Symbol::new(env, name), &value)
}

/// Relies on `Temporary::extend_ttl` with a symbol key: the entry's lifetime becomes
/// `extend_to` when at most `threshold` ledgers remain.
#[verifier::external_body]
pub(crate) fn temporary_extend_named(env: &mut Env, name: &str, threshold: u32, extend_to: u32)
    requires
        valid_symbol(name@),
        threshold <= extend_to,
        extend_to <= max_ttl_of(*old(env)),
        temporary_of(*old(env)).contains_key(StoreKey::Named(name@)),
        temporary_ttl_of(*old(env)).contains_key(StoreKey::Named(name@)),
    ensures
        temporary_ttl_of(*final(env)) == temporary_ttl_of(*old(env)).insert(
            StoreKey::Named(name@),
            extended(temporary_ttl_of(*old(env))[StoreKey::Named(name@)], threshold as nat, extend_to as nat),
        ),
        temporary_of(*final(env)) == temporary_of(*old(env)),
        instance_of(*final(env)) == instance_of(*old(env)),
        instance_ttl_of(*final(env)) == instance_ttl_of(*old(env)),
        max_ttl_of(*final(env)) == max_ttl_of(*old(env)),
{
    env.storage().temporary().extend_ttl(&Symbol::new(env, name), threshold, extend_to)
}

} // verus!
