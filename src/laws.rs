//! Properties that relate the accessors to one another.
//!
//! Each setter states the tier it leaves behind as an `insert` into the tier it
//! found, and each getter states what it returns from a tier; the laws below
//! connect the two.
use vstd::prelude::*;
use soroban_sdk::Address;
use sep_40_oracle::Asset;
use crate::host::{extended, StoreKey, StoreVal};
use crate::keys::price_key_of;
use crate::storage::{
    admin_in, admin_key, LEDGER_BUMP, LEDGER_THRESHOLD, assets_in, assets_key, index_in, index_key, last_timestamp_in,
    price_in, price_store_key, timestamp_key,
};

verus! {

/// Distinct (asset index, timestamp) pairs have distinct price keys.
pub proof fn law_price_key_injective(a1: u8, t1: u64, a2: u8, t2: u64)
    ensures
        price_key_of(a1, t1) == price_key_of(a2, t2) <==> (a1 == a2 && t1 == t2),
        0 <= price_key_of(a1, t1) < 0x1_0000_0000_0000_0000_0000_0000_0000_0000,
{
    let b: int = 0x1_0000_0000_0000_0000;
    if price_key_of(a1, t1) == price_key_of(a2, t2) {
        assert((t1 as int) * b + (a1 as int) == (t2 as int) * b + (a2 as int));
        assert(t1 == t2 && a1 == a2) by (nonlinear_arith)
            requires
                (t1 as int) * b + (a1 as int) == (t2 as int) * b + (a2 as int),
                0 <= a1 < 256,
                0 <= a2 < 256,
                0 <= t1,
                0 <= t2,
                b == 0x1_0000_0000_0000_0000,
        ;
    }
    assert(0 <= (t1 as int) * b + (a1 as int) < b * b) by (nonlinear_arith)
        requires
            0 <= a1 < 256,
            0 <= t1 < b,
            b == 0x1_0000_0000_0000_0000,
    ;
}

/// After an asset's index is set to `i`, the asset's stored index is `i`, which
/// reads back as `i` for every index from 0 to 255; a larger index is truncated
/// to its low byte, so 256 reads back as 0.
pub proof fn law_asset_index_round_trip(m: Map<StoreKey, StoreVal>, asset: Asset, i: u32)
    ensures
        index_in(m.insert(index_key(asset), StoreVal::Num(i)), asset) == Some(i),
        i <= 255 ==> (i % 256) as u8 == i,
        i == 256 ==> (i % 256) as u8 == 0,
{
}

/// Setting one asset's index leaves every other asset's index as it was.
pub proof fn law_asset_indices_independent(m: Map<StoreKey, StoreVal>, asset: Asset, other: Asset, i: u32)
    requires
        asset != other,
    ensures
        index_in(m.insert(index_key(asset), StoreVal::Num(i)), other) == index_in(m, other),
{
    assert(index_key(asset) != index_key(other));
}

/// After a price is recorded for (asset index, timestamp), reading that pair gives
/// the price, and every other pair reads as before.
pub proof fn law_price_round_trip(m: Map<StoreKey, StoreVal>, asset: u8, timestamp: u64, price: i128, other_asset: u8, other_timestamp: u64)
    ensures
        price_in(m.insert(price_store_key(asset, timestamp), StoreVal::Price(price)), asset, timestamp) == Some(price),
        (other_asset, other_timestamp) != (asset, timestamp) ==> price_in(
            m.insert(price_store_key(asset, timestamp), StoreVal::Price(price)),
            other_asset,
            other_timestamp,
        ) == price_in(m, other_asset, other_timestamp),
{
    law_price_key_injective(asset, timestamp, other_asset, other_timestamp);
    law_price_key_injective(other_asset, other_timestamp, asset, timestamp);
}

/// The last timestamp reads as 0 while none is recorded, and as `t` once `t` is.
pub proof fn law_last_timestamp(m: Map<StoreKey, StoreVal>, t: u64)
    ensures
        !m.contains_key(timestamp_key()) ==> last_timestamp_in(m) == 0,
        last_timestamp_in(m.insert(timestamp_key(), StoreVal::Time(t))) == t,
{
}

/// The list of assets reads back exactly as it was set, the empty list included.
pub proof fn law_assets_round_trip(m: Map<StoreKey, StoreVal>, assets: soroban_sdk::Vec<Asset>)
    ensures
        assets_in(m.insert(assets_key(), StoreVal::Assets(assets))) == Some(assets),
{
}

/// The admin reads as none while it was never set, and as `admin` once it is.
pub proof fn law_admin(m: Map<StoreKey, StoreVal>, admin: Address)
    ensures
        !m.contains_key(admin_key()) ==> admin_in(m) is None,
        admin_in(m.insert(admin_key(), StoreVal::Addr(admin))) == Some(admin),
{
}

/// Extending a lifetime never shortens it, leaves it alone above the threshold,
/// and extending twice in a row has the effect of extending once.
pub proof fn law_extension_idempotent(ttl: nat, threshold: nat, extend_to: nat)
    ensures
        extended(ttl, threshold, extend_to) >= ttl,
        ttl > threshold ==> extended(ttl, threshold, extend_to) == ttl,
        extended(extended(ttl, threshold, extend_to), threshold, extend_to) == extended(ttl, threshold, extend_to),
{
}

/// Reading a constant price extends it with the threshold and the bump length:
/// its lifetime never shrinks and ends above the threshold.
pub proof fn law_stable_read_keeps_alive(ttl: nat)
    ensures
        extended(ttl, LEDGER_THRESHOLD as nat, LEDGER_BUMP as nat) >= ttl,
        extended(ttl, LEDGER_THRESHOLD as nat, LEDGER_BUMP as nat) > LEDGER_THRESHOLD,
{
}

/// A write extends its entry to exactly the bump length when at most that much
/// remained, and leaves a longer lifetime as it was.
pub proof fn law_write_extension(ttl: nat)
    ensures
        ttl <= LEDGER_BUMP ==> extended(ttl, LEDGER_BUMP as nat, LEDGER_BUMP as nat) == LEDGER_BUMP,
        ttl > LEDGER_BUMP ==> extended(ttl, LEDGER_BUMP as nat, LEDGER_BUMP as nat) == ttl,
{
}

} // verus!
