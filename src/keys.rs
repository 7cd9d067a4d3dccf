//! How each logical entry is keyed in the flat key-value space.
use vstd::prelude::*;

verus! {

/// The key of a price sample: the timestamp in the high 64 bits, the asset index in the low bits.
pub open spec fn price_key_of(asset: u8, timestamp: u64) -> int {
    timestamp as int * 0x1_0000_0000_0000_0000 + asset as int
}

/// Composite key of a price sample: `timestamp << 64 | asset`.
pub fn price_key(asset: u8, timestamp: u64) -> (r: u128)
    ensures
        r == price_key_of(asset, timestamp),
{
    let r = (timestamp as u128) << 64u128 | asset as u128;
    assert(((timestamp as u128) << 64u128 | asset as u128) == (timestamp as u128) * 0x1_0000_0000_0000_0000u128 + asset as u128) by (bit_vector)
        requires asset <= 255u8;
    r
}

} // verus!
