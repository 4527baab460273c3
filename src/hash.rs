//! Deterministic 32-bit integer hashing used for procedural noise.

use vstd::prelude::*;

verus! {

/// Wrapping 32-bit multiplication, as a value.
pub open spec fn mul32(x: u32, k: u32) -> u32 {
    ((x as nat * k as nat) % 0x1_0000_0000) as u32
}

/// One xor-shift-right round.
pub open spec fn xorshift(x: u32, s: u32) -> u32 {
    x ^ (x >> s)
}

/// The avalanche mix of two 32-bit words.
pub open spec fn uhash_spec(a: u32, b: u32) -> u32 {
    let x0 = mul32(a, 1597334673) ^ mul32(b, 3812015801);
    let x1 = mul32(xorshift(x0, 16), 0x7feb352d);
    let x2 = mul32(xorshift(x1, 15), 0x846ca68b);
    xorshift(x2, 16)
}

/// Packs a pair of coordinates into one hash word: `y` shifted into the high
/// bits, plus `z`, wrapping.
pub open spec fn pack_coords(y: u32, z: u32) -> u32 {
    ((((y as nat * 2048) % 0x1_0000_0000) + z as nat) % 0x1_0000_0000) as u32
}

/// The raw hash behind the noise sample at `(x, y, z)`.
pub open spec fn noise_bits_spec(x: u32, y: u32, z: u32) -> u32 {
    uhash_spec(x, pack_coords(y, z))
}

/// Hashes two words into one; all arithmetic wraps at 32 bits.
pub fn uhash(a: u32, b: u32) -> (r: u32)
    ensures
        r == uhash_spec(a, b),
{
    let mut x: u32 = a.wrapping_mul(1597334673) ^ b.wrapping_mul(3812015801);
    x = x ^ (x >> 16);
    x = x.wrapping_mul(0x7feb352d);
    x = x ^ (x >> 15);
    x = x.wrapping_mul(0x846ca68b);
    x = x ^ (x >> 16);
    x
}

/// The hash word from which the noise sample at `(x, y, z)` is normalised:
/// `y` and `z` are packed as `(y << 11) + z` and hashed together with `x`.
pub fn hash_noise_bits(x: u32, y: u32, z: u32) -> (r: u32)
    ensures
        r == noise_bits_spec(x, y, z),
{
    let shifted: u32 = y << 11u32;
    proof {
        assert(shifted == ((y as nat * 2048) % 0x1_0000_0000) as u32) by (bit_vector)
            requires shifted == y << 11u32;
    }
    uhash(x, shifted.wrapping_add(z))
}

/// The hash is a function of its two inputs: any two evaluations on the same
/// pair give the same word.
pub proof fn uhash_deterministic(a: u32, b: u32, r1: u32, r2: u32)
    requires
        r1 == uhash_spec(a, b),
        r2 == uhash_spec(a, b),
    ensures
        r1 == r2,
{
}

} // verus!
