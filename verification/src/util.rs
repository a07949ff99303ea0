//! A small mixing hash of three words.

use vstd::prelude::*;

verus! {

/// Product of two words, cut to 32 bits.
pub open spec fn mul32(x: u32, y: u32) -> u32 {
    ((x as nat * y as nat) % 0x1_0000_0000nat) as u32
}

/// Sum of two words, cut to 32 bits.
pub open spec fn add32(x: u32, y: u32) -> u32 {
    if x + y > u32::MAX {
        (x + y - 0x1_0000_0000) as u32
    } else {
        (x + y) as u32
    }
}

/// `h` rotated left by 17 bits.
pub open spec fn rotl17(h: u32) -> u32 {
    h << 17 | h >> 15
}

/// One round: add the scrambled word, rotate, scramble.
pub open spec fn mix_round(h: u32, word: u32) -> u32 {
    mul32(rotl17(add32(h, mul32(word, 3266489917u32))), 668265263u32)
}

/// The final avalanche.
pub open spec fn avalanche(h: u32) -> u32 {
    let a = h ^ (h >> 15);
    let b = mul32(a, 2246822519u32);
    let c = b ^ (b >> 13);
    let d = mul32(c, 3266489917u32);
    d ^ (d >> 16)
}

/// The hash of three words: three rounds from a fixed seed, then the
/// avalanche.
pub open spec fn xxhash_of(h1: u32, h2: u32, h3: u32) -> u32 {
    avalanche(mix_round(mix_round(mix_round(374761393u32, h1), h2), h3))
}

/// Hashes three words into one.
pub fn xxhash(h1: u32, h2: u32, h3: u32) -> (r: u32)
    ensures
        r == xxhash_of(h1, h2, h3),
{
    let prime_2: u32 = 2246822519u32;
    let prime_3: u32 = 3266489917u32;
    let prime_4: u32 = 668265263u32;
    let prime_5: u32 = 374761393u32;

    let mut h32: u32 = prime_5;
    h32 = h32.wrapping_add(h1.wrapping_mul(prime_3));
    h32 = (h32 << 17 | h32 >> 15).wrapping_mul(prime_4);
    h32 = h32.wrapping_add(h2.wrapping_mul(prime_3));
    h32 = (h32 << 17 | h32 >> 15).wrapping_mul(prime_4);
    h32 = h32.wrapping_add(h3.wrapping_mul(prime_3));
    h32 = (h32 << 17 | h32 >> 15).wrapping_mul(prime_4);

    h32 = h32 ^ (h32 >> 15);
    h32 = h32.wrapping_mul(prime_2);
    h32 = h32 ^ (h32 >> 13);
    h32 = h32.wrapping_mul(prime_3);
    h32 = h32 ^ (h32 >> 16);

    h32
}

} // verus!
