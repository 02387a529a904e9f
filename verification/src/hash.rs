//! Lean 4 compatible hashing: `mixHash` and the MurmurHash64A string hash.
use vstd::prelude::*;

verus! {

/// Multiplier shared by `mixHash` and MurmurHash64A.
pub const MURMUR_M: u64 = 0xc6a4a7935bd1e995u64;

/// Shift amount shared by `mixHash` and MurmurHash64A.
pub const MURMUR_R: u64 = 47u64;

/// Multiplication modulo 2^64.
pub open spec fn wmul(a: u64, b: u64) -> u64 {
    ((a as nat * b as nat) % 0x1_0000_0000_0000_0000nat) as u64
}

/// Lean 4's `mixHash` (`lean_uint64_mix_hash`).
pub open spec fn spec_mix_hash(h: u64, k: u64) -> u64 {
    let k1 = wmul(k, MURMUR_M);
    let k2 = k1 ^ (k1 >> MURMUR_R);
    let k3 = k2 ^ MURMUR_M;
    wmul(h ^ k3, MURMUR_M)
}

/// The little-endian word made of the first `j` bytes of `data` starting at `off`.
pub open spec fn le_word(data: Seq<u8>, off: int, j: nat) -> u64
    decreases j,
{
    if j == 0 {
        0u64
    } else {
        le_word(data, off, (j - 1) as nat) | ((data[off + j - 1] as u64) << ((
        (j - 1) * 8) as u64))
    }
}

/// Scrambling of one 8-byte block before it is folded into the state.
pub open spec fn murmur_mix_block(k: u64) -> u64 {
    let k1 = wmul(k, MURMUR_M);
    let k2 = k1 ^ (k1 >> MURMUR_R);
    wmul(k2, MURMUR_M)
}

/// State after folding in the first `n` 8-byte blocks of `data`.
pub open spec fn murmur_blocks(data: Seq<u8>, n: nat, h0: u64) -> u64
    decreases n,
{
    if n == 0 {
        h0
    } else {
        let h = murmur_blocks(data, (n - 1) as nat, h0);
        let k = murmur_mix_block(le_word(data, (n - 1) * 8, 8));
        wmul(h ^ k, MURMUR_M)
    }
}

/// Folding in the trailing bytes (fewer than 8) that start at `base`.
pub open spec fn murmur_tail(data: Seq<u8>, base: int, rem: int, h: u64) -> u64 {
    let h7 = if rem >= 7 { h ^ ((data[base + 6] as u64) << 48u64) } else { h };
    let h6 = if rem >= 6 { h7 ^ ((data[base + 5] as u64) << 40u64) } else { h7 };
    let h5 = if rem >= 5 { h6 ^ ((data[base + 4] as u64) << 32u64) } else { h6 };
    let h4 = if rem >= 4 { h5 ^ ((data[base + 3] as u64) << 24u64) } else { h5 };
    let h3 = if rem >= 3 { h4 ^ ((data[base + 2] as u64) << 16u64) } else { h4 };
    let h2 = if rem >= 2 { h3 ^ ((data[base + 1] as u64) << 8u64) } else { h3 };
    if rem >= 1 {
        wmul(h2 ^ (data[base] as u64), MURMUR_M)
    } else {
        h2
    }
}

/// MurmurHash64A of `data` with the given seed.
pub open spec fn spec_murmur_hash(data: Seq<u8>, seed: u64) -> u64 {
    let len = data.len();
    let h0 = seed ^ wmul((len % 0x1_0000_0000_0000_0000nat) as u64, MURMUR_M);
    let nblocks = len / 8;
    let hb = murmur_blocks(data, nblocks, h0);
    let ht = murmur_tail(data, (nblocks * 8) as int, (len % 8) as int, hb);
    let f1 = ht ^ (ht >> MURMUR_R);
    let f2 = wmul(f1, MURMUR_M);
    f2 ^ (f2 >> MURMUR_R)
}

/// Lean 4's `String.hash`: MurmurHash64A of the UTF-8 bytes with seed 11.
pub open spec fn spec_string_hash(s: Seq<char>) -> u64 {
    spec_murmur_hash(vstd::utf8::encode_utf8(s), 11)
}

/// Read the little-endian word made of `data[off..off + n]` (`n <= 8`).
pub fn read_le(data: &[u8], off: usize, n: usize) -> (k: u64)
    requires
        n <= 8,
        off + n <= data@.len(),
    ensures
        k == le_word(data@, off as int, n as nat),
{
    let mut k: u64 = 0;
    let mut j: usize = 0;
    while j < n
        invariant
            j <= n <= 8,
            off + n <= data.len(),
            k == le_word(data@, off as int, j as nat),
        decreases n - j,
    {
        k = k | ((data[off + j] as u64) << ((j * 8) as u64));
        j = j + 1;
    }
    k
}

/// MurmurHash2 64-bit (MurmurHash64A), the variant Lean 4 uses for strings.
fn murmur_hash_64a(data: &[u8], seed: u64) -> (h: u64)
    ensures
        h == spec_murmur_hash(data@, seed),
{
    let len = data.len();
    let mut h: u64 = seed ^ (len as u64).wrapping_mul(MURMUR_M);
    let chunks = len / 8;
    let ghost h0 = h;
    let mut i: usize = 0;
    while i < chunks
        invariant
            len == data@.len(),
            chunks == len / 8,
            i <= chunks,
            h == murmur_blocks(data@, i as nat, h0),
        decreases chunks - i,
    {
        let offset = i * 8;
        let mut k = read_le(data, offset, 8);
        k = k.wrapping_mul(MURMUR_M);
        k = k ^ (k >> MURMUR_R);
        k = k.wrapping_mul(MURMUR_M);
        h = h ^ k;
        h = h.wrapping_mul(MURMUR_M);
        i = i + 1;
    }
    let base = chunks * 8;
    let remaining = len % 8;
    if remaining >= 7 {
        h = h ^ ((data[base + 6] as u64) << 48u64);
    }
    if remaining >= 6 {
        h = h ^ ((data[base + 5] as u64) << 40u64);
    }
    if remaining >= 5 {
        h = h ^ ((data[base + 4] as u64) << 32u64);
    }
    if remaining >= 4 {
        h = h ^ ((data[base + 3] as u64) << 24u64);
    }
    if remaining >= 3 {
        h = h ^ ((data[base + 2] as u64) << 16u64);
    }
    if remaining >= 2 {
        h = h ^ ((data[base + 1] as u64) << 8u64);
    }
    if remaining >= 1 {
        h = h ^ (data[base] as u64);
        h = h.wrapping_mul(MURMUR_M);
    }
    h = h ^ (h >> MURMUR_R);
    h = h.wrapping_mul(MURMUR_M);
    h = h ^ (h >> MURMUR_R);
    h
}

/// Lean 4's `mixHash` function (`lean_uint64_mix_hash`).
pub fn mix_hash(h: u64, k: u64) -> (r: u64)
    ensures
        r == spec_mix_hash(h, k),
{
    let mut k = k.wrapping_mul(MURMUR_M);
    k = k ^ (k >> MURMUR_R);
    k = k ^ MURMUR_M;
    let mut h = h ^ k;
    h = h.wrapping_mul(MURMUR_M);
    h
}

/// Lean 4's `String.hash`: MurmurHash2 with seed 11 over the UTF-8 bytes.
pub fn lean_string_hash(s: &str) -> (r: u64)
    ensures
        r == spec_string_hash(s@),
{
    murmur_hash_64a(s.as_bytes(), 11)
}

} // verus!
