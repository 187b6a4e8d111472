use vstd::prelude::*;

verus! {

/// Multiplier of the first mixing round.
pub const MIX_MULTIPLIER_FIRST: u64 = 0x517cc1b727220a95;

/// Multiplier of the second mixing round.
pub const MIX_MULTIPLIER_SECOND: u64 = 0x7fb5d329728ea185;

/// The eight bytes of `bytes` from `at` on, read as a little-endian number.
pub open spec fn spec_le_u64(bytes: Seq<u8>, at: int) -> u64 {
    (bytes[at] as u64) | ((bytes[at + 1] as u64) << 8) | ((bytes[at + 2] as u64) << 16) | ((bytes[at
        + 3] as u64) << 24) | ((bytes[at + 4] as u64) << 32) | ((bytes[at + 5] as u64) << 40) | ((
    bytes[at + 6] as u64) << 48) | ((bytes[at + 7] as u64) << 56)
}

/// A time read as an unsigned 64-bit number: itself from 0 on, and 2^64 more
/// than itself below 0.
pub open spec fn spec_as_unsigned(ts: i64) -> u64 {
    if ts >= 0 {
        ts as u64
    } else {
        (ts + 0x1_0000_0000_0000_0000) as u64
    }
}

/// Reads the eight bytes from `at` on as a little-endian number.
pub fn le_u64(bytes: &[u8; 32], at: usize) -> (w: u64)
    requires
        at <= 24,
    ensures
        w == spec_le_u64(bytes@, at as int),
{
    (bytes[at] as u64) | ((bytes[at + 1] as u64) << 8) | ((bytes[at + 2] as u64) << 16) | ((bytes[at
        + 3] as u64) << 24) | ((bytes[at + 4] as u64) << 32) | ((bytes[at + 5] as u64) << 40) | ((
    bytes[at + 6] as u64) << 48) | ((bytes[at + 7] as u64) << 56)
}

/// Reads a time as an unsigned 64-bit number, keeping its bits.
pub fn as_unsigned(ts: i64) -> (r: u64)
    ensures
        r == spec_as_unsigned(ts),
{
    if ts >= 0 {
        ts as u64
    } else {
        ((ts - i64::MIN) as u64) + 0x8000_0000_0000_0000u64
    }
}

/// First round: multiply modulo 2^64, then fold the upper half into the lower.
pub open spec fn spec_mix_first(h: u64) -> u64 {
    let m = h.wrapping_mul(MIX_MULTIPLIER_FIRST);
    m ^ (m >> 32)
}

/// Second round: multiply modulo 2^64, then fold the bits above bit 27 down.
pub open spec fn spec_mix_second(h: u64) -> u64 {
    let m = h.wrapping_mul(MIX_MULTIPLIER_SECOND);
    m ^ (m >> 27)
}

/// The two rounds one after the other.
pub open spec fn spec_avalanche(h: u64) -> u64 {
    spec_mix_second(spec_mix_first(h))
}

/// The first mixing round.
pub fn mix_first(h: u64) -> (r: u64)
    ensures
        r == spec_mix_first(h),
{
    let m: u64 = h.wrapping_mul(MIX_MULTIPLIER_FIRST);
    m ^ (m >> 32)
}

/// The second mixing round.
pub fn mix_second(h: u64) -> (r: u64)
    ensures
        r == spec_mix_second(h),
{
    let m: u64 = h.wrapping_mul(MIX_MULTIPLIER_SECOND);
    m ^ (m >> 27)
}

/// Both mixing rounds.
pub fn avalanche(h: u64) -> (r: u64)
    ensures
        r == spec_avalanche(h),
{
    mix_second(mix_first(h))
}

proof fn lemma_bytes_in_place(b0: u8, b1: u8, b2: u8, b3: u8, b4: u8, b5: u8, b6: u8, b7: u8)
    by (bit_vector)
    ensures
        (b0 as u64) | ((b1 as u64) << 8) | ((b2 as u64) << 16) | ((b3 as u64) << 24) | ((b4 as u64)
            << 32) | ((b5 as u64) << 40) | ((b6 as u64) << 48) | ((b7 as u64) << 56) == b0 + 0x100
            * b1 + 0x1_0000 * b2 + 0x100_0000 * b3 + 0x1_0000_0000 * b4 + 0x100_0000_0000 * b5
            + 0x1_0000_0000_0000 * b6 + 0x100_0000_0000_0000 * b7,
{
}

/// A little-endian number is the sum of its bytes, each weighted by its
/// place: the first byte counts once, the next 256 times, and so on.
pub proof fn lemma_le_u64_is_positional(bytes: Seq<u8>, at: int)
    requires
        0 <= at,
        at + 8 <= bytes.len(),
    ensures
        spec_le_u64(bytes, at) == bytes[at] + 0x100 * bytes[at + 1] + 0x1_0000 * bytes[at + 2]
            + 0x100_0000 * bytes[at + 3] + 0x1_0000_0000 * bytes[at + 4] + 0x100_0000_0000 * bytes[at
            + 5] + 0x1_0000_0000_0000 * bytes[at + 6] + 0x100_0000_0000_0000 * bytes[at + 7],
{
    lemma_bytes_in_place(
        bytes[at],
        bytes[at + 1],
        bytes[at + 2],
        bytes[at + 3],
        bytes[at + 4],
        bytes[at + 5],
        bytes[at + 6],
        bytes[at + 7],
    );
}

proof fn lemma_multiply_first_injective(x: u64, y: u64)
    by (bit_vector)
    requires
        (x * 0x517cc1b727220a95u64) % 0x1_0000_0000_0000_0000 == (y * 0x517cc1b727220a95u64)
            % 0x1_0000_0000_0000_0000,
    ensures
        x == y,
{
}

proof fn lemma_multiply_second_injective(x: u64, y: u64)
    by (bit_vector)
    requires
        (x * 0x7fb5d329728ea185u64) % 0x1_0000_0000_0000_0000 == (y * 0x7fb5d329728ea185u64)
            % 0x1_0000_0000_0000_0000,
    ensures
        x == y,
{
}

proof fn lemma_fold_injective(x: u64, y: u64)
    by (bit_vector)
    ensures
        x ^ (x >> 32) == y ^ (y >> 32) ==> x == y,
        x ^ (x >> 27) == y ^ (y >> 27) ==> x == y,
{
}

/// Mixing loses nothing: two different inputs never mix to the same output.
pub proof fn lemma_avalanche_injective(x: u64, y: u64)
    ensures
        spec_mix_first(x) == spec_mix_first(y) ==> x == y,
        spec_mix_second(x) == spec_mix_second(y) ==> x == y,
        spec_avalanche(x) == spec_avalanche(y) ==> x == y,
{
    let ax = x.wrapping_mul(MIX_MULTIPLIER_FIRST);
    let ay = y.wrapping_mul(MIX_MULTIPLIER_FIRST);
    lemma_fold_injective(ax, ay);
    if ax == ay {
        lemma_multiply_first_injective(x, y);
    }
    let bx = x.wrapping_mul(MIX_MULTIPLIER_SECOND);
    let by = y.wrapping_mul(MIX_MULTIPLIER_SECOND);
    lemma_fold_injective(bx, by);
    if bx == by {
        lemma_multiply_second_injective(x, y);
    }
    let fx = spec_mix_first(x);
    let fy = spec_mix_first(y);
    let cx = fx.wrapping_mul(MIX_MULTIPLIER_SECOND);
    let cy = fy.wrapping_mul(MIX_MULTIPLIER_SECOND);
    lemma_fold_injective(cx, cy);
    if cx == cy {
        lemma_multiply_second_injective(fx, fy);
    }
}

} // verus!
