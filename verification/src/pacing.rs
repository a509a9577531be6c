//! Frame pacing: the interval between frames of a frame rate given as the bit
//! pattern of a single-precision number, and waiting for a frame's due time.
use vstd::prelude::*;
use crate::clock::unix_time_micros;

verus! {

/// 2 to the power `k`.
pub open spec fn two_pow(k: nat) -> nat
    decreases k,
{
    if k == 0 { 1 } else { 2 * two_pow((k - 1) as nat) }
}

/// Sign bit of a single-precision bit pattern.
pub open spec fn f32_sign(bits: u32) -> nat {
    (bits / 0x8000_0000) as nat
}

/// Biased exponent field of a single-precision bit pattern.
pub open spec fn f32_exponent(bits: u32) -> nat {
    ((bits / 0x80_0000) % 0x100) as nat
}

/// Fraction field of a single-precision bit pattern.
pub open spec fn f32_fraction(bits: u32) -> nat {
    (bits % 0x80_0000) as nat
}

/// Whether the bits encode a positive, finite number.
pub open spec fn f32_positive_finite(bits: u32) -> bool {
    f32_sign(bits) == 0 && f32_exponent(bits) != 0xff && (f32_exponent(bits) != 0 || f32_fraction(bits) != 0)
}

/// Significand of a positive finite number: the value is
/// `significand * 2^(scale - 150)`.
pub open spec fn f32_significand(bits: u32) -> nat {
    if f32_exponent(bits) == 0 { f32_fraction(bits) } else { f32_fraction(bits) + 0x80_0000 }
}

/// Scale of a positive finite number, see `f32_significand`.
pub open spec fn f32_scale(bits: u32) -> nat {
    if f32_exponent(bits) == 0 { 1 } else { f32_exponent(bits) }
}

/// The whole microseconds in one frame at the frame rate whose bits are given,
/// `floor(1_000_000 / fps)`, capped at `u64::MAX`; 0 (no pacing) for a rate
/// that is zero, negative, infinite or not a number.
pub open spec fn frame_interval(fps_bits: u32) -> nat {
    if !f32_positive_finite(fps_bits) {
        0
    } else {
        let sig = f32_significand(fps_bits);
        let scale = f32_scale(fps_bits);
        let q = if scale >= 150 {
            1_000_000nat / (sig * two_pow((scale - 150) as nat))
        } else {
            1_000_000nat * two_pow((150 - scale) as nat) / sig
        };
        if q > u64::MAX { u64::MAX as nat } else { q }
    }
}

proof fn lemma_two_pow_pos(k: nat)
    ensures
        two_pow(k) >= 1,
    decreases k,
{
    if k > 0 {
        lemma_two_pow_pos((k - 1) as nat);
    }
}

proof fn lemma_two_pow_mono(a: nat, b: nat)
    requires
        a <= b,
    ensures
        two_pow(a) <= two_pow(b),
    decreases b,
{
    if a < b {
        lemma_two_pow_mono(a, (b - 1) as nat);
        lemma_two_pow_pos((b - 1) as nat);
    }
}

/// The frame interval, in microseconds, of a frame rate given as single-precision bits.
pub fn frame_interval_us(fps_bits: u32) -> (us: u64)
    ensures
        us == frame_interval(fps_bits),
{
    let sign = fps_bits / 0x8000_0000;
    let exponent = (fps_bits / 0x80_0000) % 0x100;
    let fraction = fps_bits % 0x80_0000;
    if sign != 0 || exponent == 0xff || (exponent == 0 && fraction == 0) {
        return 0;
    }
    let sig: u128 = if exponent == 0 { fraction as u128 } else { fraction as u128 + 0x80_0000 };
    let scale: u32 = if exponent == 0 { 1 } else { exponent };
    assert(0 < sig < 0x100_0000);
    if scale >= 150 {
        proof {
            let p = two_pow((scale - 150) as nat);
            lemma_two_pow_pos((scale - 150) as nat);
            assert(sig >= 0x80_0000);
            assert(sig * p >= sig) by (nonlinear_arith) requires p >= 1, sig >= 0;
            assert(1_000_000nat / (sig as nat * p) == 0) by (nonlinear_arith)
                requires sig as nat * p > 1_000_000nat;
        }
        return 0;
    }
    // numerator = 1_000_000 * 2^(150 - scale), stopping once it is so large
    // that the quotient exceeds u64::MAX.
    let k = 150 - scale;
    let mut numerator: u128 = 1_000_000;
    let mut i: u32 = 0;
    let limit: u128 = 0x1_0000_0000_0000_0000_0000_00; // 2^88
    while i < k && numerator < limit
        invariant
            i <= k,
            numerator == 1_000_000nat * two_pow(i as nat),
            numerator < 2 * limit,
            limit == 0x1_0000_0000_0000_0000_0000_00,
        decreases k - i,
    {
        numerator = numerator * 2;
        i = i + 1;
    }
    if numerator >= limit {
        proof {
            lemma_two_pow_mono(i as nat, k as nat);
            let full = 1_000_000nat * two_pow(k as nat);
            assert(full >= numerator) by (nonlinear_arith)
                requires full == 1_000_000nat * two_pow(k as nat), numerator == 1_000_000nat * two_pow(i as nat),
                    two_pow(i as nat) <= two_pow(k as nat);
            assert(full / (sig as nat) > u64::MAX) by (nonlinear_arith)
                requires full >= 0x1_0000_0000_0000_0000_0000_00nat, 0 < sig < 0x100_0000;
        }
        return u64::MAX;
    }
    assert(i == k);
    let q = numerator / sig;
    if q > u64::MAX as u128 { u64::MAX } else { q as u64 }
}

/// Waits, reading the clock, until the clock reaches `deadline_us`.
pub fn wait_until(deadline_us: u64) {
    let mut budget: u64 = u64::MAX;
    while budget > 0 && unix_time_micros() < deadline_us
        decreases budget,
    {
        budget = budget - 1;
    }
}

} // verus!
