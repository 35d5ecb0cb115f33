//! IEEE-754 binary32 encoding of micro-unit quantities, in pure integer
//! arithmetic: a value of `m` micro-units is the rational `m / 10^6`, and its
//! nearest (ties to even) binary32 representation is assembled bit by bit.
//! Every nonzero micro-unit magnitude lies between 10^-6 and 2^63, so the
//! result is always a normal, finite float: no subnormals, no infinities.

use vstd::prelude::*;
use vstd::arithmetic::power2::pow2;

verus! {

/// Number of binary digits of a natural number.
pub open spec fn bitlen(t: nat) -> nat
    decreases t,
{
    if t == 0 {
        0
    } else {
        1 + bitlen(t / 2)
    }
}

proof fn lemma_bitlen_bounds(t: nat)
    requires
        t > 0,
    ensures
        pow2((bitlen(t) - 1) as nat) <= t < pow2(bitlen(t)),
    decreases t,
{
    vstd::arithmetic::power2::lemma2_to64();
    if t == 1 {
        assert(bitlen(1) == 1) by {
            reveal_with_fuel(bitlen, 2);
        }
    } else {
        lemma_bitlen_bounds(t / 2);
        let b = bitlen(t / 2);
        vstd::arithmetic::power2::lemma_pow2_unfold(b);
        vstd::arithmetic::power2::lemma_pow2_unfold((b + 1) as nat);
        vstd::arithmetic::div_mod::lemma_fundamental_div_mod(t as int, 2);
        vstd::arithmetic::div_mod::lemma_mod_bound(t as int, 2);
    }
}

proof fn lemma_bitlen_le(t: nat, k: nat)
    requires
        t < pow2(k),
    ensures
        bitlen(t) <= k,
    decreases t,
{
    if t == 0 {
    } else {
        if k == 0 {
            vstd::arithmetic::power2::lemma2_to64();
            assert(false);
        }
        vstd::arithmetic::power2::lemma_pow2_unfold(k);
        vstd::arithmetic::div_mod::lemma_fundamental_div_mod(t as int, 2);
        vstd::arithmetic::div_mod::lemma_mod_bound(t as int, 2);
        lemma_bitlen_le(t / 2, (k - 1) as nat);
    }
}

/// The binary32 bit pattern nearest (ties to even) to `m / 10^6`: the
/// magnitude is scaled by 2^63, its bit length fixes the exponent, and the
/// 24-bit significand is cut off there with round-to-nearest-even on the
/// exact remainder.
pub open spec fn spec_f32_bits_from_micro(m: int) -> u32 {
    if m == 0 {
        0u32
    } else {
        let s: int = if m < 0 {
            1int
        } else {
            0int
        };
        let n: int = if m < 0 {
            -m
        } else {
            m
        };
        let big = n * 0x8000000000000000;
        let t = big / 1000000;
        let rem = big % 1000000;
        let len = bitlen(t as nat) as int;
        let p = pow2((len - 24) as nat) as int;
        let q0 = t / p;
        let frac2 = 2 * ((t % p) * 1000000 + rem);
        let half = p * 1000000;
        let q = if frac2 > half {
            q0 + 1
        } else if frac2 < half {
            q0
        } else if q0 % 2 == 0 {
            q0
        } else {
            q0 + 1
        };
        if q == 16777216 {
            (s * 0x80000000 + (len + 64) * 0x800000) as u32
        } else {
            (s * 0x80000000 + (len + 63) * 0x800000 + (q - 8388608)) as u32
        }
    }
}

/// Encodes `m` micro-units as the nearest binary32 bit pattern.
pub fn f32_bits_from_micro(m: i64) -> (bits: u32)
    ensures
        bits == spec_f32_bits_from_micro(m as int),
{
    if m == 0 {
        return 0;
    }
    let s: u32 = if m < 0 {
        1
    } else {
        0
    };
    let n: u64 = if m < 0 {
        (-(m as i128)) as u64
    } else {
        m as u64
    };
    let big: u128 = (n as u128) * 0x8000000000000000;
    let t: u128 = big / 1000000;
    let rem: u128 = big % 1000000;
    proof {
        vstd::arithmetic::power2::lemma2_to64();
        vstd::arithmetic::power2::lemma2_to64_rest();
        vstd::arithmetic::power2::lemma_pow2_adds(64, 43);
        // t < 2^107: big <= 2^126 < 10^6 * 2^107
        assert(pow2(107) == 0x8_0000_0000_0000_0000_0000_0000_00);
        vstd::arithmetic::div_mod::lemma_multiply_divide_lt(
            big as int,
            1000000,
            pow2(107) as int,
        );
        lemma_bitlen_le(t as nat, 107);
        // t >= floor(2^63 / 10^6)
        vstd::arithmetic::div_mod::lemma_div_is_ordered(
            0x8000000000000000,
            big as int,
            1000000,
        );
        assert(t >= 9223372036854);
    }
    let mut len: u32 = 0;
    let mut tmp: u128 = t;
    while tmp > 0
        invariant
            len + bitlen(tmp as nat) == bitlen(t as nat),
            bitlen(t as nat) <= 107,
        decreases tmp,
    {
        tmp = tmp / 2;
        len = len + 1;
    }
    proof {
        assert(len == bitlen(t as nat));
        lemma_bitlen_bounds(t as nat);
        // len >= 44, since t >= 2^43
        if len <= 43 {
            vstd::arithmetic::power2::lemma2_to64();
            vstd::arithmetic::power2::lemma2_to64_rest();
            if len < 43 {
                vstd::arithmetic::power2::lemma_pow2_strictly_increases(len as nat, 43);
            }
            assert(false);
        }
    }
    let shift: u32 = len - 24;
    let mut p: u128 = 1;
    let mut i: u32 = 0;
    while i < shift
        invariant
            i <= shift <= 83,
            p == pow2(i as nat),
        decreases shift - i,
    {
        proof {
            if (i as nat) < 82 {
                vstd::arithmetic::power2::lemma_pow2_strictly_increases(i as nat, 82);
            }
            vstd::arithmetic::power2::lemma_pow2_adds(64, 18);
            vstd::arithmetic::power2::lemma2_to64();
            vstd::arithmetic::power2::lemma_pow2_unfold((i + 1) as nat);
        }
        p = p * 2;
        i = i + 1;
    }
    proof {
        // q0 = t / 2^shift lies in [2^23, 2^24)
        vstd::arithmetic::power2::lemma_pow2_adds(shift as nat, 24);
        vstd::arithmetic::power2::lemma_pow2_adds(shift as nat, 23);
        vstd::arithmetic::power2::lemma2_to64();
        vstd::arithmetic::div_mod::lemma_multiply_divide_lt(
            t as int,
            p as int,
            16777216,
        );
        vstd::arithmetic::power2::lemma_pow2_pos(shift as nat);
        vstd::arithmetic::div_mod::lemma_div_is_ordered(
            (p * 8388608) as int,
            t as int,
            p as int,
        );
        vstd::arithmetic::mul::lemma_mul_is_commutative(p as int, 8388608);
        vstd::arithmetic::div_mod::lemma_div_multiples_vanish(8388608, p as int);
    }
    let q0: u64 = (t / p) as u64;
    let tmod: u128 = t % p;
    proof {
        vstd::arithmetic::div_mod::lemma_mod_bound(t as int, p as int);
        // tmod * 1000000 stays in range: tmod < p <= 2^83
        vstd::arithmetic::power2::lemma_pow2_adds(64, 19);
        vstd::arithmetic::power2::lemma2_to64();
        if (shift as nat) < 83 {
            vstd::arithmetic::power2::lemma_pow2_strictly_increases(shift as nat, 83);
        }
    }
    let frac2: u128 = 2 * (tmod * 1000000 + rem);
    let half: u128 = p * 1000000;
    let q: u64 = if frac2 > half {
        q0 + 1
    } else if frac2 < half {
        q0
    } else if q0 % 2 == 0 {
        q0
    } else {
        q0 + 1
    };
    if q == 16777216 {
        s * 0x80000000 + (len + 64) * 0x800000
    } else {
        s * 0x80000000 + (len + 63) * 0x800000 + (q as u32 - 8388608)
    }
}

} // verus!
