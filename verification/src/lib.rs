use vstd::prelude::*;

pub mod mpl115a2;
pub mod mpu6050;
pub mod altitude;
pub mod float_bits;
pub mod sim;
pub mod telemetry;

verus! {

/// Reconstructs a signed 16-bit register value from its most- and
/// least-significant bytes, interpreting the pair as two's complement.
pub open spec fn sign16(msb: u8, lsb: u8) -> int {
    let w = msb * 256 + lsb;
    if w < 32768 {
        w
    } else {
        w - 65536
    }
}

/// Division that truncates toward zero (for a positive divisor), the
/// rounding used throughout the fixed-point sensor arithmetic.
pub open spec fn div_trunc(a: int, b: int) -> int {
    if a >= 0 {
        a / b
    } else {
        -((-a) / b)
    }
}

/// Combines a register's byte pair into a signed 16-bit quantity.
pub fn decode_i16_be(msb: u8, lsb: u8) -> (r: i16)
    ensures
        r as int == sign16(msb, lsb),
{
    let w: u16 = (msb as u16) * 256 + (lsb as u16);
    if w < 32768 {
        w as i16
    } else {
        ((w as i32) - 65536) as i16
    }
}

/// Truncating signed division by a positive divisor.
pub fn div_trunc_i64(a: i64, d: u64) -> (r: i64)
    requires
        d > 0,
        a > i64::MIN,
    ensures
        r == div_trunc(a as int, d as int),
{
    if a >= 0 {
        ((a as u64) / d) as i64
    } else {
        proof {
            vstd::arithmetic::div_mod::lemma_div_nonincreasing(-a, d as int);
            vstd::arithmetic::div_mod::lemma_div_pos_is_pos(-a, d as int);
        }
        -((((-a) as u64) / d) as i64)
    }
}

/// Truncating signed division by a positive divisor, on wide intermediates.
pub fn div_trunc_i128(a: i128, d: u128) -> (r: i128)
    requires
        d > 0,
        a > i128::MIN,
    ensures
        r == div_trunc(a as int, d as int),
{
    if a >= 0 {
        ((a as u128) / d) as i128
    } else {
        proof {
            vstd::arithmetic::div_mod::lemma_div_nonincreasing(-a, d as int);
            vstd::arithmetic::div_mod::lemma_div_pos_is_pos(-a, d as int);
        }
        -((((-a) as u128) / d) as i128)
    }
}

} // verus!
