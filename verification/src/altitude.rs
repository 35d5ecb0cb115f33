//! Barometric altitude from pressure: `44330 * (1 - (p / 1013.25)^0.1903)`
//! metres, evaluated in Q20 fixed point (2^20 is 1.0). The fractional
//! exponent is the 16-bit binary fraction 12473/65536 ≈ 0.1903, applied as a
//! chain of integer square roots; nonpositive pressure yields exactly zero.

use vstd::prelude::*;
use crate::div_trunc;

verus! {

/// Q20 fixed point: this value represents 1.0.
pub const Q20_ONE: u64 = 1048576;

/// Sea-level standard pressure in micro-hectopascal.
pub const SEA_LEVEL_UHPA: i64 = 1013250000;

/// Pressures above sixteen times sea level are capped before the ratio is
/// formed, keeping the Q20 chain in range; they are far outside the
/// sensor's output span.
pub const PRESSURE_CAP_UHPA: i64 = 16212000000;

/// The floor of the square root.
pub open spec fn sqrt_floor(n: nat) -> nat {
    choose|r: nat| #[trigger] (r * r) <= n < (r + 1) * (r + 1)
}

proof fn lemma_sqrt_floor_is(n: nat, r: nat)
    requires
        r * r <= n,
        n < (r + 1) * (r + 1),
    ensures
        sqrt_floor(n) == r,
{
    assert(r * r <= n < (r + 1) * (r + 1));
    let q = choose|q: nat| #[trigger] (q * q) <= n < (q + 1) * (q + 1);
    if q < r {
        assert((q + 1) * (q + 1) <= r * r) by (nonlinear_arith)
            requires
                q + 1 <= r,
        ;
        assert(false);
    } else if q > r {
        assert((r + 1) * (r + 1) <= q * q) by (nonlinear_arith)
            requires
                r + 1 <= q,
        ;
        assert(false);
    }
}

/// Binary-search integer square root.
pub fn isqrt(n: u64) -> (r: u64)
    ensures
        r * r <= n < (r + 1) * (r + 1),
        r == sqrt_floor(n as nat),
{
    let mut lo: u64 = 0;
    let mut hi: u64 = 4294967295;
    while lo < hi
        invariant
            lo <= hi <= 4294967295,
            lo * lo <= n,
            (n as int) < (hi + 1) * (hi + 1),
        decreases hi - lo,
    {
        let mid: u64 = lo + (hi - lo + 1) / 2;
        assert(mid * mid <= 4294967295int * 4294967295) by (nonlinear_arith)
            requires
                mid <= 4294967295,
        ;
        if mid * mid <= n {
            lo = mid;
        } else {
            hi = mid - 1;
        }
    }
    proof {
        lemma_sqrt_floor_is(n as nat, lo as nat);
    }
    lo
}

/// One Q20 square root: the root of `x` as a Q20 fraction.
pub open spec fn spec_sqrt_q20(x: nat) -> nat {
    sqrt_floor(x * 1048576)
}

/// Q20 square root with the range facts the power chain needs.
fn sqrt_q20(x: u64) -> (r: u64)
    requires
        x <= 16777216,
    ensures
        r == spec_sqrt_q20(x as nat),
        x <= 16777216 ==> r <= 4194304,
        x <= 4194304 ==> r <= 2097152,
        x <= 2097152 ==> r <= 2097152,
{
    let r = isqrt(x * 1048576);
    proof {
        if r > 4194304 {
            assert(4194304int * 4194304 < r * r) by (nonlinear_arith)
                requires
                    4194304 < r,
            ;
        }
        if x <= 4194304 && r > 2097152 {
            assert(2097152int * 2097152 < r * r) by (nonlinear_arith)
                requires
                    2097152 < r,
            ;
        }
    }
    r
}

/// Whether the k-th bit (most significant first) of the 16-bit exponent
/// fraction 12473/65536 is set.
pub open spec fn exp_bit(k: nat) -> bool {
    k == 3 || k == 4 || k == 9 || k == 11 || k == 12 || k == 13 || k == 16
}

/// The k-fold repeated Q20 square root of the pressure ratio.
pub open spec fn chain_x(x0: nat, k: nat) -> nat
    decreases k,
{
    if k == 0 {
        x0
    } else {
        spec_sqrt_q20(chain_x(x0, (k - 1) as nat))
    }
}

/// The partial Q20 power after the first k bits of the exponent fraction:
/// the product of the repeated roots at the set bits.
pub open spec fn chain_y(x0: nat, k: nat) -> nat
    decreases k,
{
    if k == 0 {
        1048576
    } else if exp_bit(k) {
        chain_y(x0, (k - 1) as nat) * chain_x(x0, k) / 1048576
    } else {
        chain_y(x0, (k - 1) as nat)
    }
}

spec fn xbound(j: nat) -> nat {
    if j == 0 {
        16777216
    } else if j == 1 {
        4194304
    } else {
        2097152
    }
}

spec fn ybound(j: nat) -> nat {
    if j < 3 {
        1048576
    } else if j < 4 {
        2097152
    } else if j < 9 {
        4194304
    } else if j < 11 {
        8388608
    } else if j < 12 {
        16777216
    } else if j < 13 {
        33554432
    } else if j < 16 {
        67108864
    } else {
        134217728
    }
}

/// Altitude in micro-metres from pressure in micro-hectopascal.
pub open spec fn spec_altitude_um(p_uhpa: int) -> int {
    if p_uhpa <= 0 {
        0
    } else {
        let pc = if p_uhpa > 16212000000 {
            16212000000int
        } else {
            p_uhpa
        };
        let ratio = (pc * 1048576) / 1013250000;
        let y = chain_y(ratio as nat, 16);
        div_trunc(44330 * (1048576 - y) * 1000000, 1048576)
    }
}

/// Derives altitude from compensated pressure. A nonpositive pressure is
/// guarded to exactly zero rather than handed to the power chain.
pub fn altitude_from_pressure(p_uhpa: i64) -> (r: i64)
    ensures
        r == spec_altitude_um(p_uhpa as int),
        p_uhpa <= 0 ==> r == 0,
{
    if p_uhpa <= 0 {
        return 0;
    }
    let pc: i64 = if p_uhpa > PRESSURE_CAP_UHPA {
        PRESSURE_CAP_UHPA
    } else {
        p_uhpa
    };
    let ratio: u64 = ((pc as u64) * 1048576) / 1013250000;
    proof {
        vstd::arithmetic::div_mod::lemma_div_is_ordered(
            pc as int * 1048576,
            16212000000int * 1048576,
            1013250000,
        );
    }
    let ghost x0: nat = ratio as nat;
    let mut x: u64 = ratio;
    let mut y: u64 = 1048576;
    let mut k: u64 = 1;
    while k <= 16
        invariant
            1 <= k <= 17,
            x0 <= 16777216,
            x == chain_x(x0, (k - 1) as nat),
            y == chain_y(x0, (k - 1) as nat),
            x <= xbound((k - 1) as nat),
            y <= ybound((k - 1) as nat),
        decreases 17 - k,
    {
        let xn: u64 = sqrt_q20(x);
        proof {
            assert(xn == chain_x(x0, k as nat));
            assert(xn <= xbound(k as nat));
        }
        if k == 3 || k == 4 || k == 9 || k == 11 || k == 12 || k == 13 || k == 16 {
            proof {
                lemma_y_step_bound(y as nat, xn as nat, (k - 1) as nat);
            }
            y = (y * xn) / 1048576;
            proof {
                assert(exp_bit(k as nat));
                assert(y == chain_y(x0, k as nat));
                assert(y <= ybound(k as nat));
            }
        } else {
            proof {
                assert(!exp_bit(k as nat));
                assert(y == chain_y(x0, k as nat));
                assert(y <= ybound(k as nat));
            }
        }
        x = xn;
        k = k + 1;
    }
    let ghost yv: int = chain_y(x0, 16) as int;
    let alt: i64;
    if y <= 1048576 {
        let diff: u64 = 1048576 - y;
        let num: u64 = 44330 * diff * 1000000;
        proof {
            assert(num as int == 44330 * (1048576 - yv) * 1000000);
            vstd::arithmetic::div_mod::lemma_div_pos_is_pos(num as int, 1048576);
            vstd::arithmetic::div_mod::lemma_div_is_ordered(
                num as int,
                46483374080000000,
                1048576,
            );
        }
        alt = (num / 1048576) as i64;
        assert(alt == div_trunc(44330 * (1048576 - yv) * 1000000, 1048576));
    } else {
        let diff: u64 = y - 1048576;
        let num: u64 = 44330 * diff * 1000000;
        proof {
            assert(num as int == -(44330 * (1048576 - yv) * 1000000));
            vstd::arithmetic::div_mod::lemma_div_pos_is_pos(num as int, 1048576);
            vstd::arithmetic::div_mod::lemma_div_is_ordered(
                num as int,
                5903388508160000000,
                1048576,
            );
        }
        alt = -((num / 1048576) as i64);
        assert(alt == div_trunc(44330 * (1048576 - yv) * 1000000, 1048576));
    }
    alt
}

proof fn lemma_y_step_bound(y: nat, x: nat, j: nat)
    requires
        y <= ybound(j),
        x <= 2097152,
        j <= 15,
    ensures
        y * x <= 281474976710656,
        y * x / 1048576 <= 2 * ybound(j),
{
    let b = ybound(j) as int;
    assert(b <= 134217728);
    vstd::arithmetic::mul::lemma_mul_upper_bound(y as int, b, x as int, 2097152);
    assert(b * 2097152 == 1048576 * (2 * b));
    vstd::arithmetic::div_mod::lemma_div_is_ordered((y * x) as int, b * 2097152, 1048576);
    vstd::arithmetic::div_mod::lemma_div_multiples_vanish(2 * b, 1048576);
}

} // verus!
