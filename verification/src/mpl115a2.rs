//! MPL115A2 barometric pressure sensor: calibration-coefficient decoding and
//! the vendor compensation polynomial, in fixed-point integer arithmetic.
//!
//! Coefficient values and readings are exact rationals over power-of-two
//! divisors; compensated results are carried in micro-units (one millionth of
//! the physical unit), rounded toward zero.

use vstd::prelude::*;
use crate::{decode_i16_be, div_trunc, div_trunc_i128, div_trunc_i64, sign16};

verus! {

pub const MPL115A2_ADDRESS: u8 = 0x60;

// MPL115A2 register addresses
pub const REGISTER_PRESSURE_MSB: u8 = 0x00;
pub const REGISTER_PRESSURE_LSB: u8 = 0x01;
pub const REGISTER_TEMP_MSB: u8 = 0x02;
pub const REGISTER_TEMP_LSB: u8 = 0x03;
pub const REGISTER_A0_COEFF_MSB: u8 = 0x04;
pub const REGISTER_A0_COEFF_LSB: u8 = 0x05;
pub const REGISTER_B1_COEFF_MSB: u8 = 0x06;
pub const REGISTER_B1_COEFF_LSB: u8 = 0x07;
pub const REGISTER_B2_COEFF_MSB: u8 = 0x08;
pub const REGISTER_B2_COEFF_LSB: u8 = 0x09;
pub const REGISTER_C12_COEFF_MSB: u8 = 0x0A;
pub const REGISTER_C12_COEFF_LSB: u8 = 0x0B;
pub const REGISTER_START_CONVERSION: u8 = 0x12;

/// Milliseconds to wait after a start-conversion command before reading.
pub const CONVERSION_SETTLE_MS: u64 = 5;

// Scale divisors of the signed raw coefficients: a coefficient's value is
// raw / divisor.
pub const A0_DIVISOR: i64 = 8;
pub const B1_DIVISOR: i64 = 8192;
pub const B2_DIVISOR: i64 = 16384;
pub const C12_DIVISOR: i64 = 4194304;

/// The four factory calibration coefficients, kept as the raw signed 16-bit
/// register values; the value of each is raw / divisor.
#[derive(Clone, Copy, Debug, PartialEq, Eq, Structural)]
pub struct CalibrationCoefficients {
    pub a0_raw: i16,
    pub b1_raw: i16,
    pub b2_raw: i16,
    pub c12_raw: i16,
}

/// A compensated reading: pressure in micro-hectopascal, temperature in
/// micro-degrees Celsius.
#[derive(Clone, Copy, Debug, PartialEq, Eq, Structural)]
pub struct PressureReading {
    pub pressure_uhpa: i64,
    pub temperature_uc: i64,
}

/// The barometric sensor, after its coefficients have been decoded.
#[derive(Clone, Copy, Debug, PartialEq, Eq, Structural)]
pub struct MPL115A2 {
    pub coefficients: CalibrationCoefficients,
}

/// The raw register bytes of one pressure/temperature conversion.
#[derive(Clone, Copy, Debug, PartialEq, Eq, Structural)]
pub struct RawPressureSample {
    pub pressure_msb: u8,
    pub pressure_lsb: u8,
    pub temp_msb: u8,
    pub temp_lsb: u8,
}

/// A 10-bit ADC count reconstructed from its register byte pair.
pub open spec fn adc10(msb: u8, lsb: u8) -> int {
    msb * 4 + lsb / 64
}

/// Numerator of the compensation polynomial
/// `A0 + (B1 + C12 * T_adc) * P_adc + B2 * T_adc` over the common
/// denominator 2^22, with each coefficient as raw / divisor.
pub open spec fn comp_numer(c: CalibrationCoefficients, p_adc: int, t_adc: int) -> int {
    c.a0_raw * 524288 + (c.b1_raw * 512 + c.c12_raw * t_adc) * p_adc + c.b2_raw * 256 * t_adc
}

/// Compensated pressure in micro-hectopascal: the polynomial rescaled to the
/// sensor's 50..115 kPa output range, `(comp * 65 / 1023 + 50) kPa`.
pub open spec fn spec_pressure_uhpa(c: CalibrationCoefficients, p_adc: int, t_adc: int) -> int {
    div_trunc(comp_numer(c, p_adc, t_adc) * 650000000, 4290772992) + 500000000
}

/// Temperature in micro-degrees Celsius from the documented linear fit
/// `(T_adc - 498) / -5.35 + 25`, with the slope as the exact ratio 107/20.
pub open spec fn spec_temperature_uc(t_adc: int) -> int {
    25000000 + div_trunc((498 - t_adc) * 20000000, 107)
}

impl MPL115A2 {
    /// Decodes the four signed 16-bit calibration coefficients from their
    /// register byte pairs, combined as `(msb << 8) | lsb`.
    pub fn read_calibration_coefficients(
        a0_msb: u8,
        a0_lsb: u8,
        b1_msb: u8,
        b1_lsb: u8,
        b2_msb: u8,
        b2_lsb: u8,
        c12_msb: u8,
        c12_lsb: u8,
    ) -> (c: CalibrationCoefficients)
        ensures
            c.a0_raw == sign16(a0_msb, a0_lsb),
            c.b1_raw == sign16(b1_msb, b1_lsb),
            c.b2_raw == sign16(b2_msb, b2_lsb),
            c.c12_raw == sign16(c12_msb, c12_lsb),
    {
        CalibrationCoefficients {
            a0_raw: decode_i16_be(a0_msb, a0_lsb),
            b1_raw: decode_i16_be(b1_msb, b1_lsb),
            b2_raw: decode_i16_be(b2_msb, b2_lsb),
            c12_raw: decode_i16_be(c12_msb, c12_lsb),
        }
    }

    /// Builds the sensor from the eight coefficient register bytes.
    pub fn new(
        a0_msb: u8,
        a0_lsb: u8,
        b1_msb: u8,
        b1_lsb: u8,
        b2_msb: u8,
        b2_lsb: u8,
        c12_msb: u8,
        c12_lsb: u8,
    ) -> (s: Self)
        ensures
            s.coefficients.a0_raw == sign16(a0_msb, a0_lsb),
            s.coefficients.b1_raw == sign16(b1_msb, b1_lsb),
            s.coefficients.b2_raw == sign16(b2_msb, b2_lsb),
            s.coefficients.c12_raw == sign16(c12_msb, c12_lsb),
    {
        MPL115A2 {
            coefficients: Self::read_calibration_coefficients(
                a0_msb, a0_lsb, b1_msb, b1_lsb, b2_msb, b2_lsb, c12_msb, c12_lsb,
            ),
        }
    }

    /// Applies the compensation polynomial to one conversion's raw register
    /// bytes. Each raw count is the 10-bit quantity `(msb << 2) | (lsb >> 6)`.
    pub fn read_pressure(
        &self,
        pressure_msb: u8,
        pressure_lsb: u8,
        temp_msb: u8,
        temp_lsb: u8,
    ) -> (r: PressureReading)
        ensures
            r.pressure_uhpa == spec_pressure_uhpa(
                self.coefficients,
                adc10(pressure_msb, pressure_lsb),
                adc10(temp_msb, temp_lsb),
            ),
            r.temperature_uc == spec_temperature_uc(adc10(temp_msb, temp_lsb)),
    {
        let p_adc: i64 = (pressure_msb as i64) * 4 + (pressure_lsb as i64) / 64;
        let t_adc: i64 = (temp_msb as i64) * 4 + (temp_lsb as i64) / 64;
        let a0: i64 = self.coefficients.a0_raw as i64;
        let b1: i64 = self.coefficients.b1_raw as i64;
        let b2: i64 = self.coefficients.b2_raw as i64;
        let c12: i64 = self.coefficients.c12_raw as i64;

        assert(-33521664 <= c12 * t_adc <= 33520641) by (nonlinear_arith)
            requires
                -32768 <= c12 <= 32767,
                0 <= t_adc <= 1023,
        ;
        let inner: i64 = b1 * 512 + c12 * t_adc;
        assert(-51505397760 <= inner * p_adc <= 51503825343) by (nonlinear_arith)
            requires
                -50298880 <= inner <= 50297473,
                0 <= p_adc <= 1023,
        ;
        assert(-8581545984 <= b2 * 256 * t_adc <= 8581284096) by (nonlinear_arith)
            requires
                -32768 <= b2 <= 32767,
                0 <= t_adc <= 1023,
        ;
        let numer: i64 = a0 * 524288 + inner * p_adc + b2 * 256 * t_adc;

        let pressure_uhpa: i64 =
            div_trunc_i128((numer as i128) * 650000000, 4290772992) as i64 + 500000000;
        proof {
            let q = div_trunc(numer as int * 650000000, 4290772992);
            if numer >= 0 {
                vstd::arithmetic::div_mod::lemma_div_is_ordered(
                    numer as int * 650000000,
                    77873504256000000000,
                    4290772992,
                );
                vstd::arithmetic::div_mod::lemma_div_pos_is_pos(
                    numer as int * 650000000,
                    4290772992,
                );
            } else {
                vstd::arithmetic::div_mod::lemma_div_is_ordered(
                    -(numer as int) * 650000000,
                    77873504256000000000,
                    4290772992,
                );
                vstd::arithmetic::div_mod::lemma_div_pos_is_pos(
                    -(numer as int) * 650000000,
                    4290772992,
                );
            }
            assert(-18150000000 <= q <= 18150000000);
        }

        let temperature_uc: i64 = 25000000 + div_trunc_i64((498 - t_adc) * 20000000, 107);
        proof {
            let t = div_trunc((498 - t_adc) * 20000000, 107);
            if 498 - t_adc >= 0 {
                vstd::arithmetic::div_mod::lemma_div_is_ordered(
                    (498 - t_adc) * 20000000,
                    9960000000,
                    107,
                );
                vstd::arithmetic::div_mod::lemma_div_pos_is_pos((498 - t_adc) * 20000000, 107);
            } else {
                vstd::arithmetic::div_mod::lemma_div_is_ordered(
                    -((498 - t_adc) * 20000000),
                    10500000000,
                    107,
                );
                vstd::arithmetic::div_mod::lemma_div_pos_is_pos(
                    -((498 - t_adc) * 20000000),
                    107,
                );
            }
            assert(-100000000 <= t <= 100000000);
        }

        PressureReading { pressure_uhpa, temperature_uc }
    }

    /// The reading that `read_sample` decodes from one conversion's bytes.
    pub open spec fn read_pressure_spec(self, raw: RawPressureSample) -> PressureReading {
        PressureReading {
            pressure_uhpa: spec_pressure_uhpa(
                self.coefficients,
                adc10(raw.pressure_msb, raw.pressure_lsb),
                adc10(raw.temp_msb, raw.temp_lsb),
            ) as i64,
            temperature_uc: spec_temperature_uc(adc10(raw.temp_msb, raw.temp_lsb)) as i64,
        }
    }

    /// `read_pressure` on the bytes of one raw sample.
    pub fn read_sample(&self, raw: &RawPressureSample) -> (r: PressureReading)
        ensures
            r == self.read_pressure_spec(*raw),
    {
        self.read_pressure(raw.pressure_msb, raw.pressure_lsb, raw.temp_msb, raw.temp_lsb)
    }
}

proof fn lemma_round_trip_nonneg(raw: int, d: int)
    requires
        0 <= raw,
        0 < d,
    ensures
        ({
            let scaled = (raw * 1000000) / d;
            let recovered = (scaled * d) / 1000000;
            0 <= (raw - recovered) * 1000000 < d + 1000000
        }),
{
    let x = raw * 1000000;
    let scaled = x / d;
    vstd::arithmetic::div_mod::lemma_fundamental_div_mod(x, d);
    vstd::arithmetic::div_mod::lemma_mod_bound(x, d);
    let r1 = x % d;
    vstd::arithmetic::mul::lemma_mul_is_commutative(scaled, d);
    let y = scaled * d;
    vstd::arithmetic::div_mod::lemma_fundamental_div_mod(y, 1000000);
    vstd::arithmetic::div_mod::lemma_mod_bound(y, 1000000);
    let recovered = y / 1000000;
    let r2 = y % 1000000;
    assert((raw - recovered) * 1000000 == r1 + r2);
}

/// Coefficient decoding is a pure deterministic mapping of the raw signed
/// 16-bit register value, and round-tripping a coefficient through the
/// scale-and-unscale arithmetic (to micro-units and back by its divisor)
/// recovers the raw integer to within the fixed-point rounding tolerance of
/// one scale step.
pub proof fn lemma_coefficient_round_trip(raw: int, divisor: int)
    requires
        -32768 <= raw <= 32767,
        divisor == A0_DIVISOR || divisor == B1_DIVISOR || divisor == B2_DIVISOR || divisor
            == C12_DIVISOR,
    ensures
        ({
            let scaled = div_trunc(raw * 1000000, divisor);
            let recovered = div_trunc(scaled * divisor, 1000000);
            -(divisor + 1000000) < (recovered - raw) * 1000000 < divisor + 1000000
        }),
{
    if raw >= 0 {
        lemma_round_trip_nonneg(raw, divisor);
        let scaled = (raw * 1000000) / divisor;
        vstd::arithmetic::div_mod::lemma_div_pos_is_pos(raw * 1000000, divisor);
        vstd::arithmetic::mul::lemma_mul_nonnegative(scaled, divisor);
        assert(div_trunc(raw * 1000000, divisor) == scaled);
        assert(div_trunc(scaled * divisor, 1000000) == (scaled * divisor) / 1000000);
    } else {
        let m = -raw;
        lemma_round_trip_nonneg(m, divisor);
        let s = (m * 1000000) / divisor;
        let r = (s * divisor) / 1000000;
        vstd::arithmetic::div_mod::lemma_div_pos_is_pos(m * 1000000, divisor);
        vstd::arithmetic::mul::lemma_mul_nonnegative(s, divisor);
        assert(-(raw * 1000000) == m * 1000000);
        assert(div_trunc(raw * 1000000, divisor) == -s);
        vstd::arithmetic::mul::lemma_mul_unary_negation(s, divisor);
        assert((-s) * divisor == -(s * divisor));
        if s * divisor == 0 {
            assert(div_trunc((-s) * divisor, 1000000) == -r);
        } else {
            assert(div_trunc((-s) * divisor, 1000000) == -r);
        }
        assert((r - m) * 1000000 == -((-r - raw) * 1000000));
    }
}

} // verus!
