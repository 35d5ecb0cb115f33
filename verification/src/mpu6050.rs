//! MPU6050 6-axis motion sensor: initialization sequence, identity check,
//! sensitivity configuration, register decoding and averaging calibration, in
//! fixed-point integer arithmetic (micro-units, rounded toward zero).

use vstd::prelude::*;
use crate::{div_trunc, div_trunc_i128, div_trunc_i64};

verus! {

pub const MPU6050_ADDRESS: u8 = 0x68;
pub const MPU6050_ADDRESS_ALT: u8 = 0x69;

// MPU6050 register addresses
pub const REGISTER_SMPLRT_DIV: u8 = 0x19;
pub const REGISTER_CONFIG: u8 = 0x1A;
pub const REGISTER_GYRO_CONFIG: u8 = 0x1B;
pub const REGISTER_ACCEL_CONFIG: u8 = 0x1C;
pub const REGISTER_ACCEL_XOUT_H: u8 = 0x3B;
pub const REGISTER_ACCEL_YOUT_H: u8 = 0x3D;
pub const REGISTER_ACCEL_ZOUT_H: u8 = 0x3F;
pub const REGISTER_TEMP_OUT_H: u8 = 0x41;
pub const REGISTER_GYRO_XOUT_H: u8 = 0x43;
pub const REGISTER_GYRO_YOUT_H: u8 = 0x45;
pub const REGISTER_GYRO_ZOUT_H: u8 = 0x47;
pub const REGISTER_PWR_MGMT_1: u8 = 0x6B;
pub const REGISTER_WHO_AM_I: u8 = 0x75;

// Configuration values
pub const PWR_MGMT_1_RESET: u8 = 0x80;
pub const PWR_MGMT_1_CLKSEL_PLL_X: u8 = 0x01;
pub const SMPLRT_DIV_125HZ: u8 = 0x07;
pub const CONFIG_DLPF_5HZ: u8 = 0x06;
pub const WHO_AM_I_EXPECTED: u8 = 0x68;

/// Milliseconds to wait after the reset command before configuring.
pub const RESET_SETTLE_MS: u64 = 100;

/// Milliseconds between two calibration samples.
pub const CALIBRATION_SAMPLE_DELAY_MS: u64 = 10;

/// Standard gravity in micro-metres per second squared.
pub const STANDARD_GRAVITY_UMS2: i64 = 9806650;

/// Three-axis acceleration in micro-metres per second squared.
#[derive(Clone, Copy, Debug, PartialEq, Eq, Structural)]
pub struct AccelerometerReading {
    pub x: i64,
    pub y: i64,
    pub z: i64,
}

/// Three-axis angular rate in micro-degrees per second.
#[derive(Clone, Copy, Debug, PartialEq, Eq, Structural)]
pub struct GyroscopeReading {
    pub x: i64,
    pub y: i64,
    pub z: i64,
}

/// One full reading: acceleration, angular rate and die temperature
/// (micro-degrees Celsius).
#[derive(Clone, Copy, Debug, PartialEq, Eq, Structural)]
pub struct MotionReading {
    pub accelerometer: AccelerometerReading,
    pub gyroscope: GyroscopeReading,
    pub temperature: i64,
}

/// The raw signed 16-bit register values of one conversion.
#[derive(Clone, Copy, Debug, PartialEq, Eq, Structural)]
pub struct RawMotionSample {
    pub accel_x: i16,
    pub accel_y: i16,
    pub accel_z: i16,
    pub gyro_x: i16,
    pub gyro_y: i16,
    pub gyro_z: i16,
    pub temperature: i16,
}

/// One register write of the initialization or configuration sequence.
#[derive(Clone, Copy, Debug, PartialEq, Eq, Structural)]
pub struct RegisterWrite {
    pub register: u8,
    pub value: u8,
}

/// The explicit initialization failure: the identity register did not hold
/// the expected value, so a wrong or absent device sits at that address.
#[derive(Clone, Copy, Debug, PartialEq, Eq, Structural)]
pub enum MotionInitError {
    IdentityMismatch { found: u8 },
}

/// Accelerometer full-scale range codes.
#[allow(non_camel_case_types)]
#[derive(Clone, Copy, Debug, PartialEq, Eq, Structural)]
pub enum AccelSensitivity {
    AFS_SEL_2G,
    AFS_SEL_4G,
    AFS_SEL_8G,
    AFS_SEL_16G,
}

/// Gyroscope full-scale range codes.
#[allow(non_camel_case_types)]
#[derive(Clone, Copy, Debug, PartialEq, Eq, Structural)]
pub enum GyroSensitivity {
    FS_SEL_250DPS,
    FS_SEL_500DPS,
    FS_SEL_1000DPS,
    FS_SEL_2000DPS,
}

impl AccelSensitivity {
    /// The configuration register bits selecting this range.
    pub open spec fn spec_config_bits(self) -> u8 {
        match self {
            AccelSensitivity::AFS_SEL_2G => 0x00,
            AccelSensitivity::AFS_SEL_4G => 0x08,
            AccelSensitivity::AFS_SEL_8G => 0x10,
            AccelSensitivity::AFS_SEL_16G => 0x18,
        }
    }

    pub fn config_bits(self) -> (r: u8)
        ensures
            r == self.spec_config_bits(),
    {
        match self {
            AccelSensitivity::AFS_SEL_2G => 0x00,
            AccelSensitivity::AFS_SEL_4G => 0x08,
            AccelSensitivity::AFS_SEL_8G => 0x10,
            AccelSensitivity::AFS_SEL_16G => 0x18,
        }
    }

    /// LSB count per standard-gravity unit at this range.
    pub open spec fn spec_lsb_per_g(self) -> u32 {
        match self {
            AccelSensitivity::AFS_SEL_2G => 16384,
            AccelSensitivity::AFS_SEL_4G => 8192,
            AccelSensitivity::AFS_SEL_8G => 4096,
            AccelSensitivity::AFS_SEL_16G => 2048,
        }
    }

    pub fn lsb_per_g(self) -> (r: u32)
        ensures
            r == self.spec_lsb_per_g(),
    {
        match self {
            AccelSensitivity::AFS_SEL_2G => 16384,
            AccelSensitivity::AFS_SEL_4G => 8192,
            AccelSensitivity::AFS_SEL_8G => 4096,
            AccelSensitivity::AFS_SEL_16G => 2048,
        }
    }
}

impl GyroSensitivity {
    /// The configuration register bits selecting this range.
    pub open spec fn spec_config_bits(self) -> u8 {
        match self {
            GyroSensitivity::FS_SEL_250DPS => 0x00,
            GyroSensitivity::FS_SEL_500DPS => 0x08,
            GyroSensitivity::FS_SEL_1000DPS => 0x10,
            GyroSensitivity::FS_SEL_2000DPS => 0x18,
        }
    }

    pub fn config_bits(self) -> (r: u8)
        ensures
            r == self.spec_config_bits(),
    {
        match self {
            GyroSensitivity::FS_SEL_250DPS => 0x00,
            GyroSensitivity::FS_SEL_500DPS => 0x08,
            GyroSensitivity::FS_SEL_1000DPS => 0x10,
            GyroSensitivity::FS_SEL_2000DPS => 0x18,
        }
    }

    /// Ten times the LSB count per degree-per-second at this range (the
    /// sensitivities 131, 65.5, 32.8 and 16.4 LSB/(°/s) as exact tenths).
    pub open spec fn spec_lsb_per_dps_tenths(self) -> u32 {
        match self {
            GyroSensitivity::FS_SEL_250DPS => 1310,
            GyroSensitivity::FS_SEL_500DPS => 655,
            GyroSensitivity::FS_SEL_1000DPS => 328,
            GyroSensitivity::FS_SEL_2000DPS => 164,
        }
    }

    pub fn lsb_per_dps_tenths(self) -> (r: u32)
        ensures
            r == self.spec_lsb_per_dps_tenths(),
    {
        match self {
            GyroSensitivity::FS_SEL_250DPS => 1310,
            GyroSensitivity::FS_SEL_500DPS => 655,
            GyroSensitivity::FS_SEL_1000DPS => 328,
            GyroSensitivity::FS_SEL_2000DPS => 164,
        }
    }
}

/// Acceleration of one axis in micro-m/s²: `raw / lsb_per_g * 9.80665`.
pub open spec fn spec_accel_ums2(raw: int, lsb_per_g: int) -> int {
    div_trunc(raw * 9806650, lsb_per_g)
}

/// Angular rate of one axis in micro-°/s: `raw / (lsb_tenths / 10)`.
pub open spec fn spec_gyro_udps(raw: int, lsb_tenths: int) -> int {
    div_trunc(raw * 10000000, lsb_tenths)
}

/// Die temperature in micro-°C: `raw / 340 + 36.53`.
pub open spec fn spec_temp_uc(raw: int) -> int {
    div_trunc(raw * 1000000, 340) + 36530000
}

impl MotionReading {
    /// Bounds that every decoded reading satisfies, whatever the raw
    /// registers held: they keep later averaging free of overflow.
    pub open spec fn wf(self) -> bool {
        &&& -160000000 <= self.accelerometer.x <= 160000000
        &&& -160000000 <= self.accelerometer.y <= 160000000
        &&& -160000000 <= self.accelerometer.z <= 160000000
        &&& -2000000000 <= self.gyroscope.x <= 2000000000
        &&& -2000000000 <= self.gyroscope.y <= 2000000000
        &&& -2000000000 <= self.gyroscope.z <= 2000000000
        &&& -200000000 <= self.temperature <= 200000000
    }
}

/// The motion sensor: configured ranges together with the scale factors that
/// decoding uses. Well-formedness ties the two together: a range and its
/// scale factor are only ever updated as one.
#[derive(Clone, Copy, Debug, PartialEq, Eq, Structural)]
pub struct MPU6050 {
    pub address: u8,
    pub accel_sensitivity: AccelSensitivity,
    pub gyro_sensitivity: GyroSensitivity,
    pub accel_scale: u32,
    pub gyro_scale_tenths: u32,
}

impl MPU6050 {
    /// The in-memory scale factors match the configured sensitivities.
    pub open spec fn wf(self) -> bool {
        &&& self.accel_scale == self.accel_sensitivity.spec_lsb_per_g()
        &&& self.gyro_scale_tenths == self.gyro_sensitivity.spec_lsb_per_dps_tenths()
    }

    /// A sensor in its default configuration: ±2 g and ±250 °/s.
    pub fn new(use_alt_address: bool) -> (s: Self)
        ensures
            s.wf(),
            s.address == if use_alt_address {
                MPU6050_ADDRESS_ALT
            } else {
                MPU6050_ADDRESS
            },
            s.accel_sensitivity == AccelSensitivity::AFS_SEL_2G,
            s.gyro_sensitivity == GyroSensitivity::FS_SEL_250DPS,
    {
        let address: u8 = if use_alt_address {
            MPU6050_ADDRESS_ALT
        } else {
            MPU6050_ADDRESS
        };
        MPU6050 {
            address,
            accel_sensitivity: AccelSensitivity::AFS_SEL_2G,
            gyro_sensitivity: GyroSensitivity::FS_SEL_250DPS,
            accel_scale: 16384,
            gyro_scale_tenths: 1310,
        }
    }

    /// The register writes of the initialization sequence, in order: reset
    /// (after which the caller waits `RESET_SETTLE_MS`), clock source,
    /// gyroscope and accelerometer ranges, sample-rate divider, low-pass
    /// filter. The identity register is checked afterwards with
    /// `verify_identity`.
    pub open spec fn spec_initialize(self) -> Seq<RegisterWrite> {
        seq![
            (RegisterWrite { register: REGISTER_PWR_MGMT_1, value: PWR_MGMT_1_RESET }),
            (RegisterWrite { register: REGISTER_PWR_MGMT_1, value: PWR_MGMT_1_CLKSEL_PLL_X }),
            (RegisterWrite {
                register: REGISTER_GYRO_CONFIG,
                value: self.gyro_sensitivity.spec_config_bits(),
            }),
            (RegisterWrite {
                register: REGISTER_ACCEL_CONFIG,
                value: self.accel_sensitivity.spec_config_bits(),
            }),
            (RegisterWrite { register: REGISTER_SMPLRT_DIV, value: SMPLRT_DIV_125HZ }),
            (RegisterWrite { register: REGISTER_CONFIG, value: CONFIG_DLPF_5HZ }),
        ]
    }

    pub fn initialize(&self) -> (writes: Vec<RegisterWrite>)
        ensures
            writes@ == self.spec_initialize(),
    {
        let mut writes: Vec<RegisterWrite> = Vec::new();
        writes.push(RegisterWrite { register: REGISTER_PWR_MGMT_1, value: PWR_MGMT_1_RESET });
        writes.push(
            RegisterWrite { register: REGISTER_PWR_MGMT_1, value: PWR_MGMT_1_CLKSEL_PLL_X },
        );
        writes.push(
            RegisterWrite {
                register: REGISTER_GYRO_CONFIG,
                value: self.gyro_sensitivity.config_bits(),
            },
        );
        writes.push(
            RegisterWrite {
                register: REGISTER_ACCEL_CONFIG,
                value: self.accel_sensitivity.config_bits(),
            },
        );
        writes.push(RegisterWrite { register: REGISTER_SMPLRT_DIV, value: SMPLRT_DIV_125HZ });
        writes.push(RegisterWrite { register: REGISTER_CONFIG, value: CONFIG_DLPF_5HZ });
        proof {
            assert(writes@ =~= self.spec_initialize());
        }
        writes
    }

    /// Checks the identity register: a mismatch is the distinct
    /// wrong-or-absent-device error, not a bus failure.
    pub fn verify_identity(who_am_i: u8) -> (r: Result<(), MotionInitError>)
        ensures
            r is Ok <==> who_am_i == WHO_AM_I_EXPECTED,
            r is Err ==> r == Result::<(), MotionInitError>::Err(
                MotionInitError::IdentityMismatch { found: who_am_i },
            ),
    {
        if who_am_i == WHO_AM_I_EXPECTED {
            Ok(())
        } else {
            Err(MotionInitError::IdentityMismatch { found: who_am_i })
        }
    }

    /// Selects the accelerometer range and updates the in-memory scale
    /// factor with it; the returned register write configures the device.
    pub fn set_accel_sensitivity(&mut self, sensitivity: AccelSensitivity) -> (w: RegisterWrite)
        ensures
            final(self).accel_sensitivity == sensitivity,
            final(self).accel_scale == sensitivity.spec_lsb_per_g(),
            final(self).gyro_sensitivity == old(self).gyro_sensitivity,
            final(self).gyro_scale_tenths == old(self).gyro_scale_tenths,
            final(self).address == old(self).address,
            old(self).wf() ==> final(self).wf(),
            w == (RegisterWrite {
                register: REGISTER_ACCEL_CONFIG,
                value: sensitivity.spec_config_bits(),
            }),
    {
        self.accel_sensitivity = sensitivity;
        self.accel_scale = sensitivity.lsb_per_g();
        RegisterWrite { register: REGISTER_ACCEL_CONFIG, value: sensitivity.config_bits() }
    }

    /// Selects the gyroscope range and updates the in-memory scale factor
    /// with it; the returned register write configures the device.
    pub fn set_gyro_sensitivity(&mut self, sensitivity: GyroSensitivity) -> (w: RegisterWrite)
        ensures
            final(self).gyro_sensitivity == sensitivity,
            final(self).gyro_scale_tenths == sensitivity.spec_lsb_per_dps_tenths(),
            final(self).accel_sensitivity == old(self).accel_sensitivity,
            final(self).accel_scale == old(self).accel_scale,
            final(self).address == old(self).address,
            old(self).wf() ==> final(self).wf(),
            w == (RegisterWrite {
                register: REGISTER_GYRO_CONFIG,
                value: sensitivity.spec_config_bits(),
            }),
    {
        self.gyro_sensitivity = sensitivity;
        self.gyro_scale_tenths = sensitivity.lsb_per_dps_tenths();
        RegisterWrite { register: REGISTER_GYRO_CONFIG, value: sensitivity.config_bits() }
    }

    /// Decodes a three-axis acceleration sample at the active range.
    pub fn read_accelerometer(&self, x_raw: i16, y_raw: i16, z_raw: i16) -> (r:
        AccelerometerReading)
        requires
            self.wf(),
        ensures
            r.x == spec_accel_ums2(x_raw as int, self.accel_scale as int),
            r.y == spec_accel_ums2(y_raw as int, self.accel_scale as int),
            r.z == spec_accel_ums2(z_raw as int, self.accel_scale as int),
            -160000000 <= r.x <= 160000000,
            -160000000 <= r.y <= 160000000,
            -160000000 <= r.z <= 160000000,
    {
        proof {
            lemma_accel_axis_bound(x_raw as int, self.accel_scale as int);
            lemma_accel_axis_bound(y_raw as int, self.accel_scale as int);
            lemma_accel_axis_bound(z_raw as int, self.accel_scale as int);
        }
        AccelerometerReading {
            x: div_trunc_i64((x_raw as i64) * 9806650, self.accel_scale as u64),
            y: div_trunc_i64((y_raw as i64) * 9806650, self.accel_scale as u64),
            z: div_trunc_i64((z_raw as i64) * 9806650, self.accel_scale as u64),
        }
    }

    /// Decodes a three-axis angular-rate sample at the active range.
    pub fn read_gyroscope(&self, x_raw: i16, y_raw: i16, z_raw: i16) -> (r: GyroscopeReading)
        requires
            self.wf(),
        ensures
            r.x == spec_gyro_udps(x_raw as int, self.gyro_scale_tenths as int),
            r.y == spec_gyro_udps(y_raw as int, self.gyro_scale_tenths as int),
            r.z == spec_gyro_udps(z_raw as int, self.gyro_scale_tenths as int),
            -2000000000 <= r.x <= 2000000000,
            -2000000000 <= r.y <= 2000000000,
            -2000000000 <= r.z <= 2000000000,
    {
        proof {
            lemma_gyro_axis_bound(x_raw as int, self.gyro_scale_tenths as int);
            lemma_gyro_axis_bound(y_raw as int, self.gyro_scale_tenths as int);
            lemma_gyro_axis_bound(z_raw as int, self.gyro_scale_tenths as int);
        }
        GyroscopeReading {
            x: div_trunc_i64((x_raw as i64) * 10000000, self.gyro_scale_tenths as u64),
            y: div_trunc_i64((y_raw as i64) * 10000000, self.gyro_scale_tenths as u64),
            z: div_trunc_i64((z_raw as i64) * 10000000, self.gyro_scale_tenths as u64),
        }
    }

    /// Decodes the die-temperature register.
    pub fn read_temperature(&self, raw: i16) -> (r: i64)
        ensures
            r == spec_temp_uc(raw as int),
            -200000000 <= r <= 200000000,
    {
        proof {
            lemma_temp_bound(raw as int);
        }
        div_trunc_i64((raw as i64) * 1000000, 340) + 36530000
    }

    /// Composes one full reading from a raw sample; there are no partial
    /// readings, the caller fails the whole read when any register read
    /// failed.
    pub fn read_all(&self, sample: &RawMotionSample) -> (r: MotionReading)
        requires
            self.wf(),
        ensures
            r == self.read_all_spec(*sample),
            r.wf(),
    {
        MotionReading {
            accelerometer: self.read_accelerometer(sample.accel_x, sample.accel_y, sample.accel_z),
            gyroscope: self.read_gyroscope(sample.gyro_x, sample.gyro_y, sample.gyro_z),
            temperature: self.read_temperature(sample.temperature),
        }
    }

    /// The acceleration that `read_all` decodes from a raw sample.
    pub open spec fn read_accelerometer_spec(self, sample: RawMotionSample) -> AccelerometerReading {
        AccelerometerReading {
            x: spec_accel_ums2(sample.accel_x as int, self.accel_scale as int) as i64,
            y: spec_accel_ums2(sample.accel_y as int, self.accel_scale as int) as i64,
            z: spec_accel_ums2(sample.accel_z as int, self.accel_scale as int) as i64,
        }
    }

    /// The angular rate that `read_all` decodes from a raw sample.
    pub open spec fn read_gyroscope_spec(self, sample: RawMotionSample) -> GyroscopeReading {
        GyroscopeReading {
            x: spec_gyro_udps(sample.gyro_x as int, self.gyro_scale_tenths as int) as i64,
            y: spec_gyro_udps(sample.gyro_y as int, self.gyro_scale_tenths as int) as i64,
            z: spec_gyro_udps(sample.gyro_z as int, self.gyro_scale_tenths as int) as i64,
        }
    }

    /// The full reading that `read_all` decodes from a raw sample.
    pub open spec fn read_all_spec(self, sample: RawMotionSample) -> MotionReading {
        MotionReading {
            accelerometer: self.read_accelerometer_spec(sample),
            gyroscope: self.read_gyroscope_spec(sample),
            temperature: spec_temp_uc(sample.temperature as int) as i64,
        }
    }
}

pub open spec fn sum_accel_x(s: Seq<MotionReading>) -> int
    decreases s.len(),
{
    if s.len() == 0 {
        0
    } else {
        sum_accel_x(s.drop_last()) + s.last().accelerometer.x
    }
}

pub open spec fn sum_accel_y(s: Seq<MotionReading>) -> int
    decreases s.len(),
{
    if s.len() == 0 {
        0
    } else {
        sum_accel_y(s.drop_last()) + s.last().accelerometer.y
    }
}

pub open spec fn sum_accel_z(s: Seq<MotionReading>) -> int
    decreases s.len(),
{
    if s.len() == 0 {
        0
    } else {
        sum_accel_z(s.drop_last()) + s.last().accelerometer.z
    }
}

pub open spec fn sum_gyro_x(s: Seq<MotionReading>) -> int
    decreases s.len(),
{
    if s.len() == 0 {
        0
    } else {
        sum_gyro_x(s.drop_last()) + s.last().gyroscope.x
    }
}

pub open spec fn sum_gyro_y(s: Seq<MotionReading>) -> int
    decreases s.len(),
{
    if s.len() == 0 {
        0
    } else {
        sum_gyro_y(s.drop_last()) + s.last().gyroscope.y
    }
}

pub open spec fn sum_gyro_z(s: Seq<MotionReading>) -> int
    decreases s.len(),
{
    if s.len() == 0 {
        0
    } else {
        sum_gyro_z(s.drop_last()) + s.last().gyroscope.z
    }
}

proof fn lemma_sums_push(s: Seq<MotionReading>, i: int)
    requires
        0 <= i < s.len(),
    ensures
        sum_accel_x(s.take(i + 1)) == sum_accel_x(s.take(i)) + s[i].accelerometer.x,
        sum_accel_y(s.take(i + 1)) == sum_accel_y(s.take(i)) + s[i].accelerometer.y,
        sum_accel_z(s.take(i + 1)) == sum_accel_z(s.take(i)) + s[i].accelerometer.z,
        sum_gyro_x(s.take(i + 1)) == sum_gyro_x(s.take(i)) + s[i].gyroscope.x,
        sum_gyro_y(s.take(i + 1)) == sum_gyro_y(s.take(i)) + s[i].gyroscope.y,
        sum_gyro_z(s.take(i + 1)) == sum_gyro_z(s.take(i)) + s[i].gyroscope.z,
{
    assert(s.take(i + 1).drop_last() =~= s.take(i));
    assert(s.take(i + 1).last() == s[i]);
}

impl MPU6050 {
    /// Averaging calibration: the arithmetic mean of the given readings is
    /// the per-axis bias estimate, with standard gravity subtracted from the
    /// acceleration Z axis under the assumption that the device lies flat
    /// and still. The caller collects the readings itself and discards them
    /// all when any read fails; there is no mean over fewer samples.
    pub fn calibrate(&self, samples: &Vec<MotionReading>) -> (r: (
        AccelerometerReading,
        GyroscopeReading,
    ))
        requires
            samples@.len() >= 1,
            forall|i: int| 0 <= i < samples@.len() ==> samples@[i].wf(),
        ensures
            ({
                let n = samples@.len() as int;
                &&& r.0.x == div_trunc(sum_accel_x(samples@), n)
                &&& r.0.y == div_trunc(sum_accel_y(samples@), n)
                &&& r.0.z == div_trunc(sum_accel_z(samples@), n) - STANDARD_GRAVITY_UMS2
                &&& r.1.x == div_trunc(sum_gyro_x(samples@), n)
                &&& r.1.y == div_trunc(sum_gyro_y(samples@), n)
                &&& r.1.z == div_trunc(sum_gyro_z(samples@), n)
            }),
    {
        let n: usize = samples.len();
        let mut ax: i128 = 0;
        let mut ay: i128 = 0;
        let mut az: i128 = 0;
        let mut gx: i128 = 0;
        let mut gy: i128 = 0;
        let mut gz: i128 = 0;
        let mut i: usize = 0;
        while i < n
            invariant
                n == samples@.len(),
                0 <= i <= n,
                forall|j: int| 0 <= j < samples@.len() ==> samples@[j].wf(),
                ax == sum_accel_x(samples@.take(i as int)),
                ay == sum_accel_y(samples@.take(i as int)),
                az == sum_accel_z(samples@.take(i as int)),
                gx == sum_gyro_x(samples@.take(i as int)),
                gy == sum_gyro_y(samples@.take(i as int)),
                gz == sum_gyro_z(samples@.take(i as int)),
                -(i as int) * 2000000000 <= ax <= (i as int) * 2000000000,
                -(i as int) * 2000000000 <= ay <= (i as int) * 2000000000,
                -(i as int) * 2000000000 <= az <= (i as int) * 2000000000,
                -(i as int) * 2000000000 <= gx <= (i as int) * 2000000000,
                -(i as int) * 2000000000 <= gy <= (i as int) * 2000000000,
                -(i as int) * 2000000000 <= gz <= (i as int) * 2000000000,
            decreases n - i,
        {
            let reading = &samples[i];
            proof {
                lemma_sums_push(samples@, i as int);
            }
            ax = ax + reading.accelerometer.x as i128;
            ay = ay + reading.accelerometer.y as i128;
            az = az + reading.accelerometer.z as i128;
            gx = gx + reading.gyroscope.x as i128;
            gy = gy + reading.gyroscope.y as i128;
            gz = gz + reading.gyroscope.z as i128;
            i = i + 1;
        }
        proof {
            assert(samples@.take(n as int) =~= samples@);
            lemma_sum_quotient_bound(ax as int, n as int);
            lemma_sum_quotient_bound(ay as int, n as int);
            lemma_sum_quotient_bound(az as int, n as int);
            lemma_sum_quotient_bound(gx as int, n as int);
            lemma_sum_quotient_bound(gy as int, n as int);
            lemma_sum_quotient_bound(gz as int, n as int);
        }
        let accel_offset = AccelerometerReading {
            x: div_trunc_i128(ax, n as u128) as i64,
            y: div_trunc_i128(ay, n as u128) as i64,
            z: div_trunc_i128(az, n as u128) as i64 - STANDARD_GRAVITY_UMS2,
        };
        let gyro_offset = GyroscopeReading {
            x: div_trunc_i128(gx, n as u128) as i64,
            y: div_trunc_i128(gy, n as u128) as i64,
            z: div_trunc_i128(gz, n as u128) as i64,
        };
        (accel_offset, gyro_offset)
    }
}

proof fn lemma_sum_quotient_bound(a: int, n: int)
    requires
        n >= 1,
        -n * 2000000000 <= a <= n * 2000000000,
    ensures
        -2000000000 <= div_trunc(a, n) <= 2000000000,
{
    vstd::arithmetic::mul::lemma_mul_is_commutative(n, 2000000000);
    vstd::arithmetic::div_mod::lemma_div_multiples_vanish(2000000000, n);
    if a >= 0 {
        vstd::arithmetic::div_mod::lemma_div_pos_is_pos(a, n);
        vstd::arithmetic::div_mod::lemma_div_is_ordered(a, n * 2000000000, n);
    } else {
        vstd::arithmetic::div_mod::lemma_div_pos_is_pos(-a, n);
        vstd::arithmetic::div_mod::lemma_div_is_ordered(-a, n * 2000000000, n);
    }
}

proof fn lemma_sums_identical(s: Seq<MotionReading>, r: MotionReading)
    requires
        forall|i: int| 0 <= i < s.len() ==> s[i] == r,
    ensures
        sum_accel_x(s) == s.len() * r.accelerometer.x,
        sum_accel_y(s) == s.len() * r.accelerometer.y,
        sum_accel_z(s) == s.len() * r.accelerometer.z,
        sum_gyro_x(s) == s.len() * r.gyroscope.x,
        sum_gyro_y(s) == s.len() * r.gyroscope.y,
        sum_gyro_z(s) == s.len() * r.gyroscope.z,
    decreases s.len(),
{
    if s.len() == 0 {
    } else {
        lemma_sums_identical(s.drop_last(), r);
        assert((s.len() - 1) * r.accelerometer.x + r.accelerometer.x == s.len()
            * r.accelerometer.x) by (nonlinear_arith);
        assert((s.len() - 1) * r.accelerometer.y + r.accelerometer.y == s.len()
            * r.accelerometer.y) by (nonlinear_arith);
        assert((s.len() - 1) * r.accelerometer.z + r.accelerometer.z == s.len()
            * r.accelerometer.z) by (nonlinear_arith);
        assert((s.len() - 1) * r.gyroscope.x + r.gyroscope.x == s.len() * r.gyroscope.x)
            by (nonlinear_arith);
        assert((s.len() - 1) * r.gyroscope.y + r.gyroscope.y == s.len() * r.gyroscope.y)
            by (nonlinear_arith);
        assert((s.len() - 1) * r.gyroscope.z + r.gyroscope.z == s.len() * r.gyroscope.z)
            by (nonlinear_arith);
    }
}

proof fn lemma_div_trunc_multiples(v: int, n: int)
    requires
        n >= 1,
    ensures
        div_trunc(n * v, n) == v,
{
    if v >= 0 {
        vstd::arithmetic::mul::lemma_mul_nonnegative(n, v);
        vstd::arithmetic::div_mod::lemma_div_multiples_vanish(v, n);
    } else {
        vstd::arithmetic::mul::lemma_mul_unary_negation(n, v);
        vstd::arithmetic::mul::lemma_mul_nonnegative(n, -v);
        vstd::arithmetic::div_mod::lemma_div_multiples_vanish(-v, n);
        assert(div_trunc(n * v, n) == -((-(n * v)) / n));
    }
}

/// Calibration over identical readings returns the reading's own values as
/// the bias estimate: a stationary, level device reporting exactly
/// (0, 0, 9.80665) m/s² and (0, 0, 0) °/s yields zero offsets on every
/// axis once standard gravity is subtracted from the acceleration Z axis.
pub proof fn lemma_calibrate_identical(s: Seq<MotionReading>, r: MotionReading)
    requires
        s.len() >= 1,
        forall|i: int| 0 <= i < s.len() ==> s[i] == r,
    ensures
        div_trunc(sum_accel_x(s), s.len() as int) == r.accelerometer.x,
        div_trunc(sum_accel_y(s), s.len() as int) == r.accelerometer.y,
        div_trunc(sum_accel_z(s), s.len() as int) - STANDARD_GRAVITY_UMS2 == r.accelerometer.z
            - STANDARD_GRAVITY_UMS2,
        div_trunc(sum_gyro_x(s), s.len() as int) == r.gyroscope.x,
        div_trunc(sum_gyro_y(s), s.len() as int) == r.gyroscope.y,
        div_trunc(sum_gyro_z(s), s.len() as int) == r.gyroscope.z,
{
    lemma_sums_identical(s, r);
    lemma_div_trunc_multiples(r.accelerometer.x as int, s.len() as int);
    lemma_div_trunc_multiples(r.accelerometer.y as int, s.len() as int);
    lemma_div_trunc_multiples(r.accelerometer.z as int, s.len() as int);
    lemma_div_trunc_multiples(r.gyroscope.x as int, s.len() as int);
    lemma_div_trunc_multiples(r.gyroscope.y as int, s.len() as int);
    lemma_div_trunc_multiples(r.gyroscope.z as int, s.len() as int);
}

proof fn lemma_div_trunc_magnitude(a: int, b: int, bound: int)
    requires
        0 < b,
        -bound <= a <= bound,
        0 <= bound,
    ensures
        -bound <= div_trunc(a, b) * b <= bound,
        -(bound / b) <= div_trunc(a, b) <= bound / b,
{
    if a >= 0 {
        vstd::arithmetic::div_mod::lemma_div_pos_is_pos(a, b);
        vstd::arithmetic::div_mod::lemma_div_is_ordered(a, bound, b);
        vstd::arithmetic::div_mod::lemma_fundamental_div_mod(a, b);
        vstd::arithmetic::div_mod::lemma_mod_bound(a, b);
        vstd::arithmetic::mul::lemma_mul_is_commutative(div_trunc(a, b), b);
        vstd::arithmetic::mul::lemma_mul_nonnegative(div_trunc(a, b), b);
    } else {
        vstd::arithmetic::div_mod::lemma_div_pos_is_pos(-a, b);
        vstd::arithmetic::div_mod::lemma_div_is_ordered(-a, bound, b);
        vstd::arithmetic::div_mod::lemma_fundamental_div_mod(-a, b);
        vstd::arithmetic::div_mod::lemma_mod_bound(-a, b);
        vstd::arithmetic::mul::lemma_mul_is_commutative((-a) / b, b);
        vstd::arithmetic::mul::lemma_mul_nonnegative((-a) / b, b);
        vstd::arithmetic::mul::lemma_mul_unary_negation((-a) / b, b);
    }
}

proof fn lemma_accel_axis_bound(raw: int, scale: int)
    requires
        -32768 <= raw <= 32767,
        scale == 16384 || scale == 8192 || scale == 4096 || scale == 2048,
    ensures
        -160000000 <= spec_accel_ums2(raw, scale) <= 160000000,
{
    lemma_div_trunc_magnitude(raw * 9806650, scale, 32768int * 9806650);
    vstd::arithmetic::div_mod::lemma_div_is_ordered_by_denominator(32768int * 9806650, 2048, scale);
}

proof fn lemma_gyro_axis_bound(raw: int, tenths: int)
    requires
        -32768 <= raw <= 32767,
        tenths == 1310 || tenths == 655 || tenths == 328 || tenths == 164,
    ensures
        -2000000000 <= spec_gyro_udps(raw, tenths) <= 2000000000,
{
    lemma_div_trunc_magnitude(raw * 10000000, tenths, 32768int * 10000000);
    vstd::arithmetic::div_mod::lemma_div_is_ordered_by_denominator(32768int * 10000000, 164, tenths);
}

proof fn lemma_temp_bound(raw: int)
    requires
        -32768 <= raw <= 32767,
    ensures
        -200000000 <= spec_temp_uc(raw) <= 200000000,
{
    lemma_div_trunc_magnitude(raw * 1000000, 340, 32768int * 1000000);
}

/// Full-scale decoding is exact: a raw count equal to the configured LSB
/// count per unit decodes to exactly one unit — one standard gravity
/// (9.80665 m/s², e.g. raw 16384 at ±2 g) and, with the tenths
/// representation, exactly ten degrees per second.
pub proof fn lemma_full_scale_decode(a: AccelSensitivity, g: GyroSensitivity)
    ensures
        spec_accel_ums2(a.spec_lsb_per_g() as int, a.spec_lsb_per_g() as int) == 9806650,
        spec_gyro_udps(
            g.spec_lsb_per_dps_tenths() as int,
            g.spec_lsb_per_dps_tenths() as int,
        ) == 10000000,
{
    let la = a.spec_lsb_per_g() as int;
    vstd::arithmetic::mul::lemma_mul_is_commutative(la, 9806650);
    vstd::arithmetic::div_mod::lemma_div_multiples_vanish(9806650, la);
    vstd::arithmetic::mul::lemma_mul_nonnegative(la, 9806650);
    let lg = g.spec_lsb_per_dps_tenths() as int;
    vstd::arithmetic::mul::lemma_mul_is_commutative(lg, 10000000);
    vstd::arithmetic::div_mod::lemma_div_multiples_vanish(10000000, lg);
    vstd::arithmetic::mul::lemma_mul_nonnegative(lg, 10000000);
}

} // verus!
