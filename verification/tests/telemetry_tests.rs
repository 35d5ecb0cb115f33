use telemetry::altitude::altitude_from_pressure;
use telemetry::decode_i16_be;
use telemetry::float_bits::f32_bits_from_micro;
use telemetry::mpl115a2::{RawPressureSample, MPL115A2};
use telemetry::mpu6050::{
    AccelSensitivity, AccelerometerReading, GyroSensitivity, GyroscopeReading, MotionInitError,
    MotionReading, RawMotionSample, RegisterWrite, MPU6050, REGISTER_ACCEL_CONFIG,
    REGISTER_CONFIG, REGISTER_GYRO_CONFIG, REGISTER_PWR_MGMT_1, REGISTER_SMPLRT_DIV,
};
use telemetry::telemetry::{
    build_packet, read_motion_sensor, read_pressure_sensor, status_byte, TelemetryPacket,
    PACKET_SIZE, STATUS_ALL_REAL, STATUS_ALL_SIMULATED, STATUS_MOTION_REAL, STATUS_PRESSURE_REAL,
};

fn f32_at(bytes: &[u8], offset: usize) -> f32 {
    f32::from_le_bytes([bytes[offset], bytes[offset + 1], bytes[offset + 2], bytes[offset + 3]])
}

fn u64_at(bytes: &[u8], offset: usize) -> u64 {
    let mut b = [0u8; 8];
    b.copy_from_slice(&bytes[offset..offset + 8]);
    u64::from_le_bytes(b)
}

fn fixed_sim() -> telemetry::sim::SimulatedValues {
    telemetry::sim::SimulatedValues {
        temperature_uc: 21_500_000,
        pressure_uhpa: 1_000_000_000,
        humidity_upct: 55_000_000,
        altitude_um: 120_000_000,
        latitude_udeg: 47_600_000,
        longitude_udeg: -122_300_000,
        accel_x: 1_000_000,
        accel_y: -2_000_000,
        accel_z: 9_800_000,
        gyro_x: 10_000_000,
        gyro_y: -10_000_000,
        gyro_z: 0,
    }
}

#[test]
fn decode_i16_be_two_complement() {
    assert_eq!(decode_i16_be(0x00, 0x00), 0);
    assert_eq!(decode_i16_be(0x7F, 0xFF), 32767);
    assert_eq!(decode_i16_be(0x80, 0x00), -32768);
    assert_eq!(decode_i16_be(0xFF, 0xFF), -1);
    assert_eq!(decode_i16_be(0x40, 0x00), 16384);
}

#[test]
fn coefficients_decode_exact() {
    let c = MPL115A2::read_calibration_coefficients(
        0x3E, 0xCE, 0xB3, 0xF9, 0xC5, 0x17, 0x33, 0xC8,
    );
    assert_eq!(c.a0_raw, 0x3ECE);
    assert_eq!(c.b1_raw, 0xB3F9u16 as i16);
    assert_eq!(c.b2_raw, 0xC517u16 as i16);
    assert_eq!(c.c12_raw, 0x33C8);
}

#[test]
fn coefficient_scale_unscale_round_trip() {
    // Scale a synthetic raw coefficient to micro-units and back by its
    // divisor: the raw integer comes back within one fixed-point step.
    for &(raw, divisor) in
        &[(8000i64, 8i64), (-8000, 8), (82, 8192), (-311, 16384), (1, 4194304), (-32768, 4194304)]
    {
        let scaled = raw * 1_000_000 / divisor;
        let recovered = scaled * divisor / 1_000_000;
        assert!(
            ((recovered - raw) * 1_000_000).abs() < divisor + 1_000_000,
            "raw {} divisor {} recovered {}",
            raw,
            divisor,
            recovered
        );
    }
}

#[test]
fn pressure_compensation_reference_values() {
    // A0 = 1000, B1 ~ 0.01, B2 ~ 0.001, C12 ~ 0.0000001 as the nearest
    // representable fixed-point coefficients; P_adc = T_adc = 512.
    let sensor = MPL115A2::new(0x1F, 0x40, 0x00, 0x52, 0x00, 0x10, 0x00, 0x01);
    let reading = sensor.read_pressure(0x80, 0x00, 0x80, 0x00);
    assert_eq!(reading.pressure_uhpa, 1_138_999_877);
    assert_eq!(reading.temperature_uc, 22_383_178);

    // Hand-computed reference from the exact coefficient rationals.
    let a0 = 8000.0 / 8.0;
    let b1 = 82.0 / 8192.0;
    let b2 = 16.0 / 16384.0;
    let c12 = 1.0 / 4194304.0;
    let pcomp = a0 + (b1 + c12 * 512.0) * 512.0 + b2 * 512.0;
    let hpa = (pcomp * 65.0 / 1023.0 + 50.0) * 10.0;
    let got = reading.pressure_uhpa as f64 / 1e6;
    assert!((got - hpa).abs() / hpa < 1e-4);
    let celsius = (512.0 - 498.0) / -5.35 + 25.0;
    let got_t = reading.temperature_uc as f64 / 1e6;
    assert!((got_t - celsius).abs() / celsius.abs() < 1e-4);
}

#[test]
fn pressure_adc_reconstruction() {
    // (msb << 2) | (lsb >> 6): only the lsb's top two bits reach the count.
    // With B1 = 1.0 and the other coefficients zero, the compensated
    // pressure is B1 * P_adc rescaled, so the reconstructed count is
    // directly visible.
    let with_b1 = MPL115A2::new(0x00, 0x00, 0x20, 0x00, 0x00, 0x00, 0x00, 0x00);
    let p3 = with_b1.read_pressure(0x00, 0xC0, 0x00, 0x00); // p_adc = 3
    let p0 = with_b1.read_pressure(0x00, 0x3F, 0x00, 0x00); // p_adc = 0
    let p1023 = with_b1.read_pressure(0xFF, 0xFF, 0x00, 0x00); // p_adc = 1023
    assert_eq!(p0.pressure_uhpa, 500_000_000); // 50 kPa offset alone
    // 3 * 65/1023 kPa above the offset, in micro-hPa.
    assert_eq!(p3.pressure_uhpa - p0.pressure_uhpa, 3 * 650_000_000 / 1023);
    assert_eq!(p1023.pressure_uhpa - p0.pressure_uhpa, 650_000_000);
}

#[test]
fn altitude_sea_level_is_zero() {
    assert_eq!(altitude_from_pressure(1_013_250_000), 0);
}

#[test]
fn altitude_zero_pressure_guard() {
    assert_eq!(altitude_from_pressure(0), 0);
    assert_eq!(altitude_from_pressure(-5), 0);
}

#[test]
fn altitude_tracks_barometric_formula() {
    for &hpa in &[900.0f64, 950.0, 1000.0, 1100.0, 800.0, 500.0] {
        let p_uhpa = (hpa * 1e6) as i64;
        let got = altitude_from_pressure(p_uhpa) as f64 / 1e6;
        let want = 44330.0 * (1.0 - (hpa / 1013.25).powf(0.1903));
        assert!((got - want).abs() < 2.0, "hpa {} got {} want {}", hpa, got, want);
    }
}

#[test]
fn motion_full_scale_decodes_exactly() {
    let mut sensor = MPU6050::new(false);
    // +-2 g: raw 16384 is exactly one standard gravity.
    let a = sensor.read_accelerometer(16384, -16384, 0);
    assert_eq!(a.x, 9_806_650);
    assert_eq!(a.y, -9_806_650);
    assert_eq!(a.z, 0);
    // 131 LSB/(deg/s) at +-250: raw 131 is exactly one degree per second.
    let g = sensor.read_gyroscope(131, 1310, -131);
    assert_eq!(g.x, 1_000_000);
    assert_eq!(g.y, 10_000_000);
    assert_eq!(g.z, -1_000_000);
    // Every other range, at its own LSB-per-unit count.
    sensor.set_accel_sensitivity(AccelSensitivity::AFS_SEL_4G);
    assert_eq!(sensor.read_accelerometer(8192, 0, 0).x, 9_806_650);
    sensor.set_accel_sensitivity(AccelSensitivity::AFS_SEL_8G);
    assert_eq!(sensor.read_accelerometer(4096, 0, 0).x, 9_806_650);
    sensor.set_accel_sensitivity(AccelSensitivity::AFS_SEL_16G);
    assert_eq!(sensor.read_accelerometer(2048, 0, 0).x, 9_806_650);
    sensor.set_gyro_sensitivity(GyroSensitivity::FS_SEL_500DPS);
    assert_eq!(sensor.read_gyroscope(655, 0, 0).x, 10_000_000);
    sensor.set_gyro_sensitivity(GyroSensitivity::FS_SEL_1000DPS);
    assert_eq!(sensor.read_gyroscope(328, 0, 0).x, 10_000_000);
    sensor.set_gyro_sensitivity(GyroSensitivity::FS_SEL_2000DPS);
    assert_eq!(sensor.read_gyroscope(164, 0, 0).x, 10_000_000);
}

#[test]
fn motion_temperature_formula() {
    let sensor = MPU6050::new(false);
    // raw / 340 + 36.53
    assert_eq!(sensor.read_temperature(0), 36_530_000);
    assert_eq!(sensor.read_temperature(340), 37_530_000);
    assert_eq!(sensor.read_temperature(-3400), 26_530_000);
}

#[test]
fn sensitivity_writes_config_register() {
    let mut sensor = MPU6050::new(false);
    let w = sensor.set_accel_sensitivity(AccelSensitivity::AFS_SEL_8G);
    assert_eq!(w, RegisterWrite { register: REGISTER_ACCEL_CONFIG, value: 0x10 });
    let w = sensor.set_gyro_sensitivity(GyroSensitivity::FS_SEL_2000DPS);
    assert_eq!(w, RegisterWrite { register: REGISTER_GYRO_CONFIG, value: 0x18 });
}

#[test]
fn initialize_sequence_order() {
    let sensor = MPU6050::new(true);
    let writes = sensor.initialize();
    assert_eq!(
        writes,
        vec![
            RegisterWrite { register: REGISTER_PWR_MGMT_1, value: 0x80 },
            RegisterWrite { register: REGISTER_PWR_MGMT_1, value: 0x01 },
            RegisterWrite { register: REGISTER_GYRO_CONFIG, value: 0x00 },
            RegisterWrite { register: REGISTER_ACCEL_CONFIG, value: 0x00 },
            RegisterWrite { register: REGISTER_SMPLRT_DIV, value: 0x07 },
            RegisterWrite { register: REGISTER_CONFIG, value: 0x06 },
        ]
    );
}

#[test]
fn identity_check_distinguishes_devices() {
    assert!(MPU6050::verify_identity(0x68).is_ok());
    let err = MPU6050::verify_identity(0x42).unwrap_err();
    assert_eq!(err, MotionInitError::IdentityMismatch { found: 0x42 });
}

fn level_reading() -> MotionReading {
    MotionReading {
        accelerometer: AccelerometerReading { x: 0, y: 0, z: 9_806_650 },
        gyroscope: GyroscopeReading { x: 0, y: 0, z: 0 },
        temperature: 30_000_000,
    }
}

#[test]
fn calibrate_identical_level_readings_gives_zero_offsets() {
    let sensor = MPU6050::new(false);
    let samples = vec![level_reading(); 25];
    let (accel, gyro) = sensor.calibrate(&samples);
    assert_eq!(accel, AccelerometerReading { x: 0, y: 0, z: 0 });
    assert_eq!(gyro, GyroscopeReading { x: 0, y: 0, z: 0 });
}

#[test]
fn calibrate_averages_toward_zero() {
    let sensor = MPU6050::new(false);
    let mut samples = Vec::new();
    for i in 0..4i64 {
        samples.push(MotionReading {
            accelerometer: AccelerometerReading { x: i + 1, y: -(i + 1), z: 9_806_650 },
            gyroscope: GyroscopeReading { x: 10 * (i + 1), y: 0, z: -1 },
            temperature: 0,
        });
    }
    let (accel, gyro) = sensor.calibrate(&samples);
    // (1+2+3+4)/4 truncated toward zero
    assert_eq!(accel.x, 2);
    assert_eq!(accel.y, -2);
    assert_eq!(accel.z, 0);
    assert_eq!(gyro.x, 25);
    assert_eq!(gyro.y, 0);
    assert_eq!(gyro.z, -1);
}

#[test]
fn f32_bits_known_values() {
    assert_eq!(f32_bits_from_micro(0), 0);
    assert_eq!(f32_bits_from_micro(1_000_000), 1.0f32.to_bits());
    assert_eq!(f32_bits_from_micro(-1_000_000), (-1.0f32).to_bits());
    assert_eq!(f32_bits_from_micro(500_000), 0.5f32.to_bits());
    assert_eq!(f32_bits_from_micro(9_806_650), 9.80665f32.to_bits());
    assert_eq!(f32_bits_from_micro(1_013_250_000), 1013.25f32.to_bits());
    assert_eq!(f32_bits_from_micro(-40_000_000), (-40.0f32).to_bits());
    assert_eq!(f32_bits_from_micro(1), 1e-6f32.to_bits());
}

#[test]
fn f32_bits_nearest_across_range() {
    let mut m: i64 = 1;
    while m < 4_000_000_000_000 {
        for &v in &[m, -m, m + 1, 3 * m + 7] {
            let bits = f32_bits_from_micro(v);
            let f = f32::from_bits(bits) as f64;
            let want = v as f64 / 1e6;
            let tol = want.abs() * 1.3e-7 + 1e-30;
            assert!((f - want).abs() <= tol, "m {} f {} want {}", v, f, want);
        }
        m *= 7;
    }
}

#[test]
fn packet_size_is_fixed_for_all_values() {
    let extremes = [
        f32::NAN.to_bits(),
        f32::INFINITY.to_bits(),
        f32::NEG_INFINITY.to_bits(),
        f32::MAX.to_bits(),
        f32::MIN_POSITIVE.to_bits(),
        0,
        u32::MAX,
    ];
    for &bits in &extremes {
        let p = TelemetryPacket {
            sync: u64::MAX,
            timestamp: u64::MAX,
            temperature: bits,
            pressure: bits,
            humidity: bits,
            altitude: bits,
            latitude: bits,
            longitude: bits,
            accel_x: bits,
            accel_y: bits,
            accel_z: bits,
            gyro_x: bits,
            gyro_y: bits,
            gyro_z: bits,
            status: 0xFF,
        };
        assert_eq!(p.as_bytes().len(), PACKET_SIZE);
        assert_eq!(p.as_bytes().len(), 65);
    }
}

#[test]
fn packet_layout_offsets() {
    let sim = fixed_sim();
    let p = build_packet(None, None, &sim, 0x0102030405060708);
    let bytes = p.as_bytes();
    assert_eq!(u64_at(&bytes, 0), u64::MAX); // sync marker
    assert_eq!(u64_at(&bytes, 8), 0x0102030405060708); // timestamp
    assert_eq!(f32_at(&bytes, 16), 21.5); // temperature
    assert_eq!(f32_at(&bytes, 20), 1000.0); // pressure
    assert_eq!(f32_at(&bytes, 24), 55.0); // humidity
    assert_eq!(f32_at(&bytes, 28), 120.0); // altitude
    assert_eq!(f32_at(&bytes, 32), 47.6); // latitude
    assert_eq!(f32_at(&bytes, 36), -122.3); // longitude
    assert_eq!(f32_at(&bytes, 40), 1.0); // accel x
    assert_eq!(f32_at(&bytes, 44), -2.0); // accel y
    assert_eq!(f32_at(&bytes, 48), 9.8); // accel z
    assert_eq!(f32_at(&bytes, 52), 10.0); // gyro x
    assert_eq!(f32_at(&bytes, 56), -10.0); // gyro y
    assert_eq!(f32_at(&bytes, 60), 0.0); // gyro z
    assert_eq!(bytes[64], STATUS_ALL_SIMULATED);
}

#[test]
fn status_byte_reflects_all_four_combinations() {
    assert_eq!(status_byte(false, false), STATUS_ALL_SIMULATED);
    assert_eq!(status_byte(true, false), STATUS_PRESSURE_REAL);
    assert_eq!(status_byte(false, true), STATUS_MOTION_REAL);
    assert_eq!(status_byte(true, true), STATUS_ALL_REAL);
    let all = [
        status_byte(false, false),
        status_byte(true, false),
        status_byte(false, true),
        status_byte(true, true),
    ];
    for i in 0..4 {
        for j in 0..4 {
            if i != j {
                assert_ne!(all[i], all[j]);
            }
        }
    }
}

#[test]
fn packet_variants_fill_real_groups() {
    let sim = fixed_sim();
    let pressure = telemetry::mpl115a2::PressureReading {
        pressure_uhpa: 1_013_250_000,
        temperature_uc: 19_000_000,
    };
    let motion = level_reading();

    let p = build_packet(Some(pressure), None, &sim, 7);
    let b = p.as_bytes();
    assert_eq!(b[64], STATUS_PRESSURE_REAL);
    assert_eq!(f32_at(&b, 16), 19.0); // real temperature from the barometer
    assert_eq!(f32_at(&b, 20), 1013.25); // real pressure
    assert_eq!(f32_at(&b, 28), 0.0); // altitude derived: sea level
    assert_eq!(f32_at(&b, 40), 1.0); // accel still simulated

    let p = build_packet(None, Some(motion), &sim, 7);
    let b = p.as_bytes();
    assert_eq!(b[64], STATUS_MOTION_REAL);
    assert_eq!(f32_at(&b, 16), 30.0); // die temperature from the motion sensor
    assert_eq!(f32_at(&b, 20), 1000.0); // pressure simulated
    assert_eq!(f32_at(&b, 48), 9.80665); // real accel z

    let p = build_packet(Some(pressure), Some(motion), &sim, 7);
    let b = p.as_bytes();
    assert_eq!(b[64], STATUS_ALL_REAL);
    assert_eq!(f32_at(&b, 16), 19.0); // barometer temperature wins
    assert_eq!(f32_at(&b, 52), 0.0); // real gyro x
}

#[test]
fn cycle_with_failed_reads_still_builds_packet() {
    // Both sensors absent or failed: the cycle still produces a full-size
    // packet, all groups simulated.
    let motion_sensor: Option<MPU6050> = None;
    let pressure_sensor: Option<MPL115A2> = None;
    let motion = read_motion_sensor(&motion_sensor, None);
    let pressure = read_pressure_sensor(&pressure_sensor, None);
    assert!(motion.is_none());
    assert!(pressure.is_none());
    let sim = fixed_sim();
    let p = build_packet(pressure, motion, &sim, 99);
    let bytes = p.as_bytes();
    assert_eq!(bytes.len(), 65);
    assert_eq!(bytes[64], STATUS_ALL_SIMULATED);

    // Sensor present but the bus read failed this cycle.
    let motion_sensor = Some(MPU6050::new(false));
    assert!(read_motion_sensor(&motion_sensor, None).is_none());
}

#[test]
fn read_motion_sensor_decodes_when_available() {
    let motion_sensor = Some(MPU6050::new(false));
    let raw = RawMotionSample {
        accel_x: 16384,
        accel_y: 0,
        accel_z: -16384,
        gyro_x: 131,
        gyro_y: -131,
        gyro_z: 0,
        temperature: 340,
    };
    let reading = read_motion_sensor(&motion_sensor, Some(&raw)).unwrap();
    assert_eq!(reading.accelerometer.x, 9_806_650);
    assert_eq!(reading.accelerometer.z, -9_806_650);
    assert_eq!(reading.gyroscope.x, 1_000_000);
    assert_eq!(reading.gyroscope.y, -1_000_000);
    assert_eq!(reading.temperature, 37_530_000);
}

#[test]
fn read_pressure_sensor_decodes_when_available() {
    let sensor = Some(MPL115A2::new(0x1F, 0x40, 0x00, 0x52, 0x00, 0x10, 0x00, 0x01));
    let raw = RawPressureSample {
        pressure_msb: 0x80,
        pressure_lsb: 0x00,
        temp_msb: 0x80,
        temp_lsb: 0x00,
    };
    let reading = read_pressure_sensor(&sensor, Some(&raw)).unwrap();
    assert_eq!(reading.pressure_uhpa, 1_138_999_877);
    assert_eq!(reading.temperature_uc, 22_383_178);
    assert!(read_pressure_sensor(&sensor, None).is_none());
    assert!(read_pressure_sensor(&None, Some(&raw)).is_none());
}

#[test]
fn new_packet_simulated_fields_stay_in_documented_ranges() {
    for i in 0..20u64 {
        let p = TelemetryPacket::new(i);
        let b = p.as_bytes();
        assert_eq!(b.len(), 65);
        assert_eq!(u64_at(&b, 0), u64::MAX);
        assert_eq!(u64_at(&b, 8), i);
        assert_eq!(b[64], STATUS_ALL_SIMULATED);
        let temperature = f32_at(&b, 16);
        assert!((-40.0..=60.0).contains(&temperature));
        let pressure = f32_at(&b, 20);
        assert!((800.0..=1200.0).contains(&pressure));
        let humidity = f32_at(&b, 24);
        assert!((0.0..=100.0).contains(&humidity));
        let altitude = f32_at(&b, 28);
        assert!((0.0..=50000.0).contains(&altitude));
        let latitude = f32_at(&b, 32);
        assert!((-90.0..=90.0).contains(&latitude));
        let longitude = f32_at(&b, 36);
        assert!((-180.0..=180.0).contains(&longitude));
        for off in [40, 44, 48] {
            let a = f32_at(&b, off);
            assert!((-20.0..=20.0).contains(&a));
        }
        for off in [52, 56, 60] {
            let g = f32_at(&b, off);
            assert!((-2000.0..=2000.0).contains(&g));
        }
    }
}

#[test]
fn new_with_motion_data_marks_motion_real() {
    let motion = level_reading();
    let p = TelemetryPacket::new_with_motion_data(42, motion.temperature, motion);
    let b = p.as_bytes();
    assert_eq!(b.len(), 65);
    assert_eq!(u64_at(&b, 8), 42);
    assert_eq!(b[64], STATUS_MOTION_REAL);
    assert_eq!(f32_at(&b, 16), 30.0);
    assert_eq!(f32_at(&b, 40), 0.0);
    assert_eq!(f32_at(&b, 48), 9.80665);
    assert_eq!(f32_at(&b, 52), 0.0);
}
