//! The telemetry packet and the per-cycle acquisition logic: which field
//! groups are authoritative, how the fixed-layout binary record is composed,
//! and the per-field-group fallback to simulated values. Byte order on the
//! wire is fixed little-endian; the float-typed fields travel as IEEE-754
//! binary32 bit patterns.

use vstd::prelude::*;
use vstd::bytes::{spec_u32_to_le_bytes, spec_u64_to_le_bytes, u32_to_le_bytes, u64_to_le_bytes};
use crate::altitude::{altitude_from_pressure, spec_altitude_um};
use crate::float_bits::{f32_bits_from_micro, spec_f32_bits_from_micro};
use crate::mpl115a2::{MPL115A2, PressureReading, RawPressureSample};
use crate::mpu6050::{MPU6050, MotionReading, RawMotionSample};
use crate::sim::{simulated_values, SimulatedValues};

verus! {

/// All-bits-set frame marker a receiver uses to detect packet boundaries.
pub const SYNC_MARKER: u64 = 0xFFFFFFFFFFFFFFFF;

/// Encoded packet length in bytes: sync (8), timestamp (8), twelve binary32
/// fields (48), status (1).
pub const PACKET_SIZE: usize = 65;

/// Fixed cycle period: one packet is assembled and sent per period.
pub const CYCLE_PERIOD_MS: u64 = 100;

// Status byte: bit 0 set when the pressure/temperature group is real, bit 1
// set when the motion group is real.
pub const STATUS_ALL_SIMULATED: u8 = 0x00;
pub const STATUS_PRESSURE_REAL: u8 = 0x01;
pub const STATUS_MOTION_REAL: u8 = 0x02;
pub const STATUS_ALL_REAL: u8 = 0x03;

/// The fixed-order telemetry record. Fields that travel as 32-bit floats are
/// held as IEEE-754 binary32 bit patterns.
#[derive(Clone, Copy, Debug, PartialEq, Eq, Structural)]
pub struct TelemetryPacket {
    pub sync: u64,
    pub timestamp: u64,
    pub temperature: u32,
    pub pressure: u32,
    pub humidity: u32,
    pub altitude: u32,
    pub latitude: u32,
    pub longitude: u32,
    pub accel_x: u32,
    pub accel_y: u32,
    pub accel_z: u32,
    pub gyro_x: u32,
    pub gyro_y: u32,
    pub gyro_z: u32,
    pub status: u8,
}

/// The status byte for each combination of authoritative field groups.
pub open spec fn spec_status_byte(pressure_real: bool, motion_real: bool) -> u8 {
    if pressure_real && motion_real {
        STATUS_ALL_REAL
    } else if motion_real {
        STATUS_MOTION_REAL
    } else if pressure_real {
        STATUS_PRESSURE_REAL
    } else {
        STATUS_ALL_SIMULATED
    }
}

pub fn status_byte(pressure_real: bool, motion_real: bool) -> (r: u8)
    ensures
        r == spec_status_byte(pressure_real, motion_real),
{
    if pressure_real && motion_real {
        STATUS_ALL_REAL
    } else if motion_real {
        STATUS_MOTION_REAL
    } else if pressure_real {
        STATUS_PRESSURE_REAL
    } else {
        STATUS_ALL_SIMULATED
    }
}

/// The packet's byte layout: every field at its fixed offset, little-endian,
/// no padding.
pub open spec fn spec_encode(p: TelemetryPacket) -> Seq<u8> {
    spec_u64_to_le_bytes(p.sync) + spec_u64_to_le_bytes(p.timestamp) + spec_u32_to_le_bytes(
        p.temperature,
    ) + spec_u32_to_le_bytes(p.pressure) + spec_u32_to_le_bytes(p.humidity) + spec_u32_to_le_bytes(
        p.altitude,
    ) + spec_u32_to_le_bytes(p.latitude) + spec_u32_to_le_bytes(p.longitude)
        + spec_u32_to_le_bytes(p.accel_x) + spec_u32_to_le_bytes(p.accel_y) + spec_u32_to_le_bytes(
        p.accel_z,
    ) + spec_u32_to_le_bytes(p.gyro_x) + spec_u32_to_le_bytes(p.gyro_y) + spec_u32_to_le_bytes(
        p.gyro_z,
    ) + seq![p.status]
}

/// The packet assembled from whichever readings are available: the pressure
/// group fills temperature, pressure and derived altitude; the motion group
/// fills the six motion fields and, with no pressure group, temperature;
/// humidity, latitude and longitude are always simulated; every missing
/// field comes from `sim`.
pub open spec fn spec_packet_from_readings(
    pressure: Option<PressureReading>,
    motion: Option<MotionReading>,
    sim: SimulatedValues,
    timestamp: u64,
) -> TelemetryPacket {
    TelemetryPacket {
        sync: SYNC_MARKER,
        timestamp,
        temperature: spec_f32_bits_from_micro(
            match pressure {
                Some(p) => p.temperature_uc as int,
                None => match motion {
                    Some(m) => m.temperature as int,
                    None => sim.temperature_uc as int,
                },
            },
        ),
        pressure: spec_f32_bits_from_micro(
            match pressure {
                Some(p) => p.pressure_uhpa as int,
                None => sim.pressure_uhpa as int,
            },
        ),
        humidity: spec_f32_bits_from_micro(sim.humidity_upct as int),
        altitude: spec_f32_bits_from_micro(
            match pressure {
                Some(p) => spec_altitude_um(p.pressure_uhpa as int),
                None => sim.altitude_um as int,
            },
        ),
        latitude: spec_f32_bits_from_micro(sim.latitude_udeg as int),
        longitude: spec_f32_bits_from_micro(sim.longitude_udeg as int),
        accel_x: spec_f32_bits_from_micro(
            match motion {
                Some(m) => m.accelerometer.x as int,
                None => sim.accel_x as int,
            },
        ),
        accel_y: spec_f32_bits_from_micro(
            match motion {
                Some(m) => m.accelerometer.y as int,
                None => sim.accel_y as int,
            },
        ),
        accel_z: spec_f32_bits_from_micro(
            match motion {
                Some(m) => m.accelerometer.z as int,
                None => sim.accel_z as int,
            },
        ),
        gyro_x: spec_f32_bits_from_micro(
            match motion {
                Some(m) => m.gyroscope.x as int,
                None => sim.gyro_x as int,
            },
        ),
        gyro_y: spec_f32_bits_from_micro(
            match motion {
                Some(m) => m.gyroscope.y as int,
                None => sim.gyro_y as int,
            },
        ),
        gyro_z: spec_f32_bits_from_micro(
            match motion {
                Some(m) => m.gyroscope.z as int,
                None => sim.gyro_z as int,
            },
        ),
        status: spec_status_byte(pressure is Some, motion is Some),
    }
}

/// Composes the packet for one cycle from whichever readings succeeded.
/// Total: every combination of available readings, the none/none case
/// included, yields a packet.
pub fn build_packet(
    pressure: Option<PressureReading>,
    motion: Option<MotionReading>,
    sim: &SimulatedValues,
    timestamp: u64,
) -> (p: TelemetryPacket)
    ensures
        p == spec_packet_from_readings(pressure, motion, *sim, timestamp),
{
    let temperature_uc: i64 = match pressure {
        Some(pr) => pr.temperature_uc,
        None => match motion {
            Some(m) => m.temperature,
            None => sim.temperature_uc,
        },
    };
    let pressure_uhpa: i64 = match pressure {
        Some(pr) => pr.pressure_uhpa,
        None => sim.pressure_uhpa,
    };
    let altitude_um: i64 = match pressure {
        Some(pr) => altitude_from_pressure(pr.pressure_uhpa),
        None => sim.altitude_um,
    };
    let (accel_x, accel_y, accel_z): (i64, i64, i64) = match motion {
        Some(m) => (m.accelerometer.x, m.accelerometer.y, m.accelerometer.z),
        None => (sim.accel_x, sim.accel_y, sim.accel_z),
    };
    let (gyro_x, gyro_y, gyro_z): (i64, i64, i64) = match motion {
        Some(m) => (m.gyroscope.x, m.gyroscope.y, m.gyroscope.z),
        None => (sim.gyro_x, sim.gyro_y, sim.gyro_z),
    };
    TelemetryPacket {
        sync: SYNC_MARKER,
        timestamp,
        temperature: f32_bits_from_micro(temperature_uc),
        pressure: f32_bits_from_micro(pressure_uhpa),
        humidity: f32_bits_from_micro(sim.humidity_upct),
        altitude: f32_bits_from_micro(altitude_um),
        latitude: f32_bits_from_micro(sim.latitude_udeg),
        longitude: f32_bits_from_micro(sim.longitude_udeg),
        accel_x: f32_bits_from_micro(accel_x),
        accel_y: f32_bits_from_micro(accel_y),
        accel_z: f32_bits_from_micro(accel_z),
        gyro_x: f32_bits_from_micro(gyro_x),
        gyro_y: f32_bits_from_micro(gyro_y),
        gyro_z: f32_bits_from_micro(gyro_z),
        status: status_byte(pressure.is_some(), motion.is_some()),
    }
}

impl TelemetryPacket {
    /// An all-simulated packet: every field group drawn from the documented
    /// ranges, status showing nothing authoritative.
    pub fn new(timestamp: u64) -> (p: TelemetryPacket)
        ensures
            p.sync == SYNC_MARKER,
            p.timestamp == timestamp,
            p.status == STATUS_ALL_SIMULATED,
            exists|sim: SimulatedValues|
                sim.wf() && p == #[trigger] spec_packet_from_readings(None, None, sim, timestamp),
    {
        let sim = simulated_values();
        let p = build_packet(None, None, &sim, timestamp);
        proof {
            assert(sim.wf() && p == spec_packet_from_readings(None, None, sim, timestamp));
        }
        p
    }

    /// A packet with a real motion group: the given temperature (the motion
    /// sensor's die temperature) and the motion reading are authoritative,
    /// everything else is simulated.
    pub fn new_with_motion_data(timestamp: u64, temperature_uc: i64, motion: MotionReading) -> (p:
        TelemetryPacket)
        ensures
            p.sync == SYNC_MARKER,
            p.timestamp == timestamp,
            p.status == STATUS_MOTION_REAL,
            p.temperature == spec_f32_bits_from_micro(temperature_uc as int),
            p.accel_x == spec_f32_bits_from_micro(motion.accelerometer.x as int),
            p.accel_y == spec_f32_bits_from_micro(motion.accelerometer.y as int),
            p.accel_z == spec_f32_bits_from_micro(motion.accelerometer.z as int),
            p.gyro_x == spec_f32_bits_from_micro(motion.gyroscope.x as int),
            p.gyro_y == spec_f32_bits_from_micro(motion.gyroscope.y as int),
            p.gyro_z == spec_f32_bits_from_micro(motion.gyroscope.z as int),
            exists|sim: SimulatedValues|
                sim.wf() && {
                    &&& p.pressure == spec_f32_bits_from_micro(sim.pressure_uhpa as int)
                    &&& p.humidity == spec_f32_bits_from_micro(sim.humidity_upct as int)
                    &&& p.altitude == spec_f32_bits_from_micro(#[trigger] sim.altitude_um as int)
                    &&& p.latitude == spec_f32_bits_from_micro(sim.latitude_udeg as int)
                    &&& p.longitude == spec_f32_bits_from_micro(sim.longitude_udeg as int)
                },
    {
        let sim = simulated_values();
        let p = TelemetryPacket {
            sync: SYNC_MARKER,
            timestamp,
            temperature: f32_bits_from_micro(temperature_uc),
            pressure: f32_bits_from_micro(sim.pressure_uhpa),
            humidity: f32_bits_from_micro(sim.humidity_upct),
            altitude: f32_bits_from_micro(sim.altitude_um),
            latitude: f32_bits_from_micro(sim.latitude_udeg),
            longitude: f32_bits_from_micro(sim.longitude_udeg),
            accel_x: f32_bits_from_micro(motion.accelerometer.x),
            accel_y: f32_bits_from_micro(motion.accelerometer.y),
            accel_z: f32_bits_from_micro(motion.accelerometer.z),
            gyro_x: f32_bits_from_micro(motion.gyroscope.x),
            gyro_y: f32_bits_from_micro(motion.gyroscope.y),
            gyro_z: f32_bits_from_micro(motion.gyroscope.z),
            status: STATUS_MOTION_REAL,
        };
        proof {
            assert(sim.wf() && p.altitude == spec_f32_bits_from_micro(sim.altitude_um as int));
        }
        p
    }

    /// Serializes the packet: each field at its fixed offset, little-endian.
    pub fn as_bytes(&self) -> (bytes: Vec<u8>)
        ensures
            bytes@ == spec_encode(*self),
            bytes@.len() == PACKET_SIZE,
    {
        let mut bytes = u64_to_le_bytes(self.sync);
        let mut part = u64_to_le_bytes(self.timestamp);
        bytes.append(&mut part);
        let mut part = u32_to_le_bytes(self.temperature);
        bytes.append(&mut part);
        let mut part = u32_to_le_bytes(self.pressure);
        bytes.append(&mut part);
        let mut part = u32_to_le_bytes(self.humidity);
        bytes.append(&mut part);
        let mut part = u32_to_le_bytes(self.altitude);
        bytes.append(&mut part);
        let mut part = u32_to_le_bytes(self.latitude);
        bytes.append(&mut part);
        let mut part = u32_to_le_bytes(self.longitude);
        bytes.append(&mut part);
        let mut part = u32_to_le_bytes(self.accel_x);
        bytes.append(&mut part);
        let mut part = u32_to_le_bytes(self.accel_y);
        bytes.append(&mut part);
        let mut part = u32_to_le_bytes(self.accel_z);
        bytes.append(&mut part);
        let mut part = u32_to_le_bytes(self.gyro_x);
        bytes.append(&mut part);
        let mut part = u32_to_le_bytes(self.gyro_y);
        bytes.append(&mut part);
        let mut part = u32_to_le_bytes(self.gyro_z);
        bytes.append(&mut part);
        bytes.push(self.status);
        proof {
            assert(bytes@ =~= spec_encode(*self));
            lemma_packet_size(*self);
        }
        bytes
    }
}

/// Attempts one motion read: a reading comes back exactly when the sensor is
/// configured and the bus handed back a raw sample; an absent sensor or a
/// failed read yields none, never an error.
pub fn read_motion_sensor(motion_sensor: &Option<MPU6050>, sample: Option<&RawMotionSample>) -> (r:
    Option<MotionReading>)
    requires
        match *motion_sensor {
            Some(s) => s.wf(),
            None => true,
        },
    ensures
        match *motion_sensor {
            Some(s) => match sample {
                Some(raw) => r == Some(s.read_all_spec(*raw)),
                None => r is None,
            },
            None => r is None,
        },
{
    match motion_sensor {
        Some(sensor) => match sample {
            Some(raw) => Some(sensor.read_all(raw)),
            None => None,
        },
        None => None,
    }
}

/// Attempts one pressure read, with the same per-cycle fallback shape as the
/// motion path.
pub fn read_pressure_sensor(
    pressure_sensor: &Option<MPL115A2>,
    sample: Option<&RawPressureSample>,
) -> (r: Option<PressureReading>)
    ensures
        match *pressure_sensor {
            Some(s) => match sample {
                Some(raw) => r == Some(s.read_pressure_spec(*raw)),
                None => r is None,
            },
            None => r is None,
        },
{
    match pressure_sensor {
        Some(sensor) => match sample {
            Some(raw) => Some(sensor.read_sample(raw)),
            None => None,
        },
        None => None,
    }
}

/// Encoding always produces exactly the declared fixed byte length,
/// whatever the field values — extreme, non-finite bit patterns included.
pub proof fn lemma_packet_size(p: TelemetryPacket)
    ensures
        spec_encode(p).len() == PACKET_SIZE,
{
    vstd::bytes::lemma_auto_spec_u64_to_from_le_bytes();
    vstd::bytes::lemma_auto_spec_u32_to_from_le_bytes();
    let s01 = spec_u64_to_le_bytes(p.sync) + spec_u64_to_le_bytes(p.timestamp);
    assert(s01.len() == 16);
    let s02 = s01 + spec_u32_to_le_bytes(p.temperature);
    assert(s02.len() == 20);
    let s03 = s02 + spec_u32_to_le_bytes(p.pressure);
    assert(s03.len() == 24);
    let s04 = s03 + spec_u32_to_le_bytes(p.humidity);
    assert(s04.len() == 28);
    let s05 = s04 + spec_u32_to_le_bytes(p.altitude);
    assert(s05.len() == 32);
    let s06 = s05 + spec_u32_to_le_bytes(p.latitude);
    assert(s06.len() == 36);
    let s07 = s06 + spec_u32_to_le_bytes(p.longitude);
    assert(s07.len() == 40);
    let s08 = s07 + spec_u32_to_le_bytes(p.accel_x);
    assert(s08.len() == 44);
    let s09 = s08 + spec_u32_to_le_bytes(p.accel_y);
    assert(s09.len() == 48);
    let s10 = s09 + spec_u32_to_le_bytes(p.accel_z);
    assert(s10.len() == 52);
    let s11 = s10 + spec_u32_to_le_bytes(p.gyro_x);
    assert(s11.len() == 56);
    let s12 = s11 + spec_u32_to_le_bytes(p.gyro_y);
    assert(s12.len() == 60);
    let s13 = s12 + spec_u32_to_le_bytes(p.gyro_z);
    assert(s13.len() == 64);
    assert(spec_encode(p) == s13 + seq![p.status]);
    assert(spec_encode(p).len() == 65);
}

/// The status byte reflects the authoritative field groups unambiguously:
/// equal status bytes mean the same combination of real groups, for all
/// four combinations.
pub proof fn lemma_status_byte_unambiguous(p1: bool, m1: bool, p2: bool, m2: bool)
    ensures
        spec_status_byte(p1, m1) == spec_status_byte(p2, m2) ==> (p1 == p2 && m1 == m2),
{
}

/// A failed or absent read never stops the cycle: whatever combination of
/// readings the cycle obtained — both, either or none — the assembled
/// packet encodes to a full-size record ready for transmission.
pub proof fn lemma_cycle_always_produces_packet(
    pressure: Option<PressureReading>,
    motion: Option<MotionReading>,
    sim: SimulatedValues,
    timestamp: u64,
)
    ensures
        spec_encode(spec_packet_from_readings(pressure, motion, sim, timestamp)).len()
            == PACKET_SIZE,
        spec_packet_from_readings(pressure, motion, sim, timestamp).status == spec_status_byte(
            pressure is Some,
            motion is Some,
        ),
{
    lemma_packet_size(spec_packet_from_readings(pressure, motion, sim, timestamp));
}

} // verus!
