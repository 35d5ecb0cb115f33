//! Simulated fallback values: when a sensor group is absent or a read
//! failed, each field group is filled from bounded pseudo-random values in
//! physically plausible ranges, drawn from an explicitly scoped source.

use vstd::prelude::*;

verus! {

/// One simulated value per packet field, all in micro-units.
#[derive(Clone, Copy, Debug, PartialEq, Eq, Structural)]
pub struct SimulatedValues {
    pub temperature_uc: i64,
    pub pressure_uhpa: i64,
    pub humidity_upct: i64,
    pub altitude_um: i64,
    pub latitude_udeg: i64,
    pub longitude_udeg: i64,
    pub accel_x: i64,
    pub accel_y: i64,
    pub accel_z: i64,
    pub gyro_x: i64,
    pub gyro_y: i64,
    pub gyro_z: i64,
}

impl SimulatedValues {
    /// The documented plausible ranges: temperature −40..60 °C, pressure
    /// 800..1200 hPa, humidity 0..100 %, altitude 0..50000 m, latitude
    /// −90..90°, longitude −180..180°, acceleration −20..20 m/s², angular
    /// rate −2000..2000 °/s.
    pub open spec fn wf(self) -> bool {
        &&& -40000000 <= self.temperature_uc <= 60000000
        &&& 800000000 <= self.pressure_uhpa <= 1200000000
        &&& 0 <= self.humidity_upct <= 100000000
        &&& 0 <= self.altitude_um <= 50000000000
        &&& -90000000 <= self.latitude_udeg <= 90000000
        &&& -180000000 <= self.longitude_udeg <= 180000000
        &&& -20000000 <= self.accel_x <= 20000000
        &&& -20000000 <= self.accel_y <= 20000000
        &&& -20000000 <= self.accel_z <= 20000000
        &&& -2000000000 <= self.gyro_x <= 2000000000
        &&& -2000000000 <= self.gyro_y <= 2000000000
        &&& -2000000000 <= self.gyro_z <= 2000000000
    }
}

/// Relies on rand::random_range: a value drawn uniformly from the given
/// inclusive range by the thread-local generator; the range must not be
/// empty.
#[verifier::external_body]
fn random_in_range(lo: i64, hi: i64) -> (r: i64)
    requires
        lo <= hi,
    ensures
        lo <= r <= hi,
{
    rand::random_range(lo..=hi)
}

/// Draws one simulated value for every field, each within its documented
/// range.
pub fn simulated_values() -> (s: SimulatedValues)
    ensures
        s.wf(),
{
    SimulatedValues {
        temperature_uc: random_in_range(-40000000, 60000000),
        pressure_uhpa: random_in_range(800000000, 1200000000),
        humidity_upct: random_in_range(0, 100000000),
        altitude_um: random_in_range(0, 50000000000),
        latitude_udeg: random_in_range(-90000000, 90000000),
        longitude_udeg: random_in_range(-180000000, 180000000),
        accel_x: random_in_range(-20000000, 20000000),
        accel_y: random_in_range(-20000000, 20000000),
        accel_z: random_in_range(-20000000, 20000000),
        gyro_x: random_in_range(-2000000000, 2000000000),
        gyro_y: random_in_range(-2000000000, 2000000000),
        gyro_z: random_in_range(-2000000000, 2000000000),
    }
}

} // verus!
