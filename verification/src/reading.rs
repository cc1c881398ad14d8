//! Measurement values: raw 20-bit counts wrapped as humidity and temperature.
//!
//! Conversion to physical units (relative-humidity percent, degrees Celsius)
//! uses floating point, which stays outside this crate; the raw counts and
//! their 20-bit range invariant are modeled here.

use vstd::prelude::*;

verus! {

/// One past the largest raw count: measurements are 20-bit values.
pub const RAW_LIMIT: u32 = 0x100000;

/// Humidity reading from the sensor: a raw 20-bit count.
///
/// Relative humidity in percent is `100 * raw / 2^20`.
#[derive(Copy, Clone)]
pub struct Humidity {
    h: u32,
}

impl Humidity {
    /// The raw count the reading wraps.
    pub closed spec fn spec_raw(&self) -> u32 {
        self.h
    }

    /// The raw count is within the sensor's 20-bit range.
    pub open spec fn wf(&self) -> bool {
        self.spec_raw() < RAW_LIMIT
    }

    /// Wraps a raw 20-bit humidity count. Reading it back through
    /// [`Humidity::raw`] returns the identical integer.
    pub fn from_raw(raw_count: u32) -> (r: Humidity)
        requires
            raw_count < RAW_LIMIT,
        ensures
            r.spec_raw() == raw_count,
            r.wf(),
    {
        Humidity { h: raw_count }
    }

    /// Raw humidity reading.
    pub fn raw(&self) -> (r: u32)
        ensures
            r == self.spec_raw(),
    {
        self.h
    }
}

/// Temperature reading from the sensor: a raw 20-bit count.
///
/// Degrees Celsius is `200 * raw / 2^20 - 50`.
#[derive(Copy, Clone)]
pub struct Temperature {
    t: u32,
}

impl Temperature {
    /// The raw count the reading wraps.
    pub closed spec fn spec_raw(&self) -> u32 {
        self.t
    }

    /// The raw count is within the sensor's 20-bit range.
    pub open spec fn wf(&self) -> bool {
        self.spec_raw() < RAW_LIMIT
    }

    /// Wraps a raw 20-bit temperature count. Reading it back through
    /// [`Temperature::raw`] returns the identical integer.
    pub fn from_raw(raw_count: u32) -> (r: Temperature)
        requires
            raw_count < RAW_LIMIT,
        ensures
            r.spec_raw() == raw_count,
            r.wf(),
    {
        Temperature { t: raw_count }
    }

    /// Raw temperature reading.
    pub fn raw(&self) -> (r: u32)
        ensures
            r == self.spec_raw(),
    {
        self.t
    }
}

} // verus!
