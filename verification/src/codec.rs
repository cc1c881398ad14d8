//! Decoding of the sensor's 7-byte measurement response.
//!
//! Byte 0 is the status byte; bytes 1-5 pack two 20-bit counts in a
//! hardware-defined, non-byte-aligned layout: humidity occupies byte 1,
//! byte 2, and the high nibble of byte 3; temperature the low nibble of
//! byte 3, byte 4, and byte 5. Byte 6 is an optional CRC that the driver
//! receives but does not validate.

use vstd::prelude::*;

use crate::reading::{Humidity, Temperature, RAW_LIMIT};
use crate::status::{StatusFlags, spec_calibration_enabled};

verus! {

/// The 20-bit humidity count packed into response bytes 1, 2, and the high
/// nibble of byte 3.
pub open spec fn spec_humidity_raw(b1: u8, b2: u8, b3: u8) -> u32 {
    ((b1 as u32) << 12) | ((b2 as u32) << 4) | ((b3 as u32) >> 4)
}

/// The 20-bit temperature count packed into the low nibble of response
/// byte 3 and bytes 4 and 5.
pub open spec fn spec_temperature_raw(b3: u8, b4: u8, b5: u8) -> u32 {
    (((b3 as u32) & 0x0f) << 16) | ((b4 as u32) << 8) | (b5 as u32)
}

/// A packed humidity count always fits in 20 bits.
pub proof fn lemma_humidity_raw_in_range(b1: u8, b2: u8, b3: u8)
    ensures
        spec_humidity_raw(b1, b2, b3) < RAW_LIMIT,
{
    assert((((b1 as u32) << 12) | ((b2 as u32) << 4) | ((b3 as u32) >> 4)) < 0x100000)
        by (bit_vector);
}

/// A packed temperature count always fits in 20 bits.
pub proof fn lemma_temperature_raw_in_range(b3: u8, b4: u8, b5: u8)
    ensures
        spec_temperature_raw(b3, b4, b5) < RAW_LIMIT,
{
    assert(((((b3 as u32) & 0x0f) << 16) | ((b4 as u32) << 8) | (b5 as u32)) < 0x100000)
        by (bit_vector);
}

/// Decodes a 7-byte measurement response.
///
/// Returns the humidity and temperature pair exactly when the status byte
/// reports the calibration constants active; otherwise the reading is not
/// trustworthy and nothing of it is returned.
pub fn decode_response(buf: &[u8; 7]) -> (r: Option<(Humidity, Temperature)>)
    ensures
        r is Some <==> spec_calibration_enabled(buf@[0]),
        r matches Some((h, t)) ==> ({
            &&& h.spec_raw() == spec_humidity_raw(buf@[1], buf@[2], buf@[3])
            &&& t.spec_raw() == spec_temperature_raw(buf@[3], buf@[4], buf@[5])
            &&& h.wf()
            &&& t.wf()
        }),
{
    let status = StatusFlags::from_byte(buf[0]);
    if !status.calibration_enabled() {
        return None;
    }
    let b1 = buf[1];
    let b2 = buf[2];
    let b3 = buf[3];
    let b4 = buf[4];
    let b5 = buf[5];
    let hum: u32 = ((b1 as u32) << 12) | ((b2 as u32) << 4) | ((b3 as u32) >> 4);
    let temp: u32 = (((b3 as u32) & 0x0f) << 16) | ((b4 as u32) << 8) | (b5 as u32);
    proof {
        lemma_humidity_raw_in_range(b1, b2, b3);
        lemma_temperature_raw_in_range(b3, b4, b5);
    }
    Some((Humidity::from_raw(hum), Temperature::from_raw(temp)))
}

} // verus!
