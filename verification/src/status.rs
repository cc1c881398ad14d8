//! The status byte returned as the first byte of every measurement response.

use vstd::prelude::*;

verus! {

/// Whether the busy bit (bit 7) is set in a status byte.
pub open spec fn spec_busy(bits: u8) -> bool {
    bits & 0x80 != 0
}

/// The two-bit mode field (bits 6 and 5) of a status byte.
pub open spec fn spec_mode(bits: u8) -> u8 {
    (bits >> 5) & 0x03
}

/// Whether the CRC bit (bit 4) is set in a status byte.
pub open spec fn spec_crc(bits: u8) -> bool {
    bits & 0x10 != 0
}

/// Whether the calibration-enable bit (bit 3) is set in a status byte.
/// A measurement is trustworthy only when this bit is set.
pub open spec fn spec_calibration_enabled(bits: u8) -> bool {
    bits & 0x08 != 0
}

/// Whether the FIFO-enable bit (bit 2) is set in a status byte.
pub open spec fn spec_fifo_enabled(bits: u8) -> bool {
    bits & 0x04 != 0
}

/// Whether the FIFO-full bit (bit 1) is set in a status byte.
pub open spec fn spec_fifo_full(bits: u8) -> bool {
    bits & 0x02 != 0
}

/// Whether the FIFO-empty bit (bit 0) is set in a status byte.
pub open spec fn spec_fifo_empty(bits: u8) -> bool {
    bits & 0x01 != 0
}

/// The status flags of the sensor, decoded from the status byte.
#[derive(Copy, Clone)]
pub struct StatusFlags {
    bits: u8,
}

impl StatusFlags {
    /// The raw status byte the flags were decoded from.
    pub closed spec fn spec_bits(&self) -> u8 {
        self.bits
    }

    /// Wraps a raw status byte.
    pub fn from_byte(bits: u8) -> (r: StatusFlags)
        ensures
            r.spec_bits() == bits,
    {
        StatusFlags { bits }
    }

    /// Returns the raw status byte.
    pub fn bits(&self) -> (r: u8)
        ensures
            r == self.spec_bits(),
    {
        self.bits
    }

    /// The sensor is in the middle of an internal conversion.
    pub fn busy(&self) -> (r: bool)
        ensures
            r == spec_busy(self.spec_bits()),
    {
        self.bits & 0x80 != 0
    }

    /// The sensor's two-bit working mode.
    pub fn mode(&self) -> (r: u8)
        ensures
            r == spec_mode(self.spec_bits()),
    {
        (self.bits >> 5) & 0x03
    }

    /// The CRC bit. The driver reads it but never enforces it.
    pub fn crc(&self) -> (r: bool)
        ensures
            r == spec_crc(self.spec_bits()),
    {
        self.bits & 0x10 != 0
    }

    /// The sensor's calibration constants are active; readings taken without
    /// this bit are not physically meaningful.
    pub fn calibration_enabled(&self) -> (r: bool)
        ensures
            r == spec_calibration_enabled(self.spec_bits()),
    {
        self.bits & 0x08 != 0
    }

    /// FIFO mode is enabled. This driver never enables it.
    pub fn fifo_enabled(&self) -> (r: bool)
        ensures
            r == spec_fifo_enabled(self.spec_bits()),
    {
        self.bits & 0x04 != 0
    }

    /// The FIFO-full bit.
    pub fn fifo_full(&self) -> (r: bool)
        ensures
            r == spec_fifo_full(self.spec_bits()),
    {
        self.bits & 0x02 != 0
    }

    /// The FIFO-empty bit.
    pub fn fifo_empty(&self) -> (r: bool)
        ensures
            r == spec_fifo_empty(self.spec_bits()),
    {
        self.bits & 0x01 != 0
    }
}

} // verus!
