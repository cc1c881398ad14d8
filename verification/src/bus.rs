//! Abstract capabilities the driver consumes: the two-wire bus transport and
//! the delay source.
//!
//! Both traits carry a ghost history. A transport records every transaction
//! it was asked to perform, a delay source every pause; the driver's
//! contracts then pin down exactly which transactions each operation issues,
//! in which order, and with which payloads.

use vstd::prelude::*;

verus! {

/// One transaction issued on the bus, as the transport's history records it.
pub enum BusOp {
    /// A plain write of `data` to device `address`; `ok` is whether the
    /// transport reported success.
    Write { address: u8, data: Seq<u8>, ok: bool },
    /// A combined write-then-read: `data` written to device `address`, then
    /// `response` read back, or `None` when the transport failed.
    WriteRead { address: u8, data: Seq<u8>, response: Option<Seq<u8>> },
}

/// The history entry for a plain write.
pub open spec fn write_op(address: u8, data: Seq<u8>, ok: bool) -> BusOp {
    BusOp::Write { address, data, ok }
}

/// The history entry for a combined write-then-read.
pub open spec fn write_read_op(address: u8, data: Seq<u8>, response: Option<Seq<u8>>) -> BusOp {
    BusOp::WriteRead { address, data, response }
}

/// A two-wire bus transport at 7-bit device addresses.
///
/// An implementation chooses its own error type and decides which
/// transactions fail; the only obligation is to record each transaction it
/// was asked to perform, in order, in its history.
pub trait I2c: Sized {
    /// The transport's own error type, passed through the driver unchanged.
    type Error;

    /// The transactions this transport has performed, in order. What the
    /// history of a given transport is stays the implementation's own
    /// business; the default leaves it unspecified.
    open spec fn ops(&self) -> Seq<BusOp> {
        arbitrary()
    }

    /// Writes three bytes to the device at `address`.
    fn write(&mut self, address: u8, data: &[u8; 3]) -> (r: Result<(), Self::Error>)
        ensures
            final(self).ops() == old(self).ops().push(write_op(address, data@, r is Ok)),
    ;

    /// Writes three bytes to the device at `address`, then reads a seven-byte
    /// response from it.
    fn write_read(&mut self, address: u8, data: &[u8; 3]) -> (r: Result<[u8; 7], Self::Error>)
        ensures
            r matches Ok(buf) ==> final(self).ops() == old(self).ops().push(
                write_read_op(address, data@, Some(buf@)),
            ),
            r is Err ==> final(self).ops() == old(self).ops().push(
                write_read_op(address, data@, None),
            ),
    ;
}

/// A source of pauses of at least the requested number of milliseconds, used
/// to let the sensor finish its internal conversions. Pausing cannot fail;
/// each pause is recorded in the source's history.
pub trait DelayMs: Sized {
    /// The pauses this source has performed, in milliseconds, in order.
    /// What the history of a given source is stays the implementation's own
    /// business; the default leaves it unspecified.
    open spec fn delays(&self) -> Seq<u32> {
        arbitrary()
    }

    /// Pauses for at least `ms` milliseconds.
    fn delay_ms(&mut self, ms: u32)
        ensures
            final(self).delays() == old(self).delays().push(ms),
    ;
}

} // verus!
