//! The driver itself: the command sequences for initialization, reset and
//! measurement, each pinned down over the transport's and delay source's
//! histories.

use vstd::prelude::*;

use crate::bus::{BusOp, DelayMs, I2c, write_op, write_read_op};
use crate::codec::{decode_response, spec_humidity_raw, spec_temperature_raw};
use crate::command::{Command, I2C_ADDRESS, encode_command, spec_command_bytes};
use crate::reading::{Humidity, Temperature};
use crate::status::spec_calibration_enabled;

verus! {

/// Errors a measurement can fail with.
#[derive(Debug, Copy, Clone)]
pub enum Error<E> {
    /// The sensor reported its calibration constants inactive; the reading
    /// was discarded.
    Uncalibrated(),
    /// The underlying bus transport failed.
    BusError(E),
}

impl<E> From<E> for Error<E> {
    /// Wraps a transport error unchanged.
    fn from(e: E) -> (r: Self)
        ensures
            r == Error::BusError(e),
    {
        Error::BusError(e)
    }
}

impl<E> vstd::std_specs::convert::FromSpecImpl<E> for Error<E> {
    open spec fn obeys_from_spec() -> bool {
        true
    }

    open spec fn from_spec(e: E) -> Self {
        Error::BusError(e)
    }
}

/// The two writes of a successful initialization handshake: the trigger
/// write, then the calibration-enable write, both acknowledged.
pub open spec fn spec_init_writes() -> Seq<BusOp> {
    seq![
        write_op(I2C_ADDRESS, spec_command_bytes(Command::GetRaw, 0), true),
        write_op(I2C_ADDRESS, spec_command_bytes(Command::Calibrate, 0x0800), true),
    ]
}

/// The two settling pauses of a successful initialization handshake, in
/// milliseconds.
pub open spec fn spec_init_delays() -> Seq<u32> {
    seq![300u32, 300u32]
}

/// The three bytes written to request a combined measurement. The middle
/// byte is an underdocumented configuration word; the driver always sends
/// the fixed pattern observed to work.
pub open spec fn spec_read_request() -> Seq<u8> {
    seq![Command::GetCT.spec_opcode(), 0xFFu8, 0x00u8]
}

/// AHT10 driver. Owns its bus transport and delay source exclusively for
/// its whole lifetime.
pub struct AHT10<I2C, D> {
    i2c: I2C,
    delay: D,
}

impl<I2C: I2c, D: DelayMs> AHT10<I2C, D> {
    /// The transactions the driver's transport has performed, in order.
    pub closed spec fn transport_ops(&self) -> Seq<BusOp> {
        self.i2c.ops()
    }

    /// The pauses the driver's delay source has performed, in order.
    pub closed spec fn delay_log(&self) -> Seq<u32> {
        self.delay.delays()
    }

    /// Sends one command with a 16-bit data word as a single three-byte
    /// write.
    fn write_cmd(&mut self, cmd: Command, dat: u16) -> (r: Result<(), I2C::Error>)
        ensures
            final(self).transport_ops() == old(self).transport_ops().push(
                write_op(I2C_ADDRESS, spec_command_bytes(cmd, dat), r is Ok),
            ),
            final(self).delay_log() == old(self).delay_log(),
    {
        let bytes = encode_command(cmd, dat);
        self.i2c.write(I2C_ADDRESS, &bytes)
    }

    /// Creates a new driver from a bus transport and a delay source and runs
    /// the mandatory initialization handshake.
    ///
    /// On success the handshake issued exactly the trigger write and the
    /// calibration-enable write, in that order, each followed by one 300 ms
    /// settling pause. On a transport failure the handshake is aborted and
    /// the transport's error is returned.
    pub fn new(i2c: I2C, delay: D) -> (r: Result<AHT10<I2C, D>, I2C::Error>)
        ensures
            r matches Ok(dev) ==> ({
                &&& dev.transport_ops() == i2c.ops() + spec_init_writes()
                &&& dev.delay_log() == delay.delays() + spec_init_delays()
            }),
    {
        let mut dev = AHT10 { i2c, delay };
        match dev.initialize() {
            Ok(()) => Ok(dev),
            Err(e) => Err(e),
        }
    }

    /// Runs the initialization handshake: the trigger write, a 300 ms
    /// settling pause, the calibration-enable write, and a second 300 ms
    /// pause, in that order.
    ///
    /// A transport failure on either write short-circuits: nothing further
    /// is issued, and the error says so in the history — a failure on the
    /// trigger write leaves exactly that one failed write and no pause; a
    /// failure on the calibration write leaves the acknowledged trigger
    /// write, one pause, and the failed calibration write.
    pub fn initialize(&mut self) -> (r: Result<(), I2C::Error>)
        ensures
            r is Ok ==> ({
                &&& final(self).transport_ops() == old(self).transport_ops() + spec_init_writes()
                &&& final(self).delay_log() == old(self).delay_log() + spec_init_delays()
            }),
            r is Err ==> ({
                ||| ({
                    &&& final(self).transport_ops() == old(self).transport_ops().push(
                        write_op(I2C_ADDRESS, spec_command_bytes(Command::GetRaw, 0), false),
                    )
                    &&& final(self).delay_log() == old(self).delay_log()
                })
                ||| ({
                    &&& final(self).transport_ops() == old(self).transport_ops().push(
                        write_op(I2C_ADDRESS, spec_command_bytes(Command::GetRaw, 0), true),
                    ).push(
                        write_op(I2C_ADDRESS, spec_command_bytes(Command::Calibrate, 0x0800), false),
                    )
                    &&& final(self).delay_log() == old(self).delay_log().push(300u32)
                })
            }),
    {
        match self.write_cmd(Command::GetRaw, 0) {
            Ok(()) => {},
            Err(e) => {
                return Err(e);
            },
        }
        self.delay.delay_ms(300);
        match self.write_cmd(Command::Calibrate, 0x0800) {
            Ok(()) => {},
            Err(e) => {
                return Err(e);
            },
        }
        self.delay.delay_ms(300);
        Ok(())
    }

    /// Soft-resets the sensor: one Reset write with a zero data word,
    /// followed by one 20 ms settling pause.
    ///
    /// The calibration handshake is not re-run; a caller that needs a fully
    /// working sensor afterwards must run [`AHT10::initialize`] again.
    pub fn reset(&mut self) -> (r: Result<(), I2C::Error>)
        ensures
            final(self).transport_ops() == old(self).transport_ops().push(
                write_op(I2C_ADDRESS, spec_command_bytes(Command::Reset, 0), r is Ok),
            ),
            r is Ok ==> final(self).delay_log() == old(self).delay_log().push(20u32),
            r is Err ==> final(self).delay_log() == old(self).delay_log(),
    {
        match self.write_cmd(Command::Reset, 0) {
            Ok(()) => {},
            Err(e) => {
                return Err(e);
            },
        }
        self.delay.delay_ms(20);
        Ok(())
    }

    /// Reads one humidity and temperature measurement.
    ///
    /// Issues exactly one combined write-then-read transaction with the
    /// fixed measurement request and a seven-byte response, and no pause.
    /// The response decodes to a reading exactly when its status byte
    /// reports the calibration constants active; otherwise the reading is
    /// discarded and the uncalibrated error returned. A transport failure is
    /// passed through unchanged.
    pub fn read(&mut self) -> (r: Result<(Humidity, Temperature), Error<I2C::Error>>)
        ensures
            final(self).delay_log() == old(self).delay_log(),
            match r {
                Ok((h, t)) => exists|resp: Seq<u8>|
                    {
                        &&& final(self).transport_ops() == old(self).transport_ops().push(
                            #[trigger] write_read_op(I2C_ADDRESS, spec_read_request(), Some(resp)),
                        )
                        &&& resp.len() == 7
                        &&& spec_calibration_enabled(resp[0])
                        &&& h.spec_raw() == spec_humidity_raw(resp[1], resp[2], resp[3])
                        &&& t.spec_raw() == spec_temperature_raw(resp[3], resp[4], resp[5])
                        &&& h.wf()
                        &&& t.wf()
                    },
                Err(Error::Uncalibrated()) => exists|resp: Seq<u8>|
                    {
                        &&& final(self).transport_ops() == old(self).transport_ops().push(
                            #[trigger] write_read_op(I2C_ADDRESS, spec_read_request(), Some(resp)),
                        )
                        &&& resp.len() == 7
                        &&& !spec_calibration_enabled(resp[0])
                    },
                Err(Error::BusError(_)) => final(self).transport_ops() == old(self)
                    .transport_ops().push(
                    write_read_op(I2C_ADDRESS, spec_read_request(), None),
                ),
            },
    {
        let request: [u8; 3] = [Command::GetCT.opcode(), 0xFF, 0x00];
        proof {
            assert(request@ =~= spec_read_request());
        }
        let buf: [u8; 7] = match self.i2c.write_read(I2C_ADDRESS, &request) {
            Ok(buf) => buf,
            Err(e) => {
                return Err(Error::BusError(e));
            },
        };
        match decode_response(&buf) {
            Some((h, t)) => {
                proof {
                    assert(self.transport_ops() == old(self).transport_ops().push(
                        write_read_op(I2C_ADDRESS, spec_read_request(), Some(buf@)),
                    ));
                }
                Ok((h, t))
            },
            None => {
                proof {
                    assert(self.transport_ops() == old(self).transport_ops().push(
                        write_read_op(I2C_ADDRESS, spec_read_request(), Some(buf@)),
                    ));
                }
                Err(Error::Uncalibrated())
            },
        }
    }
}

} // verus!
