//! The sensor's command set and its wire encoding.

use vstd::prelude::*;

verus! {

/// Fixed 7-bit device address of the sensor on the bus.
pub const I2C_ADDRESS: u8 = 0x38;

/// One-byte opcodes of the sensor's command set.
///
/// The set is closed: the sensor understands no other commands, and keeping
/// it an enumeration prevents an invalid opcode from ever being sent.
#[derive(Copy, Clone)]
pub enum Command {
    /// Load calibration constants; sent once during initialization.
    Calibrate,
    /// Trigger write sent first during initialization.
    GetRaw,
    /// Request a combined humidity and temperature measurement.
    GetCT,
    /// Soft-reset the sensor.
    Reset,
}

impl Command {
    /// The one-byte wire encoding of this command.
    pub open spec fn spec_opcode(self) -> u8 {
        match self {
            Command::Calibrate => 0xE1,
            Command::GetRaw => 0xA8,
            Command::GetCT => 0xAC,
            Command::Reset => 0xBA,
        }
    }

    /// Returns the one-byte wire encoding of this command.
    pub fn opcode(self) -> (r: u8)
        ensures
            r == self.spec_opcode(),
    {
        match self {
            Command::Calibrate => 0xE1,
            Command::GetRaw => 0xA8,
            Command::GetCT => 0xAC,
            Command::Reset => 0xBA,
        }
    }
}

/// The three bytes sent for a command with a 16-bit data word: the opcode
/// followed by the data in big-endian order.
pub open spec fn spec_command_bytes(cmd: Command, dat: u16) -> Seq<u8> {
    seq![cmd.spec_opcode(), (dat >> 8) as u8, (dat & 0xff) as u8]
}

/// Builds the three-byte wire form of a command with a 16-bit data word.
pub fn encode_command(cmd: Command, dat: u16) -> (r: [u8; 3])
    ensures
        r@ == spec_command_bytes(cmd, dat),
{
    proof {
        assert((dat >> 8) < 256) by (bit_vector);
        assert((dat & 0xff) < 256) by (bit_vector);
    }
    let r: [u8; 3] = [cmd.opcode(), (dat >> 8) as u8, (dat & 0xff) as u8];
    proof {
        assert(r@ =~= spec_command_bytes(cmd, dat));
    }
    r
}

} // verus!
