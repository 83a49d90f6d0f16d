//! The sensor's command set: each command's 16-bit code and processing
//! latency, and the three-byte frame that carries a code on the wire.
use vstd::prelude::*;

use crate::checksum::{crc8, crc8_of};

verus! {

/// The two bytes of a word, most significant first.
pub open spec fn word_bytes(w: u16) -> Seq<u8> {
    seq![(w / 256) as u8, (w % 256) as u8]
}

/// A word on the wire: its two bytes followed by their checksum.
pub open spec fn word_frame(w: u16) -> Seq<u8> {
    word_bytes(w).push(crc8_of(word_bytes(w)))
}

/// The big-endian word that two bytes spell.
pub open spec fn be16(hi: u8, lo: u8) -> u16 {
    (hi * 256 + lo) as u16
}

/// Splits a word into its two bytes, most significant first.
pub fn split_word(w: u16) -> (r: [u8; 2])
    ensures
        r@ == word_bytes(w),
{
    let r = [(w >> 8u16) as u8, w as u8];
    assert((w >> 8u16) as u8 == w / 256) by (bit_vector);
    assert(w as u8 == w % 256) by (bit_vector);
    assert(r@ =~= word_bytes(w));
    r
}

/// Describes one command: its code, and how many cycles the sensor
/// typically and at most needs before its answer can be read.
#[derive(Debug, Clone, Copy, PartialEq, Eq, Structural)]
pub struct Command {
    pub code: u16,
    pub duration_cycles: u32,
    pub max_duration_cycles: u32,
}

impl Command {
    /// The command's frame: its code's two bytes and their checksum.
    pub fn with_crc(&self) -> (r: [u8; 3])
        ensures
            r@ == word_frame(self.code),
    {
        let bytes = self.without_crc();
        let r = [bytes[0], bytes[1], crc8(&bytes)];
        assert(r@ =~= word_frame(self.code));
        r
    }

    /// The command's code as two bytes, most significant first.
    pub fn without_crc(&self) -> (r: [u8; 2])
        ensures
            r@ == word_bytes(self.code),
    {
        split_word(self.code)
    }
}

/// The commands that the sensor understands.
#[derive(Debug, Clone, Copy, PartialEq, Eq, Structural)]
pub enum CommandCode {
    InitAirQuality,
    MeasureAirQuality,
    GetBaseline,
    SetBaseline,
    SetHumidity,
    MeasureTest,
    GetFeatureSetVer,
    MeasureRawSignals,
    GetSerialId,
}

/// The descriptor of each command, after the sensor's data sheet.
pub open spec fn command_spec(code: CommandCode) -> Command {
    match code {
        CommandCode::InitAirQuality => Command {
            code: 0x2003,
            duration_cycles: 2,
            max_duration_cycles: 10,
        },
        CommandCode::MeasureAirQuality => Command {
            code: 0x2008,
            duration_cycles: 10,
            max_duration_cycles: 12,
        },
        CommandCode::GetBaseline => Command {
            code: 0x2015,
            duration_cycles: 10,
            max_duration_cycles: 10,
        },
        CommandCode::SetBaseline => Command {
            code: 0x201e,
            duration_cycles: 10,
            max_duration_cycles: 10,
        },
        CommandCode::SetHumidity => Command {
            code: 0x2061,
            duration_cycles: 1,
            max_duration_cycles: 10,
        },
        CommandCode::MeasureTest => Command {
            code: 0x2032,
            duration_cycles: 200,
            max_duration_cycles: 220,
        },
        CommandCode::GetFeatureSetVer => Command {
            code: 0x202f,
            duration_cycles: 1,
            max_duration_cycles: 2,
        },
        CommandCode::MeasureRawSignals => Command {
            code: 0x2050,
            duration_cycles: 20,
            max_duration_cycles: 25,
        },
        CommandCode::GetSerialId => Command {
            code: 0x3682,
            duration_cycles: 1,
            max_duration_cycles: 2,
        },
    }
}

impl CommandCode {
    /// The frame of this command's code.
    pub fn with_crc(&self) -> (r: [u8; 3])
        ensures
            r@ == word_frame(command_spec(*self).code),
    {
        command(*self).with_crc()
    }

    /// This command's code as two bytes.
    pub fn without_crc(&self) -> (r: [u8; 2])
        ensures
            r@ == word_bytes(command_spec(*self).code),
    {
        command(*self).without_crc()
    }
}

impl From<CommandCode> for [u8; 2] {
    fn from(val: CommandCode) -> Self {
        let r = command(val).without_crc();
        proof {
            broadcast use vstd::array::group_array_axioms;

            assert(r =~= code_bytes_array(val));
        }
        r
    }
}

/// The two bytes of a command's code, as an array.
pub open spec fn code_bytes_array(code: CommandCode) -> [u8; 2] {
    let b = word_bytes(command_spec(code).code);
    [b[0], b[1]]
}

impl vstd::std_specs::convert::FromSpecImpl<CommandCode> for [u8; 2] {
    open spec fn obeys_from_spec() -> bool {
        true
    }

    open spec fn from_spec(val: CommandCode) -> Self {
        code_bytes_array(val)
    }
}

impl From<CommandCode> for [u8; 3] {
    fn from(val: CommandCode) -> Self {
        let r = command(val).with_crc();
        proof {
            broadcast use vstd::array::group_array_axioms;

            assert(r =~= code_frame_array(val));
        }
        r
    }
}

/// The frame of a command's code, as an array.
pub open spec fn code_frame_array(code: CommandCode) -> [u8; 3] {
    let f = word_frame(command_spec(code).code);
    [f[0], f[1], f[2]]
}

impl vstd::std_specs::convert::FromSpecImpl<CommandCode> for [u8; 3] {
    open spec fn obeys_from_spec() -> bool {
        true
    }

    open spec fn from_spec(val: CommandCode) -> Self {
        code_frame_array(val)
    }
}

/// Looks up the descriptor of a command.
pub fn command(code: CommandCode) -> (r: Command)
    ensures
        r == command_spec(code),
{
    match code {
        CommandCode::InitAirQuality => Command {
            code: 0x2003,
            duration_cycles: 2,
            max_duration_cycles: 10,
        },
        CommandCode::MeasureAirQuality => Command {
            code: 0x2008,
            duration_cycles: 10,
            max_duration_cycles: 12,
        },
        CommandCode::GetBaseline => Command {
            code: 0x2015,
            duration_cycles: 10,
            max_duration_cycles: 10,
        },
        CommandCode::SetBaseline => Command {
            code: 0x201e,
            duration_cycles: 10,
            max_duration_cycles: 10,
        },
        CommandCode::SetHumidity => Command {
            code: 0x2061,
            duration_cycles: 1,
            max_duration_cycles: 10,
        },
        CommandCode::MeasureTest => Command {
            code: 0x2032,
            duration_cycles: 200,
            max_duration_cycles: 220,
        },
        CommandCode::GetFeatureSetVer => Command {
            code: 0x202f,
            duration_cycles: 1,
            max_duration_cycles: 2,
        },
        CommandCode::MeasureRawSignals => Command {
            code: 0x2050,
            duration_cycles: 20,
            max_duration_cycles: 25,
        },
        CommandCode::GetSerialId => Command {
            code: 0x3682,
            duration_cycles: 1,
            max_duration_cycles: 2,
        },
    }
}

} // verus!
