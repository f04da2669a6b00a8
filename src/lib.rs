//! Wire protocol of an espresso machine's controller board: the ASCII line
//! framing, the binary payload codec and the command table.
use vstd::prelude::*;

pub mod fixed_point;
pub mod serial;
pub mod state;
pub mod records;
pub mod packet;
pub mod fake;

pub use packet::Packet;
pub use records::{
    Calibration, FwMapRequest, MmrOpperation, RequestedState, SetTime, ShotDirectory,
    ShotFrameWrite, ShotHeaderWrite, ShotSample, ShotSettings, StateInfo, Temperatures, Version,
    Versions, WaterLevels,
};
pub use serial::{CommandFrame, Frame};

verus! {

/// What can go wrong when reading, decoding or handling a frame.
#[derive(Clone, Copy, Debug, PartialEq, Eq, Structural)]
pub enum Error {
    /// The line does not match the frame grammar.
    ParseError,
    /// A payload's bytes do not form a valid record (an unknown enum code).
    BinRwError,
    /// No payload schema is known for this command, or the payload's length
    /// is not the command's length.
    UnknownCommand(char),
    /// A register read asked for an address that is not simulated.
    UnsupportedMmr(u32),
    /// A device-originated frame arrived on the device's inbound side.
    UnexpectedFrame,
    /// The byte transport failed.
    IoError,
    /// A payload does not fit where it must be written.
    Unknown,
}

pub type Result<T> = core::result::Result<T, Error>;

/// The commands of the protocol.
#[derive(Clone, Copy, Debug, PartialEq, Eq, Structural)]
pub enum Command {
    Versions,
    RequestedState,
    ReadFromMmr,
    WriteToMmr,
    FwMapRequest,
    ShotSettings,
    ShotSample,
    StateInfo,
    HeaderWrite,
    FrameWrite,
    WaterLevels,
    Calibration,
}

/// The largest payload length of any command.
pub const MAX_DATA_LENGTH: usize = 20;

impl Command {
    /// The largest payload length of any command.
    pub const MAX_DATA_LENGTH: usize = crate::MAX_DATA_LENGTH;

    /// The command's character in the serial framing.
    pub open spec fn spec_serial_command(self) -> char {
        match self {
            Command::Versions => 'A',
            Command::RequestedState => 'B',
            Command::ReadFromMmr => 'E',
            Command::WriteToMmr => 'F',
            Command::FwMapRequest => 'I',
            Command::ShotSettings => 'K',
            Command::ShotSample => 'M',
            Command::StateInfo => 'N',
            Command::HeaderWrite => 'O',
            Command::FrameWrite => 'P',
            Command::WaterLevels => 'Q',
            Command::Calibration => 'R',
        }
    }

    /// The command's channel identifier on the attribute-based transport.
    pub open spec fn spec_gatt_uu8d(self) -> u16 {
        match self {
            Command::Versions => 0xa001,
            Command::RequestedState => 0xa002,
            Command::ReadFromMmr => 0xa005,
            Command::WriteToMmr => 0xa006,
            Command::FwMapRequest => 0xa009,
            Command::ShotSettings => 0xa00b,
            Command::ShotSample => 0xa00d,
            Command::StateInfo => 0xa00e,
            Command::HeaderWrite => 0xa00f,
            Command::FrameWrite => 0xa010,
            Command::WaterLevels => 0xa011,
            Command::Calibration => 0xa012,
        }
    }

    /// The exact length of the command's payload.
    pub open spec fn spec_data_len(self) -> nat {
        match self {
            Command::Versions => 18,
            Command::RequestedState => 1,
            Command::ReadFromMmr => 20,
            Command::WriteToMmr => 20,
            Command::FwMapRequest => 7,
            Command::ShotSettings => 10,
            Command::ShotSample => 19,
            Command::StateInfo => 2,
            Command::HeaderWrite => 5,
            Command::FrameWrite => 8,
            Command::WaterLevels => 4,
            Command::Calibration => 14,
        }
    }

    /// The command whose serial character is `c`, if any.
    pub open spec fn spec_from_serial_command(c: char) -> Option<Command> {
        if exists|cmd: Command| cmd.spec_serial_command() == c {
            Some(choose|cmd: Command| cmd.spec_serial_command() == c)
        } else {
            None
        }
    }

    pub fn serial_command(&self) -> (r: char)
        ensures
            r == self.spec_serial_command(),
    {
        match self {
            Command::Versions => 'A',
            Command::RequestedState => 'B',
            Command::ReadFromMmr => 'E',
            Command::WriteToMmr => 'F',
            Command::FwMapRequest => 'I',
            Command::ShotSettings => 'K',
            Command::ShotSample => 'M',
            Command::StateInfo => 'N',
            Command::HeaderWrite => 'O',
            Command::FrameWrite => 'P',
            Command::WaterLevels => 'Q',
            Command::Calibration => 'R',
        }
    }

    pub fn gatt_uu8d(&self) -> (r: u16)
        ensures
            r == self.spec_gatt_uu8d(),
    {
        match self {
            Command::Versions => 0xa001,
            Command::RequestedState => 0xa002,
            Command::ReadFromMmr => 0xa005,
            Command::WriteToMmr => 0xa006,
            Command::FwMapRequest => 0xa009,
            Command::ShotSettings => 0xa00b,
            Command::ShotSample => 0xa00d,
            Command::StateInfo => 0xa00e,
            Command::HeaderWrite => 0xa00f,
            Command::FrameWrite => 0xa010,
            Command::WaterLevels => 0xa011,
            Command::Calibration => 0xa012,
        }
    }

    pub fn data_len(&self) -> (r: usize)
        ensures
            r == self.spec_data_len(),
            r <= Command::MAX_DATA_LENGTH,
    {
        match self {
            Command::Versions => 18,
            Command::RequestedState => 1,
            Command::ReadFromMmr => 20,
            Command::WriteToMmr => 20,
            Command::FwMapRequest => 7,
            Command::ShotSettings => 10,
            Command::ShotSample => 19,
            Command::StateInfo => 2,
            Command::HeaderWrite => 5,
            Command::FrameWrite => 8,
            Command::WaterLevels => 4,
            Command::Calibration => 14,
        }
    }

    /// Looks up the command whose serial character is `c`.
    pub fn from_serial_command(c: char) -> (r: Option<Command>)
        ensures
            r == Command::spec_from_serial_command(c),
            r matches Some(cmd) ==> cmd.spec_serial_command() == c,
    {
        let r = match c {
            'A' => Some(Command::Versions),
            'B' => Some(Command::RequestedState),
            'E' => Some(Command::ReadFromMmr),
            'F' => Some(Command::WriteToMmr),
            'I' => Some(Command::FwMapRequest),
            'K' => Some(Command::ShotSettings),
            'M' => Some(Command::ShotSample),
            'N' => Some(Command::StateInfo),
            'O' => Some(Command::HeaderWrite),
            'P' => Some(Command::FrameWrite),
            'Q' => Some(Command::WaterLevels),
            'R' => Some(Command::Calibration),
            _ => None,
        };
        proof {
            lemma_serial_command_injective();
            if let Some(cmd) = r {
                assert(cmd.spec_serial_command() == c);
            } else {
                assert forall|cmd: Command| cmd.spec_serial_command() != c by {
                    match cmd {
                        _ => {},
                    }
                }
            }
        }
        r
    }
}

/// Distinct commands have distinct serial characters.
pub proof fn lemma_serial_command_injective()
    ensures
        forall|a: Command, b: Command|
            a.spec_serial_command() == b.spec_serial_command() ==> a == b,
{
    assert forall|a: Command, b: Command|
        a.spec_serial_command() == b.spec_serial_command() implies a == b by {
        match a {
            _ => match b {
                _ => {},
            },
        }
    }
}

/// Looking up a command's serial character gives the command.
pub proof fn lemma_from_serial_command(cmd: Command)
    ensures
        Command::spec_from_serial_command(cmd.spec_serial_command()) == Some(cmd),
{
    lemma_serial_command_injective();
}

} // verus!
