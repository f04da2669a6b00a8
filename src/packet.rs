//! Typed packets: a frame's payload decoded by its command's schema.
use vstd::prelude::*;

use crate::fixed_point::{f817_decode, f817_encode};
use crate::records::{
    MmrOpperation, RequestedState, ShotFrameWrite, ShotHeaderWrite, ShotSample, ShotSettings,
    StateInfo, WaterLevels,
};
use crate::serial::{parse_line, payload_as_slice, payload_bytes, payload_from_slice, CommandFrame, Frame, FrameView};
use crate::state::{State, SubState};
use crate::{Command, Error, Result};

verus! {

/// A frame with its payload decoded.
#[derive(Clone, Copy, Debug, PartialEq, Eq)]
pub enum Packet {
    RequestedState(RequestedState),
    ReadFromMmr(MmrOpperation),
    WriteToMmr(MmrOpperation),
    ShotSettings(ShotSettings),
    ShotSample(ShotSample),
    StateInfo(StateInfo),
    ShotHeaderWrite(ShotHeaderWrite),
    ShotFrameWrite(ShotFrameWrite),
    WaterLevels(WaterLevels),
    Subscribe(char),
    Unsubscribe(char),
}

/// The command characters whose payload has a record.
pub open spec fn has_schema(c: char) -> bool {
    c == 'B' || c == 'E' || c == 'F' || c == 'K' || c == 'M' || c == 'N' || c == 'O' || c == 'P'
        || c == 'Q'
}

/// Why a payload does not decode, if it does not: no record for the
/// command, or not the command's length, is `UnknownCommand`; an unknown
/// state code is `BinRwError`.
pub open spec fn payload_error(c: char, d: Seq<u8>) -> Option<Error> {
    if !has_schema(c) || d.len() != Command::spec_from_serial_command(c).unwrap().spec_data_len() {
        Some(Error::UnknownCommand(c))
    } else if c == 'B' && State::spec_from_code(d[0]) is None {
        Some(Error::BinRwError)
    } else if c == 'N' && (State::spec_from_code(d[0]) is None || SubState::spec_from_code(d[1]) is None) {
        Some(Error::BinRwError)
    } else {
        None
    }
}

/// What decoding a payload returns: the error that `payload_error` names,
/// or the packet of the command's record read from the bytes.
pub open spec fn decodes_payload(r: Result<Packet>, c: char, d: Seq<u8>) -> bool {
    match payload_error(c, d) {
        Some(e) => r == Err::<Packet, Error>(e),
        None => r matches Ok(p) && p.is_payload_of(c, d),
    }
}

/// What decoding a frame returns: subscription changes carry their
/// character through, other frames decode their payload.
pub open spec fn decodes_frame(r: Result<Packet>, v: FrameView) -> bool {
    match v {
        FrameView::FromDe1(c, d) => decodes_payload(r, c, d),
        FrameView::ToDe1(c, d) => decodes_payload(r, c, d),
        FrameView::Subscribe(c) => r == Ok::<Packet, Error>(Packet::Subscribe(c)),
        FrameView::Unsubscribe(c) => r == Ok::<Packet, Error>(Packet::Unsubscribe(c)),
    }
}

impl Packet {
    /// This packet is the record that command `c`'s payload `d` holds.
    pub open spec fn is_payload_of(self, c: char, d: Seq<u8>) -> bool {
        match self {
            Packet::RequestedState(x) => c == 'B' && x.decodes_from(d),
            Packet::ReadFromMmr(x) => c == 'E' && x.decodes_from(d),
            Packet::WriteToMmr(x) => c == 'F' && x.decodes_from(d),
            Packet::ShotSettings(x) => c == 'K' && x.decodes_from(d),
            Packet::ShotSample(x) => c == 'M' && x.decodes_from(d),
            Packet::StateInfo(x) => c == 'N' && x.decodes_from(d),
            Packet::ShotHeaderWrite(x) => c == 'O' && x.decodes_from(d),
            Packet::ShotFrameWrite(x) => c == 'P' && x.decodes_from(d),
            Packet::WaterLevels(x) => c == 'Q' && x.decodes_from(d),
            Packet::Subscribe(_) => false,
            Packet::Unsubscribe(_) => false,
        }
    }

    /// The frame that carries this packet, from the device or to it.
    pub open spec fn spec_frame(self, from_device: bool) -> FrameView {
        let (c, d) = match self {
            Packet::RequestedState(x) => ('B', x.spec_encode()),
            Packet::ReadFromMmr(x) => ('E', x.spec_encode()),
            Packet::WriteToMmr(x) => ('F', x.spec_encode()),
            Packet::ShotSettings(x) => ('K', x.spec_encode()),
            Packet::ShotSample(x) => ('M', x.spec_encode()),
            Packet::StateInfo(x) => ('N', x.spec_encode()),
            Packet::ShotHeaderWrite(x) => ('O', x.spec_encode()),
            Packet::ShotFrameWrite(x) => ('P', x.spec_encode()),
            Packet::WaterLevels(x) => ('Q', x.spec_encode()),
            Packet::Subscribe(c) => (c, Seq::empty()),
            Packet::Unsubscribe(c) => (c, Seq::empty()),
        };
        match self {
            Packet::Subscribe(c) => FrameView::Subscribe(c),
            Packet::Unsubscribe(c) => FrameView::Unsubscribe(c),
            _ => if from_device {
                FrameView::FromDe1(c, d)
            } else {
                FrameView::ToDe1(c, d)
            },
        }
    }

    /// Decodes a command frame's payload by the record of its command.
    pub fn from_command(command: &CommandFrame) -> (r: Result<Packet>)
        ensures
            decodes_payload(r, command.command, payload_bytes(command.data)),
    {
        let c = command.command;
        let d = payload_as_slice(&command.data);
        let cmd = match Command::from_serial_command(c) {
            Some(cmd) => cmd,
            None => {
                assert(!has_schema(c)) by {
                    assert(Command::RequestedState.spec_serial_command() != c);
                    assert(Command::ReadFromMmr.spec_serial_command() != c);
                    assert(Command::WriteToMmr.spec_serial_command() != c);
                    assert(Command::ShotSettings.spec_serial_command() != c);
                    assert(Command::ShotSample.spec_serial_command() != c);
                    assert(Command::StateInfo.spec_serial_command() != c);
                    assert(Command::HeaderWrite.spec_serial_command() != c);
                    assert(Command::FrameWrite.spec_serial_command() != c);
                    assert(Command::WaterLevels.spec_serial_command() != c);
                }
                return Err(Error::UnknownCommand(c));
            },
        };
        proof {
            crate::lemma_serial_command_injective();
        }
        if !(c == 'B' || c == 'E' || c == 'F' || c == 'K' || c == 'M' || c == 'N' || c == 'O' || c
            == 'P' || c == 'Q') || d.len() != cmd.data_len() {
            return Err(Error::UnknownCommand(c));
        }
        if c == 'B' {
            assert(cmd == Command::RequestedState);
            match RequestedState::decode(d) {
                Some(x) => Ok(Packet::RequestedState(x)),
                None => Err(Error::BinRwError),
            }
        } else if c == 'E' {
            assert(cmd == Command::ReadFromMmr);
            Ok(Packet::ReadFromMmr(MmrOpperation::decode(d)))
        } else if c == 'F' {
            assert(cmd == Command::WriteToMmr);
            Ok(Packet::WriteToMmr(MmrOpperation::decode(d)))
        } else if c == 'K' {
            assert(cmd == Command::ShotSettings);
            Ok(Packet::ShotSettings(ShotSettings::decode(d)))
        } else if c == 'M' {
            assert(cmd == Command::ShotSample);
            Ok(Packet::ShotSample(ShotSample::decode(d)))
        } else if c == 'N' {
            assert(cmd == Command::StateInfo);
            match StateInfo::decode(d) {
                Some(x) => Ok(Packet::StateInfo(x)),
                None => Err(Error::BinRwError),
            }
        } else if c == 'O' {
            assert(cmd == Command::HeaderWrite);
            Ok(Packet::ShotHeaderWrite(ShotHeaderWrite::decode(d)))
        } else if c == 'P' {
            assert(cmd == Command::FrameWrite);
            Ok(Packet::ShotFrameWrite(ShotFrameWrite::decode(d)))
        } else {
            assert(cmd == Command::WaterLevels);
            Ok(Packet::WaterLevels(WaterLevels::decode(d)))
        }
    }

    /// Decodes a frame: subscription changes are carried through, other
    /// frames have their payload decoded.
    pub fn from_frame(frame: &Frame) -> (r: Result<Packet>)
        ensures
            decodes_frame(r, frame@),
    {
        match frame {
            Frame::FromDe1(command) => Self::from_command(command),
            Frame::ToDe1(command) => Self::from_command(command),
            Frame::Subscribe(c) => Ok(Packet::Subscribe(*c)),
            Frame::Unsubscribe(c) => Ok(Packet::Unsubscribe(*c)),
        }
    }

    /// Parses a line, without its terminator, and decodes its frame.
    pub fn parse(s: &str) -> (r: Result<Packet>)
        ensures
            match parse_line(s@) {
                None => r == Err::<Packet, Error>(Error::ParseError),
                Some(v) => decodes_frame(r, v),
            },
    {
        let frame = Frame::parse(s)?;
        Self::from_frame(&frame)
    }

    /// The frame that carries this packet, from the device or to it.
    pub fn to_frame(&self, from_device: bool) -> (r: Frame)
        ensures
            r@ == self.spec_frame(from_device),
    {
        let (c, data) = match self {
            Packet::Subscribe(c) => return Frame::Subscribe(*c),
            Packet::Unsubscribe(c) => return Frame::Unsubscribe(*c),
            Packet::RequestedState(x) => ('B', x.encode()),
            Packet::ReadFromMmr(x) => ('E', x.encode()),
            Packet::WriteToMmr(x) => ('F', x.encode()),
            Packet::ShotSettings(x) => ('K', x.encode()),
            Packet::ShotSample(x) => ('M', x.encode()),
            Packet::StateInfo(x) => ('N', x.encode()),
            Packet::ShotHeaderWrite(x) => ('O', x.encode()),
            Packet::ShotFrameWrite(x) => ('P', x.encode()),
            Packet::WaterLevels(x) => ('Q', x.encode()),
        };
        let command = CommandFrame { command: c, data: payload_from_slice(data.as_slice()) };
        if from_device {
            Frame::FromDe1(command)
        } else {
            Frame::ToDe1(command)
        }
    }
}

impl Packet {
    /// The packet's values are those that the wire can carry exactly: a
    /// register address and a head temperature within 24 bits, a maximum
    /// volume within 10 bits, and a frame length that the one-byte format
    /// holds.
    pub open spec fn is_wire_exact(self) -> bool {
        match self {
            Packet::ReadFromMmr(x) => x.addr < 0x100_0000,
            Packet::WriteToMmr(x) => x.addr < 0x100_0000,
            Packet::ShotSample(x) => x.head_temp.bits < 0x100_0000,
            Packet::ShotFrameWrite(x) => x.max_volume < 0x400 && f817_decode(
                f817_encode(x.frame_lenght.bits),
            ) == x.frame_lenght.bits,
            _ => true,
        }
    }
}

/// A packet whose values the wire carries exactly, put in a frame and
/// decoded again, is the same packet.
pub proof fn lemma_packet_round_trip(p: Packet, from_device: bool)
    requires
        p.is_wire_exact(),
    ensures
        p.spec_frame(from_device).wf(),
        decodes_frame(Ok(p), p.spec_frame(from_device)),
{
    crate::lemma_serial_command_injective();
    match p {
        Packet::RequestedState(x) => {
            x.state.lemma_code_round_trip(0);
            assert(Command::RequestedState.spec_serial_command() == 'B');
        },
        Packet::ReadFromMmr(x) => {
            crate::records::lemma_mmr_round_trip(x.spec_encode(), x);
            assert(Command::ReadFromMmr.spec_serial_command() == 'E');
        },
        Packet::WriteToMmr(x) => {
            crate::records::lemma_mmr_round_trip(x.spec_encode(), x);
            assert(Command::WriteToMmr.spec_serial_command() == 'F');
        },
        Packet::ShotSettings(x) => {
            x.lemma_encode_decodes();
            assert(Command::ShotSettings.spec_serial_command() == 'K');
        },
        Packet::ShotSample(x) => {
            x.lemma_encode_decodes();
            assert(Command::ShotSample.spec_serial_command() == 'M');
        },
        Packet::StateInfo(x) => {
            x.state.lemma_code_round_trip(0);
            x.sub_state.lemma_code_round_trip(0);
            assert(Command::StateInfo.spec_serial_command() == 'N');
        },
        Packet::ShotHeaderWrite(x) => {
            x.lemma_encode_decodes();
            assert(Command::HeaderWrite.spec_serial_command() == 'O');
        },
        Packet::ShotFrameWrite(x) => {
            x.lemma_encode_decodes();
            assert(Command::FrameWrite.spec_serial_command() == 'P');
        },
        Packet::WaterLevels(x) => {
            x.lemma_encode_decodes();
            assert(Command::WaterLevels.spec_serial_command() == 'Q');
        },
        _ => {},
    }
}

/// Every packet decoded from a payload holds values that the wire carries
/// exactly; so encoding it and decoding again gives it back.
pub proof fn lemma_decoded_packet_is_wire_exact(p: Packet, c: char, d: Seq<u8>)
    requires
        decodes_payload(Ok(p), c, d),
    ensures
        p.is_wire_exact(),
{
    match p {
        Packet::ReadFromMmr(x) => {
            crate::lemma_from_serial_command(Command::ReadFromMmr);
            crate::fixed_point::lemma_u24_bytes_round_trip(d.subrange(1, 4));
        },
        Packet::WriteToMmr(x) => {
            crate::lemma_from_serial_command(Command::WriteToMmr);
            crate::fixed_point::lemma_u24_bytes_round_trip(d.subrange(1, 4));
        },
        Packet::ShotSample(x) => {
            crate::lemma_from_serial_command(Command::ShotSample);
            crate::fixed_point::lemma_u24_bytes_round_trip(d.subrange(8, 11));
        },
        Packet::ShotFrameWrite(x) => {
            crate::lemma_from_serial_command(Command::FrameWrite);
            crate::fixed_point::lemma_f817_round_trip(d[4]);
        },
        _ => {},
    }
}

impl core::str::FromStr for Packet {
    type Err = Error;

    fn from_str(s: &str) -> (r: core::result::Result<Packet, Error>)
        ensures
            match parse_line(s@) {
                None => r == Err::<Packet, Error>(Error::ParseError),
                Some(v) => decodes_frame(r, v),
            },
    {
        Packet::parse(s)
    }
}

} // verus!
