//! The decisions of a simulated device: what it answers to each frame it
//! receives, and what it sends on each tick. Whoever runs it moves bytes
//! and keeps time.
use vstd::prelude::*;

use crate::fixed_point::{be24_bytes, be24_value, U16F16, U4F12, U4F4, U8F8};
use crate::packet::{payload_error, Packet};
use crate::records::{MmrOpperation, ShotSample, StateInfo, WaterLevels};
use crate::serial::{Frame, FrameView, LineReader};
use crate::state::{State, SubState};
use crate::{Command, Error, Result};

verus! {

/// The telemetry that a host asked to receive.
#[derive(Clone, Copy, Debug, PartialEq, Eq, Structural)]
pub struct Subscriptions {
    pub mmr_read: bool,
    pub shot_sample: bool,
    pub state_info: bool,
    pub water_levels: bool,
}

impl Subscriptions {
    /// The subscriptions after turning command `c` on or off; commands
    /// without telemetry change nothing.
    pub open spec fn with(self, c: char, enable: bool) -> Subscriptions {
        if c == 'E' {
            Subscriptions { mmr_read: enable, ..self }
        } else if c == 'M' {
            Subscriptions { shot_sample: enable, ..self }
        } else if c == 'N' {
            Subscriptions { state_info: enable, ..self }
        } else if c == 'Q' {
            Subscriptions { water_levels: enable, ..self }
        } else {
            self
        }
    }
}

/// Step of the sample timer per tick.
pub const TIMESTAMP_STEP: u16 = 25;

/// Capacity of the simulator's line buffer.
pub const LINE_CAPACITY: usize = 64;

/// The register contents that the simulator answers reads of.
pub open spec fn canned_register(addr: u32) -> Option<Seq<u8>> {
    if addr == 0x800008 {
        Some(seq![0x14u8, 0x05, 0x00, 0x00, 0x04, 0x00, 0x00, 0x00, 0x35, 0x05, 0x00, 0x00])
    } else if addr == 0x803810 {
        Some(seq![0x14u8, 0x00, 0x00, 0x00, 0x28, 0x00, 0x00, 0x00, 0x52, 0x03, 0x00, 0x00])
    } else if addr == 0x80381c {
        Some(seq![0x07u8, 0x00, 0x00, 0x00])
    } else if addr == 0x803830 {
        Some(seq![0x84u8, 0x23, 0x00, 0x00])
    } else if addr == 0x803834 {
        Some(seq![0x78u8, 0x00, 0x00, 0x00, 0x14, 0x00, 0x00, 0x00])
    } else if addr == 0x80385c {
        Some(seq![0x02u8, 0x00, 0x00, 0x00])
    } else {
        None
    }
}

/// The payload of a register response: the byte count, the address and
/// the data, padded with zeros to sixteen bytes.
pub open spec fn mmr_response_payload(addr: u32, data: Seq<u8>) -> Seq<u8> {
    seq![data.len() as u8] + be24_bytes(addr) + data + Seq::new(
        (16 - data.len()) as nat,
        |_i: int| 0u8,
    )
}

/// The simulator's answer to a register read of `addr`: nothing while
/// register reads are not subscribed, an error for an address it does not
/// simulate, else the register's contents from the device.
pub open spec fn mmr_reply(r: Result<Option<Frame>>, subscribed: bool, addr: u32) -> bool {
    if !subscribed {
        r matches Ok(None)
    } else {
        match canned_register(addr) {
            None => r == Err::<Option<Frame>, Error>(Error::UnsupportedMmr(addr)),
            Some(data) => r matches Ok(Some(f)) && f@ == FrameView::FromDe1(
                'E',
                mmr_response_payload(addr, data),
            ),
        }
    }
}

/// The sample sent on a tick, stamped with `timer`.
pub open spec fn tick_sample(timer: u16) -> ShotSample {
    ShotSample {
        timer,
        group_pressure: U4F12 { bits: 42 },
        group_flow: U4F12 { bits: 7663 },
        mix_temp: U8F8 { bits: 19945 },
        head_temp: U16F16 { bits: 5622860 },
        set_mix_temp: U8F8 { bits: 23040 },
        set_head_temp: U8F8 { bits: 23040 },
        set_group_pressure: U4F4 { bits: 0 },
        set_group_flow: U4F4 { bits: 0 },
        frame_number: 5,
        steam_temp: 158,
    }
}

pub open spec fn tick_state_info() -> StateInfo {
    StateInfo { state: State::Idle, sub_state: SubState::NoState }
}

pub open spec fn tick_water_levels() -> WaterLevels {
    WaterLevels { level: U8F8 { bits: 3343 }, start_fill_level: U8F8 { bits: 1280 } }
}

/// The frames sent on a tick: one per subscribed telemetry, in the order
/// sample, state, water levels.
pub open spec fn tick_frames(subs: Subscriptions, timer: u16) -> Seq<FrameView> {
    (if subs.shot_sample {
        seq![Packet::ShotSample(tick_sample(timer)).spec_frame(true)]
    } else {
        Seq::empty()
    }) + (if subs.state_info {
        seq![Packet::StateInfo(tick_state_info()).spec_frame(true)]
    } else {
        Seq::empty()
    }) + (if subs.water_levels {
        seq![Packet::WaterLevels(tick_water_levels()).spec_frame(true)]
    } else {
        Seq::empty()
    })
}

/// What handling a received frame does: frames from the device are
/// refused; payloads that do not decode give their error; subscription
/// changes set the flag; register reads are answered; the other packets are
/// accepted without effect. Only subscription changes alter the
/// subscriptions.
pub open spec fn frame_handled(
    v: FrameView,
    subs: Subscriptions,
    subs_after: Subscriptions,
    r: Result<Option<Frame>>,
) -> bool {
    match v {
        FrameView::FromDe1(_, _) => r == Err::<Option<Frame>, Error>(Error::UnexpectedFrame)
            && subs_after == subs,
        FrameView::Subscribe(c) => (r matches Ok(None)) && subs_after == subs.with(c, true),
        FrameView::Unsubscribe(c) => (r matches Ok(None)) && subs_after == subs.with(c, false),
        FrameView::ToDe1(c, d) => subs_after == subs && match payload_error(c, d) {
            Some(e) => r == Err::<Option<Frame>, Error>(e),
            None => if c == 'E' {
                mmr_reply(r, subs.mmr_read, be24_value(d.subrange(1, 4)) as u32)
            } else {
                r matches Ok(None)
            },
        },
    }
}

/// The state that a simulated device keeps per connection.
pub struct Simulator {
    pub line_reader: LineReader<LINE_CAPACITY>,
    pub subscriptions: Subscriptions,
    pub timestamp: u16,
}

impl Simulator {
    pub open spec fn wf(&self) -> bool {
        self.line_reader.wf()
    }

    pub fn new() -> (r: Simulator)
        ensures
            r.wf(),
            r.line_reader@ == (Seq::<char>::empty(), false),
            r.subscriptions == (Subscriptions {
                mmr_read: false,
                shot_sample: false,
                state_info: false,
                water_levels: false,
            }),
            r.timestamp == 0,
    {
        Simulator {
            line_reader: LineReader::new(),
            subscriptions: Subscriptions {
                mmr_read: false,
                shot_sample: false,
                state_info: false,
                water_levels: false,
            },
            timestamp: 0,
        }
    }

    /// Turns the telemetry of command `c` on or off.
    pub fn handle_subscription(&mut self, c: char, enable: bool)
        ensures
            final(self).subscriptions == old(self).subscriptions.with(c, enable),
            final(self).line_reader == old(self).line_reader,
            final(self).timestamp == old(self).timestamp,
    {
        match Command::from_serial_command(c) {
            Some(Command::ReadFromMmr) => self.subscriptions.mmr_read = enable,
            Some(Command::ShotSample) => self.subscriptions.shot_sample = enable,
            Some(Command::StateInfo) => self.subscriptions.state_info = enable,
            Some(Command::WaterLevels) => self.subscriptions.water_levels = enable,
            _ => {
                proof {
                    crate::lemma_from_serial_command(Command::ReadFromMmr);
                    crate::lemma_from_serial_command(Command::ShotSample);
                    crate::lemma_from_serial_command(Command::StateInfo);
                    crate::lemma_from_serial_command(Command::WaterLevels);
                }
            },
        }
    }

    /// The frame that answers a register read with `data`; more than
    /// sixteen bytes do not fit.
    fn mmr_response(addr: u32, data: &[u8]) -> (r: Result<Frame>)
        ensures
            data@.len() > 16 ==> r == Err::<Frame, Error>(Error::Unknown),
            data@.len() <= 16 ==> (r matches Ok(f) && f@ == FrameView::FromDe1(
                'E',
                mmr_response_payload(addr, data@),
            )),
    {
        if data.len() > 16 {
            return Err(Error::Unknown);
        }
        let mut buf = [0u8; 16];
        let mut k: usize = 0;
        while k < data.len()
            invariant
                k <= data@.len() <= 16,
                forall|j: int| 0 <= j < k ==> buf@[j] == data@[j],
                forall|j: int| data@.len() <= j < 16 ==> buf@[j] == 0,
            decreases data.len() - k,
        {
            buf[k] = data[k];
            k = k + 1;
        }
        let op = MmrOpperation { len: data.len() as u8, addr, data: buf };
        let frame = Packet::ReadFromMmr(op).to_frame(true);
        assert(buf@ =~= data@ + Seq::new((16 - data@.len()) as nat, |_i: int| 0u8));
        assert(op.spec_encode() =~= mmr_response_payload(addr, data@));
        Ok(frame)
    }

    /// Answers a register read, while register reads are subscribed, with
    /// the simulated register's contents.
    fn handle_read_from_mmr(&self, op: &MmrOpperation) -> (r: Result<Option<Frame>>)
        ensures
            mmr_reply(r, self.subscriptions.mmr_read, op.addr),
    {
        if !self.subscriptions.mmr_read {
            return Ok(None);
        }
        let addr = op.addr;
        let reply = if addr == 0x800008 {
            let d: [u8; 12] = [0x14, 0x05, 0x00, 0x00, 0x04, 0x00, 0x00, 0x00, 0x35, 0x05, 0x00, 0x00];
            assert(d@ =~= canned_register(addr).unwrap());
            Self::mmr_response(addr, &d)
        } else if addr == 0x803810 {
            let d: [u8; 12] = [0x14, 0x00, 0x00, 0x00, 0x28, 0x00, 0x00, 0x00, 0x52, 0x03, 0x00, 0x00];
            assert(d@ =~= canned_register(addr).unwrap());
            Self::mmr_response(addr, &d)
        } else if addr == 0x80381c {
            let d: [u8; 4] = [0x07, 0x00, 0x00, 0x00];
            assert(d@ =~= canned_register(addr).unwrap());
            Self::mmr_response(addr, &d)
        } else if addr == 0x803830 {
            let d: [u8; 4] = [0x84, 0x23, 0x00, 0x00];
            assert(d@ =~= canned_register(addr).unwrap());
            Self::mmr_response(addr, &d)
        } else if addr == 0x803834 {
            let d: [u8; 8] = [0x78, 0x00, 0x00, 0x00, 0x14, 0x00, 0x00, 0x00];
            assert(d@ =~= canned_register(addr).unwrap());
            Self::mmr_response(addr, &d)
        } else if addr == 0x80385c {
            let d: [u8; 4] = [0x02, 0x00, 0x00, 0x00];
            assert(d@ =~= canned_register(addr).unwrap());
            Self::mmr_response(addr, &d)
        } else {
            return Err(Error::UnsupportedMmr(addr));
        };
        match reply {
            Ok(f) => Ok(Some(f)),
            Err(e) => Err(e),
        }
    }

    /// Handles one received frame and returns the frame to answer with, if
    /// any. Frames from the device are refused; payloads that do not decode
    /// give their error; subscription changes set the flag; register reads
    /// are answered; the other packets are accepted without effect.
    pub fn handle_frame(&mut self, frame: &Frame) -> (r: Result<Option<Frame>>)
        ensures
            final(self).line_reader == old(self).line_reader,
            final(self).timestamp == old(self).timestamp,
            frame_handled(frame@, old(self).subscriptions, final(self).subscriptions, r),
    {
        if let Frame::FromDe1(_) = frame {
            return Err(Error::UnexpectedFrame);
        }
        let packet = Packet::from_frame(frame)?;
        match packet {
            Packet::ReadFromMmr(op) => self.handle_read_from_mmr(&op),
            Packet::Subscribe(c) => {
                self.handle_subscription(c, true);
                Ok(None)
            },
            Packet::Unsubscribe(c) => {
                self.handle_subscription(c, false);
                Ok(None)
            },
            _ => Ok(None),
        }
    }

    /// Takes one received character; a completed line is parsed and
    /// handled as a frame.
    pub fn handle_char(&mut self, c: char) -> (r: Result<Option<Frame>>)
        requires
            old(self).wf(),
        ensures
            final(self).wf(),
            final(self).line_reader@ == crate::serial::line_step(
                old(self).line_reader@.0,
                old(self).line_reader@.1,
                LINE_CAPACITY as nat,
                c,
            ),
            final(self).timestamp == old(self).timestamp,
            !(c == '\n' && !old(self).line_reader@.1) ==> (r matches Ok(None))
                && final(self).subscriptions == old(self).subscriptions,
            c == '\n' && !old(self).line_reader@.1 ==> match crate::serial::parse_line(
                old(self).line_reader@.0,
            ) {
                None => r == Err::<Option<Frame>, Error>(Error::ParseError)
                    && final(self).subscriptions == old(self).subscriptions,
                Some(v) => frame_handled(v, old(self).subscriptions, final(self).subscriptions, r),
            },
    {
        let frame = match self.line_reader.handle_char(c)? {
            Some(frame) => frame,
            None => return Ok(None),
        };
        self.handle_frame(&frame)
    }

    /// Advances the sample timer and returns the telemetry frames of the
    /// tick, one per subscription.
    pub fn handle_tick(&mut self) -> (r: Vec<Frame>)
        ensures
            final(self).timestamp == old(self).timestamp.wrapping_add(TIMESTAMP_STEP),
            final(self).subscriptions == old(self).subscriptions,
            final(self).line_reader == old(self).line_reader,
            r@.len() == tick_frames(final(self).subscriptions, final(self).timestamp).len(),
            forall|i: int|
                0 <= i < r@.len() ==> #[trigger] r@[i]@ == tick_frames(
                    final(self).subscriptions,
                    final(self).timestamp,
                )[i],
    {
        self.timestamp = self.timestamp.wrapping_add(TIMESTAMP_STEP);
        let ghost expected = tick_frames(self.subscriptions, self.timestamp);
        let mut out: Vec<Frame> = Vec::new();
        let ghost mut views: Seq<FrameView> = Seq::empty();
        if self.subscriptions.shot_sample {
            let sample = ShotSample {
                timer: self.timestamp,
                group_pressure: U4F12 { bits: 42 },
                group_flow: U4F12 { bits: 7663 },
                mix_temp: U8F8 { bits: 19945 },
                head_temp: U16F16 { bits: 5622860 },
                set_mix_temp: U8F8 { bits: 23040 },
                set_head_temp: U8F8 { bits: 23040 },
                set_group_pressure: U4F4 { bits: 0 },
                set_group_flow: U4F4 { bits: 0 },
                frame_number: 5,
                steam_temp: 158,
            };
            out.push(Packet::ShotSample(sample).to_frame(true));
            proof {
                views = views.push(Packet::ShotSample(sample).spec_frame(true));
            }
        }
        if self.subscriptions.state_info {
            let info = StateInfo { state: State::Idle, sub_state: SubState::NoState };
            out.push(Packet::StateInfo(info).to_frame(true));
            proof {
                views = views.push(Packet::StateInfo(info).spec_frame(true));
            }
        }
        if self.subscriptions.water_levels {
            let levels = WaterLevels {
                level: U8F8 { bits: 3343 },
                start_fill_level: U8F8 { bits: 1280 },
            };
            out.push(Packet::WaterLevels(levels).to_frame(true));
            proof {
                views = views.push(Packet::WaterLevels(levels).spec_frame(true));
            }
        }
        assert(views =~= expected);
        out
    }
}

} // verus!
