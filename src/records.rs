//! The payload records: each command's fixed binary layout, big-endian
//! throughout.
use vstd::prelude::*;

use crate::fixed_point::{
    be24_bytes, be24_value, f817_decode, f817_encode, read_f817, read_u24, read_u8f16,
    write_f817, write_u24, write_u8f16, U16F16, U4F12, U4F4, U7F1, U8F24, U8F8,
};
use crate::state::{State, SubState};

verus! {

/// Two bytes at `i` read as a big-endian integer.
pub open spec fn be16(d: Seq<u8>, i: int) -> u16 {
    (d[i] as int * 256 + d[i + 1] as int) as u16
}

/// A 16-bit integer as two bytes, most significant first.
pub open spec fn be16_bytes(v: u16) -> Seq<u8> {
    seq![(v / 256) as u8, (v % 256) as u8]
}

/// Four bytes at `i` read as a big-endian integer.
pub open spec fn be32(d: Seq<u8>, i: int) -> u32 {
    (d[i] as int * 0x100_0000 + d[i + 1] as int * 0x1_0000 + d[i + 2] as int * 0x100
        + d[i + 3] as int) as u32
}

/// A 32-bit integer as four bytes, most significant first.
pub open spec fn be32_bytes(v: u32) -> Seq<u8> {
    seq![(v / 0x100_0000) as u8, ((v / 0x1_0000) % 256) as u8, ((v / 256) % 256) as u8, (v % 256) as u8]
}

fn get_u16(d: &[u8], i: usize) -> (r: u16)
    requires
        i + 1 < d@.len(),
    ensures
        r == be16(d@, i as int),
{
    (d[i] as u16) * 256 + d[i + 1] as u16
}

fn get_u32(d: &[u8], i: usize) -> (r: u32)
    requires
        i + 3 < d@.len(),
    ensures
        r == be32(d@, i as int),
{
    (d[i] as u32) * 0x100_0000 + (d[i + 1] as u32) * 0x1_0000 + (d[i + 2] as u32) * 0x100
        + d[i + 3] as u32
}

fn get_u24(d: &[u8], i: usize) -> (r: [u8; 3])
    requires
        i + 2 < d@.len(),
    ensures
        r@ == d@.subrange(i as int, i + 3),
{
    let r = [d[i], d[i + 1], d[i + 2]];
    assert(r@ =~= d@.subrange(i as int, i + 3));
    r
}

fn put_u16(out: &mut Vec<u8>, v: u16)
    ensures
        final(out)@ == old(out)@ + be16_bytes(v),
{
    out.push((v / 256) as u8);
    out.push((v % 256) as u8);
    assert(final(out)@ =~= old(out)@ + be16_bytes(v));
}

fn put_u32(out: &mut Vec<u8>, v: u32)
    ensures
        final(out)@ == old(out)@ + be32_bytes(v),
{
    out.push((v / 0x100_0000) as u8);
    out.push(((v / 0x1_0000) % 256) as u8);
    out.push(((v / 256) % 256) as u8);
    out.push((v % 256) as u8);
    assert(final(out)@ =~= old(out)@ + be32_bytes(v));
}

fn put_bytes(out: &mut Vec<u8>, b: &[u8])
    ensures
        final(out)@ == old(out)@ + b@,
{
    let mut i: usize = 0;
    while i < b.len()
        invariant
            i <= b@.len(),
            out@ == old(out)@ + b@.subrange(0, i as int),
        decreases b.len() - i,
    {
        out.push(b[i]);
        i = i + 1;
        assert(out@ =~= old(out)@ + b@.subrange(0, i as int));
    }
    assert(b@.subrange(0, i as int) =~= b@);
}

/// A firmware version record.
#[derive(Clone, Copy, Debug, PartialEq, Eq, Structural)]
pub struct Version {
    pub api_version: u8,
    pub release: u8,
    pub commits: u16,
    pub changes: u8,
    pub sha: u32,
}

impl Version {
    pub open spec fn decodes_from(self, d: Seq<u8>) -> bool {
        &&& self.api_version == d[0]
        &&& self.release == d[1]
        &&& self.commits == be16(d, 2)
        &&& self.changes == d[4]
        &&& self.sha == be32(d, 5)
    }

    pub open spec fn spec_encode(self) -> Seq<u8> {
        seq![self.api_version, self.release] + be16_bytes(self.commits) + seq![self.changes]
            + be32_bytes(self.sha)
    }

    /// Reads the nine bytes of a version from `d` at `at`.
    pub fn decode(d: &[u8], at: usize) -> (r: Version)
        requires
            at + 9 <= d@.len(),
        ensures
            r.decodes_from(d@.subrange(at as int, at + 9)),
    {
        Version {
            api_version: d[at],
            release: d[at + 1],
            commits: get_u16(d, at + 2),
            changes: d[at + 4],
            sha: get_u32(d, at + 5),
        }
    }

    pub fn encode_into(&self, out: &mut Vec<u8>)
        ensures
            final(out)@ == old(out)@ + self.spec_encode(),
    {
        out.push(self.api_version);
        out.push(self.release);
        put_u16(out, self.commits);
        out.push(self.changes);
        put_u32(out, self.sha);
        assert(final(out)@ =~= old(out)@ + self.spec_encode());
    }
}

/// The versions of the bluetooth module and of the main firmware.
#[derive(Clone, Copy, Debug, PartialEq, Eq, Structural)]
pub struct Versions {
    pub bluetooth: Version,
    pub firmware: Version,
}

impl Versions {
    pub open spec fn decodes_from(self, d: Seq<u8>) -> bool {
        &&& self.bluetooth.decodes_from(d.subrange(0, 9))
        &&& self.firmware.decodes_from(d.subrange(9, 18))
    }

    pub open spec fn spec_encode(self) -> Seq<u8> {
        self.bluetooth.spec_encode() + self.firmware.spec_encode()
    }

    pub fn decode(d: &[u8]) -> (r: Versions)
        requires
            d@.len() == 18,
        ensures
            r.decodes_from(d@),
    {
        Versions { bluetooth: Version::decode(d, 0), firmware: Version::decode(d, 9) }
    }

    pub fn encode(&self) -> (r: Vec<u8>)
        ensures
            r@ == self.spec_encode(),
    {
        let mut out: Vec<u8> = Vec::new();
        self.bluetooth.encode_into(&mut out);
        self.firmware.encode_into(&mut out);
        assert(out@ =~= self.spec_encode());
        out
    }
}

/// A request to change the operating mode.
#[derive(Clone, Copy, Debug, PartialEq, Eq, Structural)]
pub struct RequestedState {
    pub state: State,
}

impl RequestedState {
    pub open spec fn decodes_from(self, d: Seq<u8>) -> bool {
        State::spec_from_code(d[0]) == Some(self.state)
    }

    pub open spec fn spec_encode(self) -> Seq<u8> {
        seq![self.state.spec_code()]
    }

    /// Reads the record; an unknown state code is no record.
    pub fn decode(d: &[u8]) -> (r: Option<RequestedState>)
        requires
            d@.len() == 1,
        ensures
            r matches Some(x) ==> x.decodes_from(d@),
            r is None <==> State::spec_from_code(d@[0]) is None,
    {
        match State::from_code(d[0]) {
            Some(state) => Some(RequestedState { state }),
            None => None,
        }
    }

    pub fn encode(&self) -> (r: Vec<u8>)
        ensures
            r@ == self.spec_encode(),
    {
        let mut out: Vec<u8> = Vec::new();
        out.push(self.state.code());
        assert(out@ =~= self.spec_encode());
        out
    }
}

/// Deprecated command without a payload record.
pub struct SetTime {}

/// Deprecated command without a payload record.
pub struct ShotDirectory {}

/// A memory-mapped register read or write. `len` counts words minus one in
/// a read request, and bytes present in a write or a response.
#[derive(Clone, Copy, Debug, PartialEq, Eq)]
pub struct MmrOpperation {
    pub len: u8,
    pub addr: u32,
    pub data: [u8; 16],
}

impl MmrOpperation {
    pub open spec fn decodes_from(self, d: Seq<u8>) -> bool {
        &&& self.len == d[0]
        &&& self.addr as int == be24_value(d.subrange(1, 4))
        &&& self.data@ == d.subrange(4, 20)
    }

    pub open spec fn spec_encode(self) -> Seq<u8> {
        seq![self.len] + be24_bytes(self.addr) + self.data@
    }

    pub fn decode(d: &[u8]) -> (r: MmrOpperation)
        requires
            d@.len() == 20,
        ensures
            r.decodes_from(d@),
    {
        let mut data = [0u8; 16];
        let mut k: usize = 0;
        while k < 16
            invariant
                k <= 16,
                d@.len() == 20,
                forall|j: int| 0 <= j < k ==> data@[j] == d@[4 + j],
            decreases 16 - k,
        {
            data[k] = d[4 + k];
            k = k + 1;
        }
        assert(data@ =~= d@.subrange(4, 20));
        MmrOpperation { len: d[0], addr: read_u24(get_u24(d, 1)), data }
    }

    pub fn encode(&self) -> (r: Vec<u8>)
        ensures
            r@ == self.spec_encode(),
    {
        let mut out: Vec<u8> = Vec::new();
        out.push(self.len);
        let addr = write_u24(&self.addr);
        put_bytes(&mut out, &addr);
        put_bytes(&mut out, &self.data);
        assert(out@ =~= self.spec_encode());
        out
    }
}

/// Decoding a register operation's twenty bytes and encoding it again
/// gives the same bytes; encoding an operation whose address fits in 24
/// bits and decoding it again gives the same operation.
pub proof fn lemma_mmr_round_trip(d: Seq<u8>, op: MmrOpperation)
    requires
        d.len() == 20,
    ensures
        op.decodes_from(d) ==> op.spec_encode() == d,
        op.addr < 0x100_0000 ==> op.decodes_from(op.spec_encode()),
{
    if op.decodes_from(d) {
        crate::fixed_point::lemma_u24_bytes_round_trip(d.subrange(1, 4));
        assert(op.spec_encode() =~= d);
    }
    if op.addr < 0x100_0000 {
        crate::fixed_point::lemma_u24_value_round_trip(op.addr);
        let e = op.spec_encode();
        assert(e.subrange(1, 4) =~= be24_bytes(op.addr));
        assert(e.subrange(4, 20) =~= op.data@);
    }
}

/// Deprecated command without a payload record.
pub struct FwMapRequest {}

/// Deprecated command without a payload record.
pub struct Temperatures {}

/// Steam and hot water settings; the record fills nine of the command's
/// ten bytes, the last is written as zero and not read.
#[derive(Clone, Copy, Debug, PartialEq, Eq, Structural)]
pub struct ShotSettings {
    pub steam_flags: u8,
    pub target_steam_temp: u8,
    pub target_steam_length: u8,
    pub target_hot_water_temp: u8,
    pub target_hot_water_volume: u8,
    pub target_hot_water_length: u8,
    pub target_espresso_volume: u8,
    pub target_group_temp: U8F8,
}

impl ShotSettings {
    pub open spec fn decodes_from(self, d: Seq<u8>) -> bool {
        &&& self.steam_flags == d[0]
        &&& self.target_steam_temp == d[1]
        &&& self.target_steam_length == d[2]
        &&& self.target_hot_water_temp == d[3]
        &&& self.target_hot_water_volume == d[4]
        &&& self.target_hot_water_length == d[5]
        &&& self.target_espresso_volume == d[6]
        &&& self.target_group_temp.bits == be16(d, 7)
    }

    pub open spec fn spec_encode(self) -> Seq<u8> {
        seq![
            self.steam_flags,
            self.target_steam_temp,
            self.target_steam_length,
            self.target_hot_water_temp,
            self.target_hot_water_volume,
            self.target_hot_water_length,
            self.target_espresso_volume,
        ] + be16_bytes(self.target_group_temp.bits) + seq![0u8]
    }

    pub fn decode(d: &[u8]) -> (r: ShotSettings)
        requires
            d@.len() == 10,
        ensures
            r.decodes_from(d@),
    {
        ShotSettings {
            steam_flags: d[0],
            target_steam_temp: d[1],
            target_steam_length: d[2],
            target_hot_water_temp: d[3],
            target_hot_water_volume: d[4],
            target_hot_water_length: d[5],
            target_espresso_volume: d[6],
            target_group_temp: U8F8 { bits: get_u16(d, 7) },
        }
    }

    pub fn encode(&self) -> (r: Vec<u8>)
        ensures
            r@ == self.spec_encode(),
    {
        let mut out: Vec<u8> = Vec::new();
        out.push(self.steam_flags);
        out.push(self.target_steam_temp);
        out.push(self.target_steam_length);
        out.push(self.target_hot_water_temp);
        out.push(self.target_hot_water_volume);
        out.push(self.target_hot_water_length);
        out.push(self.target_espresso_volume);
        put_u16(&mut out, self.target_group_temp.bits);
        out.push(0u8);
        assert(out@ =~= self.spec_encode());
        out
    }
}

/// One telemetry sample taken during a shot.
#[derive(Clone, Copy, Debug, PartialEq, Eq, Structural)]
pub struct ShotSample {
    pub timer: u16,
    pub group_pressure: U4F12,
    pub group_flow: U4F12,
    pub mix_temp: U8F8,
    pub head_temp: U16F16,
    pub set_mix_temp: U8F8,
    pub set_head_temp: U8F8,
    pub set_group_pressure: U4F4,
    pub set_group_flow: U4F4,
    pub frame_number: u8,
    pub steam_temp: u8,
}

impl ShotSample {
    pub open spec fn decodes_from(self, d: Seq<u8>) -> bool {
        &&& self.timer == be16(d, 0)
        &&& self.group_pressure.bits == be16(d, 2)
        &&& self.group_flow.bits == be16(d, 4)
        &&& self.mix_temp.bits == be16(d, 6)
        &&& self.head_temp.bits as int == be24_value(d.subrange(8, 11))
        &&& self.set_mix_temp.bits == be16(d, 11)
        &&& self.set_head_temp.bits == be16(d, 13)
        &&& self.set_group_pressure.bits == d[15]
        &&& self.set_group_flow.bits == d[16]
        &&& self.frame_number == d[17]
        &&& self.steam_temp == d[18]
    }

    pub open spec fn spec_encode(self) -> Seq<u8> {
        be16_bytes(self.timer) + be16_bytes(self.group_pressure.bits) + be16_bytes(
            self.group_flow.bits,
        ) + be16_bytes(self.mix_temp.bits) + be24_bytes(self.head_temp.bits) + be16_bytes(
            self.set_mix_temp.bits,
        ) + be16_bytes(self.set_head_temp.bits) + seq![
            self.set_group_pressure.bits,
            self.set_group_flow.bits,
            self.frame_number,
            self.steam_temp,
        ]
    }

    pub fn decode(d: &[u8]) -> (r: ShotSample)
        requires
            d@.len() == 19,
        ensures
            r.decodes_from(d@),
    {
        ShotSample {
            timer: get_u16(d, 0),
            group_pressure: U4F12 { bits: get_u16(d, 2) },
            group_flow: U4F12 { bits: get_u16(d, 4) },
            mix_temp: U8F8 { bits: get_u16(d, 6) },
            head_temp: read_u8f16(get_u24(d, 8)),
            set_mix_temp: U8F8 { bits: get_u16(d, 11) },
            set_head_temp: U8F8 { bits: get_u16(d, 13) },
            set_group_pressure: U4F4 { bits: d[15] },
            set_group_flow: U4F4 { bits: d[16] },
            frame_number: d[17],
            steam_temp: d[18],
        }
    }

    pub fn encode(&self) -> (r: Vec<u8>)
        ensures
            r@ == self.spec_encode(),
    {
        let mut out: Vec<u8> = Vec::new();
        put_u16(&mut out, self.timer);
        put_u16(&mut out, self.group_pressure.bits);
        put_u16(&mut out, self.group_flow.bits);
        put_u16(&mut out, self.mix_temp.bits);
        let head = write_u8f16(&self.head_temp);
        put_bytes(&mut out, &head);
        put_u16(&mut out, self.set_mix_temp.bits);
        put_u16(&mut out, self.set_head_temp.bits);
        out.push(self.set_group_pressure.bits);
        out.push(self.set_group_flow.bits);
        out.push(self.frame_number);
        out.push(self.steam_temp);
        assert(out@ =~= self.spec_encode());
        out
    }
}

/// The operating mode and sub-mode.
#[derive(Clone, Copy, Debug, PartialEq, Eq, Structural)]
pub struct StateInfo {
    pub state: State,
    pub sub_state: SubState,
}

impl StateInfo {
    pub open spec fn decodes_from(self, d: Seq<u8>) -> bool {
        &&& State::spec_from_code(d[0]) == Some(self.state)
        &&& SubState::spec_from_code(d[1]) == Some(self.sub_state)
    }

    pub open spec fn spec_encode(self) -> Seq<u8> {
        seq![self.state.spec_code(), self.sub_state.spec_code()]
    }

    /// Reads the record; an unknown code in either byte is no record.
    pub fn decode(d: &[u8]) -> (r: Option<StateInfo>)
        requires
            d@.len() == 2,
        ensures
            r matches Some(x) ==> x.decodes_from(d@),
            r is None <==> (State::spec_from_code(d@[0]) is None || SubState::spec_from_code(
                d@[1],
            ) is None),
    {
        match (State::from_code(d[0]), SubState::from_code(d[1])) {
            (Some(state), Some(sub_state)) => Some(StateInfo { state, sub_state }),
            _ => None,
        }
    }

    pub fn encode(&self) -> (r: Vec<u8>)
        ensures
            r@ == self.spec_encode(),
    {
        let mut out: Vec<u8> = Vec::new();
        out.push(self.state.code());
        out.push(self.sub_state.code());
        assert(out@ =~= self.spec_encode());
        out
    }
}

/// The header of a shot profile.
#[derive(Clone, Copy, Debug, PartialEq, Eq, Structural)]
pub struct ShotHeaderWrite {
    pub version: u8,
    pub frames: u8,
    pub preinfuse_frames: u8,
    pub minimum_pressure: U4F4,
    pub minimum_flow: U4F4,
}

impl ShotHeaderWrite {
    pub open spec fn decodes_from(self, d: Seq<u8>) -> bool {
        &&& self.version == d[0]
        &&& self.frames == d[1]
        &&& self.preinfuse_frames == d[2]
        &&& self.minimum_pressure.bits == d[3]
        &&& self.minimum_flow.bits == d[4]
    }

    pub open spec fn spec_encode(self) -> Seq<u8> {
        seq![
            self.version,
            self.frames,
            self.preinfuse_frames,
            self.minimum_pressure.bits,
            self.minimum_flow.bits,
        ]
    }

    pub fn decode(d: &[u8]) -> (r: ShotHeaderWrite)
        requires
            d@.len() == 5,
        ensures
            r.decodes_from(d@),
    {
        ShotHeaderWrite {
            version: d[0],
            frames: d[1],
            preinfuse_frames: d[2],
            minimum_pressure: U4F4 { bits: d[3] },
            minimum_flow: U4F4 { bits: d[4] },
        }
    }

    pub fn encode(&self) -> (r: Vec<u8>)
        ensures
            r@ == self.spec_encode(),
    {
        let mut out: Vec<u8> = Vec::new();
        out.push(self.version);
        out.push(self.frames);
        out.push(self.preinfuse_frames);
        out.push(self.minimum_pressure.bits);
        out.push(self.minimum_flow.bits);
        assert(out@ =~= self.spec_encode());
        out
    }
}

/// One frame (step) of a shot profile. Only the low ten bits of
/// `max_volume` are carried.
#[derive(Clone, Copy, Debug, PartialEq, Eq, Structural)]
pub struct ShotFrameWrite {
    pub index: u8,
    pub flags: u8,
    pub set_value: U4F4,
    pub temp: U7F1,
    pub frame_lenght: U8F24,
    pub trigger_value: U4F4,
    pub max_volume: u16,
}

impl ShotFrameWrite {
    pub open spec fn decodes_from(self, d: Seq<u8>) -> bool {
        &&& self.index == d[0]
        &&& self.flags == d[1]
        &&& self.set_value.bits == d[2]
        &&& self.temp.bits == d[3]
        &&& self.frame_lenght.bits == f817_decode(d[4])
        &&& self.trigger_value.bits == d[5]
        &&& self.max_volume == be16(d, 6) % 0x400
    }

    pub open spec fn spec_encode(self) -> Seq<u8> {
        seq![
            self.index,
            self.flags,
            self.set_value.bits,
            self.temp.bits,
            f817_encode(self.frame_lenght.bits),
            self.trigger_value.bits,
        ] + be16_bytes(self.max_volume % 0x400)
    }

    pub fn decode(d: &[u8]) -> (r: ShotFrameWrite)
        requires
            d@.len() == 8,
        ensures
            r.decodes_from(d@),
    {
        let raw = get_u16(d, 6);
        ShotFrameWrite {
            index: d[0],
            flags: d[1],
            set_value: U4F4 { bits: d[2] },
            temp: U7F1 { bits: d[3] },
            frame_lenght: read_f817(d[4]),
            trigger_value: U4F4 { bits: d[5] },
            max_volume: raw % 0x400,
        }
    }

    pub fn encode(&self) -> (r: Vec<u8>)
        ensures
            r@ == self.spec_encode(),
    {
        let mut out: Vec<u8> = Vec::new();
        out.push(self.index);
        out.push(self.flags);
        out.push(self.set_value.bits);
        out.push(self.temp.bits);
        out.push(write_f817(&self.frame_lenght));
        out.push(self.trigger_value.bits);
        put_u16(&mut out, self.max_volume % 0x400);
        assert(out@ =~= self.spec_encode());
        out
    }
}

/// The water tank's level and the level at which refilling starts.
#[derive(Clone, Copy, Debug, PartialEq, Eq, Structural)]
pub struct WaterLevels {
    pub level: U8F8,
    pub start_fill_level: U8F8,
}

impl WaterLevels {
    pub open spec fn decodes_from(self, d: Seq<u8>) -> bool {
        &&& self.level.bits == be16(d, 0)
        &&& self.start_fill_level.bits == be16(d, 2)
    }

    pub open spec fn spec_encode(self) -> Seq<u8> {
        be16_bytes(self.level.bits) + be16_bytes(self.start_fill_level.bits)
    }

    pub fn decode(d: &[u8]) -> (r: WaterLevels)
        requires
            d@.len() == 4,
        ensures
            r.decodes_from(d@),
    {
        WaterLevels {
            level: U8F8 { bits: get_u16(d, 0) },
            start_fill_level: U8F8 { bits: get_u16(d, 2) },
        }
    }

    pub fn encode(&self) -> (r: Vec<u8>)
        ensures
            r@ == self.spec_encode(),
    {
        let mut out: Vec<u8> = Vec::new();
        put_u16(&mut out, self.level.bits);
        put_u16(&mut out, self.start_fill_level.bits);
        assert(out@ =~= self.spec_encode());
        out
    }
}

/// Calibration command without a payload record.
pub struct Calibration {}

proof fn lemma_be16(v: u16)
    ensures
        be16_bytes(v).len() == 2,
        be16_bytes(v)[0] as int * 256 + be16_bytes(v)[1] as int == v as int,
{
}

proof fn lemma_be32(v: u32)
    ensures
        be32_bytes(v).len() == 4,
        be32_bytes(v)[0] as int * 0x100_0000 + be32_bytes(v)[1] as int * 0x1_0000
            + be32_bytes(v)[2] as int * 0x100 + be32_bytes(v)[3] as int == v as int,
{
    assert((v / 0x100_0000) * 0x100_0000 + ((v / 0x1_0000) % 256) * 0x1_0000 + ((v / 256) % 256)
        * 0x100 + v % 256 == v) by (nonlinear_arith);
}

impl Version {
    pub proof fn lemma_encode_decodes(self)
        ensures
            self.spec_encode().len() == 9,
            self.decodes_from(self.spec_encode()),
    {
        lemma_be16(self.commits);
        lemma_be32(self.sha);
    }
}

impl Versions {
    pub proof fn lemma_encode_decodes(self)
        ensures
            self.spec_encode().len() == 18,
            self.decodes_from(self.spec_encode()),
    {
        self.bluetooth.lemma_encode_decodes();
        self.firmware.lemma_encode_decodes();
        let e = self.spec_encode();
        assert(e.subrange(0, 9) =~= self.bluetooth.spec_encode());
        assert(e.subrange(9, 18) =~= self.firmware.spec_encode());
    }
}

impl ShotSettings {
    pub proof fn lemma_encode_decodes(self)
        ensures
            self.spec_encode().len() == 10,
            self.decodes_from(self.spec_encode()),
    {
        lemma_be16(self.target_group_temp.bits);
    }
}

impl ShotSample {
    pub proof fn lemma_encode_decodes(self)
        requires
            self.head_temp.bits < 0x100_0000,
        ensures
            self.spec_encode().len() == 19,
            self.decodes_from(self.spec_encode()),
    {
        lemma_be16(self.timer);
        lemma_be16(self.group_pressure.bits);
        lemma_be16(self.group_flow.bits);
        lemma_be16(self.mix_temp.bits);
        lemma_be16(self.set_mix_temp.bits);
        lemma_be16(self.set_head_temp.bits);
        crate::fixed_point::lemma_u24_value_round_trip(self.head_temp.bits);
        let e = self.spec_encode();
        assert(e.subrange(8, 11) =~= be24_bytes(self.head_temp.bits));
    }
}

impl ShotHeaderWrite {
    pub proof fn lemma_encode_decodes(self)
        ensures
            self.spec_encode().len() == 5,
            self.decodes_from(self.spec_encode()),
    {
    }
}

impl ShotFrameWrite {
    pub proof fn lemma_encode_decodes(self)
        requires
            self.max_volume < 0x400,
            f817_decode(f817_encode(self.frame_lenght.bits)) == self.frame_lenght.bits,
        ensures
            self.spec_encode().len() == 8,
            self.decodes_from(self.spec_encode()),
    {
        lemma_be16(self.max_volume % 0x400);
    }
}

impl WaterLevels {
    pub proof fn lemma_encode_decodes(self)
        ensures
            self.spec_encode().len() == 4,
            self.decodes_from(self.spec_encode()),
    {
        lemma_be16(self.level.bits);
        lemma_be16(self.start_fill_level.bits);
    }
}

} // verus!
