use de1::fake::{Simulator, Subscriptions};
use de1::fixed_point::{
    read_f817, read_u24, read_u8f16, write_f817, write_u24, write_u8f16, U16F16, U4F12, U4F4,
    U7F1, U8F24, U8F8,
};
use de1::records::{
    MmrOpperation, RequestedState, ShotFrameWrite, ShotSample, ShotSettings, StateInfo, Version,
    Versions, WaterLevels,
};
use de1::serial::{CommandFrame, Frame};
use de1::state::{State, SubState};
use de1::{Command, Error, Packet};

fn bytes(b: &[u8]) -> heapless::Vec<u8, 20> {
    heapless::Vec::from_slice(b).unwrap()
}

#[test]
fn f817_encodes_tenths_and_whole_units() {
    assert_eq!(write_f817(&U8F24 { bits: 5 << 24 }), 0x32);
    assert_eq!(write_f817(&U8F24 { bits: 20 << 24 }), 0x94);
    assert_eq!(read_f817(0x32), U8F24 { bits: 5 << 24 });
    assert_eq!(read_f817(0x94), U8F24 { bits: 20 << 24 });
}

#[test]
fn f817_tenths_round_to_nearest() {
    // 0.1 decodes just below one tenth and still encodes as one tenth.
    let tenth = read_f817(0x01);
    assert_eq!(tenth.bits, 1_677_721);
    assert_eq!(write_f817(&tenth), 0x01);
    assert_eq!(write_f817(&read_f817(0x7f)), 0x7f);
    // 0x85 is five whole units, whose shortest form is fifty tenths.
    assert_eq!(write_f817(&read_f817(0x85)), 0x32);
    assert_eq!(write_f817(&U8F24 { bits: 13 << 24 }), 0x8d);
    for b in 0u8..=255 {
        let v = read_f817(b);
        assert_eq!(read_f817(write_f817(&v)), v);
    }
}

#[test]
fn u24_is_big_endian() {
    assert_eq!(read_u24([0x80, 0x38, 0x10]), 0x803810);
    assert_eq!(write_u24(&0x12803810), [0x80, 0x38, 0x10]);
    assert_eq!(read_u8f16([0x55, 0x00, 0x01]), U16F16 { bits: 0x550001 });
    assert_eq!(write_u8f16(&U16F16 { bits: 0x550001 }), [0x55, 0x00, 0x01]);
}

#[test]
fn command_table() {
    assert_eq!(Command::ShotSample.serial_command(), 'M');
    assert_eq!(Command::ShotSample.gatt_uu8d(), 0xa00d);
    assert_eq!(Command::ShotSample.data_len(), 19);
    assert_eq!(Command::Calibration.data_len(), 14);
    assert_eq!(Command::from_serial_command('Q'), Some(Command::WaterLevels));
    assert_eq!(Command::from_serial_command('C'), None);
    assert_eq!(Command::MAX_DATA_LENGTH, 20);
}

#[test]
fn shot_sample_decodes() {
    let packet = "[M]598E00000000587659591745F55A000000009F".parse::<Packet>().unwrap();
    assert_eq!(
        packet,
        Packet::ShotSample(ShotSample {
            timer: 0x598e,
            group_pressure: U4F12 { bits: 0 },
            group_flow: U4F12 { bits: 0 },
            mix_temp: U8F8 { bits: 0x5876 },
            head_temp: U16F16 { bits: 0x595917 },
            set_mix_temp: U8F8 { bits: 0x45f5 },
            set_head_temp: U8F8 { bits: 0x5a00 },
            set_group_pressure: U4F4 { bits: 0 },
            set_group_flow: U4F4 { bits: 0 },
            frame_number: 0,
            steam_temp: 0x9f,
        })
    );
    assert_eq!(packet.to_frame(true).to_line(), "[M]598E00000000587659591745F55A000000009F\n");
}

#[test]
fn mmr_payload_round_trips() {
    let bytes: Vec<u8> = (0u8..20).map(|i| i.wrapping_mul(37)).collect();
    let op = MmrOpperation::decode(&bytes);
    assert_eq!(op.len, bytes[0]);
    assert_eq!(op.addr, 0x254a6f);
    assert_eq!(op.encode(), bytes);
    let line = "<E>0380381C00000000000000000000000000000000";
    let packet = line.parse::<Packet>().unwrap();
    let Packet::ReadFromMmr(op) = packet else { panic!("not a register read") };
    assert_eq!((op.len, op.addr), (3, 0x80381c));
    assert_eq!(packet.to_frame(false).to_line().trim_end(), line);
    let write = "[F]0480381C07000000000000000000000000000000".parse::<Packet>().unwrap();
    assert!(matches!(write, Packet::WriteToMmr(op) if op.data[0] == 7));
}

#[test]
fn records_decode_their_fields() {
    assert_eq!(
        "<B>04".parse::<Packet>(),
        Ok(Packet::RequestedState(RequestedState { state: State::Espresso }))
    );
    assert_eq!(
        "[N]02D5".parse::<Packet>(),
        Ok(Packet::StateInfo(StateInfo { state: State::Idle, sub_state: SubState::ErrorDeadline }))
    );
    assert_eq!(
        "[Q]0D0F0500".parse::<Packet>(),
        Ok(Packet::WaterLevels(WaterLevels {
            level: U8F8 { bits: 0x0d0f },
            start_fill_level: U8F8 { bits: 0x0500 },
        }))
    );
    let settings = "<K>0102030405060758000A".parse::<Packet>().unwrap();
    assert_eq!(
        settings,
        Packet::ShotSettings(ShotSettings {
            steam_flags: 1,
            target_steam_temp: 2,
            target_steam_length: 3,
            target_hot_water_temp: 4,
            target_hot_water_volume: 5,
            target_hot_water_length: 6,
            target_espresso_volume: 7,
            target_group_temp: U8F8 { bits: 0x5800 },
        })
    );
    assert_eq!(settings.to_frame(false).to_line(), "<K>01020304050607580000\n");
    let frame_write = "<P>0102304B94201FFF".parse::<Packet>().unwrap();
    assert_eq!(
        frame_write,
        Packet::ShotFrameWrite(ShotFrameWrite {
            index: 1,
            flags: 2,
            set_value: U4F4 { bits: 0x30 },
            temp: U7F1 { bits: 0x4b },
            frame_lenght: U8F24 { bits: 20 << 24 },
            trigger_value: U4F4 { bits: 0x20 },
            max_volume: 0x3ff,
        })
    );
    assert_eq!(frame_write.to_frame(false).to_line(), "<P>0102304B942003FF\n");
    assert_eq!("<+M>".parse::<Packet>(), Ok(Packet::Subscribe('M')));
    assert_eq!("<-M>".parse::<Packet>(), Ok(Packet::Unsubscribe('M')));
}

#[test]
fn versions_round_trip() {
    let bytes: Vec<u8> = (1u8..=18).collect();
    let v = Versions::decode(&bytes);
    assert_eq!(
        v.bluetooth,
        Version { api_version: 1, release: 2, commits: 0x0304, changes: 5, sha: 0x06070809 }
    );
    assert_eq!(v.firmware.sha, 0x0f101112);
    assert_eq!(v.encode(), bytes);
}

#[test]
fn decode_errors_are_distinct() {
    assert_eq!("[A]".parse::<Packet>(), Err(Error::UnknownCommand('A')));
    assert_eq!("[Z]00".parse::<Packet>(), Err(Error::UnknownCommand('Z')));
    assert_eq!("[M]00".parse::<Packet>(), Err(Error::UnknownCommand('M')));
    assert_eq!("<B>15".parse::<Packet>(), Err(Error::BinRwError));
    assert_eq!("[N]0213".parse::<Packet>(), Err(Error::BinRwError));
    assert_eq!("[N]0013".parse::<Packet>(), Err(Error::BinRwError));
    assert_eq!("[N]0012".parse::<Packet>().is_ok(), true);
    assert_eq!("[M]5".parse::<Packet>(), Err(Error::ParseError));
    let frame = Frame::ToDe1(CommandFrame { command: 'R', data: bytes(&[0; 14]) });
    assert_eq!(Packet::from_frame(&frame), Err(Error::UnknownCommand('R')));
}

fn handle_line(sim: &mut Simulator, line: &str) -> Result<Option<Frame>, Error> {
    let mut last = Ok(None);
    for c in line.chars() {
        last = sim.handle_char(c);
    }
    last
}

#[test]
fn simulator_answers_register_reads_when_subscribed() {
    let mut sim = Simulator::new();
    assert_eq!(handle_line(&mut sim, "<E>0080381C00000000000000000000000000000000\n"), Ok(None));
    assert_eq!(handle_line(&mut sim, "<+E>\n"), Ok(None));
    assert!(sim.subscriptions.mmr_read);
    let reply = handle_line(&mut sim, "<E>0080381C00000000000000000000000000000000\n")
        .unwrap()
        .unwrap();
    assert_eq!(reply.to_line(), "[E]0480381C07000000000000000000000000000000\n");
    assert_eq!(
        handle_line(&mut sim, "<E>00123456000000000000000000000000000000000\n"),
        Err(Error::ParseError)
    );
    assert_eq!(
        handle_line(&mut sim, "<E>0012345600000000000000000000000000000000\n"),
        Err(Error::UnsupportedMmr(0x123456))
    );
    assert_eq!(handle_line(&mut sim, "[N]0200\n"), Err(Error::UnexpectedFrame));
    assert_eq!(handle_line(&mut sim, "<B>02\n"), Ok(None));
}

#[test]
fn simulator_sends_subscribed_telemetry_on_tick() {
    let mut sim = Simulator::new();
    assert!(sim.handle_tick().is_empty());
    assert_eq!(sim.timestamp, 25);
    for line in ["<+Q>\n", "<+M>\n", "<+N>\n", "<+A>\n"] {
        assert_eq!(handle_line(&mut sim, line), Ok(None));
    }
    assert_eq!(
        sim.subscriptions,
        Subscriptions { mmr_read: false, shot_sample: true, state_info: true, water_levels: true }
    );
    let lines: Vec<String> = sim.handle_tick().iter().map(|f| f.to_line().as_str().to_string()).collect();
    assert_eq!(
        lines,
        vec![
            "[M]0032002A1DEF4DE955CC4C5A005A000000059E\n".to_string(),
            "[N]0200\n".to_string(),
            "[Q]0D0F0500\n".to_string(),
        ]
    );
    assert_eq!(handle_line(&mut sim, "<-M>\n"), Ok(None));
    sim.timestamp = 65530;
    assert_eq!(sim.handle_tick().len(), 2);
    assert_eq!(sim.timestamp, 19);
}

#[test]
fn test() {
    let packet = "[M]5F380000000058DA59C2E645F55A00000000A0"
        .parse::<Packet>()
        .unwrap();
    println!("{packet:?}");
    assert_eq!(
        packet,
        Packet::ShotSample(ShotSample {
            timer: 0x5f38,
            group_pressure: U4F12 { bits: 0 },
            group_flow: U4F12 { bits: 0 },
            mix_temp: U8F8 { bits: 0x58da },
            head_temp: U16F16 { bits: 0x59c2e6 },
            set_mix_temp: U8F8 { bits: 0x45f5 },
            set_head_temp: U8F8 { bits: 0x5a00 },
            set_group_pressure: U4F4 { bits: 0 },
            set_group_flow: U4F4 { bits: 0 },
            frame_number: 0,
            steam_temp: 0xa0,
        })
    );
}
