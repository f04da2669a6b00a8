use de1::serial::{from_hex, CommandFrame, Frame, LineReader, MAX_ENCODED_LENGTH};
use de1::Error;

fn bytes(b: &[u8]) -> heapless::Vec<u8, 20> {
    heapless::Vec::from_slice(b).unwrap()
}

#[test]
fn from_de1_frame_parses() {
    assert_eq!(
        "[M]598E00000000587659591745F55A000000009F".parse::<Frame>(),
        Ok(Frame::FromDe1(CommandFrame {
            command: 'M',
            data: [
                0x59, 0x8E, 0x00, 0x00, 0x00, 0x00, 0x58, 0x76, 0x59, 0x59, 0x17, 0x45, 0xF5,
                0x5A, 0x00, 0x00, 0x00, 0x00, 0x9F
            ]
            .iter()
            .cloned()
            .collect()
        }))
    );
}

#[test]
fn to_de1_frame_parses() {
    assert_eq!(
        "<E>598E00000000587659591745F55A000000009F".parse::<Frame>(),
        Ok(Frame::ToDe1(CommandFrame {
            command: 'E',
            data: [
                0x59, 0x8E, 0x00, 0x00, 0x00, 0x00, 0x58, 0x76, 0x59, 0x59, 0x17, 0x45, 0xF5,
                0x5A, 0x00, 0x00, 0x00, 0x00, 0x9F
            ]
            .iter()
            .cloned()
            .collect()
        }))
    );
}

#[test]
fn subscribe_frame_parses() {
    assert_eq!("<+E>".parse::<Frame>(), Ok(Frame::Subscribe('E')),);
}

#[test]
fn unsubscribe_frame_parses() {
    assert_eq!("<-E>".parse::<Frame>(), Ok(Frame::Unsubscribe('E')),);
}

#[test]
fn invalid_closing_char_fails() {
    assert_eq!("[M>FF".parse::<Frame>(), Err(Error::ParseError));
    assert_eq!("[M.FF".parse::<Frame>(), Err(Error::ParseError));
}

#[test]
fn extra_input_at_end_of_line_fails() {
    assert_eq!(
        "[M]FF".parse::<Frame>(),
        Ok(Frame::FromDe1(CommandFrame {
            command: 'M',
            data: [255].iter().cloned().collect()
        }))
    );
    assert_eq!("[M]FF.".parse::<Frame>(), Err(Error::ParseError));
}

#[test]
fn lower_case_hex_is_accepted_and_written_upper() {
    let frame = "[n]0a1b".parse::<Frame>().unwrap();
    assert_eq!(
        frame,
        Frame::FromDe1(CommandFrame { command: 'n', data: bytes(&[0x0a, 0x1b]) })
    );
    assert_eq!(frame.to_line(), "[n]0A1B\n");
}

#[test]
fn session_lines_write_back_as_read() {
    let lines = [
        "[M]598E00000000587659591745F55A000000009F",
        "<E>598e00000000587659591745f55a000000009f",
        "<+M>",
        "<-Q>",
        "[N]0200",
        "<B>",
        "[Q]0D0F0500",
    ];
    for line in lines {
        let frame = line.parse::<Frame>().unwrap();
        let written = frame.to_line();
        assert_eq!(written.trim_end(), line.to_ascii_uppercase());
        assert!(written.ends_with('\n'));
        assert_eq!(written.trim_end().parse::<Frame>().unwrap(), frame);
    }
}

#[test]
fn frames_round_trip_through_their_lines() {
    let frames = vec![
        Frame::FromDe1(CommandFrame { command: 'M', data: (0u8..20).collect() }),
        Frame::ToDe1(CommandFrame { command: '+', data: bytes(&[0xff]) }),
        Frame::ToDe1(CommandFrame { command: 'E', data: bytes(&[]) }),
        Frame::Subscribe('N'),
        Frame::Unsubscribe('x'),
    ];
    for frame in frames {
        let line = frame.to_line();
        assert_eq!(line.trim_end_matches('\n').parse::<Frame>().unwrap(), frame);
    }
}

#[test]
fn subscribe_to_closing_bracket_round_trips() {
    let line = Frame::Subscribe('>').to_line();
    assert_eq!(line, "<+>>\n");
    assert_eq!(line.trim_end().parse::<Frame>(), Ok(Frame::Subscribe('>')));
    assert_eq!("<->>".parse::<Frame>(), Ok(Frame::Unsubscribe('>')));
    assert_eq!("<+>>0A".parse::<Frame>(), Err(Error::ParseError));
    assert_eq!(MAX_ENCODED_LENGTH, 65);
}

#[test]
fn payload_limits_are_enforced() {
    let twenty = "00".repeat(20);
    let frame = format!("[E]{twenty}").parse::<Frame>().unwrap();
    assert_eq!(frame, Frame::FromDe1(CommandFrame { command: 'E', data: bytes(&[0; 20]) }));
    assert_eq!(format!("[E]{twenty}00").parse::<Frame>(), Err(Error::ParseError));
    assert_eq!("[E]0".parse::<Frame>(), Err(Error::ParseError));
    assert_eq!("[E]0G".parse::<Frame>(), Err(Error::ParseError));
    assert_eq!("".parse::<Frame>(), Err(Error::ParseError));
    assert_eq!("<+E".parse::<Frame>(), Err(Error::ParseError));
    assert_eq!("<*E>".parse::<Frame>(), Err(Error::ParseError));
    assert_eq!("<+E>0".parse::<Frame>(), Err(Error::ParseError));
    assert_eq!(
        "<+>".parse::<Frame>(),
        Ok(Frame::ToDe1(CommandFrame { command: '+', data: bytes(&[]) }))
    );
}

fn feed(reader: &mut LineReader<8>, text: &str) -> Vec<Result<Option<Frame>, Error>> {
    text.chars().map(|c| reader.handle_char(c)).collect()
}

#[test]
fn line_reader_reads_lines_across_chunks() {
    let mut reader = LineReader::<8>::new();
    let mut results = feed(&mut reader, "[M]F");
    results.extend(feed(&mut reader, "F\n<+E>\n"));
    let frames: Vec<Frame> = results.into_iter().filter_map(|r| r.unwrap()).collect();
    assert_eq!(
        frames,
        vec![
            Frame::FromDe1(CommandFrame { command: 'M', data: bytes(&[0xff]) }),
            Frame::Subscribe('E'),
        ]
    );
}

#[test]
fn line_reader_drops_overlong_line_then_recovers() {
    let mut reader = LineReader::<8>::new();
    let results = feed(&mut reader, "[M]00112233\n");
    assert!(results.iter().all(|r| *r == Ok(None)));
    let results = feed(&mut reader, "<-E>\n");
    assert_eq!(results.last().unwrap(), &Ok(Some(Frame::Unsubscribe('E'))));
}

#[test]
fn line_reader_accepts_a_line_of_exactly_its_capacity() {
    let mut reader = LineReader::<8>::new();
    let results = feed(&mut reader, "[M]00112\n");
    assert_eq!(results.last().unwrap(), &Err(Error::ParseError));
    let results = feed(&mut reader, "[M]0011\n");
    assert_eq!(
        results.last().unwrap(),
        &Ok(Some(Frame::FromDe1(CommandFrame { command: 'M', data: bytes(&[0x00, 0x11]) })))
    );
}

#[test]
fn line_reader_skips_non_ascii_and_reports_bad_lines() {
    let mut reader = LineReader::<8>::new();
    let results = feed(&mut reader, "<+\u{e9}\u{20ac}E>\n");
    assert_eq!(results.last().unwrap(), &Ok(Some(Frame::Subscribe('E'))));
    let results = feed(&mut reader, "garbage\n");
    assert_eq!(results.last().unwrap(), &Err(Error::ParseError));
    let results = feed(&mut reader, "<+Q>\n");
    assert_eq!(results.last().unwrap(), &Ok(Some(Frame::Subscribe('Q'))));
}

#[test]
fn hex_pairs_read_either_case() {
    assert_eq!(from_hex('9', 'f'), Some(0x9f));
    assert_eq!(from_hex('A', '0'), Some(0xa0));
    assert_eq!(from_hex('g', '0'), None);
    assert_eq!(from_hex('0', ' '), None);
}
