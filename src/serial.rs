//! The line framing: one frame per line of ASCII text.
//!
//! ```text
//! [C]HEX..   from the device, command C
//! <C>HEX..   to the device, command C
//! <+C>       subscribe to command C
//! <-C>       unsubscribe from command C
//! ```
use vstd::prelude::*;

use crate::{Command, Error, MAX_DATA_LENGTH};

verus! {

#[verifier::external_type_specification]
#[verifier::external_body]
#[verifier::reject_recursive_types(T)]
pub struct ExHeaplessVec<T, const N: usize>(heapless::Vec<T, N>);

/// The bytes that a payload buffer holds.
pub uninterp spec fn payload_bytes(v: heapless::Vec<u8, MAX_DATA_LENGTH>) -> Seq<u8>;

/// Relies on `heapless::Vec::new`: the vector starts empty.
#[verifier::external_body]
fn payload_new() -> (r: heapless::Vec<u8, MAX_DATA_LENGTH>)
    ensures
        payload_bytes(r) == Seq::<u8>::empty(),
{
    heapless::Vec::new()
}

/// Relies on `heapless::Vec::push`: below capacity the byte is appended;
/// at capacity it is handed back and the vector is left as it was.
#[verifier::external_body]
fn payload_push(v: &mut heapless::Vec<u8, MAX_DATA_LENGTH>, b: u8) -> (r: Result<(), u8>)
    ensures
        r is Ok <==> payload_bytes(*old(v)).len() < MAX_DATA_LENGTH,
        r is Ok ==> payload_bytes(*final(v)) == payload_bytes(*old(v)).push(b),
        r is Err ==> r->Err_0 == b && payload_bytes(*final(v)) == payload_bytes(*old(v)),
{
    v.push(b)
}

/// Relies on `heapless::Vec::as_slice`: the slice holds the vector's
/// bytes, which never exceed its capacity.
#[verifier::external_body]
pub(crate) fn payload_as_slice(v: &heapless::Vec<u8, MAX_DATA_LENGTH>) -> (r: &[u8])
    ensures
        r@ == payload_bytes(*v),
        r@.len() <= MAX_DATA_LENGTH,
{
    v.as_slice()
}

/// A payload buffer holding the bytes of `d`.
pub fn payload_from_slice(d: &[u8]) -> (r: heapless::Vec<u8, MAX_DATA_LENGTH>)
    requires
        d@.len() <= MAX_DATA_LENGTH,
    ensures
        payload_bytes(r) == d@,
{
    let mut r = payload_new();
    let mut i: usize = 0;
    while i < d.len()
        invariant
            i <= d@.len() <= MAX_DATA_LENGTH,
            payload_bytes(r) == d@.subrange(0, i as int),
        decreases d.len() - i,
    {
        let _ = payload_push(&mut r, d[i]);
        i = i + 1;
        assert(payload_bytes(r) =~= d@.subrange(0, i as int));
    }
    assert(d@.subrange(0, i as int) =~= d@);
    r
}

/// The longest line that `Frame::to_line` writes, with room to spare: two
/// hexadecimal digits per payload byte, the brackets and command, and the
/// newline.
pub const MAX_ENCODED_LENGTH: usize = Command::MAX_DATA_LENGTH * 3 + 5;

/// A command character with its payload.
#[derive(Debug, PartialEq, Eq)]
pub struct CommandFrame {
    pub command: char,
    pub data: heapless::Vec<u8, MAX_DATA_LENGTH>,
}

/// One line of the protocol.
#[derive(Debug, PartialEq, Eq)]
pub enum Frame {
    FromDe1(CommandFrame),
    ToDe1(CommandFrame),
    Subscribe(char),
    Unsubscribe(char),
}

/// The mathematical value of a `Frame`.
pub enum FrameView {
    FromDe1(char, Seq<u8>),
    ToDe1(char, Seq<u8>),
    Subscribe(char),
    Unsubscribe(char),
}

impl FrameView {
    /// A payload never exceeds the largest command payload.
    pub open spec fn wf(self) -> bool {
        match self {
            FrameView::FromDe1(_, d) => d.len() <= Command::MAX_DATA_LENGTH,
            FrameView::ToDe1(_, d) => d.len() <= Command::MAX_DATA_LENGTH,
            _ => true,
        }
    }
}

impl View for Frame {
    type V = FrameView;

    open spec fn view(&self) -> FrameView {
        match self {
            Frame::FromDe1(f) => FrameView::FromDe1(f.command, payload_bytes(f.data)),
            Frame::ToDe1(f) => FrameView::ToDe1(f.command, payload_bytes(f.data)),
            Frame::Subscribe(c) => FrameView::Subscribe(*c),
            Frame::Unsubscribe(c) => FrameView::Unsubscribe(*c),
        }
    }
}

pub open spec fn is_hex_char(c: char) -> bool {
    ('0' <= c && c <= '9') || ('a' <= c && c <= 'f') || ('A' <= c && c <= 'F')
}

/// The value of a hexadecimal digit, either case.
pub open spec fn hex_char_value(c: char) -> int {
    if '0' <= c && c <= '9' {
        c as int - '0' as int
    } else if 'a' <= c && c <= 'f' {
        c as int - 'a' as int + 10
    } else {
        c as int - 'A' as int + 10
    }
}

/// The upper-case hexadecimal digit of `n < 16`.
pub open spec fn upper_hex_char(n: u8) -> char {
    if n < 10 {
        (48 + n) as u8 as char
    } else {
        (55 + n) as u8 as char
    }
}

/// A run of hexadecimal text that encodes at most a largest payload.
pub open spec fn is_hex_payload(t: Seq<char>) -> bool {
    &&& t.len() % 2 == 0
    &&& t.len() <= 2 * Command::MAX_DATA_LENGTH
    &&& forall|i: int| 0 <= i < t.len() ==> is_hex_char(#[trigger] t[i])
}

/// The bytes that pairs of hexadecimal digits stand for, high digit first.
pub open spec fn hex_decode(t: Seq<char>) -> Seq<u8> {
    Seq::new(
        t.len() / 2,
        |i: int| (hex_char_value(t[2 * i]) * 16 + hex_char_value(t[2 * i + 1])) as u8,
    )
}

/// Two upper-case hexadecimal digits per byte, high digit first.
pub open spec fn hex_text(d: Seq<u8>) -> Seq<char> {
    Seq::new(
        2 * d.len(),
        |i: int|
            if i % 2 == 0 {
                upper_hex_char(d[i / 2] / 16)
            } else {
                upper_hex_char(d[i / 2] % 16)
            },
    )
}

/// The frame that a line (without its terminator) stands for, if any.
/// Subscription changes are told apart first, by their `+` or `-`, so
/// `<+>>` subscribes to `>`; a line that is no subscription change is read
/// by its brackets, so `<+>` is a frame to the device with command `+`.
pub open spec fn parse_line(s: Seq<char>) -> Option<FrameView> {
    if s.len() == 4 && s[0] == '<' && s[1] == '+' && s[3] == '>' {
        Some(FrameView::Subscribe(s[2]))
    } else if s.len() == 4 && s[0] == '<' && s[1] == '-' && s[3] == '>' {
        Some(FrameView::Unsubscribe(s[2]))
    } else if s.len() >= 3 && s[0] == '[' && s[2] == ']' {
        if is_hex_payload(s.subrange(3, s.len() as int)) {
            Some(FrameView::FromDe1(s[1], hex_decode(s.subrange(3, s.len() as int))))
        } else {
            None
        }
    } else if s.len() >= 3 && s[0] == '<' && s[2] == '>' {
        if is_hex_payload(s.subrange(3, s.len() as int)) {
            Some(FrameView::ToDe1(s[1], hex_decode(s.subrange(3, s.len() as int))))
        } else {
            None
        }
    } else {
        None
    }
}

/// The text of a frame, without its line terminator.
pub open spec fn frame_text(f: FrameView) -> Seq<char> {
    match f {
        FrameView::FromDe1(c, d) => seq!['[', c, ']'] + hex_text(d),
        FrameView::ToDe1(c, d) => seq!['<', c, '>'] + hex_text(d),
        FrameView::Subscribe(c) => seq!['<', '+', c, '>'],
        FrameView::Unsubscribe(c) => seq!['<', '-', c, '>'],
    }
}

/// A line with the hexadecimal letters of its payload in upper case.
pub open spec fn normalize_line(s: Seq<char>) -> Seq<char> {
    Seq::new(
        s.len(),
        |i: int|
            if i >= 3 && 'a' <= s[i] && s[i] <= 'f' {
                (s[i] as u32 - 32) as char
            } else {
                s[i]
            },
    )
}

fn is_hex_digit(c: char) -> (r: bool)
    ensures
        r == is_hex_char(c),
{
    ('0' <= c && c <= '9') || ('a' <= c && c <= 'f') || ('A' <= c && c <= 'F')
}

fn hex_value(c: char) -> (r: u8)
    requires
        is_hex_char(c),
    ensures
        r as int == hex_char_value(c),
        r < 16,
{
    if '0' <= c && c <= '9' {
        (c as u32 - '0' as u32) as u8
    } else if 'a' <= c && c <= 'f' {
        (c as u32 - 'a' as u32 + 10) as u8
    } else {
        (c as u32 - 'A' as u32 + 10) as u8
    }
}

/// Reads two hexadecimal digits, either case, as one byte.
pub fn from_hex(hi: char, lo: char) -> (r: Option<u8>)
    ensures
        r == (if is_hex_char(hi) && is_hex_char(lo) {
            Some((hex_char_value(hi) * 16 + hex_char_value(lo)) as u8)
        } else {
            None
        }),
{
    if is_hex_digit(hi) && is_hex_digit(lo) {
        let h = hex_value(hi);
        let l = hex_value(lo);
        Some(h * 16 + l)
    } else {
        None
    }
}

fn hex_digit(n: u8) -> (r: char)
    requires
        n < 16,
    ensures
        r == upper_hex_char(n),
{
    if n < 10 {
        (48 + n) as char
    } else {
        (55 + n) as char
    }
}

#[verifier::external_type_specification]
#[verifier::external_body]
pub struct ExHeaplessString<const N: usize>(heapless::String<N>);

/// The characters that a line buffer holds.
pub uninterp spec fn line_chars(s: heapless::String<MAX_ENCODED_LENGTH>) -> Seq<char>;

/// The number of bytes that a line buffer's characters take in UTF-8.
pub uninterp spec fn line_byte_len(s: heapless::String<MAX_ENCODED_LENGTH>) -> nat;

/// The number of bytes of `c` in UTF-8, as `char::len_utf8` documents it.
pub open spec fn utf8_len(c: char) -> nat {
    if c <= '\u{7f}' {
        1
    } else if c <= '\u{7ff}' {
        2
    } else if c <= '\u{ffff}' {
        3
    } else {
        4
    }
}

/// Relies on `heapless::String::new`: the string starts empty.
#[verifier::external_body]
fn line_new() -> (r: heapless::String<MAX_ENCODED_LENGTH>)
    ensures
        line_chars(r) == Seq::<char>::empty(),
        line_byte_len(r) == 0,
{
    heapless::String::new()
}

/// Relies on `heapless::String::push`: the character's UTF-8 bytes are
/// appended when they fit in the capacity; otherwise the string is left as
/// it was and an error returned.
#[verifier::external_body]
fn line_push(s: &mut heapless::String<MAX_ENCODED_LENGTH>, c: char) -> (r: Result<(), ()>)
    ensures
        r is Ok <==> line_byte_len(*old(s)) + utf8_len(c) <= MAX_ENCODED_LENGTH,
        r is Ok ==> line_chars(*final(s)) == line_chars(*old(s)).push(c)
            && line_byte_len(*final(s)) == line_byte_len(*old(s)) + utf8_len(c),
        r is Err ==> line_chars(*final(s)) == line_chars(*old(s))
            && line_byte_len(*final(s)) == line_byte_len(*old(s)),
{
    s.push(c)
}

/// Appends a character whose bytes fit in the line.
fn push_char(s: &mut heapless::String<MAX_ENCODED_LENGTH>, c: char)
    requires
        line_byte_len(*old(s)) + utf8_len(c) <= MAX_ENCODED_LENGTH,
    ensures
        line_chars(*final(s)) == line_chars(*old(s)).push(c),
        line_byte_len(*final(s)) == line_byte_len(*old(s)) + utf8_len(c),
{
    let _ = line_push(s, c);
}

/// Reads the characters of `s` from `start` up to its end.
fn chars_from(s: &str, start: usize, len: usize) -> (r: Vec<char>)
    requires
        len == s@.len(),
        start <= len,
    ensures
        r@ == s@.subrange(start as int, len as int),
{
    let mut r: Vec<char> = Vec::new();
    let mut i: usize = start;
    while i < len
        invariant
            start <= i <= len,
            len == s@.len(),
            r@ == s@.subrange(start as int, i as int),
        decreases len - i,
    {
        r.push(s.get_char(i));
        i = i + 1;
        assert(r@ =~= s@.subrange(start as int, i as int));
    }
    assert(r@ =~= s@.subrange(start as int, i as int));
    r
}

/// Decodes a run of hexadecimal text into bytes; `None` unless the run
/// holds at most a largest payload of digit pairs.
fn hex_payload(t: &Vec<char>) -> (r: Option<heapless::Vec<u8, MAX_DATA_LENGTH>>)
    ensures
        r matches Some(d) ==> is_hex_payload(t@) && payload_bytes(d) == hex_decode(t@),
        r is None ==> !is_hex_payload(t@),
{
    let n = t.len();
    if n % 2 != 0 || n > 2 * Command::MAX_DATA_LENGTH {
        return None;
    }
    let mut d = payload_new();
    let mut i: usize = 0;
    while i < n / 2
        invariant
            n == t@.len(),
            n % 2 == 0,
            n <= 2 * Command::MAX_DATA_LENGTH,
            i <= n / 2,
            payload_bytes(d).len() == i,
            forall|k: int| 0 <= k < 2 * i ==> is_hex_char(#[trigger] t@[k]),
            forall|k: int| 0 <= k < i ==> payload_bytes(d)[k] == hex_decode(t@)[k],
        decreases n / 2 - i,
    {
        match from_hex(t[2 * i], t[2 * i + 1]) {
            Some(b) => {
                let _ = payload_push(&mut d, b);
            },
            None => {
                assert(!is_hex_char(t@[2 * i as int]) || !is_hex_char(t@[2 * i + 1]));
                return None;
            },
        }
        i = i + 1;
    }
    assert(payload_bytes(d) =~= hex_decode(t@));
    Some(d)
}

impl Frame {
    /// Parses one line, without its terminator, as a frame. Anything left
    /// after the first alternative that matches is an error.
    pub fn parse(s: &str) -> (r: Result<Frame, Error>)
        ensures
            match parse_line(s@) {
                Some(v) => r matches Ok(f) && f@ == v,
                None => r == Err::<Frame, Error>(Error::ParseError),
            },
    {
        let n = s.unicode_len();
        if n > 3 + 2 * Command::MAX_DATA_LENGTH {
            return Err(Error::ParseError);
        }
        let chars = chars_from(s, 0, n);
        assert(chars@ =~= s@);
        Self::parse_chars(chars.as_slice())
    }

    /// Parses the characters of one line, without its terminator.
    pub fn parse_chars(s: &[char]) -> (r: Result<Frame, Error>)
        ensures
            match parse_line(s@) {
                Some(v) => r matches Ok(f) && f@ == v,
                None => r == Err::<Frame, Error>(Error::ParseError),
            },
    {
        let n = s.len();
        if n < 3 {
            return Err(Error::ParseError);
        }
        let c0 = s[0];
        let c1 = s[1];
        let c2 = s[2];
        if n == 4 && c0 == '<' && c1 == '+' && s[3] == '>' {
            Ok(Frame::Subscribe(c2))
        } else if n == 4 && c0 == '<' && c1 == '-' && s[3] == '>' {
            Ok(Frame::Unsubscribe(c2))
        } else if (c0 == '[' && c2 == ']') || (c0 == '<' && c2 == '>') {
            if n - 3 > 2 * Command::MAX_DATA_LENGTH {
                return Err(Error::ParseError);
            }
            let mut rest: Vec<char> = Vec::new();
            let mut i: usize = 3;
            while i < n
                invariant
                    3 <= i <= n,
                    n == s@.len(),
                    rest@ =~= s@.subrange(3, i as int),
                decreases n - i,
            {
                rest.push(s[i]);
                i = i + 1;
            }
            match hex_payload(&rest) {
                Some(data) => {
                    let f = CommandFrame { command: c1, data };
                    if c0 == '[' {
                        Ok(Frame::FromDe1(f))
                    } else {
                        Ok(Frame::ToDe1(f))
                    }
                },
                None => Err(Error::ParseError),
            }
        } else {
            Err(Error::ParseError)
        }
    }

    /// The frame's line: its text and a terminating newline, hexadecimal
    /// digits in upper case.
    pub fn to_line(&self) -> (r: heapless::String<MAX_ENCODED_LENGTH>)
        ensures
            line_chars(r) == frame_text(self@).push('\n'),
            line_chars(r).len() <= MAX_ENCODED_LENGTH,
    {
        let mut out = line_new();
        match self {
            Frame::FromDe1(f) => {
                push_char(&mut out, '[');
                push_char(&mut out, f.command);
                push_char(&mut out, ']');
                Self::append_data(&mut out, payload_as_slice(&f.data));
            },
            Frame::ToDe1(f) => {
                push_char(&mut out, '<');
                push_char(&mut out, f.command);
                push_char(&mut out, '>');
                Self::append_data(&mut out, payload_as_slice(&f.data));
            },
            Frame::Subscribe(c) => {
                push_char(&mut out, '<');
                push_char(&mut out, '+');
                push_char(&mut out, *c);
                push_char(&mut out, '>');
            },
            Frame::Unsubscribe(c) => {
                push_char(&mut out, '<');
                push_char(&mut out, '-');
                push_char(&mut out, *c);
                push_char(&mut out, '>');
            },
        }
        push_char(&mut out, '\n');
        assert(line_chars(out) =~= frame_text(self@).push('\n'));
        out
    }

    /// Appends two upper-case hexadecimal digits per byte.
    fn append_data(s: &mut heapless::String<MAX_ENCODED_LENGTH>, data: &[u8])
        requires
            line_byte_len(*old(s)) + 2 * data@.len() <= MAX_ENCODED_LENGTH,
        ensures
            line_chars(*final(s)) == line_chars(*old(s)) + hex_text(data@),
            line_byte_len(*final(s)) == line_byte_len(*old(s)) + 2 * data@.len(),
    {
        let mut i: usize = 0;
        while i < data.len()
            invariant
                i <= data@.len(),
                line_byte_len(*old(s)) + 2 * data@.len() <= MAX_ENCODED_LENGTH,
                line_chars(*s) == line_chars(*old(s)) + hex_text(data@.subrange(0, i as int)),
                line_byte_len(*s) == line_byte_len(*old(s)) + 2 * i,
            decreases data.len() - i,
        {
            let b = data[i];
            assert(b >> 4u8 == b / 16 && b & 0xf == b % 16) by (bit_vector);
            push_char(s, hex_digit(b >> 4u8));
            push_char(s, hex_digit(b & 0xf));
            i = i + 1;
            assert(hex_text(data@.subrange(0, i as int)) =~= hex_text(
                data@.subrange(0, i - 1),
            ).push(upper_hex_char(b / 16)).push(upper_hex_char(b % 16)));
        }
        assert(data@.subrange(0, i as int) =~= data@);
    }
}

impl core::str::FromStr for Frame {
    type Err = Error;

    fn from_str(s: &str) -> (r: core::result::Result<Frame, Error>)
        ensures
            match parse_line(s@) {
                Some(v) => r matches Ok(f) && f@ == v,
                None => r == Err::<Frame, Error>(Error::ParseError),
            },
    {
        Frame::parse(s)
    }
}

/// The reader's state after one character: a newline empties the buffer
/// and clears the overflow mark; a character outside ASCII is dropped; any
/// other is appended while the buffer has room, and marks an overflow
/// when it has none.
pub open spec fn line_step(buf: Seq<char>, overflow: bool, cap: nat, c: char) -> (Seq<char>, bool) {
    if c == '\n' {
        (seq![], false)
    } else if c >= '\u{80}' {
        (buf, overflow)
    } else if buf.len() < cap {
        (buf.push(c), overflow)
    } else {
        (buf, true)
    }
}

/// The reader's state after a run of characters.
pub open spec fn line_feed(buf: Seq<char>, overflow: bool, cap: nat, cs: Seq<char>) -> (Seq<char>, bool)
    decreases cs.len(),
{
    if cs.len() == 0 {
        (buf, overflow)
    } else {
        let (b, o) = line_step(buf, overflow, cap, cs[0]);
        line_feed(b, o, cap, cs.subrange(1, cs.len() as int))
    }
}

/// Characters that a line may hold: ASCII, and no newline.
pub open spec fn is_line_text(cs: Seq<char>) -> bool {
    forall|i: int| 0 <= i < cs.len() ==> #[trigger] cs[i] < '\u{80}' && cs[i] != '\n'
}

/// Splits incoming characters into lines and parses each line as a frame.
/// Memory is bounded by `N` characters: a longer line is dropped whole.
pub struct LineReader<const N: usize> {
    buffer: Vec<char>,
    overflow: bool,
}

impl<const N: usize> View for LineReader<N> {
    type V = (Seq<char>, bool);

    closed spec fn view(&self) -> (Seq<char>, bool) {
        (self.buffer@, self.overflow)
    }
}

impl<const N: usize> LineReader<N> {
    pub closed spec fn wf(&self) -> bool {
        self.buffer@.len() <= N
    }

    pub fn new() -> (r: Self)
        ensures
            r.wf(),
            r@ == (Seq::<char>::empty(), false),
            r@.0.len() <= N,
    {
        LineReader { buffer: Vec::new(), overflow: false }
    }

    /// Takes one character. At a newline the line read so far is parsed
    /// (its error is returned), unless it overflowed, in which case it is
    /// dropped without a frame; either way the reader starts afresh.
    pub fn handle_char(&mut self, c: char) -> (r: Result<Option<Frame>, Error>)
        requires
            old(self).wf(),
        ensures
            final(self).wf(),
            final(self)@.0.len() <= N,
            final(self)@ == line_step(old(self)@.0, old(self)@.1, N as nat, c),
            c == '\n' && !old(self)@.1 ==> match parse_line(old(self)@.0) {
                Some(v) => r matches Ok(Some(f)) && f@ == v,
                None => r == Err::<Option<Frame>, Error>(Error::ParseError),
            },
            !(c == '\n' && !old(self)@.1) ==> r matches Ok(None),
    {
        if c == '\n' {
            let frame = if !self.overflow {
                match Frame::parse_chars(self.buffer.as_slice()) {
                    Ok(f) => Some(f),
                    Err(e) => {
                        self.buffer.clear();
                        self.overflow = false;
                        return Err(e);
                    },
                }
            } else {
                None
            };
            self.buffer.clear();
            self.overflow = false;
            return Ok(frame);
        }
        if c >= '\u{80}' {
            return Ok(None);
        }
        if self.buffer.len() < N {
            self.buffer.push(c);
        } else {
            self.overflow = true;
        }
        Ok(None)
    }
}

/// Feeding line text to a reader keeps what fits in the buffer, and marks
/// an overflow once more arrives than fits.
pub proof fn lemma_line_feed_text(buf: Seq<char>, overflow: bool, cap: nat, cs: Seq<char>)
    requires
        buf.len() <= cap,
        is_line_text(cs),
    ensures
        line_feed(buf, overflow, cap, cs).1 == (overflow || buf.len() + cs.len() > cap),
        buf.len() + cs.len() <= cap ==> line_feed(buf, overflow, cap, cs).0 == buf + cs,
    decreases cs.len(),
{
    if cs.len() > 0 {
        let (b, o) = line_step(buf, overflow, cap, cs[0]);
        let tail = cs.subrange(1, cs.len() as int);
        assert(is_line_text(tail)) by {
            assert forall|i: int| 0 <= i < tail.len() implies #[trigger] tail[i] < '\u{80}'
                && tail[i] != '\n' by {
                assert(tail[i] == cs[i + 1]);
            }
        }
        assert(cs[0] < '\u{80}' && cs[0] != '\n');
        lemma_line_feed_text(b, o, cap, tail);
        if buf.len() + cs.len() <= cap {
            assert(buf + cs =~= buf.push(cs[0]) + tail);
        }
    }
}

/// A line longer than the buffer marks an overflow, so its newline yields
/// no frame; the newline then leaves the reader empty, and the next line
/// that fits is read whole.
pub proof fn lemma_overlong_line_dropped(
    buf: Seq<char>,
    overflow: bool,
    cap: nat,
    long: Seq<char>,
    next: Seq<char>,
)
    requires
        buf.len() <= cap,
        is_line_text(long),
        buf.len() + long.len() > cap,
        is_line_text(next),
        next.len() <= cap,
    ensures
        line_feed(buf, overflow, cap, long).1,
        line_step(line_feed(buf, overflow, cap, long).0, true, cap, '\n') == (Seq::<char>::empty(), false),
        line_feed(Seq::<char>::empty(), false, cap, next) == (next, false),
{
    lemma_line_feed_text(buf, overflow, cap, long);
    lemma_line_feed_text(Seq::<char>::empty(), false, cap, next);
    assert(Seq::<char>::empty() + next =~= next);
}

proof fn lemma_upper_hex_char(n: u8)
    requires
        n < 16,
    ensures
        is_hex_char(upper_hex_char(n)),
        hex_char_value(upper_hex_char(n)) == n as int,
{
}

proof fn lemma_upper_of_hex_char(c: char)
    requires
        is_hex_char(c),
    ensures
        0 <= hex_char_value(c) < 16,
        upper_hex_char(hex_char_value(c) as u8) == (if 'a' <= c && c <= 'f' {
            (c as u32 - 32) as char
        } else {
            c
        }),
{
}

/// Hexadecimal text of at most a largest payload is a valid payload run,
/// and decodes to the bytes it was made from.
proof fn lemma_hex_text_decodes(d: Seq<u8>)
    requires
        d.len() <= Command::MAX_DATA_LENGTH,
    ensures
        is_hex_payload(hex_text(d)),
        hex_decode(hex_text(d)) =~= d,
{
    let t = hex_text(d);
    assert forall|i: int| 0 <= i < t.len() implies is_hex_char(#[trigger] t[i]) by {
        lemma_upper_hex_char(d[i / 2] / 16);
        lemma_upper_hex_char(d[i / 2] % 16);
    }
    assert forall|i: int| 0 <= i < d.len() implies #[trigger] hex_decode(t)[i] == d[i] by {
        assert((2 * i) / 2 == i && (2 * i) % 2 == 0 && (2 * i + 1) / 2 == i && (2 * i + 1) % 2 == 1);
        lemma_upper_hex_char(d[i] / 16);
        lemma_upper_hex_char(d[i] % 16);
    }
}

/// Every well-formed frame, written as a line and parsed back, is the same
/// frame.
pub proof fn lemma_frame_round_trip(f: FrameView)
    requires
        f.wf(),
    ensures
        parse_line(frame_text(f)) == Some(f),
{
    match f {
        FrameView::FromDe1(c, d) => {
            lemma_hex_text_decodes(d);
            let s = frame_text(f);
            assert(s.len() == 3 + 2 * d.len());
            assert(s.subrange(3, s.len() as int) =~= hex_text(d));
        },
        FrameView::ToDe1(c, d) => {
            lemma_hex_text_decodes(d);
            let s = frame_text(f);
            assert(s.len() == 3 + 2 * d.len());
            assert(s.subrange(3, s.len() as int) =~= hex_text(d));
        },
        _ => {},
    }
}

/// Every line that parses is written back as the same text, with the
/// hexadecimal letters of its payload in upper case.
pub proof fn lemma_line_round_trip(s: Seq<char>)
    requires
        parse_line(s) is Some,
    ensures
        parse_line(s).unwrap().wf(),
        frame_text(parse_line(s).unwrap()) =~= normalize_line(s),
{
    if parse_line(s).unwrap() is FromDe1 || parse_line(s).unwrap() is ToDe1 {
        let t = s.subrange(3, s.len() as int);
        let d = hex_decode(t);
        let h = hex_text(d);
        assert forall|j: int| 0 <= j < t.len() implies #[trigger] h[j] == normalize_line(s)[j + 3] by {
            let i = j / 2;
            assert(t[2 * i] == s[2 * i + 3] && t[2 * i + 1] == s[2 * i + 4]);
            lemma_upper_of_hex_char(t[2 * i]);
            lemma_upper_of_hex_char(t[2 * i + 1]);
            let hi = hex_char_value(t[2 * i]);
            let lo = hex_char_value(t[2 * i + 1]);
            assert(d[i] == (hi * 16 + lo) as u8);
            assert((hi * 16 + lo) as u8 / 16 == hi && (hi * 16 + lo) as u8 % 16 == lo);
        }
        assert(frame_text(parse_line(s).unwrap()) =~= normalize_line(s));
    }
}

} // verus!
