//! Frames on the wire: the binary position frame, and the verdict on a control
//! message that was read as JSON.
//!
//! A position frame is the tag byte `1` followed by 18 little-endian 32-bit
//! numbers: position, forward and up of the player, then of the camera. Every
//! other frame is a control message in JSON, whose text is parsed outside this
//! library and judged here.

use vstd::prelude::*;
use vstd::slice::slice_subrange;
use byteorder::{ByteOrder, LittleEndian};
use crate::event::{FromTM, FromTMView};
use crate::position::MPos;
use vstd::string::*;

verus! {

/// The first byte of a position frame.
pub const POSITION_TAG: u8 = 1;

/// The bytes that follow the tag in a position frame.
pub const POSITION_PAYLOAD_LEN: usize = 72;

/// The length of a whole position frame, tag included.
pub const POSITION_FRAME_LEN: usize = 73;

/// Why a frame gave no event.
#[derive(Debug, PartialEq, Eq)]
pub enum DecodeError {
    /// A position frame that ends before its last number.
    MalformedFrame,
    /// A control message that is no JSON of a known shape, or that names an
    /// event which a peer may not send. `message` says what is wrong and `text`
    /// is the message as it was received.
    ProtocolError { message: String, text: String },
}

/// What a `DecodeError` holds, with each text as its characters.
#[verifier::ext_equal]
pub enum DecodeErrorView {
    MalformedFrame,
    ProtocolError { message: Seq<char>, text: Seq<char> },
}

impl View for DecodeError {
    type V = DecodeErrorView;

    open spec fn view(&self) -> DecodeErrorView {
        match *self {
            DecodeError::MalformedFrame => DecodeErrorView::MalformedFrame,
            DecodeError::ProtocolError { message, text } => DecodeErrorView::ProtocolError {
                message: message@,
                text: text@,
            },
        }
    }
}

/// The number whose little-endian bytes are the first four of `b`.
pub open spec fn le_u32(b: Seq<u8>) -> u32 {
    (b[0] as int + 0x100 * (b[1] as int) + 0x1_0000 * (b[2] as int) + 0x100_0000 * (b[3] as int)) as u32
}

/// The four little-endian bytes of `w`.
pub open spec fn le_bytes(w: u32) -> Seq<u8> {
    seq![
        (w as int % 0x100) as u8,
        (w as int / 0x100 % 0x100) as u8,
        (w as int / 0x1_0000 % 0x100) as u8,
        (w as int / 0x100_0000) as u8,
    ]
}

/// The little-endian number that starts at `off` in `bytes`.
pub open spec fn word_at(bytes: Seq<u8>, off: int) -> u32 {
    le_u32(bytes.subrange(off, off + 4))
}

/// The three numbers that start at `off` in `bytes`.
pub open spec fn vec3_at(bytes: Seq<u8>, off: int) -> Seq<u32> {
    seq![word_at(bytes, off), word_at(bytes, off + 4), word_at(bytes, off + 8)]
}

/// The position whose nine numbers start at `off` in `bytes`.
pub open spec fn position_at(bytes: Seq<u8>, off: int) -> MPos {
    MPos {
        pos: [word_at(bytes, off), word_at(bytes, off + 4), word_at(bytes, off + 8)],
        dir: [word_at(bytes, off + 12), word_at(bytes, off + 16), word_at(bytes, off + 20)],
        up: [word_at(bytes, off + 24), word_at(bytes, off + 28), word_at(bytes, off + 32)],
    }
}

/// What a position frame decodes to: the update of the player's position, read
/// after the first byte, and the camera's, read after that; or `MalformedFrame`
/// where the frame is shorter than 73 bytes.
pub open spec fn position_verdict(bytes: Seq<u8>) -> Result<FromTMView, DecodeErrorView> {
    if bytes.len() >= POSITION_FRAME_LEN {
        Ok(FromTMView::Positions { p: position_at(bytes, 1), c: position_at(bytes, 37) })
    } else {
        Err(DecodeErrorView::MalformedFrame)
    }
}

/// The twelve bytes of three numbers.
pub open spec fn vec3_bytes(v: Seq<u32>) -> Seq<u8> {
    le_bytes(v[0]) + le_bytes(v[1]) + le_bytes(v[2])
}

/// The 36 bytes of a position.
pub open spec fn position_bytes(m: MPos) -> Seq<u8> {
    vec3_bytes(m.pos@) + vec3_bytes(m.dir@) + vec3_bytes(m.up@)
}

/// The frame that carries the positions `p` and `c`.
pub open spec fn position_frame(p: MPos, c: MPos) -> Seq<u8> {
    seq![POSITION_TAG] + position_bytes(p) + position_bytes(c)
}

/// Whether a frame is a position frame: it has a first byte, and that is the tag.
pub open spec fn has_position_tag(bytes: Seq<u8>) -> bool {
    bytes.len() > 0 && bytes[0] == POSITION_TAG
}

/// Calls `<LittleEndian as ByteOrder>::read_u32` of `byteorder`, which reads the
/// first four bytes of `buf` as a little-endian number and panics on a shorter
/// slice.
#[verifier::external_body]
fn read_u32_le(buf: &[u8]) -> (r: u32)
    requires
        buf@.len() >= 4,
    ensures
        r == le_u32(buf@),
{
    LittleEndian::read_u32(buf)
}

/// Reads the little-endian number at `off`.
pub fn read_word(data: &[u8], off: usize) -> (r: u32)
    requires
        off + 4 <= data.len(),
    ensures
        r == word_at(data@, off as int),
{
    read_u32_le(slice_subrange(data, off, off + 4))
}

/// Reads three numbers from `off` on.
pub fn read_vec3(data: &[u8], off: usize) -> (r: [u32; 3])
    requires
        off + 12 <= data.len(),
    ensures
        r@ == vec3_at(data@, off as int),
{
    [read_word(data, off), read_word(data, off + 4), read_word(data, off + 8)]
}

/// Reads the position whose nine numbers start at `off`.
fn read_position(data: &[u8], off: usize) -> (r: MPos)
    requires
        off + 36 <= data.len(),
    ensures
        r == position_at(data@, off as int),
{
    let pos = read_vec3(data, off);
    let dir = read_vec3(data, off + 12);
    let up = read_vec3(data, off + 24);
    let r = MPos::new(pos, dir, up);
    proof {
        let m = position_at(data@, off as int);
        assert(r.pos =~= m.pos);
        assert(r.dir =~= m.dir);
        assert(r.up =~= m.up);
    }
    r
}

/// Whether `data` begins with the tag of a position frame.
pub fn is_position_frame(data: &[u8]) -> (r: bool)
    ensures
        r == has_position_tag(data@),
{
    data.len() > 0 && data[0] == POSITION_TAG
}

/// Decodes a position frame. The first byte is skipped, whatever it is; bytes
/// after the 73rd are ignored. A frame of fewer than 73 bytes is malformed.
pub fn read_pos_msg(data: &[u8]) -> (r: Result<FromTM, DecodeError>)
    ensures
        decoded_view(r) == position_verdict(data@),
{
    if data.len() < POSITION_FRAME_LEN {
        return Err(DecodeError::MalformedFrame);
    }
    let p = read_position(data, 1);
    let c = read_position(data, 37);
    Ok(FromTM::Positions { p, c })
}


/// Appends the four little-endian bytes of `w`.
fn push_word(out: &mut Vec<u8>, w: u32)
    ensures
        final(out)@ == old(out)@ + le_bytes(w),
{
    out.push((w % 0x100) as u8);
    out.push((w / 0x100 % 0x100) as u8);
    out.push((w / 0x1_0000 % 0x100) as u8);
    out.push((w / 0x100_0000) as u8);
    assert(out@ =~= old(out)@ + le_bytes(w));
}

/// Appends the twelve bytes of three numbers.
fn push_vec3(out: &mut Vec<u8>, v: &[u32; 3])
    ensures
        final(out)@ == old(out)@ + vec3_bytes(v@),
{
    push_word(out, v[0]);
    push_word(out, v[1]);
    push_word(out, v[2]);
    assert(out@ =~= old(out)@ + vec3_bytes(v@));
}

/// Appends the 36 bytes of a position.
fn push_position(out: &mut Vec<u8>, m: &MPos)
    ensures
        final(out)@ == old(out)@ + position_bytes(*m),
{
    push_vec3(out, &m.pos);
    push_vec3(out, &m.dir);
    push_vec3(out, &m.up);
    assert(out@ =~= old(out)@ + position_bytes(*m));
}

/// Encodes a position frame: the tag, then the player's and the camera's
/// position, 73 bytes in all.
pub fn write_pos_msg(p: &MPos, c: &MPos) -> (r: Vec<u8>)
    ensures
        r@ == position_frame(*p, *c),
{
    let mut out: Vec<u8> = Vec::new();
    out.push(POSITION_TAG);
    push_position(&mut out, p);
    push_position(&mut out, c);
    assert(out@ =~= position_frame(*p, *c));
    out
}

/// Splitting a number below 2^32 into four digits of base 256 and putting them
/// together again are inverse to each other.
proof fn lemma_base_256(b0: int, b1: int, b2: int, b3: int)
    requires
        0 <= b0 < 0x100,
        0 <= b1 < 0x100,
        0 <= b2 < 0x100,
        0 <= b3 < 0x100,
    ensures
        ({
            let w = b0 + 0x100 * b1 + 0x1_0000 * b2 + 0x100_0000 * b3;
            &&& 0 <= w < 0x1_0000_0000
            &&& w % 0x100 == b0
            &&& w / 0x100 % 0x100 == b1
            &&& w / 0x1_0000 % 0x100 == b2
            &&& w / 0x100_0000 == b3
        }),
{
}

/// Four bytes written for a number read back as that number.
pub proof fn lemma_word_round_trip(w: u32)
    ensures
        le_bytes(w).len() == 4,
        le_u32(le_bytes(w)) == w,
{
    let n = w as int;
    let b = le_bytes(w);
    assert(b[0] as int == n % 0x100);
    assert(b[1] as int == n / 0x100 % 0x100);
    assert(b[2] as int == n / 0x1_0000 % 0x100);
    assert(b[3] as int == n / 0x100_0000);
    assert(n == n % 0x100 + 0x100 * (n / 0x100 % 0x100) + 0x1_0000 * (n / 0x1_0000 % 0x100)
        + 0x100_0000 * (n / 0x100_0000));
}

/// A number read from four bytes is written as those four bytes.
pub proof fn lemma_bytes_round_trip(b: Seq<u8>)
    requires
        b.len() == 4,
    ensures
        le_bytes(le_u32(b)) == b,
{
    lemma_base_256(b[0] as int, b[1] as int, b[2] as int, b[3] as int);
    let back = le_bytes(le_u32(b));
    assert(back[0] == b[0]);
    assert(back[1] == b[1]);
    assert(back[2] == b[2]);
    assert(back[3] == b[3]);
    assert(back =~= b);
}

/// Three numbers take twelve bytes and a position 36.
proof fn lemma_lengths(m: MPos)
    ensures
        vec3_bytes(m.pos@).len() == 12,
        vec3_bytes(m.dir@).len() == 12,
        vec3_bytes(m.up@).len() == 12,
        position_bytes(m).len() == 36,
{
}

/// Three sequences of `n` bytes each, put together, can be taken apart again.
proof fn lemma_pieces_of_three(a: Seq<u8>, b: Seq<u8>, c: Seq<u8>, n: int)
    requires
        a.len() == n,
        b.len() == n,
        c.len() == n,
    ensures
        (a + b + c).subrange(0, n) == a,
        (a + b + c).subrange(n, 2 * n) == b,
        (a + b + c).subrange(2 * n, 3 * n) == c,
{
    assert((a + b + c).subrange(0, n) =~= a);
    assert((a + b + c).subrange(n, 2 * n) =~= b);
    assert((a + b + c).subrange(2 * n, 3 * n) =~= c);
}

/// The number at `off` in a sequence that holds `le_bytes(w)` from `off` on is `w`.
proof fn lemma_word_in_place(bytes: Seq<u8>, off: int, w: u32)
    requires
        0 <= off,
        off + 4 <= bytes.len(),
        bytes.subrange(off, off + 4) == le_bytes(w),
    ensures
        word_at(bytes, off) == w,
{
    lemma_word_round_trip(w);
}

/// The three numbers at `off` in a sequence that holds `vec3_bytes(v)` there are `v`.
proof fn lemma_vec3_in_place(bytes: Seq<u8>, off: int, v: Seq<u32>)
    requires
        0 <= off,
        off + 12 <= bytes.len(),
        v.len() == 3,
        bytes.subrange(off, off + 12) == vec3_bytes(v),
    ensures
        vec3_at(bytes, off) == v,
{
    let chunk = vec3_bytes(v);
    lemma_pieces_of_three(le_bytes(v[0]), le_bytes(v[1]), le_bytes(v[2]), 4);
    assert(bytes.subrange(off, off + 4) =~= chunk.subrange(0, 4));
    assert(bytes.subrange(off + 4, off + 8) =~= chunk.subrange(4, 8));
    assert(bytes.subrange(off + 8, off + 12) =~= chunk.subrange(8, 12));
    lemma_word_in_place(bytes, off, v[0]);
    lemma_word_in_place(bytes, off + 4, v[1]);
    lemma_word_in_place(bytes, off + 8, v[2]);
    assert(vec3_at(bytes, off) =~= v);
}

/// The position at `off` in a sequence that holds `position_bytes(m)` there is `m`.
proof fn lemma_position_in_place(bytes: Seq<u8>, off: int, m: MPos)
    requires
        0 <= off,
        off + 36 <= bytes.len(),
        bytes.subrange(off, off + 36) == position_bytes(m),
    ensures
        position_at(bytes, off) == m,
{
    let chunk = position_bytes(m);
    lemma_lengths(m);
    lemma_pieces_of_three(vec3_bytes(m.pos@), vec3_bytes(m.dir@), vec3_bytes(m.up@), 12);
    assert(bytes.subrange(off, off + 12) =~= chunk.subrange(0, 12));
    assert(bytes.subrange(off + 12, off + 24) =~= chunk.subrange(12, 24));
    assert(bytes.subrange(off + 24, off + 36) =~= chunk.subrange(24, 36));
    lemma_vec3_in_place(bytes, off, m.pos@);
    lemma_vec3_in_place(bytes, off + 12, m.dir@);
    lemma_vec3_in_place(bytes, off + 24, m.up@);
    let r = position_at(bytes, off);
    assert(r.pos =~= m.pos);
    assert(r.dir =~= m.dir);
    assert(r.up =~= m.up);
}

/// Encoding then decoding gives the positions back: the frame of `p` and `c` is 73
/// bytes long, begins with the tag, and decodes to the update of `p` and `c`.
pub proof fn lemma_encode_then_decode(p: MPos, c: MPos)
    ensures
        position_frame(p, c).len() == POSITION_FRAME_LEN,
        has_position_tag(position_frame(p, c)),
        position_verdict(position_frame(p, c)) == Ok::<FromTMView, DecodeErrorView>(
            FromTMView::Positions { p, c },
        ),
{
    let frame = position_frame(p, c);
    lemma_lengths(p);
    lemma_lengths(c);
    let head = seq![POSITION_TAG];
    assert(frame == head + position_bytes(p) + position_bytes(c));
    assert(frame.len() == 73);
    assert(frame.subrange(1, 37) =~= position_bytes(p));
    assert(frame.subrange(37, 73) =~= position_bytes(c));
    lemma_position_in_place(frame, 1, p);
    lemma_position_in_place(frame, 37, c);
}

/// Three pieces of a sequence that follow one another make up the piece that
/// spans them.
proof fn lemma_three_pieces(s: Seq<u8>, off: int, n: int)
    requires
        0 <= off,
        0 <= n,
        off + 3 * n <= s.len(),
    ensures
        s.subrange(off, off + n) + s.subrange(off + n, off + 2 * n) + s.subrange(
            off + 2 * n,
            off + 3 * n,
        ) == s.subrange(off, off + 3 * n),
{
    assert(s.subrange(off, off + n) + s.subrange(off + n, off + 2 * n) + s.subrange(
        off + 2 * n,
        off + 3 * n,
    ) =~= s.subrange(off, off + 3 * n));
}

/// The number at `off`, written out, is the four bytes at `off`.
proof fn lemma_word_written(bytes: Seq<u8>, off: int)
    requires
        0 <= off,
        off + 4 <= bytes.len(),
    ensures
        le_bytes(word_at(bytes, off)) == bytes.subrange(off, off + 4),
{
    lemma_bytes_round_trip(bytes.subrange(off, off + 4));
}

/// The three numbers at `off`, written out, are the twelve bytes at `off`.
proof fn lemma_vec3_written(bytes: Seq<u8>, off: int)
    requires
        0 <= off,
        off + 12 <= bytes.len(),
    ensures
        vec3_bytes(vec3_at(bytes, off)) == bytes.subrange(off, off + 12),
{
    lemma_word_written(bytes, off);
    lemma_word_written(bytes, off + 4);
    lemma_word_written(bytes, off + 8);
    lemma_three_pieces(bytes, off, 4);
}

/// The parts of the position at `off` are the numbers at `off`, twelve bytes
/// on, and 24 bytes on.
proof fn lemma_position_parts(bytes: Seq<u8>, off: int)
    ensures
        position_at(bytes, off).pos@ == vec3_at(bytes, off),
        position_at(bytes, off).dir@ == vec3_at(bytes, off + 12),
        position_at(bytes, off).up@ == vec3_at(bytes, off + 24),
{
    let m = position_at(bytes, off);
    assert(m.pos@ =~= vec3_at(bytes, off));
    assert(m.dir@ =~= vec3_at(bytes, off + 12));
    assert(m.up@ =~= vec3_at(bytes, off + 24));
}

/// The position at `off`, written out, is the 36 bytes at `off`.
proof fn lemma_position_written(bytes: Seq<u8>, off: int)
    requires
        0 <= off,
        off + 36 <= bytes.len(),
    ensures
        position_bytes(position_at(bytes, off)) == bytes.subrange(off, off + 36),
{
    lemma_position_parts(bytes, off);
    lemma_vec3_written(bytes, off);
    lemma_vec3_written(bytes, off + 12);
    lemma_vec3_written(bytes, off + 24);
    lemma_three_pieces(bytes, off, 12);
}

/// Decoding then encoding gives the frame back: for a frame that begins with
/// the tag and holds its 72 bytes of payload, the frame of the decoded
/// positions is the first 73 bytes of it, each of the 18 numbers bit for bit.
pub proof fn lemma_decode_then_encode(bytes: Seq<u8>)
    requires
        has_position_tag(bytes),
        bytes.len() >= POSITION_FRAME_LEN,
    ensures
        position_verdict(bytes) is Ok,
        position_frame(position_verdict(bytes)->Ok_0->p, position_verdict(bytes)->Ok_0->c)
            == bytes.subrange(0, POSITION_FRAME_LEN as int),
{
    lemma_position_written(bytes, 1);
    lemma_position_written(bytes, 37);
    let head = seq![POSITION_TAG];
    assert(head =~= bytes.subrange(0, 1));
    assert(bytes.subrange(0, 1) + bytes.subrange(1, 37) + bytes.subrange(37, 73) =~= bytes.subrange(
        0,
        73,
    ));
}

/// A frame with fewer than 72 bytes after its first is malformed.
pub proof fn lemma_short_frame_is_malformed(bytes: Seq<u8>)
    requires
        bytes.len() < 1 + POSITION_PAYLOAD_LEN,
    ensures
        position_verdict(bytes) == Err::<FromTMView, DecodeErrorView>(DecodeErrorView::MalformedFrame),
{
}

/// A control message that the parser refused is a protocol error, whatever
/// the text and whatever the parser's reason.
pub proof fn lemma_unparsed_is_protocol_error(text: Seq<char>, reason: Seq<char>)
    ensures
        control_verdict(text, Err(reason)) is Err,
        control_verdict(text, Err(reason))->Err_0 is ProtocolError,
        control_verdict(text, Err(reason))->Err_0->text == text,
{
}

/// Whether a peer may not send the event: the events of a socket's own life
/// are made by the pipeline, never read from the wire.
pub open spec fn is_lifecycle(event: FromTMView) -> bool {
    event is NetConnected || event is NetDisconnected || event is NetAccepted
}

/// A lifecycle event as text: its name and what it holds, in parentheses.
pub open spec fn lifecycle_text(event: FromTMView) -> Seq<char> {
    match event {
        FromTMView::NetConnected(addr, ok) => "NetConnected("@ + addr + ", "@ + (if ok {
            "true"@
        } else {
            "false"@
        }) + ")"@,
        FromTMView::NetDisconnected(addr) => "NetDisconnected("@ + addr + ")"@,
        FromTMView::NetAccepted(addr) => "NetAccepted("@ + addr + ")"@,
        _ => Seq::empty(),
    }
}

/// The verdict on a control message of which `parsed` is the parser's result
/// and `text` the message as received.
pub open spec fn control_verdict(text: Seq<char>, parsed: Result<FromTMView, Seq<char>>) -> Result<
    FromTMView,
    DecodeErrorView,
> {
    match parsed {
        Err(reason) => Err(
            DecodeErrorView::ProtocolError { message: "Error parsing message: "@ + reason, text },
        ),
        Ok(event) => if is_lifecycle(event) {
            Err(
                DecodeErrorView::ProtocolError {
                    message: "Unexpected message: "@ + lifecycle_text(event),
                    text,
                },
            )
        } else {
            Ok(event)
        },
    }
}

/// The parser's result, with each text as its characters.
pub open spec fn parsed_view(parsed: Result<FromTM, String>) -> Result<FromTMView, Seq<char>> {
    match parsed {
        Ok(event) => Ok(event@),
        Err(reason) => Err(reason@),
    }
}

/// A decoder's result, with each text as its characters.
pub open spec fn decoded_view(r: Result<FromTM, DecodeError>) -> Result<FromTMView, DecodeErrorView> {
    match r {
        Ok(event) => Ok(event@),
        Err(e) => Err(e@),
    }
}

/// Judges a control message after the JSON parser has had it. A message that
/// did not parse is a protocol error with the parser's reason; so is one that
/// parsed as a lifecycle event; any other event is accepted as it is.
pub fn decode_control(text: &str, parsed: Result<FromTM, String>) -> (r: Result<FromTM, DecodeError>)
    ensures
        decoded_view(r) == control_verdict(text@, parsed_view(parsed)),
{
    match parsed {
        Err(reason) => {
            let mut message = String::from_str("Error parsing message: ");
            message.append(reason.as_str());
            Err(DecodeError::ProtocolError { message, text: String::from_str(text) })
        },
        Ok(event) => {
            let mut message = String::from_str("Unexpected message: ");
            match &event {
                FromTM::NetConnected(addr, ok) => {
                    message.append("NetConnected(");
                    message.append(addr.as_str());
                    message.append(", ");
                    message.append(if *ok { "true" } else { "false" });
                    message.append(")");
                },
                FromTM::NetDisconnected(addr) => {
                    message.append("NetDisconnected(");
                    message.append(addr.as_str());
                    message.append(")");
                },
                FromTM::NetAccepted(addr) => {
                    message.append("NetAccepted(");
                    message.append(addr.as_str());
                    message.append(")");
                },
                _ => {
                    return Ok(event);
                },
            }
            assert(message@ =~= "Unexpected message: "@ + lifecycle_text(event@));
            Err(DecodeError::ProtocolError { message, text: String::from_str(text) })
        },
    }
}

impl DecodeErrorView {
    /// The error as the observer is told it.
    pub open spec fn report(self) -> Seq<char> {
        match self {
            DecodeErrorView::MalformedFrame => "Error parsing position message: failed to fill whole buffer"@,
            DecodeErrorView::ProtocolError { message, text } => message,
        }
    }
}

impl DecodeError {
    /// The line of text that tells the observer of this error.
    pub fn to_text(&self) -> (r: String)
        ensures
            r@ == self@.report(),
    {
        match self {
            DecodeError::MalformedFrame => String::from_str(
                "Error parsing position message: failed to fill whole buffer",
            ),
            DecodeError::ProtocolError { message, text: _ } => message.clone(),
        }
    }
}

} // verus!
