use vstd::prelude::*;
use vstd::string::StringExecFns;
use vstd::std_specs::convert::FromSpecImpl;
use super::error::{ErrorCode, EventBusError, Result};
use super::topics::Topic;
use crate::text::{decimal, push_decimal};
use super::byte_buffers::{bytes_contents, bytes_from_vec};
use bytes::Bytes;

verus! {

/// Version byte of the frame format.
pub const VERSION: u8 = 0x01;

/// Bytes of the fixed frame header: magic, version, payload length.
pub const HEADER_SIZE: usize = 9;

/// Bytes of the fixed part of a payload: id, type, topic, status, data length.
pub const MIN_PAYLOAD_SIZE: usize = 15;

/// The four magic bytes `S`, `I`, `M`, NUL that open every frame.
pub open spec fn magic() -> Seq<u8> {
    seq![0x53u8, 0x49u8, 0x4Du8, 0x00u8]
}

/// The little-endian bytes of a 32-bit unsigned value.
#[verifier::opaque]
pub open spec fn le_u32_bytes(v: int) -> Seq<u8> {
    seq![
        (v % 256) as u8,
        ((v / 256) % 256) as u8,
        ((v / 65536) % 256) as u8,
        ((v / 16777216) % 256) as u8,
    ]
}

/// The little-endian bytes of a 16-bit unsigned value.
#[verifier::opaque]
pub open spec fn le_u16_bytes(v: int) -> Seq<u8> {
    seq![(v % 256) as u8, ((v / 256) % 256) as u8]
}

/// The 32-bit little-endian value that starts at index `i`.
pub open spec fn u32_at(b: Seq<u8>, i: int) -> int {
    b[i] + 256 * b[i + 1] + 65536 * b[i + 2] + 16777216 * b[i + 3]
}

/// The 16-bit little-endian value that starts at index `i`.
pub open spec fn u16_at(b: Seq<u8>, i: int) -> int {
    b[i] + 256 * b[i + 1]
}

/// The two's-complement bit pattern of an `i32`, as an unsigned value.
pub open spec fn i32_bits(v: i32) -> int {
    if v < 0 { v + 4294967296 } else { v as int }
}

/// The `i32` whose two's-complement bit pattern is `u`.
pub open spec fn i32_from_bits(u: int) -> i32 {
    if u >= 2147483648 { (u - 4294967296) as i32 } else { u as i32 }
}

/// Kind of a frame.
#[derive(Debug, Clone, Copy, PartialEq, Eq, Structural)]
pub enum MessageType {
    Request,
    Response,
    Event,
}

impl MessageType {
    /// The byte a kind travels as.
    pub open spec fn spec_code(self) -> u8 {
        match self {
            MessageType::Request => 1,
            MessageType::Response => 2,
            MessageType::Event => 3,
        }
    }

    /// The kind a byte reads as; an unknown byte reads as `Event`.
    pub open spec fn spec_from_code(value: u8) -> MessageType {
        if value == 1 {
            MessageType::Request
        } else if value == 2 {
            MessageType::Response
        } else {
            MessageType::Event
        }
    }

    /// The byte this kind travels as.
    pub fn code(&self) -> (c: u8)
        ensures
            c == self.spec_code(),
    {
        match self {
            MessageType::Request => 1,
            MessageType::Response => 2,
            MessageType::Event => 3,
        }
    }

    /// The kind a byte reads as.
    pub fn from_code(value: u8) -> (t: MessageType)
        ensures
            t == MessageType::spec_from_code(value),
    {
        match value {
            1 => MessageType::Request,
            2 => MessageType::Response,
            _ => MessageType::Event,
        }
    }
}

impl From<u8> for MessageType {
    fn from(value: u8) -> (t: MessageType) {
        MessageType::from_code(value)
    }
}

impl FromSpecImpl<u8> for MessageType {
    open spec fn obeys_from_spec() -> bool {
        true
    }

    open spec fn from_spec(v: u8) -> MessageType {
        MessageType::spec_from_code(v)
    }
}

/// Source of message identifiers: hands out consecutive numbers, starting at
/// 1 and wrapping at `u32::MAX`.
pub struct MessageIds {
    next: u32,
}

impl MessageIds {
    /// The identifier the next call of `next_msg_id` hands out.
    pub closed spec fn spec_next(&self) -> u32 {
        self.next
    }

    /// A fresh source whose first identifier is 1.
    pub fn new() -> (ids: MessageIds)
        ensures
            ids.spec_next() == 1,
    {
        MessageIds { next: 1 }
    }
}

/// The identifier after `id`, wrapping at `u32::MAX`.
pub open spec fn following_id(id: u32) -> u32 {
    if id == u32::MAX { 0 } else { (id + 1) as u32 }
}

/// Two identifiers handed out one after the other differ.
pub proof fn lemma_consecutive_ids_differ(id: u32)
    ensures
        following_id(id) != id,
{
}

/// Hands out the next message identifier.
pub fn next_msg_id(ids: &mut MessageIds) -> (id: u32)
    ensures
        id == old(ids).spec_next(),
        final(ids).spec_next() == following_id(id),
{
    let id = ids.next;
    ids.next = if id == u32::MAX { 0 } else { id + 1 };
    id
}

/// One frame of the browser event bus.
#[derive(Debug)]
pub struct Message {
    pub msg_id: u32,
    pub msg_type: MessageType,
    pub topic: Topic,
    pub error_code: i32,
    pub data: Vec<u8>,
}

/// The bytes of a frame with the given fields. Lengths that do not fit in
/// 32 bits are written modulo 2^32.
pub open spec fn frame_bytes(
    msg_id: u32,
    type_code: u8,
    topic_code: u16,
    error_code: i32,
    data: Seq<u8>,
) -> Seq<u8> {
    magic() + seq![VERSION] + le_u32_bytes((15 + data.len()) as int % 4294967296) + le_u32_bytes(
        msg_id as int,
    ) + seq![type_code] + le_u16_bytes(topic_code as int) + le_u32_bytes(i32_bits(error_code))
        + le_u32_bytes(data.len() as int % 4294967296) + data
}

/// Why bytes do not decode to a frame.
#[derive(Debug, Clone, Copy, PartialEq, Eq, Structural)]
pub enum FrameError {
    TooShortForHeader,
    InvalidMagic,
    UnsupportedVersion(u8),
    IncompletePayload,
    PayloadTooShort,
    DataLengthMismatch,
}

impl FrameError {
    /// The detail text of the decode error for this failure.
    pub open spec fn text(self) -> Seq<char> {
        match self {
            FrameError::TooShortForHeader => "data too short for header"@,
            FrameError::InvalidMagic => "invalid magic number"@,
            FrameError::UnsupportedVersion(v) => "unsupported version: "@ + decimal(v as nat),
            FrameError::IncompletePayload => "incomplete payload"@,
            FrameError::PayloadTooShort => "payload too short"@,
            FrameError::DataLengthMismatch => "data length mismatch"@,
        }
    }
}

/// What decoding a buffer that holds one frame gives: the frame's id, type
/// byte, topic code, status and data, or the reason it fails. Bytes after the
/// declared data are ignored.
pub open spec fn decode_outcome(d: Seq<u8>) -> std::result::Result<
    (u32, u8, u16, i32, Seq<u8>),
    FrameError,
> {
    if d.len() < 9 {
        Err(FrameError::TooShortForHeader)
    } else if d.subrange(0, 4) != magic() {
        Err(FrameError::InvalidMagic)
    } else if d[4] != VERSION {
        Err(FrameError::UnsupportedVersion(d[4]))
    } else if d.len() - 9 < u32_at(d, 5) {
        Err(FrameError::IncompletePayload)
    } else if u32_at(d, 5) < 15 {
        Err(FrameError::PayloadTooShort)
    } else if d.len() - 24 < u32_at(d, 20) {
        Err(FrameError::DataLengthMismatch)
    } else {
        Ok(
            (
                u32_at(d, 9) as u32,
                d[13],
                u16_at(d, 14) as u16,
                i32_from_bits(u32_at(d, 16)),
                d.subrange(24, 24 + u32_at(d, 20)),
            ),
        )
    }
}

/// What looking for a frame at the start of a stream buffer gives: nothing
/// yet (more bytes are needed), the frame and the bytes it takes, or a
/// failure.
pub open spec fn try_decode_outcome(d: Seq<u8>) -> std::result::Result<
    Option<((u32, u8, u16, i32, Seq<u8>), nat)>,
    FrameError,
> {
    if d.len() < 9 {
        Ok(None)
    } else if d.subrange(0, 4) != magic() {
        Err(FrameError::InvalidMagic)
    } else if d.len() < 9 + u32_at(d, 5) {
        Ok(None)
    } else {
        let total = (9 + u32_at(d, 5)) as nat;
        match decode_outcome(d.subrange(0, total as int)) {
            Ok(frame) => Ok(Some((frame, total))),
            Err(e) => Err(e),
        }
    }
}

impl Message {
    /// The bytes this message is sent as.
    pub open spec fn spec_encoding(&self) -> Seq<u8> {
        frame_bytes(
            self.msg_id,
            self.msg_type.spec_code(),
            self.topic.spec_code(),
            self.error_code,
            self.data@,
        )
    }

    /// Whether this message has the fields of a decoded frame.
    pub open spec fn matches_frame(&self, frame: (u32, u8, u16, i32, Seq<u8>)) -> bool {
        &&& self.msg_id == frame.0
        &&& self.msg_type == MessageType::spec_from_code(frame.1)
        &&& self.topic == Topic::spec_from_code(frame.2)
        &&& self.error_code == frame.3
        &&& self.data@ == frame.4
    }

    /// A request with a fresh identifier.
    pub fn request(ids: &mut MessageIds, topic: Topic, data: Vec<u8>) -> (m: Message)
        ensures
            m.msg_id == old(ids).spec_next(),
            final(ids).spec_next() == following_id(m.msg_id),
            m.msg_type == MessageType::Request,
            m.topic == topic,
            m.error_code == 0,
            m.data@ == data@,
    {
        Message {
            msg_id: next_msg_id(ids),
            msg_type: MessageType::Request,
            topic,
            error_code: 0,
            data,
        }
    }

    /// An event with a fresh identifier.
    pub fn event(ids: &mut MessageIds, topic: Topic, data: Vec<u8>) -> (m: Message)
        ensures
            m.msg_id == old(ids).spec_next(),
            final(ids).spec_next() == following_id(m.msg_id),
            m.msg_type == MessageType::Event,
            m.topic == topic,
            m.error_code == 0,
            m.data@ == data@,
    {
        Message {
            msg_id: next_msg_id(ids),
            msg_type: MessageType::Event,
            topic,
            error_code: 0,
            data,
        }
    }

    /// The response to request `request_id`, with the given status.
    pub fn response(request_id: u32, topic: Topic, error_code: ErrorCode, data: Vec<u8>) -> (m:
        Message)
        ensures
            m.msg_id == request_id,
            m.msg_type == MessageType::Response,
            m.topic == topic,
            m.error_code == error_code.spec_as_i32(),
            m.data@ == data@,
    {
        Message {
            msg_id: request_id,
            msg_type: MessageType::Response,
            topic,
            error_code: error_code.as_i32(),
            data,
        }
    }

    /// A successful response to request `request_id`.
    pub fn success_response(request_id: u32, topic: Topic, data: Vec<u8>) -> (m: Message)
        ensures
            m.msg_id == request_id,
            m.msg_type == MessageType::Response,
            m.topic == topic,
            m.error_code == 0,
            m.data@ == data@,
    {
        Self::response(request_id, topic, ErrorCode::Success, data)
    }

    /// A failed response to request `request_id`, with no data.
    pub fn error_response(request_id: u32, topic: Topic, error_code: ErrorCode) -> (m: Message)
        ensures
            m.msg_id == request_id,
            m.msg_type == MessageType::Response,
            m.topic == topic,
            m.error_code == error_code.spec_as_i32(),
            m.data@ == Seq::<u8>::empty(),
    {
        Self::response(request_id, topic, error_code, Vec::new())
    }

    /// The bytes of this message as one frame. It never fails.
    pub fn encode(&self) -> (r: Result<Bytes>)
        ensures
            r matches Ok(bytes) && bytes_contents(bytes) == self.spec_encoding(),
    {
        let frame = encode_frame(self.msg_id, self.msg_type, self.topic.code(), self.error_code, &self.data);
        Ok(bytes_from_vec(frame))
    }

    /// Decodes the frame that `data` holds.
    pub fn decode(data: &[u8]) -> (r: Result<Message>)
        ensures
            match (r, decode_outcome(data@)) {
                (Ok(m), Ok(frame)) => m.matches_frame(frame),
                (Err(EventBusError::Decode(text)), Err(f)) => text@ == f.text(),
                _ => false,
            },
    {
        assert(data@.subrange(0, data@.len() as int) == data@);
        match decode_frame(data, data.len()) {
            Ok(raw) => Ok(Message::from_raw(raw)),
            Err(e) => Err(e),
        }
    }

    /// Looks for a whole frame at the start of `data`: `None` while more
    /// bytes are needed, else the frame and the number of bytes it takes.
    pub fn try_decode(data: &[u8]) -> (r: Result<Option<(Message, usize)>>)
        ensures
            match (r, try_decode_outcome(data@)) {
                (Ok(None), Ok(None)) => true,
                (Ok(Some((m, used))), Ok(Some((frame, total)))) => m.matches_frame(frame) && used
                    == total,
                (Err(EventBusError::Decode(text)), Err(f)) => text@ == f.text(),
                _ => false,
            },
    {
        match try_decode_frame(data) {
            Ok(Some((raw, used))) => Ok(Some((Message::from_raw(raw), used))),
            Ok(None) => Ok(None),
            Err(e) => Err(e),
        }
    }

    /// The message a raw frame stands for, its topic read from its code.
    pub fn from_raw(raw: RawFrame) -> (m: Message)
        ensures
            m.msg_id == raw.msg_id,
            m.msg_type == raw.msg_type,
            m.topic == Topic::spec_from_code(raw.topic_code),
            m.error_code == raw.error_code,
            m.data@ == raw.data@,
    {
        Message {
            msg_id: raw.msg_id,
            msg_type: raw.msg_type,
            topic: Topic::from_code(raw.topic_code),
            error_code: raw.error_code,
            data: raw.data,
        }
    }
}

/// The fields of a frame as they travel, with the topic left as its code.
#[derive(Debug)]
pub struct RawFrame {
    pub msg_id: u32,
    pub msg_type: MessageType,
    pub topic_code: u16,
    pub error_code: i32,
    pub data: Vec<u8>,
}

impl RawFrame {
    /// Whether this frame has the fields of a decoded frame.
    pub open spec fn matches_frame(&self, frame: (u32, u8, u16, i32, Seq<u8>)) -> bool {
        &&& self.msg_id == frame.0
        &&& self.msg_type == MessageType::spec_from_code(frame.1)
        &&& self.topic_code == frame.2
        &&& self.error_code == frame.3
        &&& self.data@ == frame.4
    }
}

/// The bytes of a frame with the given fields.
pub fn encode_frame(
    msg_id: u32,
    msg_type: MessageType,
    topic_code: u16,
    error_code: i32,
    data: &Vec<u8>,
) -> (out: Vec<u8>)
    ensures
        out@ == frame_bytes(msg_id, msg_type.spec_code(), topic_code, error_code, data@),
{
    let n = data.len() as u64 % 4294967296u64;
    let payload_len = ((n + 15) % 4294967296u64) as u32;
    let mut out: Vec<u8> = Vec::new();
    out.push(0x53u8);
    out.push(0x49u8);
    out.push(0x4Du8);
    out.push(0x00u8);
    out.push(VERSION);
    push_u32_le(&mut out, payload_len);
    push_u32_le(&mut out, msg_id);
    out.push(msg_type.code());
    push_u16_le(&mut out, topic_code);
    push_u32_le(&mut out, i32_to_bits(error_code));
    push_u32_le(&mut out, n as u32);
    let ghost before = out@;
    let mut k: usize = 0;
    while k < data.len()
        invariant
            k <= data@.len(),
            out@ == before + data@.subrange(0, k as int),
        decreases data@.len() - k,
    {
        out.push(data[k]);
        k = k + 1;
        assert(data@.subrange(0, k as int) == data@.subrange(0, k - 1).push(data@[k - 1]));
    }
    proof {
        assert(data@.subrange(0, data@.len() as int) == data@);
        lemma_payload_len_mod(data@.len() as int);
        assert(out@ =~= frame_bytes(msg_id, msg_type.spec_code(), topic_code, error_code, data@));
    }
    out
}

/// Looks for a whole frame at the start of `data`.
pub fn try_decode_frame(data: &[u8]) -> (r: Result<Option<(RawFrame, usize)>>)
    ensures
        match (r, try_decode_outcome(data@)) {
            (Ok(None), Ok(None)) => true,
            (Ok(Some((m, used))), Ok(Some((frame, total)))) => m.matches_frame(frame) && used
                == total,
            (Err(EventBusError::Decode(text)), Err(f)) => text@ == f.text(),
            _ => false,
        },
{
    if data.len() < HEADER_SIZE {
        return Ok(None);
    }
    if !has_magic(data) {
        proof { reveal_strlit("invalid magic number"); }
        return Err(decode_error("invalid magic number"));
    }
    let payload_len = read_u32_le(data, 5);
    if (data.len() as u64) < 9 + payload_len as u64 {
        return Ok(None);
    }
    let total = 9 + payload_len as usize;
    match decode_frame(data, total) {
        Ok(m) => Ok(Some((m, total))),
        Err(e) => Err(e),
    }
}

fn i32_to_bits(v: i32) -> (u: u32)
    ensures
        u == i32_bits(v),
{
    if v < 0 {
        ((v as i64) + 4294967296i64) as u32
    } else {
        v as u32
    }
}

fn i32_of_bits(u: u32) -> (v: i32)
    ensures
        v == i32_from_bits(u as int),
{
    if u >= 2147483648u32 {
        ((u as i64) - 4294967296i64) as i32
    } else {
        u as i32
    }
}

fn push_u32_le(out: &mut Vec<u8>, v: u32)
    ensures
        final(out)@ == old(out)@ + le_u32_bytes(v as int),
{
    reveal(le_u32_bytes);
    out.push((v % 256) as u8);
    out.push(((v / 256) % 256) as u8);
    out.push(((v / 65536) % 256) as u8);
    out.push(((v / 16777216) % 256) as u8);
}

fn push_u16_le(out: &mut Vec<u8>, v: u16)
    ensures
        final(out)@ == old(out)@ + le_u16_bytes(v as int),
{
    reveal(le_u16_bytes);
    out.push((v % 256) as u8);
    out.push(((v / 256) % 256) as u8);
}

fn read_u32_le(d: &[u8], i: usize) -> (v: u32)
    requires
        i + 4 <= d@.len(),
    ensures
        v == u32_at(d@, i as int),
{
    d[i] as u32 + (d[i + 1] as u32) * 256 + (d[i + 2] as u32) * 65536 + (d[i + 3] as u32)
        * 16777216
}

fn read_u16_le(d: &[u8], i: usize) -> (v: u16)
    requires
        i + 2 <= d@.len(),
    ensures
        v == u16_at(d@, i as int),
{
    d[i] as u16 + (d[i + 1] as u16) * 256
}

fn has_magic(d: &[u8]) -> (b: bool)
    requires
        d@.len() >= 4,
    ensures
        b == (d@.subrange(0, 4) == magic()),
{
    let b = d[0] == 0x53u8 && d[1] == 0x49u8 && d[2] == 0x4Du8 && d[3] == 0x00u8;
    proof {
        if b {
            assert(d@.subrange(0, 4) =~= magic());
        } else {
            if d@.subrange(0, 4) == magic() {
                assert(d@.subrange(0, 4)[0] == d@[0]);
                assert(d@.subrange(0, 4)[1] == d@[1]);
                assert(d@.subrange(0, 4)[2] == d@[2]);
                assert(d@.subrange(0, 4)[3] == d@[3]);
            }
        }
    }
    b
}

fn decode_error(text: &str) -> (e: EventBusError)
    ensures
        e matches EventBusError::Decode(s) && s@ == text@,
{
    EventBusError::Decode(String::from_str(text))
}

/// Decodes the frame held by the first `end` bytes of `data`.
pub fn decode_frame(data: &[u8], end: usize) -> (r: Result<RawFrame>)
    requires
        end <= data@.len(),
    ensures
        match (r, decode_outcome(data@.subrange(0, end as int))) {
            (Ok(m), Ok(frame)) => m.matches_frame(frame),
            (Err(EventBusError::Decode(text)), Err(f)) => text@ == f.text(),
            _ => false,
        },
{
    let ghost d = data@.subrange(0, end as int);
    if end < HEADER_SIZE {
        proof { reveal_strlit("data too short for header"); }
        return Err(decode_error("data too short for header"));
    }
    assert(d.subrange(0, 4) == data@.subrange(0, 4));
    if !has_magic(data) {
        proof { reveal_strlit("invalid magic number"); }
        return Err(decode_error("invalid magic number"));
    }
    let version = data[4];
    if version != VERSION {
        proof { reveal_strlit("unsupported version: "); }
        let mut text = String::from_str("unsupported version: ");
        push_decimal(&mut text, version as u64);
        return Err(EventBusError::Decode(text));
    }
    let payload_len = read_u32_le(data, 5);
    if ((end - 9) as u64) < payload_len as u64 {
        proof { reveal_strlit("incomplete payload"); }
        return Err(decode_error("incomplete payload"));
    }
    if (payload_len as u64) < 15 {
        proof { reveal_strlit("payload too short"); }
        return Err(decode_error("payload too short"));
    }
    let msg_id = read_u32_le(data, 9);
    let msg_type = MessageType::from_code(data[13]);
    let topic_code = read_u16_le(data, 14);
    let error_code = i32_of_bits(read_u32_le(data, 16));
    let data_len = read_u32_le(data, 20);
    if ((end - 24) as u64) < data_len as u64 {
        proof { reveal_strlit("data length mismatch"); }
        return Err(decode_error("data length mismatch"));
    }
    let stop: usize = 24 + data_len as usize;
    let mut msg_data: Vec<u8> = Vec::new();
    let mut k: usize = 24;
    while k < stop
        invariant
            24 <= k <= stop,
            stop <= end <= data@.len(),
            msg_data@ == data@.subrange(24, k as int),
        decreases stop - k,
    {
        msg_data.push(data[k]);
        k = k + 1;
        assert(data@.subrange(24, k as int) == data@.subrange(24, k - 1).push(data@[k - 1]));
    }
    assert(d.subrange(24, stop as int) == data@.subrange(24, stop as int));
    Ok(RawFrame { msg_id, msg_type, topic_code, error_code, data: msg_data })
}

/// What each side of the event bus announces in its handshake frame.
#[derive(Debug)]
pub struct HandshakeData {
    pub version: u8,
    pub env_id: String,
    pub client_type: String,
}

impl HandshakeData {
    /// The handshake a browser of environment `env_id` sends.
    pub fn browser(env_id: String) -> (h: HandshakeData)
        ensures
            h.version == VERSION,
            h.env_id@ == env_id@,
            h.client_type@ == "browser"@,
    {
        HandshakeData { version: VERSION, env_id, client_type: String::from_str("browser") }
    }

    /// The handshake this runtime answers a browser with.
    pub fn tauri_response() -> (h: HandshakeData)
        ensures
            h.version == VERSION,
            h.env_id@ == Seq::<char>::empty(),
            h.client_type@ == "tauri"@,
    {
        HandshakeData { version: VERSION, env_id: String::new(), client_type: String::from_str("tauri") }
    }
}

// ---------------------------------------------------------------------------
// Laws of the frame format.

proof fn lemma_payload_len_mod(n: int)
    requires
        n >= 0,
    ensures
        (15 + n) % 4294967296 == (n % 4294967296 + 15) % 4294967296,
{
}

proof fn lemma_le_u32_roundtrip(v: int)
    requires
        0 <= v < 4294967296,
    ensures
        le_u32_bytes(v).len() == 4,
        u32_at(le_u32_bytes(v), 0) == v,
{
    reveal(le_u32_bytes);
    let b = le_u32_bytes(v);
    assert(b[0] == v % 256);
    assert(b[1] == (v / 256) % 256);
    assert(b[2] == (v / 65536) % 256);
    assert(b[3] == (v / 16777216) % 256);
    assert(v % 256 + 256 * ((v / 256) % 256) + 65536 * ((v / 65536) % 256) + 16777216 * ((v
        / 16777216) % 256) == v) by (nonlinear_arith)
        requires
            0 <= v < 4294967296,
    ;
}

proof fn lemma_le_u16_roundtrip(v: int)
    requires
        0 <= v < 65536,
    ensures
        le_u16_bytes(v).len() == 2,
        u16_at(le_u16_bytes(v), 0) == v,
{
    reveal(le_u16_bytes);
    let b = le_u16_bytes(v);
    assert(b[0] == v % 256);
    assert(b[1] == (v / 256) % 256);
    assert(v % 256 + 256 * ((v / 256) % 256) == v) by (nonlinear_arith)
        requires
            0 <= v < 65536,
    ;
}

/// Where the fields of a message stand in its frame: the version byte 1
/// at offset 4, the kind's byte at 13, and the topic's code at 14 (low
/// byte) and 15 (high byte); the kinds travel as 1 (request), 2 (response)
/// and 3 (event).
pub proof fn lemma_message_layout(m: Message)
    ensures
        m.spec_encoding()[4] == 1,
        m.spec_encoding()[13] == m.msg_type.spec_code(),
        m.spec_encoding()[14] == m.topic.spec_code() % 256,
        m.spec_encoding()[15] == m.topic.spec_code() / 256,
        MessageType::Request.spec_code() == 1,
        MessageType::Response.spec_code() == 2,
        MessageType::Event.spec_code() == 3,
        MessageType::spec_from_code(1) == MessageType::Request,
        MessageType::spec_from_code(2) == MessageType::Response,
        MessageType::spec_from_code(3) == MessageType::Event,
{
    reveal(le_u16_bytes);
    let code = m.topic.spec_code();
    let p1 = le_u32_bytes((15 + m.data@.len()) as int % 4294967296);
    let p2 = le_u32_bytes(m.msg_id as int);
    let p3 = le_u16_bytes(code as int);
    let p4 = le_u32_bytes(i32_bits(m.error_code));
    let p5 = le_u32_bytes(m.data@.len() as int % 4294967296);
    lemma_le_u32_len((15 + m.data@.len()) as int % 4294967296);
    lemma_le_u32_len(m.msg_id as int);
    let f = m.spec_encoding();
    assert(f =~= magic() + seq![VERSION] + p1 + p2 + seq![m.msg_type.spec_code()] + p3 + p4 + p5
        + m.data@);
    assert(f[13] == m.msg_type.spec_code());
    assert(f[14] == p3[0]);
    assert(f[15] == p3[1]);
    assert(code as int / 256 < 256);
}

proof fn lemma_le_u32_len(v: int)
    ensures
        le_u32_bytes(v).len() == 4,
{
    reveal(le_u32_bytes);
}

/// Decoding the bytes of a frame whose data is shorter than 2^32 - 15 bytes
/// gives back its id, type byte, topic code, status and data.
pub proof fn lemma_frame_roundtrip(
    msg_id: u32,
    type_code: u8,
    topic_code: u16,
    error_code: i32,
    data: Seq<u8>,
)
    requires
        data.len() + 15 < 4294967296,
    ensures
        decode_outcome(frame_bytes(msg_id, type_code, topic_code, error_code, data)) == Ok::<
            (u32, u8, u16, i32, Seq<u8>),
            FrameError,
        >((msg_id, type_code, topic_code, error_code, data)),
        frame_bytes(msg_id, type_code, topic_code, error_code, data).len() == 24 + data.len(),
        u32_at(frame_bytes(msg_id, type_code, topic_code, error_code, data), 5) == 15
            + data.len(),
{
    let f = frame_bytes(msg_id, type_code, topic_code, error_code, data);
    let pl: int = 15 + data.len() as int;
    lemma_le_u32_roundtrip(pl);
    lemma_le_u32_roundtrip(msg_id as int);
    lemma_le_u16_roundtrip(topic_code as int);
    lemma_le_u32_roundtrip(i32_bits(error_code));
    lemma_le_u32_roundtrip(data.len() as int);
    let p1 = le_u32_bytes(pl);
    let p2 = le_u32_bytes(msg_id as int);
    let p3 = le_u16_bytes(topic_code as int);
    let p4 = le_u32_bytes(i32_bits(error_code));
    let p5 = le_u32_bytes(data.len() as int);
    assert(pl % 4294967296 == pl);
    assert(data.len() as int % 4294967296 == data.len());
    assert(f =~= magic() + seq![VERSION] + p1 + p2 + seq![type_code] + p3 + p4 + p5 + data);
    assert(f.len() == 24 + data.len());
    assert(f.subrange(0, 4) =~= magic());
    assert(f[4] == VERSION);
    assert(u32_at(f, 5) == u32_at(p1, 0));
    assert(u32_at(f, 9) == u32_at(p2, 0));
    assert(f[13] == type_code);
    assert(u16_at(f, 14) == u16_at(p3, 0));
    assert(u32_at(f, 16) == u32_at(p4, 0));
    assert(u32_at(f, 20) == u32_at(p5, 0));
    assert(i32_from_bits(i32_bits(error_code)) == error_code);
    assert(f.subrange(24, 24 + data.len() as int) =~= data);
}

/// Encoding then decoding a message whose data is shorter than 2^32 - 15
/// bytes gives back every field of the message.
pub proof fn lemma_message_roundtrip(m: Message)
    requires
        m.data@.len() + 15 < 4294967296,
    ensures
        decode_outcome(m.spec_encoding()) matches Ok(frame) && m.matches_frame(frame),
        m.spec_encoding().len() == 24 + m.data@.len(),
        u32_at(m.spec_encoding(), 5) == 15 + m.data@.len(),
{
    lemma_frame_roundtrip(
        m.msg_id,
        m.msg_type.spec_code(),
        m.topic.spec_code(),
        m.error_code,
        m.data@,
    );
    crate::infrastructure::eventbus::topics::lemma_topic_code_roundtrip(m.topic);
}

/// In a stream buffer that starts with the bytes of a frame, the next frame
/// found is that frame, and it takes exactly its own bytes.
pub proof fn lemma_stream_frame(
    msg_id: u32,
    type_code: u8,
    topic_code: u16,
    error_code: i32,
    data: Seq<u8>,
    rest: Seq<u8>,
)
    requires
        data.len() + 15 < 4294967296,
    ensures
        try_decode_outcome(frame_bytes(msg_id, type_code, topic_code, error_code, data) + rest)
            == Ok::<Option<((u32, u8, u16, i32, Seq<u8>), nat)>, FrameError>(
            Some(
                (
                    (msg_id, type_code, topic_code, error_code, data),
                    frame_bytes(msg_id, type_code, topic_code, error_code, data).len(),
                ),
            ),
        ),
{
    lemma_frame_roundtrip(msg_id, type_code, topic_code, error_code, data);
    let e = frame_bytes(msg_id, type_code, topic_code, error_code, data);
    let s = e + rest;
    assert(s.subrange(0, 4) =~= e.subrange(0, 4));
    assert(e.subrange(0, 4) == magic()) by {
        reveal(le_u32_bytes);
        assert(e.subrange(0, 4) =~= magic());
    }
    assert(u32_at(s, 5) == u32_at(e, 5));
    assert(s.subrange(0, e.len() as int) =~= e);
}

/// In a stream buffer that starts with the bytes of a message, the next
/// frame found is that message, and it takes exactly its own bytes; whatever
/// follows is left for later.
pub proof fn lemma_stream_roundtrip(m: Message, rest: Seq<u8>)
    requires
        m.data@.len() + 15 < 4294967296,
    ensures
        try_decode_outcome(m.spec_encoding() + rest) matches Ok(Some((frame, used)))
            && m.matches_frame(frame) && used == m.spec_encoding().len(),
{
    lemma_stream_frame(
        m.msg_id,
        m.msg_type.spec_code(),
        m.topic.spec_code(),
        m.error_code,
        m.data@,
        rest,
    );
    crate::infrastructure::eventbus::topics::lemma_topic_code_roundtrip(m.topic);
}

} // verus!
