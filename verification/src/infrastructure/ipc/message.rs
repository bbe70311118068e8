use vstd::prelude::*;
use crate::infrastructure::eventbus::message::{
    MessageType, MessageIds, RawFrame, encode_frame, following_id, frame_bytes, next_msg_id,
    try_decode_frame, try_decode_outcome, FrameError,
};
use crate::infrastructure::eventbus::EventBusError;
use super::error::{ErrorCode, IpcError};
use super::topics::Topic;

verus! {

/// Version of the stdio protocol that this runtime speaks.
pub const PROTOCOL_VERSION: u8 = 1;

/// One frame of the stdio protocol. It travels in the same frame format as
/// the browser event bus, with its own topics.
#[derive(Debug)]
pub struct Message {
    pub msg_id: u32,
    pub msg_type: MessageType,
    pub topic: Topic,
    pub error_code: i32,
    pub data: Vec<u8>,
}

/// The protocol error that a failure to read a frame becomes.
pub open spec fn ipc_decode_error(f: FrameError) -> Seq<char> {
    f.text()
}

impl Message {
    /// The bytes this message is sent as.
    pub open spec fn spec_encoding(&self) -> Seq<u8> {
        frame_bytes(
            self.msg_id,
            self.msg_type.spec_code(),
            self.topic.spec_code(),
            self.error_code,
            self.data@,
        )
    }

    /// Whether this message has the fields of a decoded frame.
    pub open spec fn matches_frame(&self, frame: (u32, u8, u16, i32, Seq<u8>)) -> bool {
        &&& self.msg_id == frame.0
        &&& self.msg_type == MessageType::spec_from_code(frame.1)
        &&& self.topic == Topic::spec_from_code(frame.2)
        &&& self.error_code == frame.3
        &&& self.data@ == frame.4
    }

    /// A request with a fresh identifier.
    pub fn request(ids: &mut MessageIds, topic: Topic, data: Vec<u8>) -> (m: Message)
        ensures
            m.msg_id == old(ids).spec_next(),
            final(ids).spec_next() == following_id(m.msg_id),
            m.msg_type == MessageType::Request,
            m.topic == topic,
            m.error_code == 0,
            m.data@ == data@,
    {
        Message { msg_id: next_msg_id(ids), msg_type: MessageType::Request, topic, error_code: 0, data }
    }

    /// An event with a fresh identifier.
    pub fn event(ids: &mut MessageIds, topic: Topic, data: Vec<u8>) -> (m: Message)
        ensures
            m.msg_id == old(ids).spec_next(),
            final(ids).spec_next() == following_id(m.msg_id),
            m.msg_type == MessageType::Event,
            m.topic == topic,
            m.error_code == 0,
            m.data@ == data@,
    {
        Message { msg_id: next_msg_id(ids), msg_type: MessageType::Event, topic, error_code: 0, data }
    }

    /// A successful response to request `request_id`.
    pub fn success_response(request_id: u32, topic: Topic, data: Vec<u8>) -> (m: Message)
        ensures
            m.msg_id == request_id,
            m.msg_type == MessageType::Response,
            m.topic == topic,
            m.error_code == 0,
            m.data@ == data@,
    {
        Self::response(request_id, topic, ErrorCode::Success, data)
    }

    /// A response to request `request_id` with the given status.
    pub fn response(request_id: u32, topic: Topic, error_code: ErrorCode, data: Vec<u8>) -> (m:
        Message)
        ensures
            m.msg_id == request_id,
            m.msg_type == MessageType::Response,
            m.topic == topic,
            m.error_code == error_code.spec_as_i32(),
            m.data@ == data@,
    {
        Message {
            msg_id: request_id,
            msg_type: MessageType::Response,
            topic,
            error_code: error_code.as_i32(),
            data,
        }
    }

    /// The bytes of this message as one frame. It never fails.
    pub fn encode(&self) -> (r: Result<Vec<u8>, IpcError>)
        ensures
            r matches Ok(bytes) && bytes@ == self.spec_encoding(),
    {
        Ok(encode_frame(self.msg_id, self.msg_type, self.topic.code(), self.error_code, &self.data))
    }

    /// Looks for a whole frame at the start of a stream buffer: `None` while
    /// more bytes are needed, else the message and the bytes it takes. A
    /// malformed frame is a decode error.
    pub fn try_decode(data: &[u8]) -> (r: Result<Option<(Message, usize)>, IpcError>)
        ensures
            match (r, try_decode_outcome(data@)) {
                (Ok(None), Ok(None)) => true,
                (Ok(Some((m, used))), Ok(Some((frame, total)))) => m.matches_frame(frame)
                    && used == total,
                (Err(IpcError::Decode(text)), Err(f)) => text@ == ipc_decode_error(f),
                _ => false,
            },
    {
        match try_decode_frame(data) {
            Ok(Some((raw, used))) => Ok(Some((Message::from_raw(raw), used))),
            Ok(None) => Ok(None),
            Err(EventBusError::Decode(text)) => Err(IpcError::Decode(text)),
            Err(other) => Err(IpcError::Decode(other.to_string())),
        }
    }

    /// The message a raw frame stands for, its topic read from its code.
    pub fn from_raw(raw: RawFrame) -> (m: Message)
        ensures
            m.msg_id == raw.msg_id,
            m.msg_type == raw.msg_type,
            m.topic == Topic::spec_from_code(raw.topic_code),
            m.error_code == raw.error_code,
            m.data@ == raw.data@,
    {
        Message {
            msg_id: raw.msg_id,
            msg_type: raw.msg_type,
            topic: Topic::from_code(raw.topic_code),
            error_code: raw.error_code,
            data: raw.data,
        }
    }
}

/// In a stream buffer that starts with the bytes of a message, the next
/// message read is that message, and it takes exactly its own bytes.
pub proof fn lemma_ipc_stream_roundtrip(m: Message, rest: Seq<u8>)
    requires
        m.data@.len() + 15 < 4294967296,
        Topic::spec_from_code(m.topic.spec_code()) == m.topic,
    ensures
        try_decode_outcome(m.spec_encoding() + rest) matches Ok(Some((frame, used)))
            && m.matches_frame(frame) && used == m.spec_encoding().len(),
{
    crate::infrastructure::eventbus::message::lemma_stream_frame(
        m.msg_id,
        m.msg_type.spec_code(),
        m.topic.spec_code(),
        m.error_code,
        m.data@,
        rest,
    );
}

} // verus!
