use vstd::prelude::*;
use super::error::EventBusError;
use super::message::{HandshakeData, Message, MessageType};
use super::topics::Topic;

verus! {

/// What the event bus knows of one browser's pipe: whose it is and whether
/// the browser has completed its handshake.
pub struct BrowserConnection {
    env_id: String,
    is_handshake_complete: bool,
}

impl BrowserConnection {
    pub closed spec fn spec_env_id(&self) -> Seq<char> {
        self.env_id@
    }

    pub closed spec fn spec_handshake_complete(&self) -> bool {
        self.is_handshake_complete
    }

    /// A connection of environment `env_id` that has not shaken hands yet.
    pub fn new(env_id: &str) -> (c: BrowserConnection)
        ensures
            c.spec_env_id() == env_id@,
            !c.spec_handshake_complete(),
    {
        BrowserConnection { env_id: String::from_str(env_id), is_handshake_complete: false }
    }

    /// The environment of this connection.
    pub fn env_id(&self) -> (s: &str)
        ensures
            s@ == self.spec_env_id(),
    {
        self.env_id.as_str()
    }

    /// Whether the browser has completed its handshake.
    pub fn is_handshake_complete(&self) -> (b: bool)
        ensures
            b == self.spec_handshake_complete(),
    {
        self.is_handshake_complete
    }

    /// Checks the browser's first frame, which must be a handshake, and
    /// builds the answer: a successful response to it with the given body
    /// (the runtime's own handshake data, encoded). The connection is not
    /// complete until `complete_handshake`, after the answer is sent.
    pub fn handshake_reply(&self, first: &Message, body: Vec<u8>) -> (r: Result<Message, EventBusError>)
        ensures
            first.topic != Topic::Handshake ==> (r matches Err(EventBusError::InvalidMessage(t))
                && t@ == "expected Handshake, got "@ + first.topic.spec_debug_name()),
            first.topic == Topic::Handshake ==> (r matches Ok(m) && m.msg_id == first.msg_id
                && m.msg_type == MessageType::Response && m.topic == Topic::Handshake
                && m.error_code == 0 && m.data@ == body@),
    {
        if first.topic != Topic::Handshake {
            let mut t = String::from_str("expected Handshake, got ");
            t.append(first.topic.debug_name());
            return Err(EventBusError::InvalidMessage(t));
        }
        Ok(Message::success_response(first.msg_id, Topic::Handshake, body))
    }

    /// Whether the browser announced another environment than this
    /// connection's (which is only worth a warning).
    pub fn env_id_mismatch(&self, announced: &HandshakeData) -> (b: bool)
        ensures
            b == (announced.env_id@ != self.spec_env_id()),
    {
        !super::manager::same_text(announced.env_id.as_str(), self.env_id.as_str())
    }

    /// Marks the handshake as complete.
    pub fn complete_handshake(&mut self)
        ensures
            final(self).spec_handshake_complete(),
            final(self).spec_env_id() == old(self).spec_env_id(),
    {
        self.is_handshake_complete = true;
    }

    /// Whether frames may be sent: only after the handshake.
    pub fn check_can_send(&self) -> (r: Result<(), EventBusError>)
        ensures
            self.spec_handshake_complete() ==> r is Ok,
            !self.spec_handshake_complete() ==> (r matches Err(EventBusError::NotConnected(t))
                && t@ == "handshake not complete"@),
    {
        if !self.is_handshake_complete {
            return Err(EventBusError::NotConnected(String::from_str("handshake not complete")));
        }
        Ok(())
    }
}

/// Whether `msg` is the response to request `request_id`.
pub fn is_response_to(msg: &Message, request_id: u32) -> (b: bool)
    ensures
        b == (msg.msg_type == MessageType::Response && msg.msg_id == request_id),
{
    msg.msg_type == MessageType::Response && msg.msg_id == request_id
}

} // verus!
