use vstd::prelude::*;
use crate::infrastructure::ipc::{MessageType, Topic};

verus! {

/// What the request loop does with an inbound frame.
#[derive(Debug, Clone, Copy, PartialEq, Eq, Structural)]
pub enum InboundAction {
    /// Not a request: dropped.
    Drop,
    /// A request other than a handshake before the handshake: answered
    /// with a `HandshakeRequired` error.
    RequireHandshake,
    /// Handed to the host.
    Dispatch,
}

/// What happens to a frame of the given kind and topic, given whether the
/// peer has completed its handshake.
pub open spec fn spec_admit(handshake_complete: bool, msg_type: MessageType, topic: Topic) -> InboundAction {
    if msg_type != MessageType::Request {
        InboundAction::Drop
    } else if !handshake_complete && topic != Topic::Handshake {
        InboundAction::RequireHandshake
    } else {
        InboundAction::Dispatch
    }
}

/// Decides what happens to an inbound frame.
pub fn admit_inbound(handshake_complete: bool, msg_type: MessageType, topic: Topic) -> (a:
    InboundAction)
    ensures
        a == spec_admit(handshake_complete, msg_type, topic),
{
    if msg_type != MessageType::Request {
        return InboundAction::Drop;
    }
    if !handshake_complete && topic != Topic::Handshake {
        return InboundAction::RequireHandshake;
    }
    InboundAction::Dispatch
}

/// Whether the handshake is complete after a dispatched request of the
/// given topic was handled, successfully or not.
pub open spec fn spec_handshake_after(handshake_complete: bool, topic: Topic, handled_ok: bool) -> bool {
    handshake_complete || (topic == Topic::Handshake && handled_ok)
}

/// Updates the handshake flag after a dispatched request was handled.
pub fn handshake_after(handshake_complete: bool, topic: Topic, handled_ok: bool) -> (b: bool)
    ensures
        b == spec_handshake_after(handshake_complete, topic, handled_ok),
{
    handshake_complete || (topic == Topic::Handshake && handled_ok)
}

/// Whether the handshake is complete after the first `n` inbound frames,
/// each given by its kind, its topic and whether handling it succeeded.
pub open spec fn handshake_complete_after(frames: Seq<(MessageType, Topic, bool)>, n: nat) -> bool
    decreases n,
{
    if n == 0 {
        false
    } else {
        let prev = handshake_complete_after(frames, (n - 1) as nat);
        let f = frames[n - 1];
        if spec_admit(prev, f.0, f.1) == InboundAction::Dispatch {
            spec_handshake_after(prev, f.1, f.2)
        } else {
            prev
        }
    }
}

proof fn lemma_complete_has_witness(frames: Seq<(MessageType, Topic, bool)>, n: nat)
    requires
        n <= frames.len(),
        handshake_complete_after(frames, n),
    ensures
        exists|j: int|
            0 <= j < n && frames[j].0 == MessageType::Request && frames[j].1 == Topic::Handshake
                && frames[j].2,
    decreases n,
{
    let prev = handshake_complete_after(frames, (n - 1) as nat);
    if prev {
        lemma_complete_has_witness(frames, (n - 1) as nat);
    } else {
        assert(frames[n - 1].0 == MessageType::Request && frames[n - 1].1 == Topic::Handshake
            && frames[n - 1].2);
    }
}

/// On a stream of inbound frames, a request other than a handshake reaches
/// the host only after some earlier handshake request has succeeded.
pub proof fn lemma_handshake_precedes_dispatch(frames: Seq<(MessageType, Topic, bool)>, i: int)
    requires
        0 <= i < frames.len(),
        spec_admit(handshake_complete_after(frames, i as nat), frames[i].0, frames[i].1)
            == InboundAction::Dispatch,
        frames[i].1 != Topic::Handshake,
    ensures
        exists|j: int|
            0 <= j < i && frames[j].0 == MessageType::Request && frames[j].1 == Topic::Handshake
                && frames[j].2,
{
    lemma_complete_has_witness(frames, i as nat);
}

} // verus!
