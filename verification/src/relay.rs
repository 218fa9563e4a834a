//! The broadcast hub, as far as it is decided here: what a peer's task does
//! with a message from its socket and with one from the hub. The hub itself
//! is a bounded buffer that drops the oldest message when a subscriber lags;
//! it belongs to the caller.

use vstd::prelude::*;

verus! {

/// Number of messages that the hub keeps for a subscriber that lags.
pub const HUB_CAPACITY: usize = 100;

/// A text on the hub, with the peer that published it.
#[derive(Clone, Debug)]
pub struct Envelope {
    pub sender: u64,
    pub text: String,
}

/// What came in from a peer's socket.
#[derive(Clone, Debug)]
pub enum SocketEvent {
    /// A text message.
    Text(String),
    /// A message of any other kind.
    Other,
    /// The socket failed.
    Error,
    /// The socket is closed.
    Closed,
}

/// What came in from the hub.
#[derive(Clone, Debug)]
pub enum HubEvent {
    /// A published text.
    Message(Envelope),
    /// This subscriber fell behind, and the hub dropped messages for it.
    Lagged,
    /// The hub has no publisher left.
    Closed,
}

/// What a peer's task does next.
#[derive(Clone, Debug)]
pub enum RelayAction {
    /// Publish this on the hub.
    Publish(Envelope),
    /// Send this text to the peer.
    Forward(String),
    /// Log that the peer went away abruptly, and go on.
    LogDisconnect,
    /// Go on.
    Skip,
    /// End the task.
    Stop,
}

/// What a peer's task does with a message from its socket: a text is
/// published under the peer's name, a closed socket ends the task, a failure
/// is logged, and anything else is passed over.
pub open spec fn socket_action(peer: u64, event: SocketEvent) -> RelayAction {
    match event {
        SocketEvent::Text(text) => RelayAction::Publish(Envelope { sender: peer, text }),
        SocketEvent::Other => RelayAction::Skip,
        SocketEvent::Error => RelayAction::LogDisconnect,
        SocketEvent::Closed => RelayAction::Stop,
    }
}

/// What a peer's task does with a message from the hub: a text of another
/// peer is forwarded, the peer's own text is not sent back to it, and a gap
/// or a closed hub is passed over.
pub open spec fn hub_action(peer: u64, event: HubEvent) -> RelayAction {
    match event {
        HubEvent::Message(envelope) => if envelope.sender != peer {
            RelayAction::Forward(envelope.text)
        } else {
            RelayAction::Skip
        },
        HubEvent::Lagged => RelayAction::Skip,
        HubEvent::Closed => RelayAction::Skip,
    }
}

/// Decides what to do with a message from the socket of `peer`.
pub fn on_socket_event(peer: u64, event: SocketEvent) -> (action: RelayAction)
    ensures
        action == socket_action(peer, event),
        action is Stop <==> event is Closed,
{
    match event {
        SocketEvent::Text(text) => RelayAction::Publish(Envelope { sender: peer, text }),
        SocketEvent::Other => RelayAction::Skip,
        SocketEvent::Error => RelayAction::LogDisconnect,
        SocketEvent::Closed => RelayAction::Stop,
    }
}

/// Decides what `peer` does with a message from the hub.
pub fn on_hub_event(peer: u64, event: HubEvent) -> (action: RelayAction)
    ensures
        action == hub_action(peer, event),
        action is Forward <==> (event matches HubEvent::Message(envelope) && envelope.sender
            != peer),
{
    match event {
        HubEvent::Message(envelope) => {
            if envelope.sender != peer {
                RelayAction::Forward(envelope.text)
            } else {
                RelayAction::Skip
            }
        },
        HubEvent::Lagged => RelayAction::Skip,
        HubEvent::Closed => RelayAction::Skip,
    }
}

/// A text that one peer publishes reaches every other peer unchanged and
/// never comes back to the peer that sent it.
pub proof fn lemma_fan_out(publisher: u64, receiver: u64, text: String)
    ensures
        socket_action(publisher, SocketEvent::Text(text)) matches RelayAction::Publish(envelope)
            && hub_action(receiver, HubEvent::Message(envelope)) == if receiver != publisher {
            RelayAction::Forward(text)
        } else {
            RelayAction::Skip
        },
{
}

} // verus!
