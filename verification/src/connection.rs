//! How each side reacts to changes of the state of its WebRTC connection.

use vstd::prelude::*;

verus! {

/// The state of the ICE transport of a peer connection.
#[derive(Debug, Clone, Copy, PartialEq, Eq, Structural)]
pub enum IceConnectionState {
    Unspecified,
    New,
    Checking,
    Connected,
    Completed,
    Disconnected,
    Failed,
    Closed,
}

/// The state of a peer connection.
#[derive(Debug, Clone, Copy, PartialEq, Eq, Structural)]
pub enum PeerConnectionState {
    Unspecified,
    New,
    Connecting,
    Connected,
    Disconnected,
    Failed,
    Closed,
}

/// What the receiver does when its ICE state changes.
#[derive(Debug, Clone, Copy, PartialEq, Eq, Structural)]
pub enum ReceiverIceReaction {
    /// Nothing beyond logging the change.
    Nothing,
    /// Tell the user that the peers are connected.
    AnnounceConnected,
    /// Wake the track readers and signal that the session is done.
    NotifyAndFinish,
}

/// What the sender does when its ICE state changes.
#[derive(Debug, Clone, Copy, PartialEq, Eq, Structural)]
pub enum SenderIceReaction {
    /// Nothing beyond logging the change.
    Nothing,
    /// Wake the audio and video senders and wait at the start barrier.
    NotifyAndWaitBarrier,
}

/// The receiver's reaction to an ICE state: announce a connection, give up on a failure.
pub fn receiver_ice_reaction(state: IceConnectionState) -> (r: ReceiverIceReaction)
    ensures
        r == (if state == IceConnectionState::Connected {
            ReceiverIceReaction::AnnounceConnected
        } else if state == IceConnectionState::Failed {
            ReceiverIceReaction::NotifyAndFinish
        } else {
            ReceiverIceReaction::Nothing
        }),
{
    match state {
        IceConnectionState::Connected => ReceiverIceReaction::AnnounceConnected,
        IceConnectionState::Failed => ReceiverIceReaction::NotifyAndFinish,
        _ => ReceiverIceReaction::Nothing,
    }
}

/// The sender's reaction to an ICE state: start sending once connected.
pub fn sender_ice_reaction(state: IceConnectionState) -> (r: SenderIceReaction)
    ensures
        r == (if state == IceConnectionState::Connected {
            SenderIceReaction::NotifyAndWaitBarrier
        } else {
            SenderIceReaction::Nothing
        }),
{
    match state {
        IceConnectionState::Connected => SenderIceReaction::NotifyAndWaitBarrier,
        _ => SenderIceReaction::Nothing,
    }
}

/// Whether the sender ends the session on a peer connection state: only when it failed.
pub fn sender_peer_state_ends_session(state: PeerConnectionState) -> (done: bool)
    ensures
        done == (state == PeerConnectionState::Failed),
{
    match state {
        PeerConnectionState::Failed => true,
        _ => false,
    }
}

} // verus!
