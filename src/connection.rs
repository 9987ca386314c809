//! Events reported by a connection's observer, and the table that maps a
//! reported connection state onto what the call does.

use vstd::prelude::*;
use crate::hangup::Hangup;
use crate::types::{AudioLevel, CallDirection, CallState, ConnectionState, NetworkRoute, SenderStatus};

verus! {

/// An event reported by the observer of one connection.
#[derive(Clone, Copy, Debug, PartialEq, Eq, Structural)]
pub enum ConnectionObserverEvent {
    StateChanged(ConnectionState),
    ReceivedHangup(Hangup),
    RemoteSenderStatusChanged(SenderStatus),
    IceNetworkRouteChanged(NetworkRoute),
    AudioLevels { captured_level: AudioLevel, received_level: AudioLevel },
    LowBandwidthForVideo { recovered: bool },
}

impl ConnectionObserverEvent {
    pub open spec fn spec_is_frequent(self) -> bool {
        self is AudioLevels
    }

    /// Audio levels arrive many times a second; nothing else does.
    pub fn is_frequent(&self) -> (r: bool)
        ensures
            r == self.spec_is_frequent(),
    {
        matches!(self, ConnectionObserverEvent::AudioLevels { .. })
    }
}

/// What a change of one connection's state asks of the call.
#[derive(Clone, Copy, Debug, PartialEq, Eq, Structural)]
pub enum ConnectionStateAction {
    /// Incoming call, ICE connected: the local side rings.
    LocalRinging,
    /// Outgoing call, ICE connected: the remote side rings.
    RemoteRinging,
    /// A callee accepted before its connection completed: commit it as the
    /// active device, without enabling media yet.
    AcceptedBeforeConnected,
    /// The accepted connection completed: if it is the active device, enable
    /// media.
    ConnectedAfterAccepted,
    /// A callee accepted on a connected connection: commit and enable media.
    AcceptedAfterConnected,
    /// The active connection lost ICE.
    Reconnecting,
    /// The active connection regained ICE.
    Reconnected,
    /// ICE failed on the connection.
    IceFailed,
    /// A possible change that asks nothing.
    Ignore,
    /// A change that should not occur; it is logged and asks nothing.
    Illegal,
}

pub open spec fn connection_state_action(
    direction: CallDirection,
    state: CallState,
    connection_state: ConnectionState,
) -> ConnectionStateAction {
    match (direction, state, connection_state) {
        (
            CallDirection::Incoming,
            CallState::ConnectingBeforeAccepted,
            ConnectionState::ConnectedBeforeAccepted,
        ) => ConnectionStateAction::LocalRinging,
        (
            CallDirection::Outgoing,
            CallState::ConnectingBeforeAccepted,
            ConnectionState::ConnectedBeforeAccepted,
        ) => ConnectionStateAction::RemoteRinging,
        (
            CallDirection::Outgoing,
            CallState::ConnectingBeforeAccepted | CallState::ConnectedBeforeAccepted,
            ConnectionState::ConnectingAfterAccepted,
        ) => ConnectionStateAction::AcceptedBeforeConnected,
        (
            CallDirection::Outgoing,
            CallState::ConnectingAfterAccepted,
            ConnectionState::ConnectedAndAccepted,
        ) => ConnectionStateAction::ConnectedAfterAccepted,
        (
            CallDirection::Outgoing,
            CallState::ConnectedBeforeAccepted,
            ConnectionState::ConnectedAndAccepted,
        ) => ConnectionStateAction::AcceptedAfterConnected,
        (
            CallDirection::Incoming,
            CallState::ConnectedBeforeAccepted,
            ConnectionState::ConnectedAndAccepted,
        ) => ConnectionStateAction::Ignore,
        (
            _,
            CallState::ConnectedAndAccepted,
            ConnectionState::ReconnectingAfterAccepted,
        ) => ConnectionStateAction::Reconnecting,
        (
            _,
            CallState::ReconnectingAfterAccepted,
            ConnectionState::ConnectedAndAccepted,
        ) => ConnectionStateAction::Reconnected,
        (_, _, ConnectionState::IceFailed) => ConnectionStateAction::IceFailed,
        (
            _,
            _,
            ConnectionState::NotYetStarted
            | ConnectionState::Starting
            | ConnectionState::IceGathering
            | ConnectionState::ConnectingBeforeAccepted
            | ConnectionState::Terminating
            | ConnectionState::Terminated,
        ) => ConnectionStateAction::Ignore,
        (
            CallDirection::Outgoing,
            CallState::ConnectedBeforeAccepted,
            ConnectionState::ConnectedBeforeAccepted,
        ) => ConnectionStateAction::Ignore,
        (
            _,
            CallState::ConnectedAndAccepted,
            ConnectionState::ConnectedAndAccepted,
        ) => ConnectionStateAction::Ignore,
        _ => ConnectionStateAction::Illegal,
    }
}

/// Looks up what a reported connection state asks of the call, given the
/// call's direction and state.
pub fn decide_connection_state(
    direction: CallDirection,
    state: CallState,
    connection_state: ConnectionState,
) -> (r: ConnectionStateAction)
    ensures
        r == connection_state_action(direction, state, connection_state),
{
    match (direction, state, connection_state) {
        (
            CallDirection::Incoming,
            CallState::ConnectingBeforeAccepted,
            ConnectionState::ConnectedBeforeAccepted,
        ) => ConnectionStateAction::LocalRinging,
        (
            CallDirection::Outgoing,
            CallState::ConnectingBeforeAccepted,
            ConnectionState::ConnectedBeforeAccepted,
        ) => ConnectionStateAction::RemoteRinging,
        (
            CallDirection::Outgoing,
            CallState::ConnectingBeforeAccepted | CallState::ConnectedBeforeAccepted,
            ConnectionState::ConnectingAfterAccepted,
        ) => ConnectionStateAction::AcceptedBeforeConnected,
        (
            CallDirection::Outgoing,
            CallState::ConnectingAfterAccepted,
            ConnectionState::ConnectedAndAccepted,
        ) => ConnectionStateAction::ConnectedAfterAccepted,
        (
            CallDirection::Outgoing,
            CallState::ConnectedBeforeAccepted,
            ConnectionState::ConnectedAndAccepted,
        ) => ConnectionStateAction::AcceptedAfterConnected,
        (
            CallDirection::Incoming,
            CallState::ConnectedBeforeAccepted,
            ConnectionState::ConnectedAndAccepted,
        ) => ConnectionStateAction::Ignore,
        (
            _,
            CallState::ConnectedAndAccepted,
            ConnectionState::ReconnectingAfterAccepted,
        ) => ConnectionStateAction::Reconnecting,
        (
            _,
            CallState::ReconnectingAfterAccepted,
            ConnectionState::ConnectedAndAccepted,
        ) => ConnectionStateAction::Reconnected,
        (_, _, ConnectionState::IceFailed) => ConnectionStateAction::IceFailed,
        (
            _,
            _,
            ConnectionState::NotYetStarted
            | ConnectionState::Starting
            | ConnectionState::IceGathering
            | ConnectionState::ConnectingBeforeAccepted
            | ConnectionState::Terminating
            | ConnectionState::Terminated,
        ) => ConnectionStateAction::Ignore,
        (
            CallDirection::Outgoing,
            CallState::ConnectedBeforeAccepted,
            ConnectionState::ConnectedBeforeAccepted,
        ) => ConnectionStateAction::Ignore,
        (
            _,
            CallState::ConnectedAndAccepted,
            ConnectionState::ConnectedAndAccepted,
        ) => ConnectionStateAction::Ignore,
        _ => ConnectionStateAction::Illegal,
    }
}

} // verus!
