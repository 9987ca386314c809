//! Plain data shared by the state machine and its collaborators.

use vstd::prelude::*;

verus! {

/// Identifies one device of a contact.
pub type DeviceId = u32;

/// Process-wide identifier of a call.
pub type CallId = u64;

/// Audio level as reported by the media backend.
pub type AudioLevel = u16;

#[derive(Clone, Copy, Debug, PartialEq, Eq, Structural)]
pub enum CallDirection {
    Incoming,
    Outgoing,
}

/// Lifecycle phase of a call.
#[derive(Clone, Copy, Debug, PartialEq, Eq, Structural)]
pub enum CallState {
    NotYetStarted,
    WaitingToProceed,
    ConnectingBeforeAccepted,
    ConnectedBeforeAccepted,
    ConnectingAfterAccepted,
    ConnectedAndAccepted,
    ReconnectingAfterAccepted,
    Terminating,
    Terminated,
}

impl CallState {
    pub open spec fn is_terminating_or_terminated(self) -> bool {
        self == CallState::Terminating || self == CallState::Terminated
    }

    /// The states in which connections to remote devices exist.
    pub open spec fn has_connections(self) -> bool {
        match self {
            CallState::ConnectingBeforeAccepted
            | CallState::ConnectedBeforeAccepted
            | CallState::ConnectingAfterAccepted
            | CallState::ConnectedAndAccepted
            | CallState::ReconnectingAfterAccepted => true,
            _ => false,
        }
    }

    pub open spec fn is_active(self) -> bool {
        self == CallState::ConnectedAndAccepted || self == CallState::ReconnectingAfterAccepted
    }

    pub fn terminating_or_terminated(self) -> (r: bool)
        ensures
            r == self.is_terminating_or_terminated(),
    {
        matches!(self, CallState::Terminating | CallState::Terminated)
    }

    /// Whether media flows with an accepted device.
    pub fn active(self) -> (r: bool)
        ensures
            r == self.is_active(),
    {
        matches!(self, CallState::ConnectedAndAccepted | CallState::ReconnectingAfterAccepted)
    }

    pub fn can_receive_ice_candidates(self) -> (r: bool)
        ensures
            r == self.has_connections(),
    {
        matches!(
            self,
            CallState::ConnectingBeforeAccepted | CallState::ConnectedBeforeAccepted
                | CallState::ConnectingAfterAccepted | CallState::ConnectedAndAccepted
                | CallState::ReconnectingAfterAccepted
        )
    }

    /// A hangup can go out over the media channel while connections exist,
    /// and while the call is shutting down.
    pub open spec fn spec_can_send_hangup_via_rtp(self) -> bool {
        self.has_connections() || self == CallState::Terminating
    }

    pub fn can_send_hangup_via_rtp(self) -> (r: bool)
        ensures
            r == self.spec_can_send_hangup_via_rtp(),
    {
        self.can_receive_ice_candidates() || matches!(self, CallState::Terminating)
    }

    pub fn can_be_accepted_locally(self) -> (r: bool)
        ensures
            r == (self == CallState::ConnectedBeforeAccepted),
    {
        matches!(self, CallState::ConnectedBeforeAccepted)
    }

    pub open spec fn spec_can_be_terminated_remotely(self) -> bool {
        !(self == CallState::NotYetStarted || self.is_terminating_or_terminated())
    }

    pub fn can_be_terminated_remotely(self) -> (r: bool)
        ensures
            r == self.spec_can_be_terminated_remotely(),
    {
        !matches!(self, CallState::NotYetStarted | CallState::Terminating | CallState::Terminated)
    }

    /// A caller forwards a received hangup to its other callees only while
    /// connections to them exist.
    pub fn should_propagate_hangup(self) -> (r: bool)
        ensures
            r == self.has_connections(),
    {
        self.can_receive_ice_candidates()
    }
}

/// Per-device connection state, as reported by the media backend.
#[derive(Clone, Copy, Debug, PartialEq, Eq, Structural)]
pub enum ConnectionState {
    NotYetStarted,
    Starting,
    IceGathering,
    ConnectingBeforeAccepted,
    ConnectedBeforeAccepted,
    ConnectingAfterAccepted,
    ConnectedAndAccepted,
    ReconnectingAfterAccepted,
    IceFailed,
    Terminating,
    Terminated,
}

/// Events surfaced to the application.
#[derive(Clone, Copy, Debug, PartialEq, Eq, Structural, Hash)]
pub enum ApplicationEvent {
    LocalRinging,
    RemoteRinging,
    LocalAccepted,
    RemoteAccepted,
    Reconnecting,
    Reconnected,
    EndedLocalHangup,
    EndedRemoteHangup,
    EndedRemoteHangupNeedPermission,
    EndedRemoteHangupAccepted,
    EndedRemoteHangupDeclined,
    EndedRemoteHangupBusy,
    EndedRemoteBusy,
    EndedRemoteGlare,
    EndedRemoteReCall,
    EndedTimeout,
    EndedInternalFailure,
    EndedSignalingFailure,
    EndedGlareHandlingFailure,
    EndedConnectionFailure,
    EndedAppDroppedCall,
    RemoteVideoEnable,
    RemoteVideoDisable,
    RemoteSharingScreenEnable,
    RemoteSharingScreenDisable,
    RemoteAudioEnable,
    RemoteAudioDisable,
    ReceivedOfferExpired,
    ReceivedOfferWhileActive,
    ReceivedOfferWithGlare,
}

/// The network route a connection currently uses.
#[derive(Clone, Copy, Debug, PartialEq, Eq, Structural)]
pub struct NetworkRoute {
    pub local_adapter_type: u8,
    pub local_adapter_type_under_vpn: u8,
    pub local_relayed: bool,
    pub remote_relayed: bool,
}

/// What a remote device reports about what it sends.
#[derive(Clone, Copy, Debug, PartialEq, Eq, Structural)]
pub struct SenderStatus {
    pub video_enabled: Option<bool>,
    pub sharing_screen: Option<bool>,
    pub audio_enabled: Option<bool>,
}

/// Settings for a call, handed to the media backend as they are.
#[derive(Clone, Debug)]
pub struct CallConfig {
    pub opaque: Vec<u8>,
}

} // verus!

verus! {

#[derive(Clone, Copy, Debug, PartialEq, Eq, Structural)]
pub enum CallMediaType {
    Audio,
    Video,
}

} // verus!
