use ringrtc::connection::{decide_connection_state, ConnectionStateAction};
use ringrtc::hangup::{decide_hangup, Hangup, HangupDecision, HangupType};
use ringrtc::protobuf::{ring_intention, ring_response, VideoCodecType};
use ringrtc::types::{ApplicationEvent, CallDirection, CallState, ConnectionState};

#[test]
fn hangup_table_expected_pairs() {
    assert_eq!(
        decide_hangup(HangupType::NeedPermission, CallDirection::Outgoing, 4),
        HangupDecision {
            expected: true,
            propagate: Some(Hangup::NeedPermission(Some(4))),
            app_event: Some(ApplicationEvent::EndedRemoteHangupNeedPermission),
        }
    );
    assert_eq!(
        decide_hangup(HangupType::Normal, CallDirection::Incoming, 4),
        HangupDecision { expected: true, propagate: None, app_event: None }
    );
    assert_eq!(
        decide_hangup(HangupType::Normal, CallDirection::Outgoing, 4),
        HangupDecision {
            expected: true,
            propagate: Some(Hangup::DeclinedOnAnotherDevice(4)),
            app_event: None,
        }
    );
    assert_eq!(
        decide_hangup(HangupType::AcceptedOnAnotherDevice, CallDirection::Incoming, 4).app_event,
        Some(ApplicationEvent::EndedRemoteHangupAccepted)
    );
    assert_eq!(
        decide_hangup(HangupType::DeclinedOnAnotherDevice, CallDirection::Incoming, 4).app_event,
        Some(ApplicationEvent::EndedRemoteHangupDeclined)
    );
    assert_eq!(
        decide_hangup(HangupType::BusyOnAnotherDevice, CallDirection::Incoming, 4).app_event,
        Some(ApplicationEvent::EndedRemoteHangupBusy)
    );
}

#[test]
fn hangup_table_unexpected_pairs() {
    let unexpected = HangupDecision { expected: false, propagate: None, app_event: None };
    for (kind, direction) in [
        (HangupType::NeedPermission, CallDirection::Incoming),
        (HangupType::AcceptedOnAnotherDevice, CallDirection::Outgoing),
        (HangupType::DeclinedOnAnotherDevice, CallDirection::Outgoing),
        (HangupType::BusyOnAnotherDevice, CallDirection::Outgoing),
    ] {
        assert_eq!(decide_hangup(kind, direction, 4), unexpected);
    }
}

#[test]
fn hangup_type_and_device() {
    assert_eq!(Hangup::Normal.to_type_and_device_id(), (HangupType::Normal, None));
    assert_eq!(
        Hangup::BusyOnAnotherDevice(3).to_type_and_device_id(),
        (HangupType::BusyOnAnotherDevice, Some(3))
    );
    assert_eq!(
        Hangup::NeedPermission(None).to_type_and_device_id(),
        (HangupType::NeedPermission, None)
    );
}

#[test]
fn connection_table_rows() {
    assert_eq!(
        decide_connection_state(CallDirection::Incoming, CallState::ConnectingBeforeAccepted, ConnectionState::ConnectedBeforeAccepted),
        ConnectionStateAction::LocalRinging
    );
    assert_eq!(
        decide_connection_state(CallDirection::Outgoing, CallState::ConnectingBeforeAccepted, ConnectionState::ConnectedBeforeAccepted),
        ConnectionStateAction::RemoteRinging
    );
    assert_eq!(
        decide_connection_state(CallDirection::Outgoing, CallState::ConnectedBeforeAccepted, ConnectionState::ConnectingAfterAccepted),
        ConnectionStateAction::AcceptedBeforeConnected
    );
    assert_eq!(
        decide_connection_state(CallDirection::Outgoing, CallState::ConnectingAfterAccepted, ConnectionState::ConnectedAndAccepted),
        ConnectionStateAction::ConnectedAfterAccepted
    );
    assert_eq!(
        decide_connection_state(CallDirection::Outgoing, CallState::ConnectedBeforeAccepted, ConnectionState::ConnectedAndAccepted),
        ConnectionStateAction::AcceptedAfterConnected
    );
    assert_eq!(
        decide_connection_state(CallDirection::Incoming, CallState::ConnectedBeforeAccepted, ConnectionState::ConnectedAndAccepted),
        ConnectionStateAction::Ignore
    );
    assert_eq!(
        decide_connection_state(CallDirection::Incoming, CallState::ConnectedAndAccepted, ConnectionState::ReconnectingAfterAccepted),
        ConnectionStateAction::Reconnecting
    );
    assert_eq!(
        decide_connection_state(CallDirection::Outgoing, CallState::ReconnectingAfterAccepted, ConnectionState::ConnectedAndAccepted),
        ConnectionStateAction::Reconnected
    );
    assert_eq!(
        decide_connection_state(CallDirection::Incoming, CallState::WaitingToProceed, ConnectionState::IceFailed),
        ConnectionStateAction::IceFailed
    );
    assert_eq!(
        decide_connection_state(CallDirection::Outgoing, CallState::ConnectedAndAccepted, ConnectionState::IceGathering),
        ConnectionStateAction::Ignore
    );
    assert_eq!(
        decide_connection_state(CallDirection::Outgoing, CallState::ConnectedBeforeAccepted, ConnectionState::ConnectedBeforeAccepted),
        ConnectionStateAction::Ignore
    );
    assert_eq!(
        decide_connection_state(CallDirection::Incoming, CallState::ConnectedBeforeAccepted, ConnectionState::ConnectedBeforeAccepted),
        ConnectionStateAction::Illegal
    );
    assert_eq!(
        decide_connection_state(CallDirection::Incoming, CallState::ConnectingBeforeAccepted, ConnectionState::ConnectingAfterAccepted),
        ConnectionStateAction::Illegal
    );
    assert_eq!(
        decide_connection_state(CallDirection::Outgoing, CallState::NotYetStarted, ConnectionState::ConnectedAndAccepted),
        ConnectionStateAction::Illegal
    );
}

#[test]
fn call_state_predicates() {
    assert!(CallState::Terminating.terminating_or_terminated());
    assert!(!CallState::ConnectedAndAccepted.terminating_or_terminated());
    assert!(CallState::ReconnectingAfterAccepted.active());
    assert!(!CallState::ConnectingAfterAccepted.active());
    assert!(CallState::ConnectedBeforeAccepted.can_be_accepted_locally());
    assert!(!CallState::ConnectingBeforeAccepted.can_be_accepted_locally());
    assert!(CallState::Terminating.can_send_hangup_via_rtp());
    assert!(!CallState::WaitingToProceed.can_send_hangup_via_rtp());
    assert!(CallState::WaitingToProceed.can_be_terminated_remotely());
    assert!(!CallState::NotYetStarted.can_be_terminated_remotely());
    assert!(!CallState::WaitingToProceed.can_receive_ice_candidates());
    assert!(CallState::ConnectingAfterAccepted.should_propagate_hangup());
}

#[test]
fn wire_enumerations() {
    assert_eq!(VideoCodecType::from_i32(40), Some(VideoCodecType::H264ConstrainedBaseline));
    assert_eq!(VideoCodecType::from_i32(7), None);
    assert_eq!(VideoCodecType::H264ConstrainedHigh.value(), 46);
    assert_eq!(ring_intention::Type::from_i32(1), Some(ring_intention::Type::Cancelled));
    assert_eq!(ring_intention::Type::from_i32(2), None);
    assert_eq!(ring_response::Type::from_i32(3), Some(ring_response::Type::Busy));
    assert_eq!(ring_response::Type::Declined.value(), 2);
    assert_eq!(ring_response::Type::from_i32(-1), None);
}
