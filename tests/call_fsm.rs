use ringrtc::call_fsm::{Call, CallAction, CallEvent, CallStateMachine, NotifyTask, WorkerTask};
use ringrtc::connection::ConnectionObserverEvent;
use ringrtc::hangup::Hangup;
use ringrtc::signaling::{ReceivedAnswer, ReceivedHangup, ReceivedIce};
use ringrtc::types::{ApplicationEvent, CallConfig, CallState, ConnectionState, SenderStatus};

fn state_changed(state: ConnectionState, device: u32) -> CallEvent {
    CallEvent::ConnectionObserverEvent(ConnectionObserverEvent::StateChanged(state), device)
}

fn proceed() -> CallEvent {
    CallEvent::Proceed { call_config: CallConfig { opaque: vec![1, 2, 3] }, audio_levels_interval: None }
}

fn step(m: &mut CallStateMachine, event: CallEvent) -> CallState {
    m.post(event);
    m.run();
    m.call.state
}

fn worker_tasks(m: &mut CallStateMachine) -> Vec<WorkerTask> {
    let mut tasks = Vec::new();
    while let Some(t) = m.next_worker_task() {
        tasks.push(t);
    }
    tasks
}

fn notify_tasks(m: &mut CallStateMachine) -> Vec<NotifyTask> {
    let mut tasks = Vec::new();
    while let Some(t) = m.next_notify_task() {
        tasks.push(t);
    }
    tasks
}

/// An outgoing call that reached `ConnectedBeforeAccepted` with device 7.
fn ringing_outgoing() -> CallStateMachine {
    let mut m = CallStateMachine::new(Call::new_outgoing(1, 1));
    step(&mut m, CallEvent::StartCall);
    step(&mut m, proceed());
    step(&mut m, state_changed(ConnectionState::ConnectedBeforeAccepted, 7));
    worker_tasks(&mut m);
    notify_tasks(&mut m);
    m
}

/// An incoming call from device 11 to local device 5, ringing.
fn ringing_incoming() -> CallStateMachine {
    let mut m = CallStateMachine::new(Call::new_incoming(2, 5, 11));
    step(&mut m, CallEvent::StartCall);
    step(&mut m, proceed());
    step(&mut m, state_changed(ConnectionState::ConnectedBeforeAccepted, 11));
    worker_tasks(&mut m);
    notify_tasks(&mut m);
    m
}

#[test]
fn outgoing_single_device_normal_acceptance() {
    let mut m = CallStateMachine::new(Call::new_outgoing(1, 1));
    let mut trace = vec![m.call.state];
    trace.push(step(&mut m, CallEvent::StartCall));
    assert_eq!(m.actions, vec![CallAction::StartCall]);
    trace.push(step(&mut m, proceed()));
    step(
        &mut m,
        CallEvent::ReceivedAnswer(ReceivedAnswer { sender_device_id: 7, opaque: vec![9] }),
    );
    trace.push(step(&mut m, state_changed(ConnectionState::ConnectedBeforeAccepted, 7)));
    trace.push(step(&mut m, state_changed(ConnectionState::ConnectedAndAccepted, 7)));
    assert_eq!(m.call.active_device_id, Some(7));
    step(&mut m, CallEvent::SendHangupViaRtpDataToAll(Hangup::Normal));
    m.terminate();
    trace.push(m.call.state);
    m.run();
    trace.push(m.call.state);
    assert_eq!(
        trace,
        vec![
            CallState::NotYetStarted,
            CallState::WaitingToProceed,
            CallState::ConnectingBeforeAccepted,
            CallState::ConnectedBeforeAccepted,
            CallState::ConnectedAndAccepted,
            CallState::Terminating,
            CallState::Terminated,
        ]
    );
    // Termination waits for both pools.
    assert_ne!(m.actions.last(), Some(&CallAction::TerminateComplete));
    // Only the tasks that run even when terminating are left: the hangup.
    let tasks = worker_tasks(&mut m);
    assert_eq!(tasks.len(), 1);
    assert!(matches!(tasks[0], WorkerTask::SendHangupViaRtpDataToAll(Hangup::Normal)));
    assert_ne!(m.actions.last(), Some(&CallAction::TerminateComplete));
    notify_tasks(&mut m);
    assert_eq!(m.actions.last(), Some(&CallAction::TerminateComplete));
    assert!(m.termination.is_none());
}

#[test]
fn outgoing_accepted_before_connected_rings_twice() {
    let mut m = ringing_outgoing();
    let mut m2 = CallStateMachine::new(Call::new_outgoing(1, 1));
    step(&mut m2, CallEvent::StartCall);
    step(&mut m2, proceed());
    step(&mut m2, state_changed(ConnectionState::ConnectedBeforeAccepted, 7));
    step(&mut m2, state_changed(ConnectionState::ConnectingAfterAccepted, 7));
    step(&mut m2, state_changed(ConnectionState::ConnectedAndAccepted, 7));
    assert_eq!(
        notify_tasks(&mut m2),
        vec![
            NotifyTask::Application(ApplicationEvent::RemoteRinging),
            NotifyTask::Application(ApplicationEvent::RemoteRinging),
        ]
    );
    assert_eq!(m2.call.state, CallState::ConnectedAndAccepted);
    step(&mut m, state_changed(ConnectionState::ConnectedAndAccepted, 7));
    assert_eq!(notify_tasks(&mut m), vec![]);
}

#[test]
fn outgoing_two_devices_seven_accepts() {
    let mut m = CallStateMachine::new(Call::new_outgoing(1, 1));
    step(&mut m, CallEvent::StartCall);
    step(&mut m, proceed());
    step(&mut m, state_changed(ConnectionState::ConnectedBeforeAccepted, 7));
    step(&mut m, state_changed(ConnectionState::ConnectedBeforeAccepted, 8));
    assert_eq!(m.call.state, CallState::ConnectedBeforeAccepted);
    worker_tasks(&mut m);
    step(&mut m, state_changed(ConnectionState::ConnectingAfterAccepted, 7));
    assert_eq!(m.call.state, CallState::ConnectingAfterAccepted);
    assert_eq!(m.call.active_device_id, Some(7));
    assert_eq!(
        m.actions.last(),
        Some(&CallAction::SendHangupViaRtpDataToAllExcept(Hangup::AcceptedOnAnotherDevice(7), 7))
    );
    let tasks = worker_tasks(&mut m);
    assert_eq!(tasks.len(), 1);
    assert!(matches!(
        tasks[0],
        WorkerTask::SendHangupViaSignalingAndTerminateOthers(Hangup::AcceptedOnAnotherDevice(7), 7)
    ));
    step(&mut m, state_changed(ConnectionState::ConnectedAndAccepted, 7));
    assert_eq!(m.call.state, CallState::ConnectedAndAccepted);
    let tasks = worker_tasks(&mut m);
    assert_eq!(tasks.len(), 1);
    assert!(matches!(tasks[0], WorkerTask::AcceptRemotely));
}

#[test]
fn incoming_accepted_on_another_device() {
    let mut m = ringing_incoming();
    let before = m.actions.len();
    step(
        &mut m,
        CallEvent::ReceivedHangup(ReceivedHangup {
            sender_device_id: 11,
            hangup: Hangup::AcceptedOnAnotherDevice(11),
        }),
    );
    assert_eq!(m.call.state, CallState::Terminating);
    assert_eq!(m.actions.len(), before);
    let tasks = worker_tasks(&mut m);
    assert_eq!(tasks.len(), 1);
    assert!(matches!(
        tasks[0],
        WorkerTask::RemoteHangup(Some(ApplicationEvent::EndedRemoteHangupAccepted))
    ));
}

#[test]
fn hangup_self_echo_is_dropped() {
    let mut m = ringing_incoming();
    let call = m.call;
    let actions = m.actions.clone();
    step(
        &mut m,
        CallEvent::ReceivedHangup(ReceivedHangup {
            sender_device_id: 99,
            hangup: Hangup::DeclinedOnAnotherDevice(5),
        }),
    );
    assert_eq!(m.call, call);
    assert_eq!(m.actions, actions);
    assert_eq!(worker_tasks(&mut m).len(), 0);
    assert_eq!(notify_tasks(&mut m), vec![]);
}

#[test]
fn ice_failure_on_inactive_connection() {
    let mut m = ringing_outgoing();
    step(&mut m, state_changed(ConnectionState::ConnectedAndAccepted, 7));
    worker_tasks(&mut m);
    step(&mut m, state_changed(ConnectionState::IceFailed, 8));
    assert_eq!(m.call.state, CallState::ConnectedAndAccepted);
    let tasks = worker_tasks(&mut m);
    assert_eq!(tasks.len(), 1);
    assert!(matches!(tasks[0], WorkerTask::HandleIceFailed(8)));
}

#[test]
fn terminate_drains_pending_worker_task() {
    let mut m = CallStateMachine::new(Call::new_outgoing(1, 1));
    step(&mut m, CallEvent::StartCall);
    step(&mut m, proceed());
    m.post(CallEvent::Terminate);
    m.run();
    assert_eq!(m.call.state, CallState::Terminated);
    assert!(m.worker_stopped && m.notify_stopped && m.closed);
    // The queued task is skipped: the call is terminated by the time it runs.
    assert_eq!(worker_tasks(&mut m).len(), 0);
    m.post(CallEvent::StartCall);
    assert!(m.events.is_empty());
    assert_eq!(notify_tasks(&mut m), vec![]);
    assert_eq!(m.actions.last(), Some(&CallAction::TerminateComplete));
}

#[test]
fn terminate_completes_after_tasks_that_run_when_terminating() {
    let mut m = ringing_outgoing();
    step(
        &mut m,
        CallEvent::ReceivedHangup(ReceivedHangup { sender_device_id: 7, hangup: Hangup::Normal }),
    );
    step(&mut m, CallEvent::Terminate);
    assert_eq!(m.call.state, CallState::Terminated);
    let completions = |m: &CallStateMachine| {
        m.actions.iter().filter(|a| **a == CallAction::TerminateComplete).count()
    };
    assert_eq!(notify_tasks(&mut m), vec![]);
    assert_eq!(completions(&m), 0);
    // The remote hangup is still handed out, and termination waits for it.
    assert!(matches!(m.next_worker_task(), Some(WorkerTask::RemoteHangup(None))));
    assert_eq!(completions(&m), 0);
    assert!(m.next_worker_task().is_none());
    assert_eq!(completions(&m), 1);
    assert_eq!(m.actions.last(), Some(&CallAction::TerminateComplete));
    // Asking again completes nothing more.
    assert!(m.next_worker_task().is_none());
    assert!(m.next_notify_task().is_none());
    assert_eq!(completions(&m), 1);
}

#[test]
fn transitions_follow_the_table() {
    let mut m = CallStateMachine::new(Call::new_outgoing(1, 1));
    // Nothing happens out of order.
    step(&mut m, proceed());
    assert_eq!(m.call.state, CallState::NotYetStarted);
    step(&mut m, CallEvent::AcceptCall);
    assert_eq!(m.call.state, CallState::NotYetStarted);
    step(&mut m, CallEvent::StartCall);
    step(&mut m, CallEvent::StartCall);
    assert_eq!(m.call.state, CallState::WaitingToProceed);
    step(&mut m, state_changed(ConnectionState::ConnectedAndAccepted, 7));
    assert_eq!(m.call.state, CallState::WaitingToProceed);
}

#[test]
fn active_device_never_changes() {
    let mut m = ringing_outgoing();
    step(&mut m, state_changed(ConnectionState::ConnectingAfterAccepted, 7));
    step(&mut m, state_changed(ConnectionState::ConnectingAfterAccepted, 8));
    step(&mut m, state_changed(ConnectionState::ConnectedAndAccepted, 8));
    assert_eq!(m.call.active_device_id, Some(7));
    assert_eq!(m.call.state, CallState::ConnectingAfterAccepted);
}

#[test]
fn terminating_drops_other_events() {
    let mut m = ringing_outgoing();
    // A remote hangup leaves the call terminating, with its queue open.
    step(
        &mut m,
        CallEvent::ReceivedHangup(ReceivedHangup { sender_device_id: 7, hangup: Hangup::Normal }),
    );
    worker_tasks(&mut m);
    let call = m.call;
    assert_eq!(call.state, CallState::Terminating);
    step(&mut m, CallEvent::AcceptCall);
    step(&mut m, CallEvent::CallTimeout);
    step(&mut m, state_changed(ConnectionState::ConnectingAfterAccepted, 7));
    step(&mut m, CallEvent::InternalError("boom".to_string()));
    assert_eq!(m.call, call);
    assert_eq!(m.worker_jobs.len(), 0);
    step(&mut m, CallEvent::SendHangupViaRtpDataToAll(Hangup::Normal));
    assert_eq!(m.worker_jobs.len(), 1);
}

#[test]
fn received_hangup_reported_once_even_when_terminating() {
    let mut m = ringing_outgoing();
    step(
        &mut m,
        CallEvent::ReceivedHangup(ReceivedHangup { sender_device_id: 7, hangup: Hangup::Normal }),
    );
    assert_eq!(m.call.state, CallState::Terminating);
    assert_eq!(
        m.actions.last(),
        Some(&CallAction::SendHangupViaRtpDataAndSignalingToAllExcept(
            Hangup::DeclinedOnAnotherDevice(7),
            7
        ))
    );
    let tasks = worker_tasks(&mut m);
    assert_eq!(tasks.len(), 1);
    assert!(matches!(tasks[0], WorkerTask::RemoteHangup(None)));
}

#[test]
fn need_permission_to_caller() {
    let mut m = ringing_outgoing();
    step(
        &mut m,
        CallEvent::ReceivedHangup(ReceivedHangup {
            sender_device_id: 7,
            hangup: Hangup::NeedPermission(None),
        }),
    );
    assert_eq!(
        m.actions.last(),
        Some(&CallAction::SendHangupViaRtpDataAndSignalingToAllExcept(
            Hangup::NeedPermission(Some(7)),
            7
        ))
    );
    let tasks = worker_tasks(&mut m);
    assert!(matches!(
        tasks[0],
        WorkerTask::RemoteHangup(Some(ApplicationEvent::EndedRemoteHangupNeedPermission))
    ));
}

#[test]
fn hangup_from_inactive_device_is_dropped() {
    let mut m = ringing_outgoing();
    step(&mut m, state_changed(ConnectionState::ConnectedAndAccepted, 7));
    worker_tasks(&mut m);
    step(
        &mut m,
        CallEvent::ReceivedHangup(ReceivedHangup { sender_device_id: 8, hangup: Hangup::Normal }),
    );
    assert_eq!(m.call.state, CallState::ConnectedAndAccepted);
    assert_eq!(worker_tasks(&mut m).len(), 0);
}

#[test]
fn notifications_in_submission_order() {
    let mut m = ringing_outgoing();
    for level in [3u16, 1, 2] {
        step(
            &mut m,
            CallEvent::ConnectionObserverEvent(
                ConnectionObserverEvent::AudioLevels { captured_level: level, received_level: 0 },
                7,
            ),
        );
    }
    step(
        &mut m,
        CallEvent::ConnectionObserverEvent(
            ConnectionObserverEvent::LowBandwidthForVideo { recovered: true },
            7,
        ),
    );
    assert_eq!(
        notify_tasks(&mut m),
        vec![
            NotifyTask::AudioLevels(3, 0),
            NotifyTask::AudioLevels(1, 0),
            NotifyTask::AudioLevels(2, 0),
            NotifyTask::LowBandwidthForVideo(true),
        ]
    );
}

#[test]
fn no_notification_after_terminate() {
    let mut m = ringing_outgoing();
    step(&mut m, state_changed(ConnectionState::ConnectedAndAccepted, 7));
    step(
        &mut m,
        CallEvent::ConnectionObserverEvent(
            ConnectionObserverEvent::LowBandwidthForVideo { recovered: false },
            7,
        ),
    );
    m.post(CallEvent::ConnectionObserverEvent(
        ConnectionObserverEvent::LowBandwidthForVideo { recovered: true },
        7,
    ));
    step(&mut m, CallEvent::Terminate);
    assert_eq!(notify_tasks(&mut m), vec![]);
    m.post(CallEvent::ConnectionObserverEvent(
        ConnectionObserverEvent::LowBandwidthForVideo { recovered: true },
        7,
    ));
    m.run();
    assert_eq!(m.notify_jobs.len(), 0);
}

#[test]
fn synchronize_twice_both_complete() {
    let mut m = ringing_outgoing();
    let call = m.call;
    m.post(CallEvent::Synchronize(3));
    m.post(CallEvent::Synchronize(3));
    m.run();
    // The machine waits for the first barrier.
    assert_eq!(m.events.len(), 1);
    assert!(m.signaled.is_empty());
    worker_tasks(&mut m);
    notify_tasks(&mut m);
    assert_eq!(m.signaled, vec![3]);
    m.run();
    worker_tasks(&mut m);
    notify_tasks(&mut m);
    assert_eq!(m.signaled, vec![3, 3]);
    assert_eq!(m.call, call);
    assert!(m.barrier.is_none());
}

#[test]
fn synchronize_before_terminate_waits_for_the_pools() {
    let mut m = ringing_outgoing();
    m.post(CallEvent::Synchronize(4));
    m.post(CallEvent::Terminate);
    m.run();
    // The machine waits for the barrier before it handles Terminate.
    assert_eq!(m.call.state, CallState::ConnectedBeforeAccepted);
    worker_tasks(&mut m);
    notify_tasks(&mut m);
    assert_eq!(m.signaled, vec![4]);
    m.run();
    assert_eq!(m.call.state, CallState::Terminated);
}

#[test]
fn duplicate_connected_before_accepted_is_noop() {
    let mut m = ringing_outgoing();
    let call = m.call;
    let actions = m.actions.clone();
    step(&mut m, state_changed(ConnectionState::ConnectedBeforeAccepted, 7));
    assert_eq!(m.call, call);
    assert_eq!(m.actions, actions);
    assert_eq!(notify_tasks(&mut m), vec![]);
    assert_eq!(worker_tasks(&mut m).len(), 0);
}

#[test]
fn incoming_local_ringing_and_accept() {
    let mut m = CallStateMachine::new(Call::new_incoming(2, 5, 11));
    step(&mut m, CallEvent::StartCall);
    step(&mut m, proceed());
    step(&mut m, state_changed(ConnectionState::ConnectedBeforeAccepted, 11));
    assert_eq!(
        notify_tasks(&mut m),
        vec![NotifyTask::Application(ApplicationEvent::LocalRinging)]
    );
    step(&mut m, CallEvent::AcceptCall);
    assert_eq!(m.call.state, CallState::ConnectedAndAccepted);
    assert_eq!(m.call.active_device_id, Some(11));
    step(&mut m, state_changed(ConnectionState::ConnectedAndAccepted, 11));
    assert_eq!(m.call.state, CallState::ConnectedAndAccepted);
    let tasks = worker_tasks(&mut m);
    assert!(matches!(tasks[0], WorkerTask::Proceed { .. }));
    assert!(matches!(tasks[1], WorkerTask::AcceptLocally));
}

#[test]
fn reconnecting_and_reconnected_on_active_device() {
    let mut m = ringing_outgoing();
    step(&mut m, state_changed(ConnectionState::ConnectedAndAccepted, 7));
    step(&mut m, state_changed(ConnectionState::ReconnectingAfterAccepted, 8));
    assert_eq!(m.call.state, CallState::ConnectedAndAccepted);
    step(&mut m, state_changed(ConnectionState::ReconnectingAfterAccepted, 7));
    assert_eq!(m.call.state, CallState::ReconnectingAfterAccepted);
    step(&mut m, state_changed(ConnectionState::ConnectedAndAccepted, 7));
    assert_eq!(m.call.state, CallState::ConnectedAndAccepted);
    assert_eq!(
        notify_tasks(&mut m),
        vec![
            NotifyTask::Application(ApplicationEvent::Reconnecting),
            NotifyTask::Application(ApplicationEvent::Reconnected),
        ]
    );
}

#[test]
fn sender_status_forwarded_from_active_device_only() {
    let mut m = ringing_outgoing();
    let status = SenderStatus { video_enabled: Some(true), sharing_screen: None, audio_enabled: Some(false) };
    step(
        &mut m,
        CallEvent::ConnectionObserverEvent(ConnectionObserverEvent::RemoteSenderStatusChanged(status), 7),
    );
    assert_eq!(notify_tasks(&mut m), vec![]);
    step(&mut m, state_changed(ConnectionState::ConnectedAndAccepted, 7));
    step(
        &mut m,
        CallEvent::ConnectionObserverEvent(ConnectionObserverEvent::RemoteSenderStatusChanged(status), 8),
    );
    step(
        &mut m,
        CallEvent::ConnectionObserverEvent(ConnectionObserverEvent::RemoteSenderStatusChanged(status), 7),
    );
    assert_eq!(
        notify_tasks(&mut m),
        vec![
            NotifyTask::Application(ApplicationEvent::RemoteVideoEnable),
            NotifyTask::Application(ApplicationEvent::RemoteAudioDisable),
        ]
    );
}

#[test]
fn call_timeout_only_when_inactive() {
    let mut m = ringing_outgoing();
    step(&mut m, CallEvent::CallTimeout);
    assert!(matches!(worker_tasks(&mut m)[0], WorkerTask::Timeout));
    step(&mut m, state_changed(ConnectionState::ConnectedAndAccepted, 7));
    worker_tasks(&mut m);
    step(&mut m, CallEvent::CallTimeout);
    assert_eq!(worker_tasks(&mut m).len(), 0);
}

#[test]
fn errors_become_internal_errors() {
    let mut m = ringing_outgoing();
    step(&mut m, CallEvent::ConnectionObserverError("lost".to_string(), 7));
    step(&mut m, CallEvent::InternalError("bad".to_string()));
    let tasks = worker_tasks(&mut m);
    assert_eq!(tasks.len(), 2);
    assert!(matches!(&tasks[0], WorkerTask::InternalError(e) if e == "lost"));
    assert!(matches!(&tasks[1], WorkerTask::InternalError(e) if e == "bad"));
}

#[test]
fn received_ice_and_answer_need_connections() {
    let mut m = CallStateMachine::new(Call::new_outgoing(1, 1));
    step(&mut m, CallEvent::StartCall);
    step(&mut m, CallEvent::ReceivedIce(ReceivedIce { sender_device_id: 7, candidates: vec![vec![1]] }));
    assert_eq!(worker_tasks(&mut m).len(), 0);
    step(&mut m, proceed());
    step(&mut m, CallEvent::ReceivedIce(ReceivedIce { sender_device_id: 7, candidates: vec![vec![1]] }));
    let tasks = worker_tasks(&mut m);
    assert_eq!(tasks.len(), 2);
    assert!(matches!(&tasks[1], WorkerTask::ReceivedIce(r) if r.sender_device_id == 7));
}

#[test]
fn network_route_waits_for_active_device() {
    let mut m = ringing_outgoing();
    let route = ringrtc::types::NetworkRoute {
        local_adapter_type: 1,
        local_adapter_type_under_vpn: 0,
        local_relayed: false,
        remote_relayed: true,
    };
    step(&mut m, CallEvent::ConnectionObserverEvent(ConnectionObserverEvent::IceNetworkRouteChanged(route), 7));
    assert_eq!(notify_tasks(&mut m), vec![]);
    step(&mut m, state_changed(ConnectionState::ConnectedAndAccepted, 7));
    step(&mut m, CallEvent::ConnectionObserverEvent(ConnectionObserverEvent::IceNetworkRouteChanged(route), 7));
    assert_eq!(notify_tasks(&mut m), vec![NotifyTask::NetworkRouteChanged(route)]);
}

#[test]
fn audio_levels_are_frequent() {
    let e = CallEvent::ConnectionObserverEvent(
        ConnectionObserverEvent::AudioLevels { captured_level: 1, received_level: 2 },
        7,
    );
    assert!(e.is_frequent());
    assert!(!CallEvent::StartCall.is_frequent());
    assert!(!state_changed(ConnectionState::Starting, 7).is_frequent());
}
