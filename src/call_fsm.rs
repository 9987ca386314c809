//! The call-level state machine.
//!
//! The machine consumes `CallEvent`s from its queue in order. Quick
//! reactions happen at once: the call's state changes, or an action is
//! recorded for the caller to perform before the next event. Lengthy work
//! goes as a task onto the worker pool, and application notifications go
//! onto the notify pool. Each pool is a serial executor: whoever runs it
//! takes one task at a time with `next_worker_task` / `next_notify_task`
//! and finishes it before taking the next.

use std::collections::VecDeque;
use vstd::prelude::*;
use crate::connection::{decide_connection_state, connection_state_action, ConnectionObserverEvent,
    ConnectionStateAction};
use crate::hangup::{decide_hangup, hangup_decision, Hangup};
use crate::signaling::{ReceivedAnswer, ReceivedHangup, ReceivedIce};
use crate::types::{ApplicationEvent, AudioLevel, CallConfig, CallDirection, CallId, CallState,
    ConnectionState, DeviceId, NetworkRoute, SenderStatus};

verus! {

/// The record of one call.
#[derive(Clone, Copy, Debug, PartialEq, Eq, Structural)]
pub struct Call {
    pub call_id: CallId,
    pub direction: CallDirection,
    pub local_device_id: DeviceId,
    /// For an incoming call, the device whose offer started it.
    pub offer_device_id: Option<DeviceId>,
    pub state: CallState,
    /// The remote device that media flows with, once one is chosen.
    pub active_device_id: Option<DeviceId>,
}

impl Call {
    pub fn new_outgoing(call_id: CallId, local_device_id: DeviceId) -> (r: Call)
        ensures
            r == (Call {
                call_id,
                direction: CallDirection::Outgoing,
                local_device_id,
                offer_device_id: None,
                state: CallState::NotYetStarted,
                active_device_id: None,
            }),
    {
        Call {
            call_id,
            direction: CallDirection::Outgoing,
            local_device_id,
            offer_device_id: None,
            state: CallState::NotYetStarted,
            active_device_id: None,
        }
    }

    pub fn new_incoming(call_id: CallId, local_device_id: DeviceId, offer_device_id: DeviceId) -> (r:
        Call)
        ensures
            r == (Call {
                call_id,
                direction: CallDirection::Incoming,
                local_device_id,
                offer_device_id: Some(offer_device_id),
                state: CallState::NotYetStarted,
                active_device_id: None,
            }),
    {
        Call {
            call_id,
            direction: CallDirection::Incoming,
            local_device_id,
            offer_device_id: Some(offer_device_id),
            state: CallState::NotYetStarted,
            active_device_id: None,
        }
    }
}

/// The events the machine consumes.
#[derive(Clone, Debug)]
pub enum CallEvent {
    /// Start the call (its direction is in the call record).
    StartCall,
    /// Accept an incoming call (callee only).
    AcceptCall,
    /// Send a hangup over the media channel to every device.
    SendHangupViaRtpDataToAll(Hangup),
    /// The application confirmed the call; the interval, in milliseconds,
    /// enables periodic audio-level reports.
    Proceed { call_config: CallConfig, audio_levels_interval: Option<u64> },
    /// An answer from a callee device (caller only).
    ReceivedAnswer(ReceivedAnswer),
    /// ICE signaling from a remote device.
    ReceivedIce(ReceivedIce),
    /// A hangup signaled by a remote device.
    ReceivedHangup(ReceivedHangup),
    /// An event from the observer of one connection.
    ConnectionObserverEvent(ConnectionObserverEvent, DeviceId),
    /// An error from the observer of one connection.
    ConnectionObserverError(String, DeviceId),
    /// An internal error, reported to the call manager.
    InternalError(String),
    /// The call timed out while being set up.
    CallTimeout,
    /// Wait until both pools have run what was queued, then signal the
    /// barrier with this id.
    Synchronize(u64),
    /// Terminate the call.
    Terminate,
}

impl CallEvent {
    pub open spec fn spec_is_frequent(&self) -> bool {
        match self {
            CallEvent::ConnectionObserverEvent(e, _) => e.spec_is_frequent(),
            _ => false,
        }
    }

    /// Frequent events are not logged.
    pub fn is_frequent(&self) -> (r: bool)
        ensures
            r == self.spec_is_frequent(),
    {
        if let CallEvent::ConnectionObserverEvent(event, _) = self {
            event.is_frequent()
        } else {
            false
        }
    }
}

/// Lengthy work against the media backend, the signaling transport or the
/// call manager.
#[derive(Clone, Debug)]
pub enum WorkerTask {
    Proceed { call_config: CallConfig, audio_levels_interval: Option<u64> },
    ReceivedAnswer(ReceivedAnswer),
    ReceivedIce(ReceivedIce),
    AcceptLocally,
    /// Enable media with the accepted device.
    AcceptRemotely,
    SendHangupViaRtpDataToAll(Hangup),
    /// Send the hangup over signaling to every device, then terminate every
    /// connection but the accepted one.
    SendHangupViaSignalingAndTerminateOthers(Hangup, DeviceId),
    HandleIceFailed(DeviceId),
    /// Tell the call manager that the remote side hung up, with the event
    /// that replaces the plain remote hangup.
    RemoteHangup(Option<ApplicationEvent>),
    Timeout,
    InternalError(String),
}

/// Notifications to the application. None is delivered once the call is
/// terminating.
#[derive(Clone, Copy, Debug, PartialEq, Eq, Structural)]
pub enum NotifyTask {
    Application(ApplicationEvent),
    NetworkRouteChanged(NetworkRoute),
    AudioLevels(AudioLevel, AudioLevel),
    LowBandwidthForVideo(bool),
}

/// An entry of a pool's queue.
#[derive(Clone, Debug)]
pub enum Job<T> {
    /// A task; for the worker, the flag is true when the task runs even
    /// once the call is terminating.
    Run(T, bool),
    /// The point a synchronization barrier waits for.
    Barrier(u64),
}

/// Actions the machine takes itself, in order, while handling an event.
#[derive(Clone, Copy, Debug, PartialEq, Eq, Structural)]
pub enum CallAction {
    /// Hand the start of the call to the application.
    StartCall,
    SendHangupViaRtpDataToAllExcept(Hangup, DeviceId),
    SendHangupViaRtpDataAndSignalingToAllExcept(Hangup, DeviceId),
    /// Termination is done; the call may be released.
    TerminateComplete,
}

/// A synchronization barrier that waits for one or both pools.
#[derive(Clone, Copy, Debug, PartialEq, Eq, Structural)]
pub struct PendingBarrier {
    pub id: u64,
    pub worker_pending: bool,
    pub notify_pending: bool,
}

/// A termination that waits for the pools to be joined: a stopped pool is
/// joined once whoever runs it asks for a task and finds none left.
#[derive(Clone, Copy, Debug, PartialEq, Eq, Structural)]
pub struct PendingJoin {
    pub worker_running: bool,
    pub notify_running: bool,
}

/// The abstract state of a `CallStateMachine`.
pub struct MachineView {
    pub call: Call,
    pub events: Seq<CallEvent>,
    pub closed: bool,
    pub worker: Seq<Job<WorkerTask>>,
    pub worker_stopped: bool,
    pub notify: Seq<Job<NotifyTask>>,
    pub notify_stopped: bool,
    pub actions: Seq<CallAction>,
    pub barrier: Option<PendingBarrier>,
    pub signaled: Seq<u64>,
    pub termination: Option<PendingJoin>,
}

/// The state machine of one call, with its event queue and its two pools.
pub struct CallStateMachine {
    pub call: Call,
    pub events: VecDeque<CallEvent>,
    pub closed: bool,
    pub worker_jobs: VecDeque<Job<WorkerTask>>,
    pub worker_stopped: bool,
    pub notify_jobs: VecDeque<Job<NotifyTask>>,
    pub notify_stopped: bool,
    /// Actions taken while handling events, oldest first.
    pub actions: Vec<CallAction>,
    pub barrier: Option<PendingBarrier>,
    /// Ids of the barriers signaled so far, in order.
    pub signaled: Vec<u64>,
    /// Set while a termination waits for the pools to be joined.
    pub termination: Option<PendingJoin>,
}

impl View for CallStateMachine {
    type V = MachineView;

    open spec fn view(&self) -> MachineView {
        MachineView {
            call: self.call,
            events: self.events@,
            closed: self.closed,
            worker: self.worker_jobs@,
            worker_stopped: self.worker_stopped,
            notify: self.notify_jobs@,
            notify_stopped: self.notify_stopped,
            actions: self.actions@,
            barrier: self.barrier,
            signaled: self.signaled@,
            termination: self.termination,
        }
    }
}

impl MachineView {
    pub open spec fn with_state(self, state: CallState) -> MachineView {
        MachineView { call: Call { state, ..self.call }, ..self }
    }

    /// The active device is set once and then kept.
    pub open spec fn with_active_device(self, device: DeviceId) -> MachineView {
        if self.call.active_device_id is None {
            MachineView { call: Call { active_device_id: Some(device), ..self.call }, ..self }
        } else {
            self
        }
    }

    pub open spec fn is_active_device(self, device: DeviceId) -> bool {
        self.call.active_device_id == Some(device)
    }

    pub open spec fn spawn_worker(self, task: WorkerTask, even_when_terminating: bool) -> MachineView {
        if self.worker_stopped {
            self
        } else {
            MachineView { worker: self.worker.push(Job::Run(task, even_when_terminating)), ..self }
        }
    }

    pub open spec fn spawn_notify(self, task: NotifyTask) -> MachineView {
        if self.notify_stopped {
            self
        } else {
            MachineView { notify: self.notify.push(Job::Run(task, false)), ..self }
        }
    }

    pub open spec fn perform(self, action: CallAction) -> MachineView {
        MachineView { actions: self.actions.push(action), ..self }
    }

    /// Records what a barrier still waits for, and signals it when it
    /// waits for nothing.
    pub open spec fn settle(self, b: PendingBarrier) -> MachineView {
        if !b.worker_pending && !b.notify_pending {
            MachineView { barrier: None, signaled: self.signaled.push(b.id), ..self }
        } else {
            MachineView { barrier: Some(b), ..self }
        }
    }

    pub open spec fn worker_barrier_reached(self, id: u64) -> MachineView {
        match self.barrier {
            Some(b) => if b.id == id && b.worker_pending {
                self.settle(PendingBarrier { worker_pending: false, ..b })
            } else {
                self
            },
            None => self,
        }
    }

    pub open spec fn notify_barrier_reached(self, id: u64) -> MachineView {
        match self.barrier {
            Some(b) => if b.id == id && b.notify_pending {
                self.settle(PendingBarrier { notify_pending: false, ..b })
            } else {
                self
            },
            None => self,
        }
    }

    /// Records which pools a termination still waits for, and completes it
    /// when it waits for none.
    pub open spec fn settle_join(self, j: PendingJoin) -> MachineView {
        if !j.worker_running && !j.notify_running {
            MachineView { termination: None, ..self }.perform(CallAction::TerminateComplete)
        } else {
            MachineView { termination: Some(j), ..self }
        }
    }

    /// The worker pool is found empty: if a termination waits for it, it
    /// is joined.
    pub open spec fn worker_join(self) -> MachineView {
        match self.termination {
            Some(j) => if j.worker_running {
                self.settle_join(PendingJoin { worker_running: false, ..j })
            } else {
                self
            },
            None => self,
        }
    }

    pub open spec fn notify_join(self) -> MachineView {
        match self.termination {
            Some(j) => if j.notify_running {
                self.settle_join(PendingJoin { notify_running: false, ..j })
            } else {
                self
            },
            None => self,
        }
    }

    /// The machine is consistent: the pools stop when the queue closes, that
    /// happens only when the call is terminated, and a termination waits
    /// only on a closed machine.
    pub open spec fn wf(self) -> bool {
        &&& self.worker_stopped == self.closed
        &&& self.notify_stopped == self.closed
        &&& self.closed ==> self.call.state == CallState::Terminated && self.events.len() == 0
        &&& self.termination is Some ==> self.closed
    }
}

/// The worker pool hands out its next task: barriers on the way are
/// reached, and tasks that do not run once the call is terminating are
/// skipped when it is. Finding nothing left joins a stopped pool.
pub open spec fn next_worker(v: MachineView) -> (MachineView, Option<WorkerTask>)
    decreases v.worker.len(),
{
    if v.worker.len() == 0 {
        (v.worker_join(), None)
    } else {
        let rest = MachineView { worker: v.worker.subrange(1, v.worker.len() as int), ..v };
        match v.worker[0] {
            Job::Barrier(id) => next_worker(rest.worker_barrier_reached(id)),
            Job::Run(task, even_when_terminating) => if even_when_terminating
                || !v.call.state.is_terminating_or_terminated() {
                (rest, Some(task))
            } else {
                next_worker(rest)
            },
        }
    }
}

/// The notify pool hands out its next notification; none is handed out
/// once the call is terminating. Finding nothing left joins a stopped pool.
pub open spec fn next_notify(v: MachineView) -> (MachineView, Option<NotifyTask>)
    decreases v.notify.len(),
{
    if v.notify.len() == 0 {
        (v.notify_join(), None)
    } else {
        let rest = MachineView { notify: v.notify.subrange(1, v.notify.len() as int), ..v };
        match v.notify[0] {
            Job::Barrier(id) => next_notify(rest.notify_barrier_reached(id)),
            Job::Run(task, _) => if !v.call.state.is_terminating_or_terminated() {
                (rest, Some(task))
            } else {
                next_notify(rest)
            },
        }
    }
}

/// The worker pool runs every task it holds, then asks for one more.
pub open spec fn drain_worker(v: MachineView) -> MachineView
    decreases v.worker.len(),
{
    if v.worker.len() == 0 {
        next_worker(v).0
    } else {
        let next = next_worker(v).0;
        if next.worker.len() < v.worker.len() {
            drain_worker(next)
        } else {
            next
        }
    }
}

/// The notify pool delivers every notification it holds, then asks for one
/// more.
pub open spec fn drain_notify(v: MachineView) -> MachineView
    decreases v.notify.len(),
{
    if v.notify.len() == 0 {
        next_notify(v).0
    } else {
        let next = next_notify(v).0;
        if next.notify.len() < v.notify.len() {
            drain_notify(next)
        } else {
            next
        }
    }
}

/// What handling a sequence of events, in order, does to the machine.
pub open spec fn after_events(v: MachineView, events: Seq<CallEvent>) -> MachineView
    decreases events.len(),
{
    if events.len() == 0 {
        v
    } else {
        after_event(after_events(v, events.drop_last()), events.last())
    }
}

/// Posting to a closed queue does nothing.
pub open spec fn after_post(v: MachineView, event: CallEvent) -> MachineView {
    if v.closed {
        v
    } else {
        MachineView { events: v.events.push(event), ..v }
    }
}

/// The machine is blocked while a barrier waits for the pools.
pub open spec fn can_dispatch(v: MachineView) -> bool {
    !v.closed && v.barrier is None && v.events.len() > 0
}

/// Handles queued events in order until the queue is empty or closed, or a
/// barrier blocks the machine.
pub open spec fn after_run(v: MachineView) -> MachineView
    decreases v.events.len(),
{
    if can_dispatch(v) {
        let next = after_event(
            MachineView { events: v.events.subrange(1, v.events.len() as int), ..v },
            v.events[0],
        );
        if next.events.len() < v.events.len() {
            after_run(next)
        } else {
            next
        }
    } else {
        v
    }
}

/// The call starts to terminate, then the queue gets the event that
/// completes it.
pub open spec fn after_terminate_request(v: MachineView) -> MachineView {
    let v1 = if v.call.state.is_terminating_or_terminated() {
        v
    } else {
        v.with_state(CallState::Terminating)
    };
    after_post(v1, CallEvent::Terminate)
}

/// Handling an event never adds to the queue: it leaves it as it is, or
/// empties it.
pub proof fn lemma_event_keeps_queue(v: MachineView, event: CallEvent)
    ensures
        after_event(v, event).events == v.events || after_event(v, event).events.len() == 0,
{
}

/// The legal changes of a call's state.
pub open spec fn legal_transition(from: CallState, to: CallState) -> bool {
    match (from, to) {
        (CallState::NotYetStarted, CallState::WaitingToProceed) => true,
        (CallState::WaitingToProceed, CallState::ConnectingBeforeAccepted) => true,
        (CallState::ConnectingBeforeAccepted, CallState::ConnectedBeforeAccepted) => true,
        (
            CallState::ConnectingBeforeAccepted | CallState::ConnectedBeforeAccepted,
            CallState::ConnectingAfterAccepted,
        ) => true,
        (
            CallState::ConnectingAfterAccepted | CallState::ConnectedBeforeAccepted
            | CallState::ReconnectingAfterAccepted,
            CallState::ConnectedAndAccepted,
        ) => true,
        (CallState::ConnectedAndAccepted, CallState::ReconnectingAfterAccepted) => true,
        (_, CallState::Terminating) => !from.is_terminating_or_terminated(),
        (_, CallState::Terminated) => true,
        _ => false,
    }
}

pub open spec fn after_start_call(v: MachineView) -> MachineView {
    if v.call.state == CallState::NotYetStarted {
        v.with_state(CallState::WaitingToProceed).perform(CallAction::StartCall)
    } else {
        v
    }
}

pub open spec fn after_proceed(
    v: MachineView,
    call_config: CallConfig,
    audio_levels_interval: Option<u64>,
) -> MachineView {
    if v.call.state == CallState::WaitingToProceed {
        v.with_state(CallState::ConnectingBeforeAccepted).spawn_worker(
            WorkerTask::Proceed { call_config, audio_levels_interval },
            false,
        )
    } else {
        v
    }
}

pub open spec fn after_accept_call(v: MachineView) -> MachineView {
    if v.call.state == CallState::ConnectedBeforeAccepted {
        let v1 = v.with_state(CallState::ConnectedAndAccepted);
        let v2 = match v.call.offer_device_id {
            Some(d) => v1.with_active_device(d),
            None => v1,
        };
        v2.spawn_worker(WorkerTask::AcceptLocally, false)
    } else {
        v
    }
}

pub open spec fn after_received_answer(v: MachineView, received: ReceivedAnswer) -> MachineView {
    if v.call.state == CallState::ConnectingBeforeAccepted || v.call.state
        == CallState::ConnectedBeforeAccepted {
        v.spawn_worker(WorkerTask::ReceivedAnswer(received), false)
    } else {
        v
    }
}

pub open spec fn after_received_ice(v: MachineView, received: ReceivedIce) -> MachineView {
    if v.call.state.has_connections() {
        v.spawn_worker(WorkerTask::ReceivedIce(received), false)
    } else {
        v
    }
}

/// Whether a received hangup is dropped before the decision table: an
/// echo of this callee's own hangup, or a hangup from a device other than
/// the active one.
pub open spec fn hangup_filtered(call: Call, received: ReceivedHangup) -> bool {
    ||| call.direction == CallDirection::Incoming && received.hangup.device() == Some(
        call.local_device_id,
    )
    ||| call.active_device_id is Some && call.active_device_id != Some(received.sender_device_id)
}

/// The device a propagated hangup is not sent to.
pub open spec fn excluded_device(h: Hangup) -> DeviceId {
    match h.device() {
        Some(d) => d,
        None => 0,
    }
}

pub open spec fn after_received_hangup(v: MachineView, received: ReceivedHangup) -> MachineView {
    if hangup_filtered(v.call, received) {
        v
    } else {
        let decision = hangup_decision(
            received.hangup.kind(),
            v.call.direction,
            received.sender_device_id,
        );
        let v1 = if v.call.state.spec_can_be_terminated_remotely() {
            v.with_state(CallState::Terminating)
        } else {
            v
        };
        let v2 = match decision.propagate {
            Some(p) => if v.call.state.has_connections() {
                v1.perform(CallAction::SendHangupViaRtpDataAndSignalingToAllExcept(p, excluded_device(p)))
            } else {
                v1
            },
            None => v1,
        };
        v2.spawn_worker(WorkerTask::RemoteHangup(decision.app_event), true)
    }
}

/// First step of a remote accept: commit the active device and silence the
/// others.
pub open spec fn after_remotely_accepted(v: MachineView, device: DeviceId) -> MachineView {
    let hangup = Hangup::AcceptedOnAnotherDevice(device);
    v.with_active_device(device).perform(
        CallAction::SendHangupViaRtpDataToAllExcept(hangup, device),
    ).spawn_worker(WorkerTask::SendHangupViaSignalingAndTerminateOthers(hangup, device), false)
}

/// Second step of a remote accept: enable media.
pub open spec fn after_activate(v: MachineView) -> MachineView {
    v.spawn_worker(WorkerTask::AcceptRemotely, false)
}

pub open spec fn after_state_changed(
    v: MachineView,
    connection_state: ConnectionState,
    device: DeviceId,
) -> MachineView {
    match connection_state_action(v.call.direction, v.call.state, connection_state) {
        ConnectionStateAction::LocalRinging => v.with_state(
            CallState::ConnectedBeforeAccepted,
        ).spawn_notify(NotifyTask::Application(ApplicationEvent::LocalRinging)),
        ConnectionStateAction::RemoteRinging => v.with_state(
            CallState::ConnectedBeforeAccepted,
        ).spawn_notify(NotifyTask::Application(ApplicationEvent::RemoteRinging)),
        ConnectionStateAction::AcceptedBeforeConnected => after_remotely_accepted(
            v.with_state(CallState::ConnectingAfterAccepted),
            device,
        ),
        ConnectionStateAction::ConnectedAfterAccepted => if v.is_active_device(device) {
            after_activate(
                v.spawn_notify(NotifyTask::Application(ApplicationEvent::RemoteRinging)).with_state(
                    CallState::ConnectedAndAccepted,
                ),
            )
        } else {
            v
        },
        ConnectionStateAction::AcceptedAfterConnected => after_activate(
            after_remotely_accepted(v.with_state(CallState::ConnectedAndAccepted), device),
        ),
        ConnectionStateAction::Reconnecting => if v.is_active_device(device) {
            v.with_state(CallState::ReconnectingAfterAccepted).spawn_notify(
                NotifyTask::Application(ApplicationEvent::Reconnecting),
            )
        } else {
            v
        },
        ConnectionStateAction::Reconnected => if v.is_active_device(device) {
            v.with_state(CallState::ConnectedAndAccepted).spawn_notify(
                NotifyTask::Application(ApplicationEvent::Reconnected),
            )
        } else {
            v
        },
        ConnectionStateAction::IceFailed => v.spawn_worker(WorkerTask::HandleIceFailed(device), false),
        _ => v,
    }
}

pub open spec fn notify_flag(
    v: MachineView,
    flag: Option<bool>,
    on: ApplicationEvent,
    off: ApplicationEvent,
) -> MachineView {
    match flag {
        Some(true) => v.spawn_notify(NotifyTask::Application(on)),
        Some(false) => v.spawn_notify(NotifyTask::Application(off)),
        None => v,
    }
}

pub open spec fn after_sender_status(v: MachineView, status: SenderStatus, device: DeviceId) -> MachineView {
    if v.call.state.is_active() && v.is_active_device(device) {
        let v1 = notify_flag(
            v,
            status.video_enabled,
            ApplicationEvent::RemoteVideoEnable,
            ApplicationEvent::RemoteVideoDisable,
        );
        let v2 = notify_flag(
            v1,
            status.sharing_screen,
            ApplicationEvent::RemoteSharingScreenEnable,
            ApplicationEvent::RemoteSharingScreenDisable,
        );
        notify_flag(
            v2,
            status.audio_enabled,
            ApplicationEvent::RemoteAudioEnable,
            ApplicationEvent::RemoteAudioDisable,
        )
    } else {
        v
    }
}

pub open spec fn after_observer_event(
    v: MachineView,
    event: ConnectionObserverEvent,
    device: DeviceId,
) -> MachineView {
    match event {
        ConnectionObserverEvent::StateChanged(s) => after_state_changed(v, s, device),
        ConnectionObserverEvent::ReceivedHangup(hangup) => after_received_hangup(
            v,
            ReceivedHangup { sender_device_id: device, hangup },
        ),
        ConnectionObserverEvent::RemoteSenderStatusChanged(status) => after_sender_status(
            v,
            status,
            device,
        ),
        ConnectionObserverEvent::IceNetworkRouteChanged(route) => if v.is_active_device(device) {
            v.spawn_notify(NotifyTask::NetworkRouteChanged(route))
        } else {
            v
        },
        ConnectionObserverEvent::AudioLevels { captured_level, received_level } => v.spawn_notify(
            NotifyTask::AudioLevels(captured_level, received_level),
        ),
        ConnectionObserverEvent::LowBandwidthForVideo { recovered } => v.spawn_notify(
            NotifyTask::LowBandwidthForVideo(recovered),
        ),
    }
}

pub open spec fn after_call_timeout(v: MachineView) -> MachineView {
    if v.call.state.is_active() {
        v
    } else {
        v.spawn_worker(WorkerTask::Timeout, true)
    }
}

pub open spec fn after_send_hangup_via_rtp_data_to_all(v: MachineView, hangup: Hangup) -> MachineView {
    if v.call.state.spec_can_send_hangup_via_rtp() {
        v.spawn_worker(WorkerTask::SendHangupViaRtpDataToAll(hangup), true)
    } else {
        v
    }
}

/// A barrier waits for each pool that still runs; with none, it is
/// signaled at once.
pub open spec fn after_synchronize(v: MachineView, id: u64) -> MachineView {
    let v1 = if v.worker_stopped {
        v
    } else {
        MachineView { worker: v.worker.push(Job::Barrier(id)), ..v }
    };
    let v2 = if v.notify_stopped {
        v1
    } else {
        MachineView { notify: v1.notify.push(Job::Barrier(id)), ..v1 }
    };
    v2.settle(
        PendingBarrier { id, worker_pending: !v.worker_stopped, notify_pending: !v.notify_stopped },
    )
}

/// The queue closes, both pools stop, and the call is terminated.
/// Termination completes only once both pools are joined; a machine whose
/// queue is already closed is left as it is.
pub open spec fn after_terminate(v: MachineView) -> MachineView {
    if v.closed {
        v
    } else {
        MachineView {
            events: Seq::empty(),
            closed: true,
            worker_stopped: true,
            notify_stopped: true,
            termination: Some(PendingJoin { worker_running: true, notify_running: true }),
            ..v
        }.with_state(CallState::Terminated)
    }
}

/// What handling one event does to the machine.
pub open spec fn after_event(v: MachineView, event: CallEvent) -> MachineView {
    match event {
        CallEvent::SendHangupViaRtpDataToAll(h) => after_send_hangup_via_rtp_data_to_all(v, h),
        CallEvent::Terminate => after_terminate(v),
        CallEvent::Synchronize(id) => after_synchronize(v, id),
        _ => if v.call.state.is_terminating_or_terminated() {
            v
        } else {
            match event {
                CallEvent::StartCall => after_start_call(v),
                CallEvent::Proceed { call_config, audio_levels_interval } => after_proceed(
                    v,
                    call_config,
                    audio_levels_interval,
                ),
                CallEvent::AcceptCall => after_accept_call(v),
                CallEvent::ReceivedAnswer(r) => after_received_answer(v, r),
                CallEvent::ReceivedIce(r) => after_received_ice(v, r),
                CallEvent::ReceivedHangup(r) => after_received_hangup(v, r),
                CallEvent::ConnectionObserverEvent(e, d) => after_observer_event(v, e, d),
                CallEvent::ConnectionObserverError(msg, _) => v.spawn_worker(
                    WorkerTask::InternalError(msg),
                    true,
                ),
                CallEvent::InternalError(msg) => v.spawn_worker(WorkerTask::InternalError(msg), true),
                CallEvent::CallTimeout => after_call_timeout(v),
                _ => v,
            }
        },
    }
}

impl CallStateMachine {
    /// A machine for the call, with an open queue and running pools.
    pub fn new(call: Call) -> (r: CallStateMachine)
        ensures
            r@ == (MachineView {
                call,
                events: Seq::empty(),
                closed: false,
                worker: Seq::empty(),
                worker_stopped: false,
                notify: Seq::empty(),
                notify_stopped: false,
                actions: Seq::empty(),
                barrier: None,
                signaled: Seq::empty(),
                termination: None,
            }),
    {
        CallStateMachine {
            call,
            events: VecDeque::new(),
            closed: false,
            worker_jobs: VecDeque::new(),
            worker_stopped: false,
            notify_jobs: VecDeque::new(),
            notify_stopped: false,
            actions: Vec::new(),
            barrier: None,
            signaled: Vec::new(),
            termination: None,
        }
    }

    fn set_state(&mut self, state: CallState)
        ensures
            final(self)@ == old(self)@.with_state(state),
    {
        self.call.state = state;
    }

    fn set_active_device_id(&mut self, device: DeviceId)
        ensures
            final(self)@ == old(self)@.with_active_device(device),
    {
        if self.call.active_device_id.is_none() {
            self.call.active_device_id = Some(device);
        }
    }

    fn is_active_device(&self, device: DeviceId) -> (r: bool)
        ensures
            r == self@.is_active_device(device),
    {
        match self.call.active_device_id {
            Some(d) => d == device,
            None => false,
        }
    }

    fn perform(&mut self, action: CallAction)
        ensures
            final(self)@ == old(self)@.perform(action),
    {
        self.actions.push(action);
    }

    /// Queues a task on the worker pool, unless the pool has stopped.
    fn worker_spawn(&mut self, task: WorkerTask, even_when_terminating: bool)
        ensures
            final(self)@ == old(self)@.spawn_worker(task, even_when_terminating),
    {
        if !self.worker_stopped {
            self.worker_jobs.push_back(Job::Run(task, even_when_terminating));
        }
    }

    /// Queues a task that is skipped if the call is terminating by the time
    /// it would run.
    fn schedule_work_until_terminating(&mut self, task: WorkerTask)
        ensures
            final(self)@ == old(self)@.spawn_worker(task, false),
    {
        self.worker_spawn(task, false);
    }

    /// Queues a task that runs even once the call is terminating.
    fn schedule_work_even_when_terminating(&mut self, task: WorkerTask)
        ensures
            final(self)@ == old(self)@.spawn_worker(task, true),
    {
        self.worker_spawn(task, true);
    }

    /// Queues a notification, unless the notify pool has stopped.
    fn notify_spawn(&mut self, task: NotifyTask)
        ensures
            final(self)@ == old(self)@.spawn_notify(task),
    {
        if !self.notify_stopped {
            self.notify_jobs.push_back(Job::Run(task, false));
        }
    }

    fn notify_application(&mut self, event: ApplicationEvent)
        ensures
            final(self)@ == old(self)@.spawn_notify(NotifyTask::Application(event)),
    {
        self.notify_spawn(NotifyTask::Application(event));
    }

    fn notify_network_route_changed(&mut self, route: NetworkRoute)
        ensures
            final(self)@ == old(self)@.spawn_notify(NotifyTask::NetworkRouteChanged(route)),
    {
        self.notify_spawn(NotifyTask::NetworkRouteChanged(route));
    }

    fn notify_audio_levels(&mut self, captured_level: AudioLevel, received_level: AudioLevel)
        ensures
            final(self)@ == old(self)@.spawn_notify(
                NotifyTask::AudioLevels(captured_level, received_level),
            ),
    {
        self.notify_spawn(NotifyTask::AudioLevels(captured_level, received_level));
    }

    fn notify_low_bandwidth_for_video(&mut self, recovered: bool)
        ensures
            final(self)@ == old(self)@.spawn_notify(NotifyTask::LowBandwidthForVideo(recovered)),
    {
        self.notify_spawn(NotifyTask::LowBandwidthForVideo(recovered));
    }

    /// Stops the worker pool: it takes no new task, and what it holds is
    /// still run.
    fn drain_worker_thread(&mut self)
        ensures
            final(self)@ == (MachineView { worker_stopped: true, ..old(self)@ }),
    {
        self.worker_stopped = true;
    }

    /// Stops the notify pool: it takes no new task, and what it holds is
    /// still run.
    fn drain_notify_thread(&mut self)
        ensures
            final(self)@ == (MachineView { notify_stopped: true, ..old(self)@ }),
    {
        self.notify_stopped = true;
    }

    fn handle_remotely_accepted_connection(&mut self, device: DeviceId)
        ensures
            final(self)@ == after_remotely_accepted(old(self)@, device),
    {
        self.set_active_device_id(device);
        let hangup = Hangup::AcceptedOnAnotherDevice(device);
        self.perform(CallAction::SendHangupViaRtpDataToAllExcept(hangup, device));
        self.schedule_work_until_terminating(
            WorkerTask::SendHangupViaSignalingAndTerminateOthers(hangup, device),
        );
    }

    fn activate_remotely_accepted_connection(&mut self)
        ensures
            final(self)@ == after_activate(old(self)@),
    {
        self.schedule_work_until_terminating(WorkerTask::AcceptRemotely);
    }

    fn handle_start_call(&mut self)
        ensures
            final(self)@ == after_start_call(old(self)@),
    {
        if self.call.state == CallState::NotYetStarted {
            self.set_state(CallState::WaitingToProceed);
            self.perform(CallAction::StartCall);
        }
    }

    fn handle_proceed(&mut self, call_config: CallConfig, audio_levels_interval: Option<u64>)
        ensures
            final(self)@ == after_proceed(old(self)@, call_config, audio_levels_interval),
    {
        if self.call.state == CallState::WaitingToProceed {
            self.set_state(CallState::ConnectingBeforeAccepted);
            self.schedule_work_until_terminating(
                WorkerTask::Proceed { call_config, audio_levels_interval },
            );
        }
    }

    fn handle_accept_call(&mut self)
        ensures
            final(self)@ == after_accept_call(old(self)@),
    {
        if self.call.state.can_be_accepted_locally() {
            self.set_state(CallState::ConnectedAndAccepted);
            if let Some(d) = self.call.offer_device_id {
                self.set_active_device_id(d);
            }
            self.schedule_work_until_terminating(WorkerTask::AcceptLocally);
        }
    }

    fn handle_received_answer(&mut self, received: ReceivedAnswer)
        ensures
            final(self)@ == after_received_answer(old(self)@, received),
    {
        if self.call.state == CallState::ConnectingBeforeAccepted || self.call.state
            == CallState::ConnectedBeforeAccepted {
            self.schedule_work_until_terminating(WorkerTask::ReceivedAnswer(received));
        }
    }

    fn handle_received_ice(&mut self, received: ReceivedIce)
        ensures
            final(self)@ == after_received_ice(old(self)@, received),
    {
        if self.call.state.can_receive_ice_candidates() {
            self.schedule_work_until_terminating(WorkerTask::ReceivedIce(received));
        }
    }

    fn handle_received_hangup(&mut self, received: ReceivedHangup)
        ensures
            final(self)@ == after_received_hangup(old(self)@, received),
    {
        let direction = self.call.direction;
        let sender_device_id = received.sender_device_id;
        let (kind, hangup_device_id) = received.hangup.to_type_and_device_id();
        // A callee ignores its own hangup when the caller passes it back.
        if direction == CallDirection::Incoming {
            if let Some(d) = hangup_device_id {
                if d == self.call.local_device_id {
                    return ;
                }
            }
        }
        // Once connected to one device, hangups from the others are ignored.
        if let Some(active) = self.call.active_device_id {
            if sender_device_id != active {
                return ;
            }
        }
        let decision = decide_hangup(kind, direction, sender_device_id);
        let state = self.call.state;
        if state.can_be_terminated_remotely() {
            self.set_state(CallState::Terminating);
        }
        // Only callers propagate hangups to their other callees.
        if let Some(propagate) = decision.propagate {
            if state.should_propagate_hangup() {
                let (_, device) = propagate.to_type_and_device_id();
                let excluded = match device {
                    Some(d) => d,
                    None => 0,
                };
                self.perform(
                    CallAction::SendHangupViaRtpDataAndSignalingToAllExcept(propagate, excluded),
                );
            }
        }
        // The user always learns of a remote hangup.
        self.schedule_work_even_when_terminating(WorkerTask::RemoteHangup(decision.app_event));
    }

    fn handle_connection_state_changed(&mut self, connection_state: ConnectionState, device: DeviceId)
        ensures
            final(self)@ == after_state_changed(old(self)@, connection_state, device),
    {
        match decide_connection_state(self.call.direction, self.call.state, connection_state) {
            ConnectionStateAction::LocalRinging => {
                // Being connected over ICE is the signal for the application
                // to ring.
                self.set_state(CallState::ConnectedBeforeAccepted);
                self.notify_application(ApplicationEvent::LocalRinging);
            },
            ConnectionStateAction::RemoteRinging => {
                self.set_state(CallState::ConnectedBeforeAccepted);
                self.notify_application(ApplicationEvent::RemoteRinging);
            },
            ConnectionStateAction::AcceptedBeforeConnected => {
                self.set_state(CallState::ConnectingAfterAccepted);
                // Media waits until the connection completes.
                self.handle_remotely_accepted_connection(device);
            },
            ConnectionStateAction::ConnectedAfterAccepted => {
                if self.is_active_device(device) {
                    // The application expects to see ringing before the
                    // call connects, however short.
                    self.notify_application(ApplicationEvent::RemoteRinging);
                    self.set_state(CallState::ConnectedAndAccepted);
                    self.activate_remotely_accepted_connection();
                }
            },
            ConnectionStateAction::AcceptedAfterConnected => {
                self.set_state(CallState::ConnectedAndAccepted);
                self.handle_remotely_accepted_connection(device);
                self.activate_remotely_accepted_connection();
            },
            ConnectionStateAction::Reconnecting => {
                if self.is_active_device(device) {
                    self.set_state(CallState::ReconnectingAfterAccepted);
                    self.notify_application(ApplicationEvent::Reconnecting);
                }
            },
            ConnectionStateAction::Reconnected => {
                if self.is_active_device(device) {
                    self.set_state(CallState::ConnectedAndAccepted);
                    self.notify_application(ApplicationEvent::Reconnected);
                }
            },
            ConnectionStateAction::IceFailed => {
                self.schedule_work_until_terminating(WorkerTask::HandleIceFailed(device));
            },
            ConnectionStateAction::Ignore => {},
            ConnectionStateAction::Illegal => {},
        }
    }

    fn notify_flag(&mut self, flag: Option<bool>, on: ApplicationEvent, off: ApplicationEvent)
        ensures
            final(self)@ == notify_flag(old(self)@, flag, on, off),
    {
        match flag {
            Some(true) => self.notify_application(on),
            Some(false) => self.notify_application(off),
            None => {},
        }
    }

    fn handle_connection_observer_event(&mut self, event: ConnectionObserverEvent, device: DeviceId)
        ensures
            final(self)@ == after_observer_event(old(self)@, event, device),
    {
        match event {
            ConnectionObserverEvent::StateChanged(s) => self.handle_connection_state_changed(
                s,
                device,
            ),
            ConnectionObserverEvent::ReceivedHangup(hangup) => self.handle_received_hangup(
                ReceivedHangup { sender_device_id: device, hangup },
            ),
            ConnectionObserverEvent::RemoteSenderStatusChanged(status) => {
                if self.call.state.active() && self.is_active_device(device) {
                    self.notify_flag(
                        status.video_enabled,
                        ApplicationEvent::RemoteVideoEnable,
                        ApplicationEvent::RemoteVideoDisable,
                    );
                    self.notify_flag(
                        status.sharing_screen,
                        ApplicationEvent::RemoteSharingScreenEnable,
                        ApplicationEvent::RemoteSharingScreenDisable,
                    );
                    self.notify_flag(
                        status.audio_enabled,
                        ApplicationEvent::RemoteAudioEnable,
                        ApplicationEvent::RemoteAudioDisable,
                    );
                }
            },
            ConnectionObserverEvent::IceNetworkRouteChanged(route) => {
                // Routes are reported only for the chosen connection.
                if self.is_active_device(device) {
                    self.notify_network_route_changed(route);
                }
            },
            ConnectionObserverEvent::AudioLevels { captured_level, received_level } => {
                self.notify_audio_levels(captured_level, received_level);
            },
            ConnectionObserverEvent::LowBandwidthForVideo { recovered } => {
                self.notify_low_bandwidth_for_video(recovered);
            },
        }
    }

    fn handle_internal_error(&mut self, error: String)
        ensures
            final(self)@ == old(self)@.spawn_worker(WorkerTask::InternalError(error), true),
    {
        self.worker_spawn(WorkerTask::InternalError(error), true);
    }

    /// An error of one connection is an error of the call.
    fn handle_connection_observer_error(&mut self, error: String, _device: DeviceId)
        ensures
            final(self)@ == old(self)@.spawn_worker(WorkerTask::InternalError(error), true),
    {
        self.handle_internal_error(error);
    }

    fn handle_call_timeout(&mut self)
        ensures
            final(self)@ == after_call_timeout(old(self)@),
    {
        if !self.call.state.active() {
            self.schedule_work_even_when_terminating(WorkerTask::Timeout);
        }
    }

    fn handle_send_hangup_via_rtp_data_to_all(&mut self, hangup: Hangup)
        ensures
            final(self)@ == after_send_hangup_via_rtp_data_to_all(old(self)@, hangup),
    {
        if self.call.state.can_send_hangup_via_rtp() {
            self.schedule_work_even_when_terminating(WorkerTask::SendHangupViaRtpDataToAll(hangup));
        }
    }

    fn settle(&mut self, b: PendingBarrier)
        ensures
            final(self)@ == old(self)@.settle(b),
    {
        if !b.worker_pending && !b.notify_pending {
            self.barrier = None;
            self.signaled.push(b.id);
        } else {
            self.barrier = Some(b);
        }
    }

    fn handle_synchronize(&mut self, id: u64)
        ensures
            final(self)@ == after_synchronize(old(self)@, id),
    {
        let worker_pending = !self.worker_stopped;
        let notify_pending = !self.notify_stopped;
        if worker_pending {
            self.worker_jobs.push_back(Job::Barrier(id));
        }
        if notify_pending {
            self.notify_jobs.push_back(Job::Barrier(id));
        }
        self.settle(PendingBarrier { id, worker_pending, notify_pending });
    }

    fn handle_terminate(&mut self)
        ensures
            final(self)@ == after_terminate(old(self)@),
    {
        if self.closed {
            return ;
        }
        self.events.clear();
        self.closed = true;
        self.drain_worker_thread();
        self.drain_notify_thread();
        self.termination = Some(PendingJoin { worker_running: true, notify_running: true });
        self.set_state(CallState::Terminated);
    }

    fn settle_join(&mut self, j: PendingJoin)
        ensures
            final(self)@ == old(self)@.settle_join(j),
    {
        if !j.worker_running && !j.notify_running {
            self.termination = None;
            self.perform(CallAction::TerminateComplete);
        } else {
            self.termination = Some(j);
        }
    }

    fn worker_join(&mut self)
        ensures
            final(self)@ == old(self)@.worker_join(),
    {
        if let Some(j) = self.termination {
            if j.worker_running {
                self.settle_join(PendingJoin { worker_running: false, ..j });
            }
        }
    }

    fn notify_join(&mut self)
        ensures
            final(self)@ == old(self)@.notify_join(),
    {
        if let Some(j) = self.termination {
            if j.notify_running {
                self.settle_join(PendingJoin { notify_running: false, ..j });
            }
        }
    }

    /// Handles one event. `run` hands events here one at a time, and none
    /// while a barrier waits.
    fn handle_event(&mut self, event: CallEvent)
        ensures
            final(self)@ == after_event(old(self)@, event),
    {
        // These are handled even while terminating: the remote side has to
        // be told.
        match event {
            CallEvent::SendHangupViaRtpDataToAll(hangup) => {
                self.handle_send_hangup_via_rtp_data_to_all(hangup);
                return ;
            },
            CallEvent::Terminate => {
                self.handle_terminate();
                return ;
            },
            CallEvent::Synchronize(id) => {
                self.handle_synchronize(id);
                return ;
            },
            _ => {},
        }
        if self.call.state.terminating_or_terminated() {
            return ;
        }
        match event {
            CallEvent::StartCall => self.handle_start_call(),
            CallEvent::Proceed { call_config, audio_levels_interval } => self.handle_proceed(
                call_config,
                audio_levels_interval,
            ),
            CallEvent::AcceptCall => self.handle_accept_call(),
            CallEvent::ReceivedAnswer(r) => self.handle_received_answer(r),
            CallEvent::ReceivedIce(r) => self.handle_received_ice(r),
            CallEvent::ReceivedHangup(r) => self.handle_received_hangup(r),
            CallEvent::ConnectionObserverEvent(e, d) => self.handle_connection_observer_event(e, d),
            CallEvent::ConnectionObserverError(msg, d) => self.handle_connection_observer_error(
                msg,
                d,
            ),
            CallEvent::InternalError(msg) => self.handle_internal_error(msg),
            CallEvent::CallTimeout => self.handle_call_timeout(),
            _ => {},
        }
    }
    /// Queues an event; posting to a closed queue does nothing.
    pub fn post(&mut self, event: CallEvent)
        ensures
            final(self)@ == after_post(old(self)@, event),
    {
        if !self.closed {
            self.events.push_back(event);
        }
    }

    /// Begins termination: the call goes to `Terminating`, and `Terminate`
    /// is queued.
    pub fn terminate(&mut self)
        ensures
            final(self)@ == after_terminate_request(old(self)@),
    {
        if !self.call.state.terminating_or_terminated() {
            self.set_state(CallState::Terminating);
        }
        self.post(CallEvent::Terminate);
    }

    /// Handles queued events in order until the queue is empty or closed,
    /// or a barrier waits for the pools.
    pub fn run(&mut self)
        ensures
            final(self)@ == after_run(old(self)@),
    {
        loop
            invariant
                after_run(self@) == after_run(old(self)@),
            decreases self.events@.len(),
        {
            if self.closed || self.barrier.is_some() {
                return ;
            }
            let ghost before = self@;
            match self.events.pop_front() {
                None => {
                    return ;
                },
                Some(event) => {
                    let ghost popped = self@;
                    assert(popped == MachineView {
                        events: before.events.subrange(1, before.events.len() as int),
                        ..before
                    });
                    proof {
                        lemma_event_keeps_queue(popped, event);
                    }
                    self.handle_event(event);
                },
            }
        }
    }

    fn worker_barrier_reached(&mut self, id: u64)
        ensures
            final(self)@ == old(self)@.worker_barrier_reached(id),
    {
        if let Some(b) = self.barrier {
            if b.id == id && b.worker_pending {
                self.settle(PendingBarrier { worker_pending: false, ..b });
            }
        }
    }

    fn notify_barrier_reached(&mut self, id: u64)
        ensures
            final(self)@ == old(self)@.notify_barrier_reached(id),
    {
        if let Some(b) = self.barrier {
            if b.id == id && b.notify_pending {
                self.settle(PendingBarrier { notify_pending: false, ..b });
            }
        }
    }

    /// Takes the next task for the worker pool. Whoever runs the pool
    /// finishes a task before it takes the next one; once the pool has
    /// stopped, asking and finding nothing joins it.
    pub fn next_worker_task(&mut self) -> (r: Option<WorkerTask>)
        ensures
            (final(self)@, r) == next_worker(old(self)@),
    {
        loop
            invariant
                next_worker(self@) == next_worker(old(self)@),
            decreases self.worker_jobs@.len(),
        {
            let ghost before = self@;
            match self.worker_jobs.pop_front() {
                None => {
                    self.worker_join();
                    return None;
                },
                Some(Job::Barrier(id)) => {
                    self.worker_barrier_reached(id);
                },
                Some(Job::Run(task, even_when_terminating)) => {
                    if even_when_terminating || !self.call.state.terminating_or_terminated() {
                        return Some(task);
                    }
                },
            }
            assert(self@.worker.len() < before.worker.len());
        }
    }

    /// Takes the next notification for the application. Whoever runs the
    /// pool finishes one before it takes the next; once the pool has
    /// stopped, asking and finding nothing joins it.
    pub fn next_notify_task(&mut self) -> (r: Option<NotifyTask>)
        ensures
            (final(self)@, r) == next_notify(old(self)@),
    {
        loop
            invariant
                next_notify(self@) == next_notify(old(self)@),
            decreases self.notify_jobs@.len(),
        {
            let ghost before = self@;
            match self.notify_jobs.pop_front() {
                None => {
                    self.notify_join();
                    return None;
                },
                Some(Job::Barrier(id)) => {
                    self.notify_barrier_reached(id);
                },
                Some(Job::Run(task, _)) => {
                    if !self.call.state.terminating_or_terminated() {
                        return Some(task);
                    }
                },
            }
            assert(self@.notify.len() < before.notify.len());
        }
    }
}

} // verus!
