//! Properties of the state machine that hold for every state and event.

use vstd::prelude::*;
use crate::call_fsm::{after_event, after_events, after_run, can_dispatch, drain_notify, drain_worker,
    hangup_filtered, legal_transition, lemma_event_keeps_queue, next_notify, next_worker, CallEvent,
    CallAction, Job, MachineView, NotifyTask, PendingBarrier, WorkerTask};
use crate::connection::ConnectionObserverEvent;
use crate::hangup::hangup_decision;
use crate::signaling::ReceivedHangup;
use crate::types::{CallDirection, CallState, ConnectionState, DeviceId};

verus! {

/// Handling any event either keeps the call's state or changes it along a
/// legal transition. Since this holds in every state, it holds along every
/// sequence of events.
pub proof fn lemma_transitions_are_legal(v: MachineView, event: CallEvent)
    ensures
        after_event(v, event).call.state == v.call.state || legal_transition(
            v.call.state,
            after_event(v, event).call.state,
        ),
{
}

/// Along any sequence of events, each event keeps the call's state or
/// changes it along a legal transition.
pub proof fn lemma_sequence_transitions_are_legal(v: MachineView, events: Seq<CallEvent>, i: int)
    requires
        0 <= i < events.len(),
    ensures
        ({
            let before = after_events(v, events.take(i)).call.state;
            let after = after_events(v, events.take(i + 1)).call.state;
            after == before || legal_transition(before, after)
        }),
{
    assert(events.take(i + 1).drop_last() =~= events.take(i));
    assert(events.take(i + 1).last() == events[i]);
    lemma_transitions_are_legal(after_events(v, events.take(i)), events[i]);
}

/// Once chosen, the active device stays the same along any sequence of
/// events.
pub proof fn lemma_sequence_keeps_active_device(v: MachineView, events: Seq<CallEvent>)
    requires
        v.call.active_device_id is Some,
    ensures
        after_events(v, events).call.active_device_id == v.call.active_device_id,
    decreases events.len(),
{
    if events.len() > 0 {
        lemma_sequence_keeps_active_device(v, events.drop_last());
        lemma_active_device_is_kept(after_events(v, events.drop_last()), events.last());
    }
}

/// Once chosen, the active device stays the same whatever event is
/// handled.
pub proof fn lemma_active_device_is_kept(v: MachineView, event: CallEvent)
    requires
        v.call.active_device_id is Some,
    ensures
        after_event(v, event).call.active_device_id == v.call.active_device_id,
{
}

/// Once chosen, the active device stays the same however many events the
/// machine runs.
pub proof fn lemma_run_keeps_active_device(v: MachineView)
    requires
        v.call.active_device_id is Some,
    ensures
        after_run(v).call.active_device_id == v.call.active_device_id,
    decreases v.events.len(),
{
    if can_dispatch(v) {
        let popped = MachineView { events: v.events.subrange(1, v.events.len() as int), ..v };
        lemma_active_device_is_kept(popped, v.events[0]);
        lemma_event_keeps_queue(popped, v.events[0]);
        let next = after_event(popped, v.events[0]);
        if next.events.len() < v.events.len() {
            lemma_run_keeps_active_device(next);
        }
    }
}

/// While the call is terminating or terminated, an event other than a
/// hangup over the media channel, a barrier or `Terminate` changes nothing.
pub proof fn lemma_terminating_ignores_events(v: MachineView, event: CallEvent)
    requires
        v.call.state.is_terminating_or_terminated(),
        !(event is SendHangupViaRtpDataToAll),
        !(event is Synchronize),
        !(event is Terminate),
    ensures
        after_event(v, event) == v,
{
}

/// A received hangup that passes the filters queues exactly one report of
/// the remote hangup to the call manager, as a task that runs even once
/// the call is terminating.
pub proof fn lemma_received_hangup_reported_once(v: MachineView, received: ReceivedHangup)
    requires
        v.wf(),
        !v.call.state.is_terminating_or_terminated(),
        !hangup_filtered(v.call, received),
    ensures
        after_event(v, CallEvent::ReceivedHangup(received)).worker == v.worker.push(
            Job::Run(
                WorkerTask::RemoteHangup(
                    hangup_decision(
                        received.hangup.kind(),
                        v.call.direction,
                        received.sender_device_id,
                    ).app_event,
                ),
                true,
            ),
        ),
{
}

/// A task that runs even once the call is terminating is never skipped:
/// when it is first in the worker's queue, it is the next one handed out.
pub proof fn lemma_worker_keeps_tasks_that_run_when_terminating(v: MachineView, task: WorkerTask)
    requires
        v.worker.len() > 0,
        v.worker[0] == Job::Run(task, true),
    ensures
        next_worker(v).1 == Some(task),
        next_worker(v).0.worker == v.worker.subrange(1, v.worker.len() as int),
{
}

/// The notify pool hands out notifications in the order they were queued:
/// the one handed out is an entry of the queue, and what stays queued is
/// exactly what followed it.
pub proof fn lemma_notify_in_submission_order(v: MachineView)
    ensures
        match next_notify(v).1 {
            Some(task) => exists|i: int|
                0 <= i < v.notify.len() && (v.notify[i] == Job::Run(task, true) || v.notify[i]
                    == Job::Run(task, false)) && next_notify(v).0.notify == v.notify.subrange(
                    i + 1,
                    v.notify.len() as int,
                ),
            None => next_notify(v).0.notify.len() == 0,
        },
    decreases v.notify.len(),
{
    if v.notify.len() > 0 {
        let rest = MachineView { notify: v.notify.subrange(1, v.notify.len() as int), ..v };
        match v.notify[0] {
            Job::Barrier(id) => {
                let r = rest.notify_barrier_reached(id);
                assert(r.notify == rest.notify);
                lemma_notify_in_submission_order(r);
                if let Some(task) = next_notify(v).1 {
                    let i = choose|i: int|
                        0 <= i < r.notify.len() && (r.notify[i] == Job::Run(task, true)
                            || r.notify[i] == Job::Run(task, false)) && next_notify(r).0.notify
                            == r.notify.subrange(i + 1, r.notify.len() as int);
                    assert(v.notify[i + 1] == r.notify[i]);
                    assert(r.notify.subrange(i + 1, r.notify.len() as int) =~= v.notify.subrange(
                        i + 2,
                        v.notify.len() as int,
                    ));
                }
            },
            Job::Run(task, _) => {
                if v.call.state.is_terminating_or_terminated() {
                    lemma_notify_in_submission_order(rest);
                    if let Some(t) = next_notify(v).1 {
                        let i = choose|i: int|
                            0 <= i < rest.notify.len() && (rest.notify[i] == Job::Run(t, true)
                                || rest.notify[i] == Job::Run(t, false)) && next_notify(
                                rest,
                            ).0.notify == rest.notify.subrange(i + 1, rest.notify.len() as int);
                        assert(v.notify[i + 1] == rest.notify[i]);
                        assert(rest.notify.subrange(i + 1, rest.notify.len() as int)
                            =~= v.notify.subrange(i + 2, v.notify.len() as int));
                    }
                }
            },
        }
    }
}

/// Once the call is terminating, the notify pool hands out no
/// notification.
pub proof fn lemma_no_notification_while_terminating(v: MachineView)
    requires
        v.call.state.is_terminating_or_terminated(),
    ensures
        next_notify(v).1 is None,
        next_notify(v).0.call == v.call,
    decreases v.notify.len(),
{
    if v.notify.len() > 0 {
        let rest = MachineView { notify: v.notify.subrange(1, v.notify.len() as int), ..v };
        match v.notify[0] {
            Job::Barrier(id) => lemma_no_notification_while_terminating(
                rest.notify_barrier_reached(id),
            ),
            Job::Run(_, _) => lemma_no_notification_while_terminating(rest),
        }
    }
}

/// After `Terminate`, the queue is closed, both pools are stopped, the
/// call is terminated, no notification reaches the application, and no
/// later event queues work. Termination completes only once both pools
/// have run or skipped everything they held and are joined; it then
/// completes exactly once, as the last action.
pub proof fn lemma_terminate_stops_everything(v: MachineView, later: CallEvent)
    requires
        v.wf(),
        !v.closed,
    ensures
        ({
            let w = after_event(v, CallEvent::Terminate);
            let joined = drain_notify(drain_worker(w));
            &&& w.closed
            &&& w.worker_stopped
            &&& w.notify_stopped
            &&& w.call.state == CallState::Terminated
            &&& w.actions == v.actions
            &&& next_notify(w).1 is None
            &&& after_event(w, later).notify == w.notify
            &&& after_event(w, later).worker == w.worker
            &&& joined.worker.len() == 0
            &&& joined.notify.len() == 0
            &&& joined.termination is None
            &&& joined.actions == v.actions.push(CallAction::TerminateComplete)
            &&& joined.call == w.call
        }),
{
    let w = after_event(v, CallEvent::Terminate);
    lemma_no_notification_while_terminating(w);
    lemma_drain_worker_frame(w);
    lemma_drain_notify_frame(drain_worker(w));
}

/// Handling an event keeps the machine consistent.
pub proof fn lemma_event_keeps_wf(v: MachineView, event: CallEvent)
    requires
        v.wf(),
    ensures
        after_event(v, event).wf(),
{
}

pub open spec fn runs_only<T>(q: Seq<Job<T>>) -> bool {
    forall|i: int| 0 <= i < q.len() ==> q[i] is Run
}

/// Taking from the worker pool touches only that pool's queue, the barriers
/// and, once it finds nothing left, a termination waiting on the pool.
proof fn lemma_next_worker_frame(v: MachineView)
    ensures
        ({
            let (n, r) = next_worker(v);
            &&& n.call == v.call
            &&& n.events == v.events
            &&& n.closed == v.closed
            &&& n.worker_stopped == v.worker_stopped
            &&& n.notify_stopped == v.notify_stopped
            &&& n.notify == v.notify
            &&& v.worker.len() > 0 ==> n.worker.len() < v.worker.len()
            &&& r is Some ==> n.termination == v.termination && n.actions == v.actions
            &&& r is None ==> n.worker.len() == 0 && n.termination == v.worker_join().termination
                && n.actions == v.worker_join().actions
            &&& runs_only(v.worker) ==> runs_only(n.worker) && n.barrier == v.barrier && n.signaled
                == v.signaled
        }),
    decreases v.worker.len(),
{
    if v.worker.len() > 0 {
        let rest = MachineView { worker: v.worker.subrange(1, v.worker.len() as int), ..v };
        assert(runs_only(v.worker) ==> runs_only(rest.worker)) by {
            if runs_only(v.worker) {
                assert forall|i: int| 0 <= i < rest.worker.len() implies rest.worker[i] is Run by {
                    assert(rest.worker[i] == v.worker[i + 1]);
                }
            }
        }
        match v.worker[0] {
            Job::Barrier(id) => {
                assert(!runs_only(v.worker));
                lemma_next_worker_frame(rest.worker_barrier_reached(id));
            },
            Job::Run(_, even_when_terminating) => {
                if !even_when_terminating && v.call.state.is_terminating_or_terminated() {
                    lemma_next_worker_frame(rest);
                }
            },
        }
    } else {
        assert(v.worker_join().worker == v.worker);
    }
}

/// Draining the worker pool empties its queue, joins it if a termination
/// waits on it, and leaves the call and the other pool as they were.
pub proof fn lemma_drain_worker_frame(v: MachineView)
    ensures
        ({
            let w = drain_worker(v);
            &&& w.call == v.call
            &&& w.events == v.events
            &&& w.closed == v.closed
            &&& w.worker_stopped == v.worker_stopped
            &&& w.notify_stopped == v.notify_stopped
            &&& w.notify == v.notify
            &&& w.worker.len() == 0
            &&& w.termination == v.worker_join().termination
            &&& w.actions == v.worker_join().actions
            &&& runs_only(v.worker) ==> w.barrier == v.barrier && w.signaled == v.signaled
        }),
    decreases v.worker.len(),
{
    lemma_next_worker_frame(v);
    if v.worker.len() > 0 {
        let n = next_worker(v).0;
        lemma_drain_worker_frame(n);
        if next_worker(v).1 is None {
            lemma_next_worker_frame(n);
        }
    }
}

/// Taking from the notify pool touches only that pool's queue, the barriers
/// and, once it finds nothing left, a termination waiting on the pool.
proof fn lemma_next_notify_frame(v: MachineView)
    ensures
        ({
            let (n, r) = next_notify(v);
            &&& n.call == v.call
            &&& n.events == v.events
            &&& n.closed == v.closed
            &&& n.worker_stopped == v.worker_stopped
            &&& n.notify_stopped == v.notify_stopped
            &&& n.worker == v.worker
            &&& v.notify.len() > 0 ==> n.notify.len() < v.notify.len()
            &&& r is Some ==> n.termination == v.termination && n.actions == v.actions
            &&& r is None ==> n.notify.len() == 0 && n.termination == v.notify_join().termination
                && n.actions == v.notify_join().actions
            &&& runs_only(v.notify) ==> runs_only(n.notify) && n.barrier == v.barrier && n.signaled
                == v.signaled
        }),
    decreases v.notify.len(),
{
    if v.notify.len() > 0 {
        let rest = MachineView { notify: v.notify.subrange(1, v.notify.len() as int), ..v };
        assert(runs_only(v.notify) ==> runs_only(rest.notify)) by {
            if runs_only(v.notify) {
                assert forall|i: int| 0 <= i < rest.notify.len() implies rest.notify[i] is Run by {
                    assert(rest.notify[i] == v.notify[i + 1]);
                }
            }
        }
        match v.notify[0] {
            Job::Barrier(id) => {
                assert(!runs_only(v.notify));
                lemma_next_notify_frame(rest.notify_barrier_reached(id));
            },
            Job::Run(_, _) => {
                if v.call.state.is_terminating_or_terminated() {
                    lemma_next_notify_frame(rest);
                }
            },
        }
    } else {
        assert(v.notify_join().notify == v.notify);
    }
}

/// Draining the notify pool empties its queue, joins it if a termination
/// waits on it, and leaves the call and the other pool as they were.
pub proof fn lemma_drain_notify_frame(v: MachineView)
    ensures
        ({
            let w = drain_notify(v);
            &&& w.call == v.call
            &&& w.events == v.events
            &&& w.closed == v.closed
            &&& w.worker_stopped == v.worker_stopped
            &&& w.notify_stopped == v.notify_stopped
            &&& w.worker == v.worker
            &&& w.notify.len() == 0
            &&& w.termination == v.notify_join().termination
            &&& w.actions == v.notify_join().actions
            &&& runs_only(v.notify) ==> w.barrier == v.barrier && w.signaled == v.signaled
        }),
    decreases v.notify.len(),
{
    lemma_next_notify_frame(v);
    if v.notify.len() > 0 {
        let n = next_notify(v).0;
        lemma_drain_notify_frame(n);
        if next_notify(v).1 is None {
            lemma_next_notify_frame(n);
        }
    }
}

/// The worker's queue holds tasks and then the marker of the pending
/// barrier.
pub open spec fn worker_ends_at_barrier(v: MachineView, b: PendingBarrier) -> bool {
    &&& v.worker.len() > 0
    &&& runs_only(v.worker.drop_last())
    &&& v.worker.last() == Job::<WorkerTask>::Barrier(b.id)
    &&& v.barrier == Some(b)
    &&& b.worker_pending
    &&& v.termination is None
}

pub open spec fn notify_ends_at_barrier(v: MachineView, b: PendingBarrier) -> bool {
    &&& v.notify.len() > 0
    &&& runs_only(v.notify.drop_last())
    &&& v.notify.last() == Job::<NotifyTask>::Barrier(b.id)
    &&& v.barrier == Some(b)
    &&& b.notify_pending
    &&& v.termination is None
}

proof fn lemma_next_worker_to_barrier(v: MachineView, b: PendingBarrier)
    requires
        worker_ends_at_barrier(v, b),
    ensures
        next_worker(v).0.worker.len() < v.worker.len(),
        next_worker(v).0 == (MachineView { worker: Seq::empty(), ..v }).settle(
            PendingBarrier { worker_pending: false, ..b },
        ) || (worker_ends_at_barrier(next_worker(v).0, b) && next_worker(v).0 == (MachineView {
            worker: next_worker(v).0.worker,
            ..v
        })),
    decreases v.worker.len(),
{
    let rest = MachineView { worker: v.worker.subrange(1, v.worker.len() as int), ..v };
    if v.worker.len() == 1 {
        assert(v.worker[0] == v.worker.last());
        assert(rest.worker =~= Seq::empty());
        let reached = rest.worker_barrier_reached(b.id);
        assert(next_worker(reached) == (reached, None::<WorkerTask>));
    } else {
        assert(v.worker.drop_last()[0] == v.worker[0]);
        assert(v.worker[0] is Run);
        assert(rest.worker.drop_last() =~= v.worker.drop_last().subrange(
            1,
            v.worker.len() - 1,
        ));
        assert(rest.worker.last() == v.worker.last());
        assert(worker_ends_at_barrier(rest, b));
        if next_worker(v).0 != rest {
            lemma_next_worker_to_barrier(rest, b);
        }
    }
}

proof fn lemma_drain_worker_reaches_barrier(v: MachineView, b: PendingBarrier)
    requires
        worker_ends_at_barrier(v, b),
    ensures
        drain_worker(v) == (MachineView { worker: Seq::empty(), ..v }).settle(
            PendingBarrier { worker_pending: false, ..b },
        ),
    decreases v.worker.len(),
{
    lemma_next_worker_to_barrier(v, b);
    let next = next_worker(v).0;
    if worker_ends_at_barrier(next, b) && next == (MachineView { worker: next.worker, ..v }) {
        lemma_drain_worker_reaches_barrier(next, b);
    } else {
        assert(next.worker.len() == 0);
        assert(drain_worker(next) == next);
    }
}

proof fn lemma_next_notify_to_barrier(v: MachineView, b: PendingBarrier)
    requires
        notify_ends_at_barrier(v, b),
    ensures
        next_notify(v).0.notify.len() < v.notify.len(),
        next_notify(v).0 == (MachineView { notify: Seq::empty(), ..v }).settle(
            PendingBarrier { notify_pending: false, ..b },
        ) || (notify_ends_at_barrier(next_notify(v).0, b) && next_notify(v).0 == (MachineView {
            notify: next_notify(v).0.notify,
            ..v
        })),
    decreases v.notify.len(),
{
    let rest = MachineView { notify: v.notify.subrange(1, v.notify.len() as int), ..v };
    if v.notify.len() == 1 {
        assert(v.notify[0] == v.notify.last());
        assert(rest.notify =~= Seq::empty());
        let reached = rest.notify_barrier_reached(b.id);
        assert(next_notify(reached) == (reached, None::<NotifyTask>));
    } else {
        assert(v.notify.drop_last()[0] == v.notify[0]);
        assert(v.notify[0] is Run);
        assert(rest.notify.drop_last() =~= v.notify.drop_last().subrange(
            1,
            v.notify.len() - 1,
        ));
        assert(rest.notify.last() == v.notify.last());
        assert(notify_ends_at_barrier(rest, b));
        if next_notify(v).0 != rest {
            lemma_next_notify_to_barrier(rest, b);
        }
    }
}

proof fn lemma_drain_notify_reaches_barrier(v: MachineView, b: PendingBarrier)
    requires
        notify_ends_at_barrier(v, b),
    ensures
        drain_notify(v) == (MachineView { notify: Seq::empty(), ..v }).settle(
            PendingBarrier { notify_pending: false, ..b },
        ),
    decreases v.notify.len(),
{
    lemma_next_notify_to_barrier(v, b);
    let next = next_notify(v).0;
    if notify_ends_at_barrier(next, b) && next == (MachineView { notify: next.notify, ..v }) {
        lemma_drain_notify_reaches_barrier(next, b);
    } else {
        assert(next.notify.len() == 0);
        assert(drain_notify(next) == next);
    }
}

/// A barrier issued when no other barrier is outstanding completes once
/// both pools have run what they hold, and leaves the call as it was.
pub proof fn lemma_synchronize_completes(v: MachineView, id: u64)
    requires
        v.wf(),
        v.barrier is None,
        runs_only(v.worker),
        runs_only(v.notify),
    ensures
        ({
            let w = drain_notify(drain_worker(after_event(v, CallEvent::Synchronize(id))));
            &&& w.call == v.call
            &&& w.signaled == v.signaled.push(id)
            &&& w.barrier is None
            &&& w.wf()
            &&& w.worker.len() == 0
            &&& w.notify.len() == 0
        }),
{
    let s = after_event(v, CallEvent::Synchronize(id));
    if v.closed {
        lemma_drain_worker_frame(s);
        lemma_drain_notify_frame(drain_worker(s));
    } else {
        let b = PendingBarrier { id, worker_pending: true, notify_pending: true };
        assert(s.worker.drop_last() =~= v.worker);
        assert(s.notify.drop_last() =~= v.notify);
        lemma_drain_worker_reaches_barrier(s, b);
        let d = drain_worker(s);
        let b2 = PendingBarrier { worker_pending: false, ..b };
        assert(notify_ends_at_barrier(d, b2));
        lemma_drain_notify_reaches_barrier(d, b2);
    }
}

/// Two identical barriers issued back to back both complete, and neither
/// changes the call.
pub proof fn lemma_synchronize_twice(v: MachineView, id: u64)
    requires
        v.wf(),
        v.barrier is None,
        runs_only(v.worker),
        runs_only(v.notify),
    ensures
        ({
            let w1 = drain_notify(drain_worker(after_event(v, CallEvent::Synchronize(id))));
            let w2 = drain_notify(drain_worker(after_event(w1, CallEvent::Synchronize(id))));
            &&& w1.call == v.call
            &&& w2.call == v.call
            &&& w1.signaled == v.signaled.push(id)
            &&& w2.signaled == v.signaled.push(id).push(id)
            &&& w2.barrier is None
        }),
{
    lemma_synchronize_completes(v, id);
    let w1 = drain_notify(drain_worker(after_event(v, CallEvent::Synchronize(id))));
    lemma_synchronize_completes(w1, id);
}

/// A second report that an outgoing call's connection is connected before
/// being accepted changes nothing.
pub proof fn lemma_duplicate_connected_before_accepted(v: MachineView, device: DeviceId)
    requires
        v.call.direction == CallDirection::Outgoing,
        v.call.state == CallState::ConnectingBeforeAccepted || v.call.state
            == CallState::ConnectedBeforeAccepted,
    ensures
        ({
            let event = CallEvent::ConnectionObserverEvent(
                ConnectionObserverEvent::StateChanged(ConnectionState::ConnectedBeforeAccepted),
                device,
            );
            let w = after_event(v, event);
            after_event(w, event) == w
        }),
{
}

} // verus!
