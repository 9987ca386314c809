//! A simulated platform: it records what the call core asks of the
//! application and the signaling transport, so that tests can count it.

use vstd::prelude::*;
use crate::hangup::Hangup;
use crate::signaling::{Offer, SendAnswer, SendHangup, SendIce};
use crate::types::{ApplicationEvent, CallDirection, CallId, CallMediaType};

verus! {

/// Failures the simulated platform reports when told to.
#[derive(Clone, Copy, Debug, PartialEq, Eq, Structural)]
pub enum SimError {
    StartCallError,
    SendOfferError,
    SendAnswerError,
    SendIceCandidateError,
    SendHangupError,
    SendBusyError,
    MediaStreamError,
    CloseMediaError,
    CallConcludedError,
}

/// What the platform tells the call manager about a signaling message.
#[derive(Clone, Copy, Debug, PartialEq, Eq, Structural)]
pub enum MessageReport {
    Sent(CallId),
    SendFailure(CallId),
}

/// The kind of a group call ring update.
#[derive(Clone, Copy, Debug, PartialEq, Eq, Structural)]
pub enum RingUpdate {
    Requested,
    ExpiredRequest,
    AcceptedOnAnotherDevice,
    DeclinedOnAnotherDevice,
    BusyLocally,
    BusyOnAnotherDevice,
    CancelledByRinger,
}

/// How soon a signaling message should be delivered.
#[derive(Clone, Copy, Debug, PartialEq, Eq, Structural)]
pub enum SignalingMessageUrgency {
    Droppable,
    HandleImmediately,
}

#[derive(Clone, Debug, PartialEq, Eq)]
pub struct GroupCallRingUpdate {
    pub group_id: Vec<u8>,
    pub ring_id: i64,
    pub sender_id: Vec<u8>,
    pub update: RingUpdate,
}

#[derive(Clone, Debug, PartialEq, Eq)]
pub struct OutgoingCallMessage {
    pub recipient_id: Vec<u8>,
    pub message: Vec<u8>,
    pub urgency: SignalingMessageUrgency,
}

/// How many times each thing was asked of the platform.
#[derive(Clone, Copy, Debug, PartialEq, Eq, Structural)]
pub struct SimStats {
    pub offers_sent: usize,
    pub answers_sent: usize,
    pub ice_candidates_sent: usize,
    pub normal_hangups_sent: usize,
    pub accepted_hangups_sent: usize,
    pub declined_hangups_sent: usize,
    pub busy_hangups_sent: usize,
    pub need_permission_hangups_sent: usize,
    pub busys_sent: usize,
    pub start_outgoing: usize,
    pub start_incoming: usize,
    pub offer_expired: usize,
    pub call_concluded: usize,
    pub stream_count: usize,
}

/// The abstract state of a `SimPlatform`.
pub struct SimView {
    pub stats: SimStats,
    pub force_internal_fault: bool,
    pub force_signaling_failure: bool,
    pub no_auto_message_sent_for_ice: bool,
    /// Every application event delivered, oldest first.
    pub events: Seq<ApplicationEvent>,
    pub incoming_media_disconnected: bool,
    pub group_call_ring_updates: Seq<GroupCallRingUpdate>,
    pub outgoing_call_messages: Seq<OutgoingCallMessage>,
    pub has_call_manager: bool,
    /// What the call manager has been told, oldest first.
    pub reports: Seq<MessageReport>,
    pub last_ice_sent: Option<SendIce>,
}

/// How many entries of `s` equal `e`.
pub open spec fn count_of(s: Seq<ApplicationEvent>, e: ApplicationEvent) -> nat
    decreases s.len(),
{
    if s.len() == 0 {
        0
    } else {
        count_of(s.drop_last(), e) + if s.last() == e {
            1nat
        } else {
            0nat
        }
    }
}

/// The events that end a call.
pub open spec fn is_ended(e: ApplicationEvent) -> bool {
    match e {
        ApplicationEvent::EndedLocalHangup
        | ApplicationEvent::EndedRemoteHangup
        | ApplicationEvent::EndedRemoteBusy
        | ApplicationEvent::EndedTimeout
        | ApplicationEvent::EndedInternalFailure
        | ApplicationEvent::EndedSignalingFailure
        | ApplicationEvent::EndedConnectionFailure
        | ApplicationEvent::EndedAppDroppedCall => true,
        _ => false,
    }
}

/// How many entries of `s` end a call.
pub open spec fn ended_count_of(s: Seq<ApplicationEvent>) -> nat
    decreases s.len(),
{
    if s.len() == 0 {
        0
    } else {
        ended_count_of(s.drop_last()) + if is_ended(s.last()) {
            1nat
        } else {
            0nat
        }
    }
}

/// `s` without the entries equal to `e`.
pub open spec fn without(s: Seq<ApplicationEvent>, e: ApplicationEvent) -> Seq<ApplicationEvent>
    decreases s.len(),
{
    if s.len() == 0 {
        s
    } else if s.last() == e {
        without(s.drop_last(), e)
    } else {
        without(s.drop_last(), e).push(s.last())
    }
}

proof fn lemma_count_bounded(s: Seq<ApplicationEvent>, e: ApplicationEvent)
    ensures
        count_of(s, e) <= s.len(),
        ended_count_of(s) <= s.len(),
    decreases s.len(),
{
    if s.len() > 0 {
        lemma_count_bounded(s.drop_last(), e);
    }
}

/// Counting the entries equal to `e` in what is left after removing
/// `removed`.
pub proof fn lemma_count_without(s: Seq<ApplicationEvent>, removed: ApplicationEvent, e: ApplicationEvent)
    ensures
        count_of(without(s, removed), e) == if e == removed {
            0
        } else {
            count_of(s, e)
        },
    decreases s.len(),
{
    if s.len() > 0 {
        lemma_count_without(s.drop_last(), removed, e);
        let w = without(s.drop_last(), removed);
        if s.last() != removed {
            assert(w.push(s.last()).drop_last() =~= w);
        }
    }
}

/// Two ICE messages go to the same receiver with the same candidates,
/// byte for byte.
pub open spec fn same_ice(a: SendIce, b: SendIce) -> bool {
    &&& a.receiver_device_id == b.receiver_device_id
    &&& a.candidates@.len() == b.candidates@.len()
    &&& forall|i: int| 0 <= i < a.candidates@.len() ==> #[trigger] a.candidates@[i]@ == b.candidates@[i]@
}

/// A simulated platform that counts what it is asked to do.
pub struct SimPlatform {
    stats: SimStats,
    force_internal_fault: bool,
    force_signaling_failure: bool,
    no_auto_message_sent_for_ice: bool,
    events: Vec<ApplicationEvent>,
    incoming_media_disconnected: bool,
    group_call_ring_updates: Vec<GroupCallRingUpdate>,
    outgoing_call_messages: Vec<OutgoingCallMessage>,
    has_call_manager: bool,
    reports: Vec<MessageReport>,
    last_ice_sent: Option<SendIce>,
}

impl View for SimPlatform {
    type V = SimView;

    closed spec fn view(&self) -> SimView {
        SimView {
            stats: self.stats,
            force_internal_fault: self.force_internal_fault,
            force_signaling_failure: self.force_signaling_failure,
            no_auto_message_sent_for_ice: self.no_auto_message_sent_for_ice,
            events: self.events@,
            incoming_media_disconnected: self.incoming_media_disconnected,
            group_call_ring_updates: self.group_call_ring_updates@,
            outgoing_call_messages: self.outgoing_call_messages@,
            has_call_manager: self.has_call_manager,
            reports: self.reports@,
            last_ice_sent: self.last_ice_sent,
        }
    }
}

impl SimView {
    /// What the call manager is told after a message went out: nothing
    /// without a call manager.
    pub open spec fn report(self, call_id: CallId) -> SimView {
        if !self.has_call_manager {
            self
        } else if self.force_signaling_failure {
            SimView { reports: self.reports.push(MessageReport::SendFailure(call_id)), ..self }
        } else {
            SimView { reports: self.reports.push(MessageReport::Sent(call_id)), ..self }
        }
    }

    pub open spec fn with_stats(self, stats: SimStats) -> SimView {
        SimView { stats, ..self }
    }
}

/// The counter that a sent hangup adds to.
pub open spec fn count_hangup(stats: SimStats, hangup: Hangup) -> SimStats {
    match hangup {
        Hangup::Normal => SimStats {
            normal_hangups_sent: stats.normal_hangups_sent.wrapping_add(1),
            ..stats
        },
        Hangup::AcceptedOnAnotherDevice(_) => SimStats {
            accepted_hangups_sent: stats.accepted_hangups_sent.wrapping_add(1),
            ..stats
        },
        Hangup::DeclinedOnAnotherDevice(_) => SimStats {
            declined_hangups_sent: stats.declined_hangups_sent.wrapping_add(1),
            ..stats
        },
        Hangup::BusyOnAnotherDevice(_) => SimStats {
            busy_hangups_sent: stats.busy_hangups_sent.wrapping_add(1),
            ..stats
        },
        Hangup::NeedPermission(_) => SimStats {
            need_permission_hangups_sent: stats.need_permission_hangups_sent.wrapping_add(1),
            ..stats
        },
    }
}

impl SimPlatform {
    /// A platform with every count at zero and no failure forced.
    pub fn new() -> (r: SimPlatform)
        ensures
            r@.stats == (SimStats {
                offers_sent: 0,
                answers_sent: 0,
                ice_candidates_sent: 0,
                normal_hangups_sent: 0,
                accepted_hangups_sent: 0,
                declined_hangups_sent: 0,
                busy_hangups_sent: 0,
                need_permission_hangups_sent: 0,
                busys_sent: 0,
                start_outgoing: 0,
                start_incoming: 0,
                offer_expired: 0,
                call_concluded: 0,
                stream_count: 0,
            }),
            !r@.force_internal_fault,
            !r@.force_signaling_failure,
            !r@.no_auto_message_sent_for_ice,
            r@.events.len() == 0,
            !r@.incoming_media_disconnected,
            r@.group_call_ring_updates.len() == 0,
            r@.outgoing_call_messages.len() == 0,
            !r@.has_call_manager,
            r@.reports.len() == 0,
            r@.last_ice_sent is None,
    {
        SimPlatform {
            stats: SimStats {
                offers_sent: 0,
                answers_sent: 0,
                ice_candidates_sent: 0,
                normal_hangups_sent: 0,
                accepted_hangups_sent: 0,
                declined_hangups_sent: 0,
                busy_hangups_sent: 0,
                need_permission_hangups_sent: 0,
                busys_sent: 0,
                start_outgoing: 0,
                start_incoming: 0,
                offer_expired: 0,
                call_concluded: 0,
                stream_count: 0,
            },
            force_internal_fault: false,
            force_signaling_failure: false,
            no_auto_message_sent_for_ice: false,
            events: Vec::new(),
            incoming_media_disconnected: false,
            group_call_ring_updates: Vec::new(),
            outgoing_call_messages: Vec::new(),
            has_call_manager: false,
            reports: Vec::new(),
            last_ice_sent: None,
        }
    }

    /// Drops the call manager.
    pub fn close(&mut self)
        ensures
            final(self)@ == (SimView { has_call_manager: false, ..old(self)@ }),
    {
        self.has_call_manager = false;
    }

    /// Attaches the call manager that message reports go to.
    pub fn set_call_manager(&mut self)
        ensures
            final(self)@ == (SimView { has_call_manager: true, ..old(self)@ }),
    {
        self.has_call_manager = true;
    }

    fn message_sent(&mut self, call_id: CallId)
        requires
            !old(self).force_signaling_failure,
        ensures
            final(self)@ == old(self)@.report(call_id),
    {
        if self.has_call_manager {
            self.reports.push(MessageReport::Sent(call_id));
        }
    }

    fn message_send_failure(&mut self, call_id: CallId)
        requires
            old(self).force_signaling_failure,
        ensures
            final(self)@ == old(self)@.report(call_id),
    {
        if self.has_call_manager {
            self.reports.push(MessageReport::SendFailure(call_id));
        }
    }

    /// Reports to the call manager how sending a message went.
    fn report_message(&mut self, call_id: CallId)
        ensures
            final(self)@ == old(self)@.report(call_id),
    {
        if self.force_signaling_failure {
            self.message_send_failure(call_id);
        } else {
            self.message_sent(call_id);
        }
    }

    pub fn force_internal_fault(&mut self, enable: bool)
        ensures
            final(self)@ == (SimView { force_internal_fault: enable, ..old(self)@ }),
    {
        self.force_internal_fault = enable;
    }

    pub fn force_signaling_failure(&mut self, enable: bool)
        ensures
            final(self)@ == (SimView { force_signaling_failure: enable, ..old(self)@ }),
    {
        self.force_signaling_failure = enable;
    }

    pub fn no_auto_message_sent_for_ice(&mut self, enable: bool)
        ensures
            final(self)@ == (SimView { no_auto_message_sent_for_ice: enable, ..old(self)@ }),
    {
        self.no_auto_message_sent_for_ice = enable;
    }

    /// How many times the event was delivered.
    pub fn event_count(&self, event: ApplicationEvent) -> (r: usize)
        ensures
            r == count_of(self@.events, event),
    {
        let mut n: usize = 0;
        let mut i: usize = 0;
        while i < self.events.len()
            invariant
                i <= self.events@.len(),
                n == count_of(self.events@.take(i as int), event),
            decreases self.events@.len() - i,
        {
            proof {
                assert(self.events@.take(i + 1).drop_last() =~= self.events@.take(i as int));
                lemma_count_bounded(self.events@.take(i as int), event);
            }
            if self.events[i] == event {
                n = n + 1;
            }
            i = i + 1;
        }
        assert(self.events@.take(i as int) =~= self.events@);
        n
    }

    /// How many internal failures were delivered.
    pub fn error_count(&self) -> (r: usize)
        ensures
            r == count_of(self@.events, ApplicationEvent::EndedInternalFailure),
    {
        self.event_count(ApplicationEvent::EndedInternalFailure)
    }

    /// Forgets the internal failures delivered so far.
    pub fn clear_error_count(&mut self)
        ensures
            final(self)@ == (SimView {
                events: without(old(self)@.events, ApplicationEvent::EndedInternalFailure),
                ..old(self)@
            }),
    {
        let mut kept: Vec<ApplicationEvent> = Vec::new();
        let mut i: usize = 0;
        while i < self.events.len()
            invariant
                i <= self.events@.len(),
                kept@ == without(self.events@.take(i as int), ApplicationEvent::EndedInternalFailure),
            decreases self.events@.len() - i,
        {
            assert(self.events@.take(i + 1).drop_last() =~= self.events@.take(i as int));
            let e = self.events[i];
            if e != ApplicationEvent::EndedInternalFailure {
                kept.push(e);
            }
            i = i + 1;
        }
        assert(self.events@.take(i as int) =~= self.events@);
        self.events = kept;
    }

    /// How many delivered events ended a call.
    pub fn ended_count(&self) -> (r: usize)
        ensures
            r == ended_count_of(self@.events),
    {
        let mut n: usize = 0;
        let mut i: usize = 0;
        while i < self.events.len()
            invariant
                i <= self.events@.len(),
                n == ended_count_of(self.events@.take(i as int)),
            decreases self.events@.len() - i,
        {
            proof {
                assert(self.events@.take(i + 1).drop_last() =~= self.events@.take(i as int));
                lemma_count_bounded(self.events@.take(i as int), ApplicationEvent::EndedTimeout);
            }
            let e = self.events[i];
            if matches!(
                e,
                ApplicationEvent::EndedLocalHangup | ApplicationEvent::EndedRemoteHangup
                    | ApplicationEvent::EndedRemoteBusy | ApplicationEvent::EndedTimeout
                    | ApplicationEvent::EndedInternalFailure
                    | ApplicationEvent::EndedSignalingFailure
                    | ApplicationEvent::EndedConnectionFailure
                    | ApplicationEvent::EndedAppDroppedCall
            ) {
                n = n + 1;
            }
            i = i + 1;
        }
        assert(self.events@.take(i as int) =~= self.events@);
        n
    }

    pub fn offers_sent(&self) -> (r: usize)
        ensures
            r == self@.stats.offers_sent,
    {
        self.stats.offers_sent
    }
    pub fn answers_sent(&self) -> (r: usize)
        ensures
            r == self@.stats.answers_sent,
    {
        self.stats.answers_sent
    }

    pub fn ice_candidates_sent(&self) -> (r: usize)
        ensures
            r == self@.stats.ice_candidates_sent,
    {
        self.stats.ice_candidates_sent
    }

    pub fn normal_hangups_sent(&self) -> (r: usize)
        ensures
            r == self@.stats.normal_hangups_sent,
    {
        self.stats.normal_hangups_sent
    }

    pub fn accepted_hangups_sent(&self) -> (r: usize)
        ensures
            r == self@.stats.accepted_hangups_sent,
    {
        self.stats.accepted_hangups_sent
    }

    pub fn declined_hangups_sent(&self) -> (r: usize)
        ensures
            r == self@.stats.declined_hangups_sent,
    {
        self.stats.declined_hangups_sent
    }

    pub fn busy_hangups_sent(&self) -> (r: usize)
        ensures
            r == self@.stats.busy_hangups_sent,
    {
        self.stats.busy_hangups_sent
    }

    pub fn need_permission_hangups_sent(&self) -> (r: usize)
        ensures
            r == self@.stats.need_permission_hangups_sent,
    {
        self.stats.need_permission_hangups_sent
    }

    pub fn busys_sent(&self) -> (r: usize)
        ensures
            r == self@.stats.busys_sent,
    {
        self.stats.busys_sent
    }

    pub fn stream_count(&self) -> (r: usize)
        ensures
            r == self@.stats.stream_count,
    {
        self.stats.stream_count
    }

    pub fn start_outgoing_count(&self) -> (r: usize)
        ensures
            r == self@.stats.start_outgoing,
    {
        self.stats.start_outgoing
    }

    pub fn start_incoming_count(&self) -> (r: usize)
        ensures
            r == self@.stats.start_incoming,
    {
        self.stats.start_incoming
    }

    pub fn offer_expired_count(&self) -> (r: usize)
        ensures
            r == self@.stats.offer_expired,
    {
        self.stats.offer_expired
    }

    pub fn call_concluded_count(&self) -> (r: usize)
        ensures
            r == self@.stats.call_concluded,
    {
        self.stats.call_concluded
    }

    /// What the call manager has been told so far, oldest first.
    pub fn message_reports(&self) -> (r: Vec<MessageReport>)
        ensures
            r@ == self@.reports,
    {
        let r = self.reports.clone();
        assert(r@ =~= self.reports@);
        r
    }

    pub fn incoming_media_disconnected(&self) -> (r: bool)
        ensures
            r == self@.incoming_media_disconnected,
    {
        self.incoming_media_disconnected
    }

    /// A copy of the last ICE message handed to the platform.
    pub fn last_ice_sent(&self) -> (r: Option<SendIce>)
        ensures
            r is Some <==> self@.last_ice_sent is Some,
            r is Some ==> same_ice(r->0, self@.last_ice_sent->0),
    {
        match &self.last_ice_sent {
            Some(ice) => {
                let mut candidates: Vec<Vec<u8>> = Vec::new();
                let mut i: usize = 0;
                while i < ice.candidates.len()
                    invariant
                        i <= ice.candidates@.len(),
                        candidates@.len() == i,
                        forall|j: int| 0 <= j < i ==> #[trigger] candidates@[j]@ == ice.candidates@[j]@,
                    decreases ice.candidates@.len() - i,
                {
                    let c = ice.candidates[i].clone();
                    assert(c@ =~= ice.candidates@[i as int]@);
                    candidates.push(c);
                    i = i + 1;
                }
                Some(SendIce { receiver_device_id: ice.receiver_device_id, candidates })
            },
            None => None,
        }
    }

    /// Hands out the group call ring updates recorded so far, and forgets
    /// them.
    pub fn take_group_call_ring_updates(&mut self) -> (r: Vec<GroupCallRingUpdate>)
        ensures
            r@ == old(self)@.group_call_ring_updates,
            final(self)@ == (SimView { group_call_ring_updates: Seq::empty(), ..old(self)@ }),
    {
        let mut taken: Vec<GroupCallRingUpdate> = Vec::new();
        std::mem::swap(&mut taken, &mut self.group_call_ring_updates);
        taken
    }

    /// Hands out the call messages sent so far, and forgets them.
    pub fn take_outgoing_call_messages(&mut self) -> (r: Vec<OutgoingCallMessage>)
        ensures
            r@ == old(self)@.outgoing_call_messages,
            final(self)@ == (SimView { outgoing_call_messages: Seq::empty(), ..old(self)@ }),
    {
        let mut taken: Vec<OutgoingCallMessage> = Vec::new();
        std::mem::swap(&mut taken, &mut self.outgoing_call_messages);
        taken
    }

    /// The application is told that a call starts.
    pub fn on_start_call(
        &mut self,
        _remote_peer: &String,
        _call_id: CallId,
        direction: CallDirection,
        _call_media_type: CallMediaType,
    ) -> (r: Result<(), SimError>)
        ensures
            old(self)@.force_internal_fault ==> r == Err::<(), SimError>(SimError::StartCallError)
                && final(self)@ == old(self)@,
            !old(self)@.force_internal_fault ==> r is Ok && final(self)@ == old(self)@.with_stats(
                match direction {
                    CallDirection::Outgoing => SimStats {
                        start_outgoing: old(self)@.stats.start_outgoing.wrapping_add(1),
                        ..old(self)@.stats
                    },
                    CallDirection::Incoming => SimStats {
                        start_incoming: old(self)@.stats.start_incoming.wrapping_add(1),
                        ..old(self)@.stats
                    },
                },
            ),
    {
        if self.force_internal_fault {
            Err(SimError::StartCallError)
        } else {
            match direction {
                CallDirection::Outgoing => {
                    self.stats.start_outgoing = self.stats.start_outgoing.wrapping_add(1);
                },
                CallDirection::Incoming => {
                    self.stats.start_incoming = self.stats.start_incoming.wrapping_add(1);
                },
            }
            Ok(())
        }
    }

    /// The application receives an event.
    pub fn on_event(&mut self, _remote_peer: &String, _call_id: CallId, event: ApplicationEvent) -> (r:
        Result<(), SimError>)
        ensures
            r is Ok,
            final(self)@ == (SimView { events: old(self)@.events.push(event), ..old(self)@ }),
    {
        self.events.push(event);
        Ok(())
    }

    pub fn on_send_offer(&mut self, _remote_peer: &String, call_id: CallId, _offer: Offer) -> (r:
        Result<(), SimError>)
        ensures
            old(self)@.force_internal_fault ==> r == Err::<(), SimError>(SimError::SendOfferError)
                && final(self)@ == old(self)@,
            !old(self)@.force_internal_fault ==> r is Ok && final(self)@ == old(self)@.with_stats(
                SimStats {
                    offers_sent: old(self)@.stats.offers_sent.wrapping_add(1),
                    ..old(self)@.stats
                },
            ).report(call_id),
    {
        if self.force_internal_fault {
            Err(SimError::SendOfferError)
        } else {
            self.stats.offers_sent = self.stats.offers_sent.wrapping_add(1);
            self.report_message(call_id);
            Ok(())
        }
    }

    pub fn on_send_answer(&mut self, _remote_peer: &String, call_id: CallId, _send: SendAnswer) -> (r:
        Result<(), SimError>)
        ensures
            old(self)@.force_internal_fault ==> r == Err::<(), SimError>(SimError::SendAnswerError)
                && final(self)@ == old(self)@,
            !old(self)@.force_internal_fault ==> r is Ok && final(self)@ == old(self)@.with_stats(
                SimStats {
                    answers_sent: old(self)@.stats.answers_sent.wrapping_add(1),
                    ..old(self)@.stats
                },
            ).report(call_id),
    {
        if self.force_internal_fault {
            Err(SimError::SendAnswerError)
        } else {
            self.stats.answers_sent = self.stats.answers_sent.wrapping_add(1);
            self.report_message(call_id);
            Ok(())
        }
    }

    /// The ICE message is kept as the last one sent, even when sending
    /// fails.
    pub fn on_send_ice(&mut self, _remote_peer: &String, call_id: CallId, send: SendIce) -> (r:
        Result<(), SimError>)
        ensures
            final(self)@.last_ice_sent == Some(send),
            old(self)@.force_internal_fault ==> r == Err::<(), SimError>(
                SimError::SendIceCandidateError,
            ) && final(self)@ == (SimView { last_ice_sent: Some(send), ..old(self)@ }),
            !old(self)@.force_internal_fault ==> r is Ok && ({
                let counted = (SimView { last_ice_sent: Some(send), ..old(self)@ }).with_stats(
                    SimStats {
                        ice_candidates_sent: old(self)@.stats.ice_candidates_sent.wrapping_add(
                            send.candidates@.len() as usize,
                        ),
                        ..old(self)@.stats
                    },
                );
                final(self)@ == if old(self)@.no_auto_message_sent_for_ice {
                    counted
                } else {
                    counted.report(call_id)
                }
            }),
    {
        let n = send.candidates.len();
        self.last_ice_sent = Some(send);
        if self.force_internal_fault {
            Err(SimError::SendIceCandidateError)
        } else {
            self.stats.ice_candidates_sent = self.stats.ice_candidates_sent.wrapping_add(n);
            if !self.no_auto_message_sent_for_ice {
                self.report_message(call_id);
            }
            Ok(())
        }
    }

    /// Counts a hangup by its kind.
    pub fn on_send_hangup(&mut self, _remote_peer: &String, call_id: CallId, send: SendHangup) -> (r:
        Result<(), SimError>)
        ensures
            old(self)@.force_internal_fault ==> r == Err::<(), SimError>(SimError::SendHangupError)
                && final(self)@ == old(self)@,
            !old(self)@.force_internal_fault ==> r is Ok && final(self)@ == old(self)@.with_stats(
                count_hangup(old(self)@.stats, send.hangup),
            ).report(call_id),
    {
        if self.force_internal_fault {
            Err(SimError::SendHangupError)
        } else {
            match send.hangup {
                Hangup::Normal => {
                    self.stats.normal_hangups_sent = self.stats.normal_hangups_sent.wrapping_add(1);
                },
                Hangup::AcceptedOnAnotherDevice(_) => {
                    self.stats.accepted_hangups_sent = self.stats.accepted_hangups_sent.wrapping_add(
                        1,
                    );
                },
                Hangup::DeclinedOnAnotherDevice(_) => {
                    self.stats.declined_hangups_sent = self.stats.declined_hangups_sent.wrapping_add(
                        1,
                    );
                },
                Hangup::BusyOnAnotherDevice(_) => {
                    self.stats.busy_hangups_sent = self.stats.busy_hangups_sent.wrapping_add(1);
                },
                Hangup::NeedPermission(_) => {
                    self.stats.need_permission_hangups_sent =
                    self.stats.need_permission_hangups_sent.wrapping_add(1);
                },
            }
            self.report_message(call_id);
            Ok(())
        }
    }

    pub fn on_send_busy(&mut self, _remote_peer: &String, call_id: CallId) -> (r: Result<(), SimError>)
        ensures
            old(self)@.force_internal_fault ==> r == Err::<(), SimError>(SimError::SendBusyError)
                && final(self)@ == old(self)@,
            !old(self)@.force_internal_fault ==> r is Ok && final(self)@ == old(self)@.with_stats(
                SimStats { busys_sent: old(self)@.stats.busys_sent.wrapping_add(1), ..old(self)@.stats },
            ).report(call_id),
    {
        if self.force_internal_fault {
            Err(SimError::SendBusyError)
        } else {
            self.stats.busys_sent = self.stats.busys_sent.wrapping_add(1);
            self.report_message(call_id);
            Ok(())
        }
    }

    pub fn send_call_message(
        &mut self,
        recipient_id: Vec<u8>,
        message: Vec<u8>,
        urgency: SignalingMessageUrgency,
    ) -> (r: Result<(), SimError>)
        ensures
            r is Ok,
            final(self)@ == (SimView {
                outgoing_call_messages: old(self)@.outgoing_call_messages.push(
                    OutgoingCallMessage { recipient_id, message, urgency },
                ),
                ..old(self)@
            }),
    {
        self.outgoing_call_messages.push(OutgoingCallMessage { recipient_id, message, urgency });
        Ok(())
    }

    /// Sends the message to each recipient in turn.
    pub fn send_call_message_to_group(
        &mut self,
        _group_id: Vec<u8>,
        message: Vec<u8>,
        urgency: SignalingMessageUrgency,
        recipients: Vec<Vec<u8>>,
    ) -> (r: Result<(), SimError>)
        ensures
            r is Ok,
            final(self)@.outgoing_call_messages.len() == old(self)@.outgoing_call_messages.len()
                + recipients@.len(),
            forall|i: int|
                0 <= i < recipients@.len() ==> ({
                    let m = #[trigger] final(self)@.outgoing_call_messages[old(
                        self,
                    )@.outgoing_call_messages.len() + i];
                    m.recipient_id@ == recipients@[i]@ && m.urgency == urgency && m.message@
                        == message@
                }),
            final(self)@.outgoing_call_messages.subrange(
                0,
                old(self)@.outgoing_call_messages.len() as int,
            ) == old(self)@.outgoing_call_messages,
            final(self)@ == (SimView {
                outgoing_call_messages: final(self)@.outgoing_call_messages,
                ..old(self)@
            }),
    {
        let ghost start = self.outgoing_call_messages@;
        let mut i: usize = 0;
        while i < recipients.len()
            invariant
                i <= recipients@.len(),
                self.outgoing_call_messages@.len() == start.len() + i,
                self.outgoing_call_messages@.subrange(0, start.len() as int) == start,
                forall|j: int|
                    0 <= j < i ==> ({
                        let m = #[trigger] self.outgoing_call_messages@[start.len() + j];
                        m.recipient_id@ == recipients@[j]@ && m.urgency == urgency && m.message@
                            == message@
                    }),
                self@ == (SimView { outgoing_call_messages: self.outgoing_call_messages@, ..old(self)@ }),
                start == old(self)@.outgoing_call_messages,
            decreases recipients@.len() - i,
        {
            let ghost prev = self.outgoing_call_messages@;
            let recipient_id = recipients[i].clone();
            assert(recipient_id@ =~= recipients@[i as int]@);
            let copy = message.clone();
            assert(copy@ =~= message@);
            self.outgoing_call_messages.push(OutgoingCallMessage { recipient_id, message: copy, urgency });
            assert(self.outgoing_call_messages@.subrange(0, start.len() as int) =~= prev.subrange(
                0,
                start.len() as int,
            ));
            i = i + 1;
        }
        Ok(())
    }

    pub fn connect_incoming_media(&mut self, _remote_peer: &String, _call_context: &String) -> (r:
        Result<(), SimError>)
        ensures
            old(self)@.force_internal_fault ==> r == Err::<(), SimError>(SimError::MediaStreamError)
                && final(self)@ == old(self)@,
            !old(self)@.force_internal_fault ==> r is Ok && final(self)@ == old(self)@.with_stats(
                SimStats { stream_count: old(self)@.stats.stream_count.wrapping_add(1), ..old(self)@.stats },
            ),
    {
        if self.force_internal_fault {
            Err(SimError::MediaStreamError)
        } else {
            self.stats.stream_count = self.stats.stream_count.wrapping_add(1);
            Ok(())
        }
    }

    pub fn disconnect_incoming_media(&mut self, _call_context: &String) -> (r: Result<(), SimError>)
        ensures
            old(self)@.force_internal_fault ==> r == Err::<(), SimError>(SimError::CloseMediaError)
                && final(self)@ == old(self)@,
            !old(self)@.force_internal_fault ==> r is Ok && final(self)@ == (SimView {
                incoming_media_disconnected: true,
                ..old(self)@
            }),
    {
        if self.force_internal_fault {
            Err(SimError::CloseMediaError)
        } else {
            self.incoming_media_disconnected = true;
            Ok(())
        }
    }

    /// Two remote peers are the same when their names are.
    pub fn compare_remotes(&self, remote_peer1: &String, remote_peer2: &String) -> (r: bool)
        ensures
            r == (remote_peer1@ == remote_peer2@),
    {
        remote_peer1.eq(remote_peer2)
    }

    pub fn on_offer_expired(&mut self, _remote_peer: &String, _call_id: CallId) -> (r: Result<(), SimError>)
        ensures
            r is Ok,
            final(self)@ == old(self)@.with_stats(
                SimStats { offer_expired: old(self)@.stats.offer_expired.wrapping_add(1), ..old(self)@.stats },
            ),
    {
        self.stats.offer_expired = self.stats.offer_expired.wrapping_add(1);
        Ok(())
    }

    pub fn on_call_concluded(&mut self, _remote_peer: &String, _call_id: CallId) -> (r: Result<(), SimError>)
        ensures
            old(self)@.force_internal_fault ==> r == Err::<(), SimError>(SimError::CallConcludedError)
                && final(self)@ == old(self)@,
            !old(self)@.force_internal_fault ==> r is Ok && final(self)@ == old(self)@.with_stats(
                SimStats { call_concluded: old(self)@.stats.call_concluded.wrapping_add(1), ..old(self)@.stats },
            ),
    {
        if self.force_internal_fault {
            Err(SimError::CallConcludedError)
        } else {
            self.stats.call_concluded = self.stats.call_concluded.wrapping_add(1);
            Ok(())
        }
    }

    pub fn group_call_ring_update(
        &mut self,
        group_id: Vec<u8>,
        ring_id: i64,
        sender_id: Vec<u8>,
        update: RingUpdate,
    )
        ensures
            final(self)@ == (SimView {
                group_call_ring_updates: old(self)@.group_call_ring_updates.push(
                    GroupCallRingUpdate { group_id, ring_id, sender_id, update },
                ),
                ..old(self)@
            }),
    {
        self.group_call_ring_updates.push(GroupCallRingUpdate { group_id, ring_id, sender_id, update });
    }
}

} // verus!
