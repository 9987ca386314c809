//! Hangup messages and the table that decides what a received one leads to.

use vstd::prelude::*;
use crate::types::{ApplicationEvent, CallDirection, DeviceId};

verus! {

/// The kind of a hangup, without the device it names.
#[derive(Clone, Copy, Debug, PartialEq, Eq, Structural)]
pub enum HangupType {
    Normal,
    AcceptedOnAnotherDevice,
    DeclinedOnAnotherDevice,
    BusyOnAnotherDevice,
    NeedPermission,
}

/// A hangup as it travels between devices.
#[derive(Clone, Copy, Debug, PartialEq, Eq, Structural)]
pub enum Hangup {
    Normal,
    AcceptedOnAnotherDevice(DeviceId),
    DeclinedOnAnotherDevice(DeviceId),
    BusyOnAnotherDevice(DeviceId),
    NeedPermission(Option<DeviceId>),
}

impl Hangup {
    pub open spec fn kind(self) -> HangupType {
        match self {
            Hangup::Normal => HangupType::Normal,
            Hangup::AcceptedOnAnotherDevice(_) => HangupType::AcceptedOnAnotherDevice,
            Hangup::DeclinedOnAnotherDevice(_) => HangupType::DeclinedOnAnotherDevice,
            Hangup::BusyOnAnotherDevice(_) => HangupType::BusyOnAnotherDevice,
            Hangup::NeedPermission(_) => HangupType::NeedPermission,
        }
    }

    /// The device that the hangup names, if any.
    pub open spec fn device(self) -> Option<DeviceId> {
        match self {
            Hangup::Normal => None,
            Hangup::AcceptedOnAnotherDevice(d) => Some(d),
            Hangup::DeclinedOnAnotherDevice(d) => Some(d),
            Hangup::BusyOnAnotherDevice(d) => Some(d),
            Hangup::NeedPermission(d) => d,
        }
    }

    pub fn to_type_and_device_id(&self) -> (r: (HangupType, Option<DeviceId>))
        ensures
            r == (self.kind(), self.device()),
    {
        match *self {
            Hangup::Normal => (HangupType::Normal, None),
            Hangup::AcceptedOnAnotherDevice(d) => (HangupType::AcceptedOnAnotherDevice, Some(d)),
            Hangup::DeclinedOnAnotherDevice(d) => (HangupType::DeclinedOnAnotherDevice, Some(d)),
            Hangup::BusyOnAnotherDevice(d) => (HangupType::BusyOnAnotherDevice, Some(d)),
            Hangup::NeedPermission(d) => (HangupType::NeedPermission, d),
        }
    }
}

/// What to do with a received hangup that passed the filters.
#[derive(Clone, Copy, Debug, PartialEq, Eq, Structural)]
pub struct HangupDecision {
    /// False for a pair of type and direction that should not occur.
    pub expected: bool,
    /// The hangup a caller forwards to its other callees.
    pub propagate: Option<Hangup>,
    /// The event the application sees in place of the plain remote hangup.
    pub app_event: Option<ApplicationEvent>,
}

pub open spec fn hangup_decision(
    kind: HangupType,
    direction: CallDirection,
    sender: DeviceId,
) -> HangupDecision {
    match (kind, direction) {
        (HangupType::NeedPermission, CallDirection::Outgoing) => HangupDecision {
            expected: true,
            propagate: Some(Hangup::NeedPermission(Some(sender))),
            app_event: Some(ApplicationEvent::EndedRemoteHangupNeedPermission),
        },
        (HangupType::Normal, CallDirection::Incoming) => HangupDecision {
            expected: true,
            propagate: None,
            app_event: None,
        },
        (HangupType::Normal, CallDirection::Outgoing) => HangupDecision {
            expected: true,
            propagate: Some(Hangup::DeclinedOnAnotherDevice(sender)),
            app_event: None,
        },
        (HangupType::AcceptedOnAnotherDevice, CallDirection::Incoming) => HangupDecision {
            expected: true,
            propagate: None,
            app_event: Some(ApplicationEvent::EndedRemoteHangupAccepted),
        },
        (HangupType::DeclinedOnAnotherDevice, CallDirection::Incoming) => HangupDecision {
            expected: true,
            propagate: None,
            app_event: Some(ApplicationEvent::EndedRemoteHangupDeclined),
        },
        (HangupType::BusyOnAnotherDevice, CallDirection::Incoming) => HangupDecision {
            expected: true,
            propagate: None,
            app_event: Some(ApplicationEvent::EndedRemoteHangupBusy),
        },
        _ => HangupDecision { expected: false, propagate: None, app_event: None },
    }
}

/// Decides, from the kind of a received hangup and the call's direction,
/// what a caller forwards to its other callees and what the application
/// sees.
pub fn decide_hangup(kind: HangupType, direction: CallDirection, sender: DeviceId) -> (r:
    HangupDecision)
    ensures
        r == hangup_decision(kind, direction, sender),
{
    match (kind, direction) {
        (HangupType::NeedPermission, CallDirection::Outgoing) => HangupDecision {
            expected: true,
            propagate: Some(Hangup::NeedPermission(Some(sender))),
            app_event: Some(ApplicationEvent::EndedRemoteHangupNeedPermission),
        },
        (HangupType::Normal, CallDirection::Incoming) => HangupDecision {
            expected: true,
            propagate: None,
            app_event: None,
        },
        (HangupType::Normal, CallDirection::Outgoing) => HangupDecision {
            expected: true,
            propagate: Some(Hangup::DeclinedOnAnotherDevice(sender)),
            app_event: None,
        },
        (HangupType::AcceptedOnAnotherDevice, CallDirection::Incoming) => HangupDecision {
            expected: true,
            propagate: None,
            app_event: Some(ApplicationEvent::EndedRemoteHangupAccepted),
        },
        (HangupType::DeclinedOnAnotherDevice, CallDirection::Incoming) => HangupDecision {
            expected: true,
            propagate: None,
            app_event: Some(ApplicationEvent::EndedRemoteHangupDeclined),
        },
        (HangupType::BusyOnAnotherDevice, CallDirection::Incoming) => HangupDecision {
            expected: true,
            propagate: None,
            app_event: Some(ApplicationEvent::EndedRemoteHangupBusy),
        },
        _ => HangupDecision { expected: false, propagate: None, app_event: None },
    }
}

} // verus!
