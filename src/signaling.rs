//! Signaling payloads as the state machine receives them.

use vstd::prelude::*;
use crate::hangup::Hangup;
use crate::types::DeviceId;

verus! {

/// An answer from one callee device; the payload travels unmodified.
#[derive(Clone, Debug)]
pub struct ReceivedAnswer {
    pub sender_device_id: DeviceId,
    pub opaque: Vec<u8>,
}

/// ICE candidates added or removed by one remote device.
#[derive(Clone, Debug)]
pub struct ReceivedIce {
    pub sender_device_id: DeviceId,
    pub candidates: Vec<Vec<u8>>,
}

/// A hangup received from one remote device.
#[derive(Clone, Copy, Debug, PartialEq, Eq, Structural)]
pub struct ReceivedHangup {
    pub sender_device_id: DeviceId,
    pub hangup: Hangup,
}

} // verus!

verus! {

/// An offer as handed to the signaling transport.
#[derive(Clone, Debug)]
pub struct Offer {
    pub opaque: Vec<u8>,
}

/// An answer to send to the caller's device.
#[derive(Clone, Debug)]
pub struct SendAnswer {
    pub receiver_device_id: DeviceId,
    pub opaque: Vec<u8>,
}

/// ICE candidates to send; without a receiver they go to every device.
#[derive(Clone, Debug)]
pub struct SendIce {
    pub receiver_device_id: Option<DeviceId>,
    pub candidates: Vec<Vec<u8>>,
}

/// A hangup to send; without a receiver it goes to every device.
#[derive(Clone, Copy, Debug, PartialEq, Eq, Structural)]
pub struct SendHangup {
    pub receiver_device_id: Option<DeviceId>,
    pub hangup: Hangup,
}

} // verus!
