//! Signaling records as they travel on the wire: offers and answers carry
//! connection parameters, ICE messages carry added or removed candidates.
//! Enumerations travel as integers.

use vstd::prelude::*;

pub mod ring_intention;
pub mod ring_response;

verus! {

/// The opaque payload of an offer; new versions get new slots.
#[derive(Clone, Debug, PartialEq)]
pub struct Offer {
    pub v4: Option<ConnectionParametersV4>,
}

/// The opaque payload of an answer.
#[derive(Clone, Debug, PartialEq)]
pub struct Answer {
    pub v4: Option<ConnectionParametersV4>,
}

/// One entry of an ICE message: a candidate added, or one removed.
#[derive(Clone, Debug, PartialEq)]
pub struct IceCandidate {
    pub added_v3: Option<IceCandidateV3>,
    /// A removed candidate is named by its address and port alone.
    pub removed: Option<SocketAddr>,
}

#[derive(Clone, Debug, PartialEq)]
pub struct IceCandidateV3 {
    pub sdp: Option<String>,
}

#[derive(Clone, Debug, PartialEq)]
pub struct SocketAddr {
    /// Four bytes for IPv4, sixteen for IPv6.
    pub ip: Option<Vec<u8>>,
    pub port: Option<u32>,
}

#[derive(Clone, Debug, PartialEq)]
pub struct VideoCodec {
    /// A `VideoCodecType`, as an integer.
    pub kind: Option<i32>,
    /// Used for H264 only.
    pub level: Option<u32>,
}

#[derive(Clone, Debug, PartialEq)]
pub struct ConnectionParametersV4 {
    pub public_key: Option<Vec<u8>>,
    pub ice_ufrag: Option<String>,
    pub ice_pwd: Option<String>,
    /// The video codecs the sender can receive.
    pub receive_video_codecs: Vec<VideoCodec>,
    /// The bitrate to send with when the call is established.
    pub max_bitrate_bps: Option<u64>,
}

/// A calling message that the application carries without reading it.
#[derive(Clone, Debug, PartialEq)]
pub struct CallMessage {
    /// A serialized group call message.
    pub group_call_message: Option<Vec<u8>>,
    pub ring_intention: Option<ring_intention::RingIntention>,
    pub ring_response: Option<ring_response::RingResponse>,
}

#[derive(Clone, Copy, Debug, PartialEq, Eq, Structural, Hash, PartialOrd, Ord)]
pub enum VideoCodecType {
    Vp8,
    Vp9,
    H264ConstrainedBaseline,
    H264ConstrainedHigh,
}

impl VideoCodecType {
    /// The integer that stands for the codec on the wire.
    pub open spec fn spec_value(self) -> i32 {
        match self {
            VideoCodecType::Vp8 => 8,
            VideoCodecType::Vp9 => 9,
            VideoCodecType::H264ConstrainedBaseline => 40,
            VideoCodecType::H264ConstrainedHigh => 46,
        }
    }

    pub fn value(self) -> (r: i32)
        ensures
            r == self.spec_value(),
    {
        match self {
            VideoCodecType::Vp8 => 8,
            VideoCodecType::Vp9 => 9,
            VideoCodecType::H264ConstrainedBaseline => 40,
            VideoCodecType::H264ConstrainedHigh => 46,
        }
    }

    /// The codec that an integer stands for, if any.
    pub fn from_i32(value: i32) -> (r: Option<VideoCodecType>)
        ensures
            r matches Some(c) ==> c.spec_value() == value,
            forall|c: VideoCodecType| c.spec_value() == value ==> r == Some(c),
    {
        match value {
            8 => Some(VideoCodecType::Vp8),
            9 => Some(VideoCodecType::Vp9),
            40 => Some(VideoCodecType::H264ConstrainedBaseline),
            46 => Some(VideoCodecType::H264ConstrainedHigh),
            _ => None,
        }
    }
}

} // verus!
