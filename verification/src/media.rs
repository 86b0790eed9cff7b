//! Value types of WebRTC signaling and encoded media.

use vstd::prelude::*;
use vstd::utf8::encode_utf8;

verus! {

/// Which side of an SDP exchange a description comes from.
#[derive(Clone, Copy, Debug, PartialEq, Eq, Structural)]
pub enum SdpRole {
    Offerer,
    Answerer,
}

/// Whether a WebRTC peer drives the offer or answers one.
#[derive(Clone, Copy, Debug, PartialEq, Eq, Structural)]
pub enum WebRtcPeerRole {
    Offerer,
    Answerer,
}

/// One ICE candidate as exchanged over signaling.
#[derive(Debug, PartialEq, Eq)]
pub struct IceCandidatePayload {
    pub candidate: String,
    pub sdp_mid: String,
    pub sdp_mline_index: u32,
}

impl Clone for IceCandidatePayload {
    fn clone(&self) -> (r: Self)
        ensures
            r == *self,
    {
        IceCandidatePayload {
            candidate: self.candidate.clone(),
            sdp_mid: self.sdp_mid.clone(),
            sdp_mline_index: self.sdp_mline_index,
        }
    }
}

/// A signaling message body.
#[derive(Debug, PartialEq, Eq)]
pub enum SignalingEnvelope {
    SdpOffer { sdp: String, role: SdpRole },
    SdpAnswer { sdp: String },
    IceCandidate(IceCandidatePayload),
    EndOfCandidates,
}

impl Clone for SignalingEnvelope {
    fn clone(&self) -> (r: Self)
        ensures
            r == *self,
    {
        match self {
            SignalingEnvelope::SdpOffer { sdp, role } => SignalingEnvelope::SdpOffer {
                sdp: sdp.clone(),
                role: *role,
            },
            SignalingEnvelope::SdpAnswer { sdp } => SignalingEnvelope::SdpAnswer { sdp: sdp.clone() },
            SignalingEnvelope::IceCandidate(c) => SignalingEnvelope::IceCandidate(c.clone()),
            SignalingEnvelope::EndOfCandidates => SignalingEnvelope::EndOfCandidates,
        }
    }
}

/// The stable label of an envelope kind.
pub open spec fn envelope_kind(e: SignalingEnvelope) -> Seq<char> {
    match e {
        SignalingEnvelope::SdpOffer { .. } => "sdp-offer"@,
        SignalingEnvelope::SdpAnswer { .. } => "sdp-answer"@,
        SignalingEnvelope::IceCandidate(_) => "ice-candidate"@,
        SignalingEnvelope::EndOfCandidates => "end-of-candidates"@,
    }
}

/// The UTF-8 size of an envelope's payload: the SDP text, or the candidate line.
pub open spec fn envelope_payload_bytes(e: SignalingEnvelope) -> nat {
    match e {
        SignalingEnvelope::SdpOffer { sdp, .. } => encode_utf8(sdp@).len(),
        SignalingEnvelope::SdpAnswer { sdp } => encode_utf8(sdp@).len(),
        SignalingEnvelope::IceCandidate(c) => encode_utf8(c.candidate@).len(),
        SignalingEnvelope::EndOfCandidates => 0,
    }
}

impl SignalingEnvelope {
    /// The stable label of the envelope's kind.
    pub fn kind_label(&self) -> (r: &'static str)
        ensures
            r@ == envelope_kind(*self),
    {
        match self {
            SignalingEnvelope::SdpOffer { .. } => "sdp-offer",
            SignalingEnvelope::SdpAnswer { .. } => "sdp-answer",
            SignalingEnvelope::IceCandidate(_) => "ice-candidate",
            SignalingEnvelope::EndOfCandidates => "end-of-candidates",
        }
    }

    /// The UTF-8 size of the envelope's payload.
    pub fn payload_byte_length(&self) -> (r: usize)
        ensures
            r == envelope_payload_bytes(*self) as usize,
    {
        match self {
            SignalingEnvelope::SdpOffer { sdp, .. } => sdp.as_str().len(),
            SignalingEnvelope::SdpAnswer { sdp } => sdp.as_str().len(),
            SignalingEnvelope::IceCandidate(c) => c.candidate.as_str().len(),
            SignalingEnvelope::EndOfCandidates => 0,
        }
    }
}

/// The way a signaling message travels.
#[derive(Clone, Copy, Debug, PartialEq, Eq, Structural)]
pub enum SignalingDirection {
    OfferToAnswerer,
    AnswererToOfferer,
}

/// A queued signaling envelope with its per-session sequence number.
#[derive(Debug, PartialEq, Eq)]
pub struct SignalingMessage {
    pub sequence: u64,
    pub direction: SignalingDirection,
    pub envelope: SignalingEnvelope,
}

impl Clone for SignalingMessage {
    fn clone(&self) -> (r: Self)
        ensures
            r == *self,
    {
        SignalingMessage {
            sequence: self.sequence,
            direction: self.direction,
            envelope: self.envelope.clone(),
        }
    }
}

/// A request to queue an envelope for a session.
#[derive(Clone, Debug, PartialEq, Eq)]
pub struct SubmitSignalingRequest {
    pub session_id: String,
    pub direction: SignalingDirection,
    pub envelope: SignalingEnvelope,
}

/// What a submitted envelope was recorded as.
#[derive(Clone, Debug, PartialEq, Eq)]
pub struct SignalingSubmitAck {
    pub session_id: String,
    pub direction: SignalingDirection,
    pub sequence: u64,
    pub envelope_kind: String,
    pub payload_byte_length: u32,
}

/// A request for the envelopes queued after `since_sequence` in one direction.
#[derive(Clone, Debug, PartialEq, Eq)]
pub struct PollSignalingRequest {
    pub session_id: String,
    pub direction: SignalingDirection,
    pub since_sequence: u64,
}

/// The envelopes handed out by a poll.
#[derive(Clone, Debug, PartialEq, Eq)]
pub struct SignalingPoll {
    pub session_id: String,
    pub direction: SignalingDirection,
    pub last_sequence: u64,
    pub messages: Vec<SignalingMessage>,
}

/// One encoded video frame.
#[derive(Debug, PartialEq, Eq)]
pub struct EncodedVideoFrame {
    pub sequence: u64,
    pub timestamp_ms: u64,
    pub byte_length: u32,
    pub keyframe: bool,
    pub payload: Vec<u8>,
}

/// Whether two frames hold the same values.
pub open spec fn same_frame(a: EncodedVideoFrame, b: EncodedVideoFrame) -> bool {
    &&& a.sequence == b.sequence
    &&& a.timestamp_ms == b.timestamp_ms
    &&& a.byte_length == b.byte_length
    &&& a.keyframe == b.keyframe
    &&& a.payload@ == b.payload@
}

impl Clone for EncodedVideoFrame {
    fn clone(&self) -> (r: Self)
        ensures
            same_frame(r, *self),
    {
        EncodedVideoFrame {
            sequence: self.sequence,
            timestamp_ms: self.timestamp_ms,
            byte_length: self.byte_length,
            keyframe: self.keyframe,
            payload: crate::media::copy_bytes(&self.payload),
        }
    }
}

/// A copy of a byte buffer.
pub fn copy_bytes(v: &Vec<u8>) -> (r: Vec<u8>)
    ensures
        r@ == v@,
{
    let mut r: Vec<u8> = Vec::new();
    let mut i: usize = 0;
    while i < v.len()
        invariant
            i <= v@.len(),
            r@ == v@.take(i as int),
        decreases v@.len() - i,
    {
        r.push(v[i]);
        i = i + 1;
        assert(r@ =~= v@.take(i as int));
    }
    assert(v@.take(v@.len() as int) =~= v@);
    r
}

/// RTP/RTCP packets ready to be written to one destination.
#[derive(Clone, Debug, PartialEq, Eq)]
pub struct RtpPacketBatch {
    pub stream_id: String,
    pub packets: Vec<Vec<u8>>,
}

} // verus!
