//! Value types of video streams: capture, WebRTC signaling, health, failures and the stream
//! itself.

use vstd::prelude::*;
use crate::audio_protocol::clone_opt_string;
use crate::protocol::{ViewportSize, opt_text};
use crate::video_pipeline::{VideoEncodingPipeline, same_pipeline};

verus! {

/// What a stream captures.
#[derive(Clone, Copy, Debug, PartialEq, Eq, Structural)]
pub enum VideoCaptureScope {
    SelectedWindow,
}

/// The window that a stream captures.
#[derive(Debug, PartialEq, Eq)]
pub struct VideoCaptureSource {
    pub scope: VideoCaptureScope,
    pub selected_window_id: String,
    pub application_id: String,
    pub title: String,
}

impl Clone for VideoCaptureSource {
    fn clone(&self) -> (r: Self)
        ensures
            r == *self,
    {
        VideoCaptureSource {
            scope: self.scope,
            selected_window_id: self.selected_window_id.clone(),
            application_id: self.application_id.clone(),
            title: self.title.clone(),
        }
    }
}

/// Where a capture runtime stands.
#[derive(Clone, Copy, Debug, PartialEq, Eq, Structural)]
pub enum VideoCaptureRuntimeState {
    Idle,
    Starting,
    Delivering,
    Failed,
    PermissionDenied,
}

/// A frame that the capture runtime delivered.
#[derive(Clone, Copy, Debug, PartialEq, Eq, Structural)]
pub struct CapturedVideoFrame {
    pub sequence: u64,
    pub timestamp_ms: u64,
    pub size: ViewportSize,
}

/// What a capture runtime reports for a stream.
#[derive(Debug, PartialEq, Eq)]
pub struct VideoCaptureRuntimeStatus {
    pub state: VideoCaptureRuntimeState,
    pub frames_delivered: u64,
    pub last_frame: Option<CapturedVideoFrame>,
    pub message: Option<String>,
}

/// The status of a runtime that reports nothing.
pub open spec fn idle_status() -> VideoCaptureRuntimeStatus {
    VideoCaptureRuntimeStatus {
        state: VideoCaptureRuntimeState::Idle,
        frames_delivered: 0,
        last_frame: None,
        message: None,
    }
}

impl Default for VideoCaptureRuntimeStatus {
    fn default() -> (s: Self)
        ensures
            s == idle_status(),
    {
        VideoCaptureRuntimeStatus {
            state: VideoCaptureRuntimeState::Idle,
            frames_delivered: 0,
            last_frame: None,
            message: None,
        }
    }
}

impl Clone for VideoCaptureRuntimeStatus {
    fn clone(&self) -> (r: Self)
        ensures
            r == *self,
    {
        VideoCaptureRuntimeStatus {
            state: self.state,
            frames_delivered: self.frames_delivered,
            last_frame: self.last_frame,
            message: clone_opt_string(&self.message),
        }
    }
}

#[derive(Clone, Copy, Debug, PartialEq, Eq, Structural)]
pub enum VideoStreamSignalingKind {
    WebRtcOffer,
}

#[derive(Clone, Copy, Debug, PartialEq, Eq, Structural)]
pub enum VideoStreamNegotiationState {
    AwaitingAnswer,
    Negotiated,
}

#[derive(Clone, Copy, Debug, PartialEq, Eq, Structural)]
pub enum WebRtcSdpType {
    Offer,
    Answer,
}

/// A WebRTC session description.
#[derive(Debug, PartialEq, Eq)]
pub struct WebRtcSessionDescription {
    pub sdp_type: WebRtcSdpType,
    pub sdp: String,
}

impl Clone for WebRtcSessionDescription {
    fn clone(&self) -> (r: Self)
        ensures
            r == *self,
    {
        WebRtcSessionDescription { sdp_type: self.sdp_type, sdp: self.sdp.clone() }
    }
}

/// A WebRTC ICE candidate.
#[derive(Debug, PartialEq, Eq)]
pub struct WebRtcIceCandidate {
    pub candidate: String,
    pub sdp_mid: Option<String>,
    pub sdp_m_line_index: Option<u32>,
}

impl Clone for WebRtcIceCandidate {
    fn clone(&self) -> (r: Self)
        ensures
            r == *self,
    {
        WebRtcIceCandidate {
            candidate: self.candidate.clone(),
            sdp_mid: clone_opt_string(&self.sdp_mid),
            sdp_m_line_index: self.sdp_m_line_index,
        }
    }
}

/// A copy of a list of candidates.
pub fn clone_candidates(v: &Vec<WebRtcIceCandidate>) -> (r: Vec<WebRtcIceCandidate>)
    ensures
        r@ == v@,
{
    let mut r: Vec<WebRtcIceCandidate> = Vec::new();
    let mut i: usize = 0;
    while i < v.len()
        invariant
            i <= v@.len(),
            r@ == v@.take(i as int),
        decreases v@.len() - i,
    {
        r.push(v[i].clone());
        i = i + 1;
        assert(r@ =~= v@.take(i as int));
    }
    assert(v@.take(v@.len() as int) =~= v@);
    r
}

/// The WebRTC signaling of a stream.
#[derive(Debug, PartialEq, Eq)]
pub struct VideoStreamSignaling {
    pub kind: VideoStreamSignalingKind,
    pub negotiation_state: VideoStreamNegotiationState,
    pub offer: Option<WebRtcSessionDescription>,
    pub answer: Option<WebRtcSessionDescription>,
    pub ice_candidates: Vec<WebRtcIceCandidate>,
}

/// Whether two signalings hold the same values.
pub open spec fn same_signaling(a: VideoStreamSignaling, b: VideoStreamSignaling) -> bool {
    &&& a.kind == b.kind
    &&& a.negotiation_state == b.negotiation_state
    &&& a.offer == b.offer
    &&& a.answer == b.answer
    &&& a.ice_candidates@ == b.ice_candidates@
}

fn clone_description(d: &Option<WebRtcSessionDescription>) -> (r: Option<WebRtcSessionDescription>)
    ensures
        r == *d,
{
    match d {
        Some(x) => Some(x.clone()),
        None => None,
    }
}

impl Clone for VideoStreamSignaling {
    fn clone(&self) -> (r: Self)
        ensures
            same_signaling(r, *self),
    {
        VideoStreamSignaling {
            kind: self.kind,
            negotiation_state: self.negotiation_state,
            offer: clone_description(&self.offer),
            answer: clone_description(&self.answer),
            ice_candidates: clone_candidates(&self.ice_candidates),
        }
    }
}

/// Counters of a stream.
#[derive(Clone, Copy, Debug, PartialEq, Eq, Structural)]
pub struct VideoStreamStats {
    pub frames_encoded: u64,
    pub bitrate_kbps: u32,
    pub latency_ms: u32,
    pub reconnect_attempts: u64,
}

/// Whether a stream is healthy, with a message.
#[derive(Debug, PartialEq, Eq)]
pub struct VideoStreamHealth {
    pub healthy: bool,
    pub message: Option<String>,
}

impl Clone for VideoStreamHealth {
    fn clone(&self) -> (r: Self)
        ensures
            r == *self,
    {
        VideoStreamHealth { healthy: self.healthy, message: clone_opt_string(&self.message) }
    }
}

#[derive(Clone, Copy, Debug, PartialEq, Eq, Structural)]
pub enum VideoStreamFailureKind {
    CaptureFailed,
    AppClosed,
}

#[derive(Clone, Copy, Debug, PartialEq, Eq, Structural)]
pub enum VideoStreamRecoveryAction {
    ReconnectStream,
    RestartApplicationSession,
}

/// What a client can do about a failure.
#[derive(Debug, PartialEq, Eq)]
pub struct VideoStreamRecovery {
    pub action: VideoStreamRecoveryAction,
    pub message: String,
    pub retryable: bool,
}

impl Clone for VideoStreamRecovery {
    fn clone(&self) -> (r: Self)
        ensures
            r == *self,
    {
        VideoStreamRecovery {
            action: self.action,
            message: self.message.clone(),
            retryable: self.retryable,
        }
    }
}

/// Why a stream failed and how to recover.
#[derive(Debug, PartialEq, Eq)]
pub struct VideoStreamFailure {
    pub kind: VideoStreamFailureKind,
    pub message: String,
    pub recovery: VideoStreamRecovery,
}

impl Clone for VideoStreamFailure {
    fn clone(&self) -> (r: Self)
        ensures
            r == *self,
    {
        VideoStreamFailure {
            kind: self.kind,
            message: self.message.clone(),
            recovery: self.recovery.clone(),
        }
    }
}

/// The lifecycle state of a stream.
#[derive(Clone, Copy, Debug, PartialEq, Eq, Structural)]
pub enum VideoStreamState {
    Starting,
    Streaming,
    Failed,
    Stopped,
}

/// A video stream of the selected window of a session.
#[derive(Debug, PartialEq, Eq)]
pub struct VideoStreamSession {
    pub id: String,
    pub session_id: String,
    pub selected_window_id: String,
    pub viewport: ViewportSize,
    pub capture_source: VideoCaptureSource,
    pub capture_runtime: VideoCaptureRuntimeStatus,
    pub encoding: VideoEncodingPipeline,
    pub signaling: VideoStreamSignaling,
    pub stats: VideoStreamStats,
    pub health: VideoStreamHealth,
    pub failure: Option<VideoStreamFailure>,
    pub state: VideoStreamState,
    pub failure_reason: Option<String>,
}

/// Whether two streams hold the same values.
pub open spec fn same_video_stream(a: VideoStreamSession, b: VideoStreamSession) -> bool {
    &&& a.id == b.id
    &&& a.session_id == b.session_id
    &&& a.selected_window_id == b.selected_window_id
    &&& a.viewport == b.viewport
    &&& a.capture_source == b.capture_source
    &&& a.capture_runtime == b.capture_runtime
    &&& same_pipeline(a.encoding, b.encoding)
    &&& same_signaling(a.signaling, b.signaling)
    &&& a.stats == b.stats
    &&& a.health == b.health
    &&& a.failure == b.failure
    &&& a.state == b.state
    &&& a.failure_reason == b.failure_reason
}

impl Clone for VideoStreamSession {
    fn clone(&self) -> (r: Self)
        ensures
            same_video_stream(r, *self),
    {
        VideoStreamSession {
            id: self.id.clone(),
            session_id: self.session_id.clone(),
            selected_window_id: self.selected_window_id.clone(),
            viewport: self.viewport,
            capture_source: self.capture_source.clone(),
            capture_runtime: self.capture_runtime.clone(),
            encoding: self.encoding.clone(),
            signaling: self.signaling.clone(),
            stats: self.stats,
            health: self.health.clone(),
            failure: match &self.failure {
                Some(f) => Some(f.clone()),
                None => None,
            },
            state: self.state,
            failure_reason: clone_opt_string(&self.failure_reason),
        }
    }
}

#[derive(Debug, PartialEq, Eq)]
pub struct StartVideoStreamRequest {
    pub session_id: String,
}

#[derive(Debug, PartialEq, Eq)]
pub struct StopVideoStreamRequest {
    pub stream_id: String,
}

#[derive(Debug, PartialEq, Eq)]
pub struct ReconnectVideoStreamRequest {
    pub stream_id: String,
}

#[derive(Debug, PartialEq, Eq)]
pub struct NegotiateVideoStreamRequest {
    pub stream_id: String,
    pub client_answer: WebRtcSessionDescription,
    pub client_ice_candidates: Vec<WebRtcIceCandidate>,
}

/// A health with the given flag and message.
pub open spec fn video_health_is(h: VideoStreamHealth, healthy: bool, message: Option<Seq<char>>) -> bool {
    h.healthy == healthy && opt_text(h.message) == message
}

} // verus!
