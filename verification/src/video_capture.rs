//! Capturing the selected window of a session: the capture backends, and the in-memory
//! macOS capture runtimes that record what they are asked and report per-stream status.

use vstd::prelude::*;
use crate::audio_protocol::clone_strings;
use crate::protocol::{AppRelayError, ApplicationSession, Feature, Platform, ViewportSize};
use crate::text::{chars_of, extend_chars, string_from_chars};
use crate::text_table::TextTable;
use crate::video_protocol::{
    CapturedVideoFrame, VideoCaptureRuntimeState, VideoCaptureRuntimeStatus, VideoCaptureScope,
    VideoCaptureSource, VideoStreamNegotiationState, VideoStreamSignaling,
    VideoStreamSignalingKind, WebRtcIceCandidate, WebRtcSdpType, WebRtcSessionDescription,
};

verus! {

/// A request to start capturing a window.
#[derive(Debug, PartialEq, Eq)]
pub struct MacosWindowCaptureStartRequest {
    pub stream_id: String,
    pub selected_window_id: String,
    pub application_id: String,
    pub title: String,
    pub target_viewport: ViewportSize,
}

impl Clone for MacosWindowCaptureStartRequest {
    fn clone(&self) -> (r: Self)
        ensures
            r == *self,
    {
        MacosWindowCaptureStartRequest {
            stream_id: self.stream_id.clone(),
            selected_window_id: self.selected_window_id.clone(),
            application_id: self.application_id.clone(),
            title: self.title.clone(),
            target_viewport: self.target_viewport,
        }
    }
}

/// A request to resize the capture of a window.
#[derive(Debug, PartialEq, Eq)]
pub struct MacosWindowCaptureResizeRequest {
    pub stream_id: String,
    pub selected_window_id: String,
    pub target_viewport: ViewportSize,
}

impl Clone for MacosWindowCaptureResizeRequest {
    fn clone(&self) -> (r: Self)
        ensures
            r == *self,
    {
        MacosWindowCaptureResizeRequest {
            stream_id: self.stream_id.clone(),
            selected_window_id: self.selected_window_id.clone(),
            target_viewport: self.target_viewport,
        }
    }
}

/// The requests a runtime received, in order.
#[derive(Debug, PartialEq, Eq)]
pub struct MacosWindowCaptureRuntimeCalls {
    pub starts: Vec<MacosWindowCaptureStartRequest>,
    pub resizes: Vec<MacosWindowCaptureResizeRequest>,
    pub stops: Vec<String>,
}

fn clone_starts(v: &Vec<MacosWindowCaptureStartRequest>) -> (r: Vec<MacosWindowCaptureStartRequest>)
    ensures
        r@ == v@,
{
    let mut r: Vec<MacosWindowCaptureStartRequest> = Vec::new();
    let mut i: usize = 0;
    while i < v.len()
        invariant
            i <= v@.len(),
            r@ == v@.take(i as int),
        decreases v@.len() - i,
    {
        r.push(v[i].clone());
        i = i + 1;
        assert(r@ =~= v@.take(i as int));
    }
    assert(v@.take(v@.len() as int) =~= v@);
    r
}

fn clone_resizes(v: &Vec<MacosWindowCaptureResizeRequest>) -> (r: Vec<MacosWindowCaptureResizeRequest>)
    ensures
        r@ == v@,
{
    let mut r: Vec<MacosWindowCaptureResizeRequest> = Vec::new();
    let mut i: usize = 0;
    while i < v.len()
        invariant
            i <= v@.len(),
            r@ == v@.take(i as int),
        decreases v@.len() - i,
    {
        r.push(v[i].clone());
        i = i + 1;
        assert(r@ =~= v@.take(i as int));
    }
    assert(v@.take(v@.len() as int) =~= v@);
    r
}

impl Clone for MacosWindowCaptureRuntimeCalls {
    fn clone(&self) -> (r: Self)
        ensures
            r.starts@ == self.starts@,
            r.resizes@ == self.resizes@,
            r.stops@ == self.stops@,
    {
        MacosWindowCaptureRuntimeCalls {
            starts: clone_starts(&self.starts),
            resizes: clone_resizes(&self.resizes),
            stops: clone_strings(&self.stops),
        }
    }
}

impl Default for MacosWindowCaptureRuntimeCalls {
    fn default() -> (c: Self)
        ensures
            c.starts@.len() == 0,
            c.resizes@.len() == 0,
            c.stops@.len() == 0,
    {
        MacosWindowCaptureRuntimeCalls { starts: Vec::new(), resizes: Vec::new(), stops: Vec::new() }
    }
}

/// The status a runtime reports for a stream whose capture just started.
pub open spec fn starting_status() -> VideoCaptureRuntimeStatus {
    VideoCaptureRuntimeStatus {
        state: VideoCaptureRuntimeState::Starting,
        frames_delivered: 0,
        last_frame: None,
        message: None,
    }
}

/// The value of a runtime: the requests it received, the status of each stream, and (for
/// the test runtime) the failures queued for the next starts and resizes.
pub struct RuntimeView {
    pub starts: Seq<MacosWindowCaptureStartRequest>,
    pub resizes: Seq<MacosWindowCaptureResizeRequest>,
    pub stops: Seq<Seq<char>>,
    pub snapshots: Map<Seq<char>, VideoCaptureRuntimeStatus>,
    pub start_failures: Seq<String>,
    pub resize_failures: Seq<String>,
}

/// What a runtime holds before its first request: nothing received, no status, no failure
/// queued.
pub open spec fn empty_runtime_view() -> RuntimeView {
    RuntimeView {
        starts: Seq::empty(),
        resizes: Seq::empty(),
        stops: Seq::empty(),
        snapshots: Map::empty(),
        start_failures: Seq::empty(),
        resize_failures: Seq::empty(),
    }
}

pub open spec fn texts_of(v: Seq<String>) -> Seq<Seq<char>> {
    v.map_values(|s: String| s@)
}

/// The in-memory runtime used when no native capture is wired: it records the requests
/// and reports each started stream as starting.
#[derive(Debug)]
pub struct ControlPlaneMacosWindowCaptureRuntime {
    calls: MacosWindowCaptureRuntimeCalls,
    snapshots: TextTable<VideoCaptureRuntimeStatus>,
}

/// An in-memory runtime for tests: it records the requests, reports per-stream status,
/// can be told to fail the next start or resize, and can be made to deliver frames, fail
/// or lose permission.
#[derive(Debug)]
pub struct FakeMacosWindowCaptureRuntime {
    calls: MacosWindowCaptureRuntimeCalls,
    snapshots: TextTable<VideoCaptureRuntimeStatus>,
    start_failures: Vec<String>,
    resize_failures: Vec<String>,
}

/// The macOS capture runtime of a backend.
#[derive(Debug)]
pub enum MacosWindowCaptureRuntime {
    ControlPlane(ControlPlaneMacosWindowCaptureRuntime),
    Fake(FakeMacosWindowCaptureRuntime),
}

impl ControlPlaneMacosWindowCaptureRuntime {
    pub closed spec fn view_of(&self) -> RuntimeView {
        RuntimeView {
            starts: self.calls.starts@,
            resizes: self.calls.resizes@,
            stops: texts_of(self.calls.stops@),
            snapshots: self.snapshots@,
            start_failures: Seq::empty(),
            resize_failures: Seq::empty(),
        }
    }

    /// A runtime that received nothing.
    pub fn new() -> (r: Self)
        ensures
            r.view_of() == empty_runtime_view(),
            r.view_of().starts.len() == 0,
            r.view_of().resizes.len() == 0,
            r.view_of().stops.len() == 0,
            r.view_of().snapshots == Map::<Seq<char>, VideoCaptureRuntimeStatus>::empty(),
    {
        let r = ControlPlaneMacosWindowCaptureRuntime {
            calls: MacosWindowCaptureRuntimeCalls::default(),
            snapshots: TextTable::new(),
        };
        assert(texts_of(r.calls.stops@) =~= Seq::<Seq<char>>::empty());
        assert(r.calls.starts@ =~= Seq::<MacosWindowCaptureStartRequest>::empty());
        assert(r.calls.resizes@ =~= Seq::<MacosWindowCaptureResizeRequest>::empty());
        r
    }
}

impl FakeMacosWindowCaptureRuntime {
    pub closed spec fn view_of(&self) -> RuntimeView {
        RuntimeView {
            starts: self.calls.starts@,
            resizes: self.calls.resizes@,
            stops: texts_of(self.calls.stops@),
            snapshots: self.snapshots@,
            start_failures: self.start_failures@,
            resize_failures: self.resize_failures@,
        }
    }

    /// A runtime that received nothing and has no failure queued.
    pub fn new() -> (r: Self)
        ensures
            r.view_of() == empty_runtime_view(),
            r.view_of().starts.len() == 0,
            r.view_of().resizes.len() == 0,
            r.view_of().stops.len() == 0,
            r.view_of().snapshots == Map::<Seq<char>, VideoCaptureRuntimeStatus>::empty(),
            r.view_of().start_failures.len() == 0,
            r.view_of().resize_failures.len() == 0,
    {
        let r = FakeMacosWindowCaptureRuntime {
            calls: MacosWindowCaptureRuntimeCalls::default(),
            snapshots: TextTable::new(),
            start_failures: Vec::new(),
            resize_failures: Vec::new(),
        };
        assert(texts_of(r.calls.stops@) =~= Seq::<Seq<char>>::empty());
        assert(r.calls.starts@ =~= Seq::<MacosWindowCaptureStartRequest>::empty());
        assert(r.calls.resizes@ =~= Seq::<MacosWindowCaptureResizeRequest>::empty());
        assert(r.start_failures@ =~= Seq::<String>::empty());
        assert(r.resize_failures@ =~= Seq::<String>::empty());
        r
    }

    /// Makes a later start fail with `message` (the most recently queued failure comes
    /// first).
    pub fn fail_next_start(&mut self, message: &str)
        ensures
            final(self).view_of().start_failures.len() == old(self).view_of().start_failures.len() + 1,
            final(self).view_of().start_failures.drop_last() == old(self).view_of().start_failures,
            final(self).view_of().start_failures.last()@ == message@,
            final(self).view_of().starts == old(self).view_of().starts,
            final(self).view_of().resizes == old(self).view_of().resizes,
            final(self).view_of().stops == old(self).view_of().stops,
            final(self).view_of().snapshots == old(self).view_of().snapshots,
            final(self).view_of().resize_failures == old(self).view_of().resize_failures,
    {
        self.start_failures.push(String::from_str(message));
        assert(self.start_failures@.drop_last() =~= old(self).start_failures@);
    }

    /// Makes a later resize fail with `message` (the most recently queued failure comes
    /// first).
    pub fn fail_next_resize(&mut self, message: &str)
        ensures
            final(self).view_of().resize_failures.len() == old(self).view_of().resize_failures.len() + 1,
            final(self).view_of().resize_failures.drop_last() == old(self).view_of().resize_failures,
            final(self).view_of().resize_failures.last()@ == message@,
            final(self).view_of().starts == old(self).view_of().starts,
            final(self).view_of().resizes == old(self).view_of().resizes,
            final(self).view_of().stops == old(self).view_of().stops,
            final(self).view_of().snapshots == old(self).view_of().snapshots,
            final(self).view_of().start_failures == old(self).view_of().start_failures,
    {
        self.resize_failures.push(String::from_str(message));
        assert(self.resize_failures@.drop_last() =~= old(self).resize_failures@);
    }

    /// The requests received so far.
    pub fn calls(&self) -> (c: MacosWindowCaptureRuntimeCalls)
        ensures
            c.starts@ == self.view_of().starts,
            c.resizes@ == self.view_of().resizes,
            texts_of(c.stops@) == self.view_of().stops,
    {
        self.calls.clone()
    }
}

/// The status after one more frame of `size` at `timestamp_ms` was delivered.
pub open spec fn delivered_status(
    previous: Option<VideoCaptureRuntimeStatus>,
    size: ViewportSize,
    timestamp_ms: u64,
) -> VideoCaptureRuntimeStatus {
    let before = match previous {
        Some(s) => s.frames_delivered,
        None => 0,
    };
    VideoCaptureRuntimeStatus {
        state: VideoCaptureRuntimeState::Delivering,
        frames_delivered: (before + 1) as u64,
        last_frame: Some(
            CapturedVideoFrame { sequence: (before + 1) as u64, timestamp_ms, size },
        ),
        message: None,
    }
}

impl FakeMacosWindowCaptureRuntime {
    /// Delivers one more frame for stream `stream_id`.
    pub fn deliver_frame(&mut self, stream_id: &str, size: ViewportSize, timestamp_ms: u64) -> (s:
        VideoCaptureRuntimeStatus)
        requires
            old(self).view_of().snapshots.contains_key(stream_id@) ==> old(
                self,
            ).view_of().snapshots[stream_id@].frames_delivered < u64::MAX,
        ensures
            s == delivered_status(
                old(self).view_of().snapshots.index_opt(stream_id@),
                size,
                timestamp_ms,
            ),
            final(self).view_of().snapshots == old(self).view_of().snapshots.insert(stream_id@, s),
            final(self).view_of().starts == old(self).view_of().starts,
            final(self).view_of().resizes == old(self).view_of().resizes,
            final(self).view_of().stops == old(self).view_of().stops,
            final(self).view_of().start_failures == old(self).view_of().start_failures,
            final(self).view_of().resize_failures == old(self).view_of().resize_failures,
    {
        let before = match self.snapshots.get(stream_id) {
            Some(p) => p.frames_delivered,
            None => 0,
        };
        let sequence = before + 1;
        let snapshot = VideoCaptureRuntimeStatus {
            state: VideoCaptureRuntimeState::Delivering,
            frames_delivered: sequence,
            last_frame: Some(CapturedVideoFrame { sequence, timestamp_ms, size }),
            message: None,
        };
        self.snapshots.insert(stream_id, snapshot.clone());
        snapshot
    }

    /// Reports stream `stream_id` as failed with `message`, keeping its frame counters.
    pub fn fail_stream(&mut self, stream_id: &str, message: &str)
        ensures
            final(self).view_of().snapshots == old(self).view_of().snapshots.insert(
                stream_id@,
                final(self).view_of().snapshots[stream_id@],
            ),
            terminal_status_ok(
                final(self).view_of().snapshots[stream_id@],
                old(self).view_of().snapshots.index_opt(stream_id@),
                VideoCaptureRuntimeState::Failed,
                message@,
            ),
            final(self).view_of().starts == old(self).view_of().starts,
            final(self).view_of().resizes == old(self).view_of().resizes,
            final(self).view_of().stops == old(self).view_of().stops,
            final(self).view_of().start_failures == old(self).view_of().start_failures,
            final(self).view_of().resize_failures == old(self).view_of().resize_failures,
    {
        self.record_terminal_snapshot(stream_id, VideoCaptureRuntimeState::Failed, message);
    }

    /// Reports that stream `stream_id` lost its screen recording permission.
    pub fn deny_permission(&mut self, stream_id: &str, message: &str)
        ensures
            final(self).view_of().snapshots == old(self).view_of().snapshots.insert(
                stream_id@,
                final(self).view_of().snapshots[stream_id@],
            ),
            terminal_status_ok(
                final(self).view_of().snapshots[stream_id@],
                old(self).view_of().snapshots.index_opt(stream_id@),
                VideoCaptureRuntimeState::PermissionDenied,
                message@,
            ),
            final(self).view_of().starts == old(self).view_of().starts,
            final(self).view_of().resizes == old(self).view_of().resizes,
            final(self).view_of().stops == old(self).view_of().stops,
            final(self).view_of().start_failures == old(self).view_of().start_failures,
            final(self).view_of().resize_failures == old(self).view_of().resize_failures,
    {
        self.record_terminal_snapshot(stream_id, VideoCaptureRuntimeState::PermissionDenied, message);
    }

    fn record_terminal_snapshot(&mut self, stream_id: &str, state: VideoCaptureRuntimeState, message: &str)
        ensures
            final(self).view_of().snapshots == old(self).view_of().snapshots.insert(
                stream_id@,
                final(self).view_of().snapshots[stream_id@],
            ),
            terminal_status_ok(
                final(self).view_of().snapshots[stream_id@],
                old(self).view_of().snapshots.index_opt(stream_id@),
                state,
                message@,
            ),
            final(self).view_of().starts == old(self).view_of().starts,
            final(self).view_of().resizes == old(self).view_of().resizes,
            final(self).view_of().stops == old(self).view_of().stops,
            final(self).view_of().start_failures == old(self).view_of().start_failures,
            final(self).view_of().resize_failures == old(self).view_of().resize_failures,
    {
        let (frames, last) = match self.snapshots.get(stream_id) {
            Some(p) => (p.frames_delivered, p.last_frame),
            None => (0, None),
        };
        let snapshot = VideoCaptureRuntimeStatus {
            state,
            frames_delivered: frames,
            last_frame: last,
            message: Some(String::from_str(message)),
        };
        self.snapshots.insert(stream_id, snapshot);
    }
}

/// A terminal status: the given state and message, the frame counters of the previous
/// status kept.
pub open spec fn terminal_status_ok(
    s: VideoCaptureRuntimeStatus,
    previous: Option<VideoCaptureRuntimeStatus>,
    state: VideoCaptureRuntimeState,
    message: Seq<char>,
) -> bool {
    &&& s.state == state
    &&& s.frames_delivered == (match previous {
        Some(p) => p.frames_delivered,
        None => 0,
    })
    &&& s.last_frame == (match previous {
        Some(p) => p.last_frame,
        None => None,
    })
    &&& crate::protocol::opt_text(s.message) == Some(message)
}

/// What a runtime does with a start request: it records the request, then either fails
/// with the most recently queued start failure or reports the stream as starting.
pub open spec fn runtime_start_ok(
    v0: RuntimeView,
    v1: RuntimeView,
    request: MacosWindowCaptureStartRequest,
    r: Result<(), AppRelayError>,
) -> bool {
    &&& v1.starts == v0.starts.push(request)
    &&& v1.resizes == v0.resizes
    &&& v1.stops == v0.stops
    &&& v1.resize_failures == v0.resize_failures
    &&& if v0.start_failures.len() > 0 {
        &&& r == Err::<(), AppRelayError>(AppRelayError::InvalidRequest(v0.start_failures.last()))
        &&& v1.start_failures == v0.start_failures.drop_last()
        &&& v1.snapshots == v0.snapshots
    } else {
        &&& r is Ok
        &&& v1.start_failures == v0.start_failures
        &&& v1.snapshots == v0.snapshots.insert(request.stream_id@, starting_status())
    }
}

/// What a runtime does with a resize request: it records the request, then either fails
/// with the most recently queued resize failure or accepts it.
pub open spec fn runtime_resize_ok(
    v0: RuntimeView,
    v1: RuntimeView,
    request: MacosWindowCaptureResizeRequest,
    r: Result<(), AppRelayError>,
) -> bool {
    &&& v1.starts == v0.starts
    &&& v1.resizes == v0.resizes.push(request)
    &&& v1.stops == v0.stops
    &&& v1.start_failures == v0.start_failures
    &&& v1.snapshots == v0.snapshots
    &&& if v0.resize_failures.len() > 0 {
        &&& r == Err::<(), AppRelayError>(AppRelayError::InvalidRequest(v0.resize_failures.last()))
        &&& v1.resize_failures == v0.resize_failures.drop_last()
    } else {
        &&& r is Ok
        &&& v1.resize_failures == v0.resize_failures
    }
}

/// What a runtime does with a stop: it records it and forgets the stream's status.
pub open spec fn runtime_stop_ok(v0: RuntimeView, v1: RuntimeView, stream_id: Seq<char>) -> bool {
    &&& v1.starts == v0.starts
    &&& v1.resizes == v0.resizes
    &&& v1.stops == v0.stops.push(stream_id)
    &&& v1.start_failures == v0.start_failures
    &&& v1.resize_failures == v0.resize_failures
    &&& v1.snapshots == v0.snapshots.remove(stream_id)
}

fn pop_failure(v: &mut Vec<String>) -> (r: Option<String>)
    ensures
        old(v)@.len() > 0 ==> r == Some(old(v)@.last()) && final(v)@ == old(v)@.drop_last(),
        old(v)@.len() == 0 ==> r is None && final(v)@ == old(v)@,
{
    v.pop()
}

impl MacosWindowCaptureRuntime {
    pub closed spec fn view_of(&self) -> RuntimeView {
        match self {
            MacosWindowCaptureRuntime::ControlPlane(r) => r.view_of(),
            MacosWindowCaptureRuntime::Fake(r) => r.view_of(),
        }
    }

    /// Starts capturing a window.
    pub fn start(&mut self, request: MacosWindowCaptureStartRequest) -> (r: Result<(), AppRelayError>)
        ensures
            runtime_start_ok(old(self).view_of(), final(self).view_of(), request, r),
            (*final(self) is Fake) <==> (*old(self) is Fake),
    {
        match self {
            MacosWindowCaptureRuntime::ControlPlane(rt) => {
                let id = request.stream_id.clone();
                rt.calls.starts.push(request);
                rt.snapshots.insert(
                    id.as_str(),
                    VideoCaptureRuntimeStatus {
                        state: VideoCaptureRuntimeState::Starting,
                        frames_delivered: 0,
                        last_frame: None,
                        message: None,
                    },
                );
                Ok(())
            },
            MacosWindowCaptureRuntime::Fake(rt) => {
                let id = request.stream_id.clone();
                rt.calls.starts.push(request);
                match pop_failure(&mut rt.start_failures) {
                    Some(message) => Err(AppRelayError::InvalidRequest(message)),
                    None => {
                        rt.snapshots.insert(
                            id.as_str(),
                            VideoCaptureRuntimeStatus {
                                state: VideoCaptureRuntimeState::Starting,
                                frames_delivered: 0,
                                last_frame: None,
                                message: None,
                            },
                        );
                        Ok(())
                    },
                }
            },
        }
    }

    /// Resizes the capture of a window.
    pub fn resize(&mut self, request: MacosWindowCaptureResizeRequest) -> (r: Result<(), AppRelayError>)
        ensures
            runtime_resize_ok(old(self).view_of(), final(self).view_of(), request, r),
            (*final(self) is Fake) <==> (*old(self) is Fake),
    {
        match self {
            MacosWindowCaptureRuntime::ControlPlane(rt) => {
                rt.calls.resizes.push(request);
                Ok(())
            },
            MacosWindowCaptureRuntime::Fake(rt) => {
                rt.calls.resizes.push(request);
                match pop_failure(&mut rt.resize_failures) {
                    Some(message) => Err(AppRelayError::InvalidRequest(message)),
                    None => Ok(()),
                }
            },
        }
    }

    /// Stops capturing for stream `stream_id`.
    pub fn stop(&mut self, stream_id: &str)
        ensures
            runtime_stop_ok(old(self).view_of(), final(self).view_of(), stream_id@),
            (*final(self) is Fake) <==> (*old(self) is Fake),
    {
        match self {
            MacosWindowCaptureRuntime::ControlPlane(rt) => {
                let ghost before = rt.calls.stops@;
                rt.calls.stops.push(String::from_str(stream_id));
                assert(texts_of(rt.calls.stops@) =~= texts_of(before).push(stream_id@));
                rt.snapshots.remove(stream_id);
            },
            MacosWindowCaptureRuntime::Fake(rt) => {
                let ghost before = rt.calls.stops@;
                rt.calls.stops.push(String::from_str(stream_id));
                assert(texts_of(rt.calls.stops@) =~= texts_of(before).push(stream_id@));
                rt.snapshots.remove(stream_id);
            },
        }
    }

    /// The status reported for stream `stream_id`.
    pub fn snapshot(&self, stream_id: &str) -> (r: Option<VideoCaptureRuntimeStatus>)
        ensures
            r == self.view_of().snapshots.index_opt(stream_id@),
    {
        let found = match self {
            MacosWindowCaptureRuntime::ControlPlane(rt) => rt.snapshots.get(stream_id),
            MacosWindowCaptureRuntime::Fake(rt) => rt.snapshots.get(stream_id),
        };
        match found {
            Some(s) => Some(s.clone()),
            None => None,
        }
    }
}

/// `apprelay-webrtc-offer:<stream>:<window>`.
pub open spec fn offer_sdp(stream_id: Seq<char>, window_id: Seq<char>) -> Seq<char> {
    "apprelay-webrtc-offer:"@ + stream_id + ":"@ + window_id
}

/// `candidate:apprelay <stream> <window> typ host`.
pub open spec fn host_candidate(stream_id: Seq<char>, window_id: Seq<char>) -> Seq<char> {
    "candidate:apprelay "@ + stream_id + " "@ + window_id + " typ host"@
}

/// The signaling of a new stream: a WebRTC offer awaiting the client's answer, with the
/// server's host candidate.
pub open spec fn offer_signaling_ok(s: VideoStreamSignaling, stream_id: Seq<char>, window_id: Seq<char>) -> bool {
    &&& s.kind == VideoStreamSignalingKind::WebRtcOffer
    &&& s.negotiation_state == VideoStreamNegotiationState::AwaitingAnswer
    &&& s.offer matches Some(o) && o.sdp_type == WebRtcSdpType::Offer && o.sdp@ == offer_sdp(
        stream_id,
        window_id,
    )
    &&& s.answer is None
    &&& s.ice_candidates@.len() == 1
    &&& s.ice_candidates@[0].candidate@ == host_candidate(stream_id, window_id)
    &&& crate::protocol::opt_text(s.ice_candidates@[0].sdp_mid) == Some("video"@)
    &&& s.ice_candidates@[0].sdp_m_line_index == Some(0u32)
}

/// The capture source of a session: its selected window.
pub open spec fn capture_source_ok(c: VideoCaptureSource, session: ApplicationSession) -> bool {
    &&& c.scope == VideoCaptureScope::SelectedWindow
    &&& c.selected_window_id@ == session.selected_window.id@
    &&& c.application_id@ == session.selected_window.application_id@
    &&& c.title@ == session.selected_window.title@
}

fn concat4(a: &str, b: &str, c: &str, d: &str) -> (r: String)
    ensures
        r@ == a@ + b@ + c@ + d@,
{
    let mut v = chars_of(a);
    extend_chars(&mut v, &chars_of(b));
    extend_chars(&mut v, &chars_of(c));
    extend_chars(&mut v, &chars_of(d));
    string_from_chars(&v)
}

/// The signaling of a new stream.
pub fn signaling_for_stream(stream_id: &str, selected_window_id: &str) -> (s: VideoStreamSignaling)
    ensures
        offer_signaling_ok(s, stream_id@, selected_window_id@),
{
    let mut candidates: Vec<WebRtcIceCandidate> = Vec::new();
    let mut sdp = chars_of("apprelay-webrtc-offer:");
    extend_chars(&mut sdp, &chars_of(stream_id));
    extend_chars(&mut sdp, &chars_of(":"));
    extend_chars(&mut sdp, &chars_of(selected_window_id));
    let mut candidate = chars_of("candidate:apprelay ");
    extend_chars(&mut candidate, &chars_of(stream_id));
    extend_chars(&mut candidate, &chars_of(" "));
    extend_chars(&mut candidate, &chars_of(selected_window_id));
    extend_chars(&mut candidate, &chars_of(" typ host"));
    candidates.push(
        WebRtcIceCandidate {
            candidate: string_from_chars(&candidate),
            sdp_mid: Some(String::from_str("video")),
            sdp_m_line_index: Some(0),
        },
    );
    VideoStreamSignaling {
        kind: VideoStreamSignalingKind::WebRtcOffer,
        negotiation_state: VideoStreamNegotiationState::AwaitingAnswer,
        offer: Some(
            WebRtcSessionDescription { sdp_type: WebRtcSdpType::Offer, sdp: string_from_chars(&sdp) },
        ),
        answer: None,
        ice_candidates: candidates,
    }
}

/// The capture source of a session.
pub fn capture_source_from_session(session: &ApplicationSession) -> (c: VideoCaptureSource)
    ensures
        capture_source_ok(c, *session),
{
    VideoCaptureSource {
        scope: VideoCaptureScope::SelectedWindow,
        selected_window_id: session.selected_window.id.clone(),
        application_id: session.selected_window.application_id.clone(),
        title: session.selected_window.title.clone(),
    }
}

/// What starting a capture gives: the capture source and the signaling offer.
#[derive(Debug, PartialEq, Eq)]
pub struct WindowCaptureStart {
    pub source: VideoCaptureSource,
    pub signaling: VideoStreamSignaling,
}

/// A started capture of `session`'s selected window for stream `stream_id`.
pub open spec fn capture_start_ok(c: WindowCaptureStart, stream_id: Seq<char>, session: ApplicationSession) -> bool {
    capture_source_ok(c.source, session) && offer_signaling_ok(
        c.signaling,
        stream_id,
        session.selected_window.id@,
    )
}

/// The runtime request that starts capturing `session`'s selected window.
pub open spec fn start_request_ok(
    q: MacosWindowCaptureStartRequest,
    stream_id: Seq<char>,
    session: ApplicationSession,
) -> bool {
    &&& q.stream_id@ == stream_id
    &&& q.selected_window_id@ == session.selected_window.id@
    &&& q.application_id@ == session.selected_window.application_id@
    &&& q.title@ == session.selected_window.title@
    &&& q.target_viewport == session.viewport
}

/// How the selected window of a session is captured.
#[derive(Debug)]
pub enum WindowCaptureBackendService {
    /// Linux: capture starts with no native runtime behind it.
    LinuxSelectedWindow,
    /// macOS: a capture runtime captures the window.
    MacosSelectedWindow { runtime: MacosWindowCaptureRuntime },
    /// Every capture fails with `message`.
    FailingSelectedWindow { message: String },
    /// The first capture fails with `message`; later ones start.
    FailsOnceSelectedWindow { failed: bool, message: String },
    /// Window capture is unsupported on `platform`.
    Unsupported { platform: Platform },
}

/// Where starting a capture on backend `b` fails, and with which message.
pub open spec fn start_failure(b: WindowCaptureBackendService) -> Option<Seq<char>> {
    match b {
        WindowCaptureBackendService::FailingSelectedWindow { message } => Some(message@),
        WindowCaptureBackendService::FailsOnceSelectedWindow { failed, message } => if failed {
            None
        } else {
            Some(message@)
        },
        WindowCaptureBackendService::MacosSelectedWindow { runtime } => if runtime.view_of().start_failures.len()
            > 0 {
            Some(runtime.view_of().start_failures.last()@)
        } else {
            None
        },
        _ => None,
    }
}

/// The status the backend reports for stream `stream_id`.
pub open spec fn backend_snapshot(b: WindowCaptureBackendService, stream_id: Seq<char>) -> Option<
    VideoCaptureRuntimeStatus,
> {
    match b {
        WindowCaptureBackendService::MacosSelectedWindow { runtime } => runtime.view_of().snapshots.index_opt(
            stream_id,
        ),
        _ => None,
    }
}

/// The backend after starting a capture of `session` for `stream_id`, and the answer
/// `r`: the runtime records the request, a fails-once backend remembers it failed.
pub open spec fn capture_started_ok(
    b0: WindowCaptureBackendService,
    b1: WindowCaptureBackendService,
    stream_id: Seq<char>,
    session: ApplicationSession,
    r: Result<WindowCaptureStart, AppRelayError>,
) -> bool {
    match b0 {
        WindowCaptureBackendService::LinuxSelectedWindow => b1 == b0 && (r matches Ok(c)
            && capture_start_ok(c, stream_id, session)),
        WindowCaptureBackendService::MacosSelectedWindow { runtime: r0 } => match b1 {
            WindowCaptureBackendService::MacosSelectedWindow { runtime: r1 } => {
                let v0 = r0.view_of();
                let v1 = r1.view_of();
                &&& (r1 is Fake <==> r0 is Fake)
                &&& v1.starts.len() == v0.starts.len() + 1
                &&& start_request_ok(v1.starts.last(), stream_id, session)
                &&& runtime_start_ok(
                    v0,
                    v1,
                    v1.starts.last(),
                    match r {
                        Ok(_) => Ok(()),
                        Err(e) => Err(e),
                    },
                )
                &&& (r matches Ok(c) ==> capture_start_ok(c, stream_id, session))
            },
            _ => false,
        },
        WindowCaptureBackendService::FailingSelectedWindow { message } => b1 == b0 && r == Err::<
            WindowCaptureStart,
            AppRelayError,
        >(AppRelayError::InvalidRequest(message)),
        WindowCaptureBackendService::FailsOnceSelectedWindow { failed, message } => {
            &&& b1 == (WindowCaptureBackendService::FailsOnceSelectedWindow { failed: true, message })
            &&& if failed {
                r matches Ok(c) && capture_start_ok(c, stream_id, session)
            } else {
                r == Err::<WindowCaptureStart, AppRelayError>(AppRelayError::InvalidRequest(message))
            }
        },
        WindowCaptureBackendService::Unsupported { platform } => b1 == b0 && r == Err::<
            WindowCaptureStart,
            AppRelayError,
        >(AppRelayError::Unsupported { platform, feature: Feature::WindowVideoStream }),
    }
}

/// The backend after stopping the capture of `stream_id`.
pub open spec fn capture_stopped_ok(
    b0: WindowCaptureBackendService,
    b1: WindowCaptureBackendService,
    stream_id: Seq<char>,
) -> bool {
    match b0 {
        WindowCaptureBackendService::MacosSelectedWindow { runtime: r0 } => match b1 {
            WindowCaptureBackendService::MacosSelectedWindow { runtime: r1 } => (r1 is Fake
                <==> r0 is Fake) && runtime_stop_ok(r0.view_of(), r1.view_of(), stream_id),
            _ => false,
        },
        _ => b1 == b0,
    }
}

/// The backend after resizing the capture of `stream_id` to `viewport`, and the answer.
pub open spec fn capture_resized_ok(
    b0: WindowCaptureBackendService,
    b1: WindowCaptureBackendService,
    stream_id: Seq<char>,
    window_id: Seq<char>,
    viewport: ViewportSize,
    r: Result<(), AppRelayError>,
) -> bool {
    match b0 {
        WindowCaptureBackendService::MacosSelectedWindow { runtime: r0 } => match b1 {
            WindowCaptureBackendService::MacosSelectedWindow { runtime: r1 } => {
                let v0 = r0.view_of();
                let v1 = r1.view_of();
                &&& (r1 is Fake <==> r0 is Fake)
                &&& v1.resizes.len() == v0.resizes.len() + 1
                &&& v1.resizes.last().stream_id@ == stream_id
                &&& v1.resizes.last().selected_window_id@ == window_id
                &&& v1.resizes.last().target_viewport == viewport
                &&& runtime_resize_ok(v0, v1, v1.resizes.last(), r)
            },
            _ => false,
        },
        WindowCaptureBackendService::FailingSelectedWindow { message } => b1 == b0 && r == Err::<
            (),
            AppRelayError,
        >(AppRelayError::InvalidRequest(message)),
        WindowCaptureBackendService::Unsupported { platform } => b1 == b0 && r == Err::<
            (),
            AppRelayError,
        >(AppRelayError::Unsupported { platform, feature: Feature::WindowVideoStream }),
        _ => b1 == b0 && r is Ok,
    }
}

/// Starting and stopping window capture.
pub trait WindowCaptureBackend {
    fn start_capture(&mut self, stream_id: &str, session: &ApplicationSession) -> Result<
        WindowCaptureStart,
        AppRelayError,
    >;

    fn stop_capture(&mut self, stream_id: &str);
}

impl WindowCaptureBackendService {
    /// macOS capture with the in-memory control-plane runtime.
    pub fn macos_selected_window() -> (b: Self)
        ensures
            b matches WindowCaptureBackendService::MacosSelectedWindow { runtime } && runtime is ControlPlane
                && runtime.view_of() == empty_runtime_view(),
    {
        WindowCaptureBackendService::MacosSelectedWindow {
            runtime: MacosWindowCaptureRuntime::ControlPlane(ControlPlaneMacosWindowCaptureRuntime::new()),
        }
    }

    /// macOS capture with the given test runtime.
    pub fn macos_selected_window_with_runtime(runtime: FakeMacosWindowCaptureRuntime) -> (b: Self)
        ensures
            b matches WindowCaptureBackendService::MacosSelectedWindow { runtime: r } && r is Fake
                && r.view_of() == runtime.view_of(),
    {
        WindowCaptureBackendService::MacosSelectedWindow {
            runtime: MacosWindowCaptureRuntime::Fake(runtime),
        }
    }

    /// A backend whose first capture fails with `message`.
    pub fn fails_once(message: &str) -> (b: Self)
        ensures
            b matches WindowCaptureBackendService::FailsOnceSelectedWindow { failed, message: m } && !failed
                && m@ == message@,
    {
        WindowCaptureBackendService::FailsOnceSelectedWindow {
            failed: false,
            message: String::from_str(message),
        }
    }

    /// Resizes the capture of stream `stream_id`.
    pub fn resize_capture(&mut self, stream_id: &str, selected_window_id: &str, target_viewport: ViewportSize) -> (r:
        Result<(), AppRelayError>)
        ensures
            capture_resized_ok(
                *old(self),
                *final(self),
                stream_id@,
                selected_window_id@,
                target_viewport,
                r,
            ),
    {
        match self {
            WindowCaptureBackendService::MacosSelectedWindow { runtime } => runtime.resize(
                MacosWindowCaptureResizeRequest {
                    stream_id: String::from_str(stream_id),
                    selected_window_id: String::from_str(selected_window_id),
                    target_viewport,
                },
            ),
            WindowCaptureBackendService::FailingSelectedWindow { message } => Err(
                AppRelayError::InvalidRequest(message.clone()),
            ),
            WindowCaptureBackendService::Unsupported { platform } => Err(
                AppRelayError::unsupported(*platform, Feature::WindowVideoStream),
            ),
            _ => Ok(()),
        }
    }

    /// The status the capture runtime reports for stream `stream_id`.
    pub fn capture_snapshot(&self, stream_id: &str) -> (r: Option<VideoCaptureRuntimeStatus>)
        ensures
            r == backend_snapshot(*self, stream_id@),
    {
        match self {
            WindowCaptureBackendService::MacosSelectedWindow { runtime } => runtime.snapshot(stream_id),
            _ => None,
        }
    }

    /// The latest hardware-encoded payload for stream `stream_id`: none of these backends
    /// bridges a hardware encoder.
    pub fn latest_encoded_payload(&self, stream_id: &str) -> (r: Option<Vec<u8>>)
        ensures
            r is None,
    {
        None
    }
}

impl WindowCaptureBackend for WindowCaptureBackendService {
    /// Starts capturing `session`'s selected window for stream `stream_id`.
    fn start_capture(&mut self, stream_id: &str, session: &ApplicationSession) -> (r: Result<
        WindowCaptureStart,
        AppRelayError,
    >)
        ensures
            capture_started_ok(*old(self), *final(self), stream_id@, *session, r),
    {
        match self {
            WindowCaptureBackendService::LinuxSelectedWindow => Ok(
                WindowCaptureStart {
                    source: capture_source_from_session(session),
                    signaling: signaling_for_stream(stream_id, session.selected_window.id.as_str()),
                },
            ),
            WindowCaptureBackendService::MacosSelectedWindow { runtime } => {
                let request = MacosWindowCaptureStartRequest {
                    stream_id: String::from_str(stream_id),
                    selected_window_id: session.selected_window.id.clone(),
                    application_id: session.selected_window.application_id.clone(),
                    title: session.selected_window.title.clone(),
                    target_viewport: session.viewport,
                };
                match runtime.start(request) {
                    Ok(()) => Ok(
                        WindowCaptureStart {
                            source: capture_source_from_session(session),
                            signaling: signaling_for_stream(
                                stream_id,
                                session.selected_window.id.as_str(),
                            ),
                        },
                    ),
                    Err(e) => Err(e),
                }
            },
            WindowCaptureBackendService::FailingSelectedWindow { message } => Err(
                AppRelayError::InvalidRequest(message.clone()),
            ),
            WindowCaptureBackendService::FailsOnceSelectedWindow { failed, message } => {
                if *failed {
                    Ok(
                        WindowCaptureStart {
                            source: capture_source_from_session(session),
                            signaling: signaling_for_stream(
                                stream_id,
                                session.selected_window.id.as_str(),
                            ),
                        },
                    )
                } else {
                    *failed = true;
                    Err(AppRelayError::InvalidRequest(message.clone()))
                }
            },
            WindowCaptureBackendService::Unsupported { platform } => Err(
                AppRelayError::unsupported(*platform, Feature::WindowVideoStream),
            ),
        }
    }

    /// Stops capturing for stream `stream_id`.
    fn stop_capture(&mut self, stream_id: &str)
        ensures
            capture_stopped_ok(*old(self), *final(self), stream_id@),
    {
        match self {
            WindowCaptureBackendService::MacosSelectedWindow { runtime } => runtime.stop(stream_id),
            _ => {},
        }
    }
}


/// Whether a backend captures through the test runtime.
pub open spec fn runs_test_runtime(b: WindowCaptureBackendService) -> bool {
    b matches WindowCaptureBackendService::MacosSelectedWindow { runtime } && runtime is Fake
}

/// What the runtime of a macOS backend holds.
pub open spec fn runtime_view(b: WindowCaptureBackendService) -> RuntimeView
    recommends
        b is MacosSelectedWindow,
{
    b->runtime.view_of()
}

/// Two runtime views hold the same requests and queued failures.
pub open spec fn same_requests(v0: RuntimeView, v1: RuntimeView) -> bool {
    &&& v1.starts == v0.starts
    &&& v1.resizes == v0.resizes
    &&& v1.stops == v0.stops
    &&& v1.start_failures == v0.start_failures
    &&& v1.resize_failures == v0.resize_failures
}

impl WindowCaptureBackendService {
    /// The requests the test runtime received; `None` on any other backend.
    pub fn test_runtime_calls(&self) -> (c: Option<MacosWindowCaptureRuntimeCalls>)
        ensures
            !runs_test_runtime(*self) ==> c is None,
            runs_test_runtime(*self) ==> (c matches Some(c) && c.starts@ == runtime_view(*self).starts
                && c.resizes@ == runtime_view(*self).resizes && texts_of(c.stops@) == runtime_view(*self).stops),
    {
        match self {
            WindowCaptureBackendService::MacosSelectedWindow { runtime: MacosWindowCaptureRuntime::Fake(f) } => Some(
                f.calls(),
            ),
            _ => None,
        }
    }

    /// Has the test runtime deliver one more frame for stream `stream_id`, giving its new
    /// status; any other backend is left alone.
    pub fn deliver_test_frame(&mut self, stream_id: &str, size: ViewportSize, timestamp_ms: u64) -> (r: Option<
        VideoCaptureRuntimeStatus,
    >)
        requires
            runs_test_runtime(*old(self)) && runtime_view(*old(self)).snapshots.contains_key(stream_id@)
                ==> runtime_view(*old(self)).snapshots[stream_id@].frames_delivered < u64::MAX,
        ensures
            !runs_test_runtime(*old(self)) ==> r is None && *final(self) == *old(self),
            runs_test_runtime(*old(self)) ==> {
                &&& runs_test_runtime(*final(self))
                &&& r == Some(
                    delivered_status(
                        runtime_view(*old(self)).snapshots.index_opt(stream_id@),
                        size,
                        timestamp_ms,
                    ),
                )
                &&& runtime_view(*final(self)).snapshots == runtime_view(*old(self)).snapshots.insert(
                    stream_id@,
                    r->0,
                )
                &&& same_requests(runtime_view(*old(self)), runtime_view(*final(self)))
            },
    {
        match self {
            WindowCaptureBackendService::MacosSelectedWindow { runtime: MacosWindowCaptureRuntime::Fake(f) } => Some(
                f.deliver_frame(stream_id, size, timestamp_ms),
            ),
            _ => None,
        }
    }

    /// Has the test runtime report stream `stream_id` failed (or, with `permission`,
    /// denied) with `message`; any other backend is left alone.
    pub fn fail_test_stream(&mut self, stream_id: &str, message: &str, permission: bool)
        ensures
            !runs_test_runtime(*old(self)) ==> *final(self) == *old(self),
            runs_test_runtime(*old(self)) ==> {
                &&& runs_test_runtime(*final(self))
                &&& runtime_view(*final(self)).snapshots == runtime_view(*old(self)).snapshots.insert(
                    stream_id@,
                    runtime_view(*final(self)).snapshots[stream_id@],
                )
                &&& terminal_status_ok(
                    runtime_view(*final(self)).snapshots[stream_id@],
                    runtime_view(*old(self)).snapshots.index_opt(stream_id@),
                    if permission {
                        VideoCaptureRuntimeState::PermissionDenied
                    } else {
                        VideoCaptureRuntimeState::Failed
                    },
                    message@,
                )
                &&& same_requests(runtime_view(*old(self)), runtime_view(*final(self)))
            },
    {
        match self {
            WindowCaptureBackendService::MacosSelectedWindow { runtime: MacosWindowCaptureRuntime::Fake(f) } => {
                if permission {
                    f.deny_permission(stream_id, message);
                } else {
                    f.fail_stream(stream_id, message);
                }
            },
            _ => {},
        }
    }

    /// Queues a failure of a later resize on the test runtime; any other backend is left
    /// alone.
    pub fn fail_next_test_resize(&mut self, message: &str)
        ensures
            !runs_test_runtime(*old(self)) ==> *final(self) == *old(self),
            runs_test_runtime(*old(self)) ==> {
                let v0 = runtime_view(*old(self));
                let v1 = runtime_view(*final(self));
                &&& runs_test_runtime(*final(self))
                &&& v1.resize_failures.len() == v0.resize_failures.len() + 1
                &&& v1.resize_failures.drop_last() == v0.resize_failures
                &&& v1.resize_failures.last()@ == message@
                &&& v1.starts == v0.starts
                &&& v1.resizes == v0.resizes
                &&& v1.stops == v0.stops
                &&& v1.snapshots == v0.snapshots
                &&& v1.start_failures == v0.start_failures
            },
    {
        match self {
            WindowCaptureBackendService::MacosSelectedWindow { runtime: MacosWindowCaptureRuntime::Fake(f) } => {
                f.fail_next_resize(message);
            },
            _ => {},
        }
    }
}

} // verus!
