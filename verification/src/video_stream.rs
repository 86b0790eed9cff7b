//! Video streams of the selected windows of sessions, kept in memory: starting, stopping,
//! reconnecting and negotiating streams, following resizes and closed sessions, and
//! folding the capture runtime's reports into each stream.

use vstd::prelude::*;
use crate::audio_backend::{platform_name, platform_name_text};
use crate::decimal::{dec, write_dec};
use crate::protocol::{
    AppRelayError, ApplicationSession, Feature, SelectedWindow, SessionState, ViewportSize,
    WindowSelectionMethod, opt_text,
};
use crate::text::{chars_of, extend_chars, string_from_chars};
use crate::video_capture::{
    backend_snapshot, capture_source_from_session, capture_source_ok, capture_started_ok,
    capture_stopped_ok, capture_resized_ok, offer_signaling_ok, signaling_for_stream,
    start_failure, starting_status, WindowCaptureBackend, WindowCaptureBackendService,
};
use crate::video_pipeline::{
    bitrate_computable, bitrate_for, same_output, same_pipeline, InMemoryVideoEncodingPipeline,
    VideoEncodingPipelineState, MAX_FPS,
};
use crate::video_protocol::{
    idle_status, same_signaling, same_video_stream, video_health_is, VideoCaptureRuntimeState,
    VideoCaptureRuntimeStatus, VideoStreamFailure, VideoStreamFailureKind, VideoStreamHealth,
    VideoStreamNegotiationState, VideoStreamRecovery, VideoStreamRecoveryAction,
    VideoStreamSession, VideoStreamState, VideoStreamStats, WebRtcIceCandidate,
};

verus! {

/// The id of the `n`-th video stream.
pub open spec fn video_stream_id(n: nat) -> Seq<char> {
    "stream-"@ + dec(n)
}

/// The name a feature is printed with.
pub open spec fn feature_name(f: Feature) -> Seq<char> {
    match f {
        Feature::AppDiscovery => "AppDiscovery"@,
        Feature::ApplicationLaunch => "ApplicationLaunch"@,
        Feature::WindowResize => "WindowResize"@,
        Feature::WindowVideoStream => "WindowVideoStream"@,
        Feature::SystemAudioStream => "SystemAudioStream"@,
        Feature::ClientMicrophoneInput => "ClientMicrophoneInput"@,
        Feature::KeyboardInput => "KeyboardInput"@,
        Feature::MouseInput => "MouseInput"@,
    }
}

/// The message a capture error is reported with.
pub open spec fn error_message(e: AppRelayError) -> Seq<char> {
    match e {
        AppRelayError::InvalidRequest(m) => m@,
        AppRelayError::PermissionDenied(m) => m@,
        AppRelayError::NotFound(m) => m@,
        AppRelayError::ServiceUnavailable(m) => m@,
        AppRelayError::Unsupported { platform, feature } => feature_name(feature)
            + " is unsupported on "@ + platform_name(platform),
    }
}

/// A capture failure with `message`: the stream can be reconnected once capture is fixed.
pub open spec fn capture_failure_ok(f: VideoStreamFailure, message: Seq<char>) -> bool {
    &&& f.kind == VideoStreamFailureKind::CaptureFailed
    &&& f.message@ == message
    &&& f.recovery.action == VideoStreamRecoveryAction::ReconnectStream
    &&& f.recovery.message@ == "fix the capture backend and reconnect the stream"@
    &&& f.recovery.retryable
}

pub open spec fn closed_session_message(session_id: Seq<char>) -> Seq<char> {
    "application session "@ + session_id + " closed"@
}

/// The failure of a stream whose session closed: a new session is needed.
pub open spec fn app_closed_failure_ok(f: VideoStreamFailure, session_id: Seq<char>) -> bool {
    &&& f.kind == VideoStreamFailureKind::AppClosed
    &&& f.message@ == closed_session_message(session_id)
    &&& f.recovery.action == VideoStreamRecoveryAction::RestartApplicationSession
    &&& f.recovery.message@ == "start a new application session before streaming again"@
    &&& !f.recovery.retryable
}

/// The capture status of a stream whose capture failed with `message`.
pub open spec fn failed_capture_status_ok(s: VideoCaptureRuntimeStatus, message: Seq<char>) -> bool {
    &&& s.state == VideoCaptureRuntimeState::Failed
    &&& s.frames_delivered == 0
    &&& s.last_frame is None
    &&& opt_text(s.message) == Some(message)
}

/// The fields that identify a stream and its capture are kept.
pub open spec fn same_identity(s: VideoStreamSession, p: VideoStreamSession) -> bool {
    &&& s.id == p.id
    &&& s.session_id == p.session_id
    &&& s.selected_window_id == p.selected_window_id
    &&& s.capture_source == p.capture_source
}

/// Stream `p` failed with `message`: its pipeline drained, its rates zeroed and its health
/// and failure reason naming the message (the failure itself and the capture status are
/// stated apart).
pub open spec fn failed_core_ok(s: VideoStreamSession, p: VideoStreamSession, message: Seq<char>) -> bool {
    &&& same_identity(s, p)
    &&& s.viewport == p.viewport
    &&& same_signaling(s.signaling, p.signaling)
    &&& s.state == VideoStreamState::Failed
    &&& s.encoding.contract == p.encoding.contract
    &&& s.encoding.state == VideoEncodingPipelineState::Drained
    &&& same_output(s.encoding.output, p.encoding.output)
    &&& s.stats == (VideoStreamStats {
        frames_encoded: p.encoding.output.frames_encoded,
        bitrate_kbps: 0,
        latency_ms: 0,
        reconnect_attempts: p.stats.reconnect_attempts,
    })
    &&& video_health_is(s.health, false, Some(message))
    &&& opt_text(s.failure_reason) == Some(message)
}

/// Stream `p` after its capture failed with `message`.
pub open spec fn capture_failed_ok(s: VideoStreamSession, p: VideoStreamSession, message: Seq<char>) -> bool {
    &&& failed_core_ok(s, p, message)
    &&& s.failure matches Some(f) && capture_failure_ok(f, message)
    &&& failed_capture_status_ok(s.capture_runtime, message)
}

/// Stream `p` after its session `session_id` closed.
pub open spec fn app_closed_ok(s: VideoStreamSession, p: VideoStreamSession, session_id: Seq<char>) -> bool {
    &&& failed_core_ok(s, p, closed_session_message(session_id))
    &&& s.failure matches Some(f) && app_closed_failure_ok(f, session_id)
    &&& s.capture_runtime == idle_status()
}

/// Whether a capture status reports a failure.
pub open spec fn runtime_failed(s: VideoCaptureRuntimeStatus) -> bool {
    s.state == VideoCaptureRuntimeState::Failed || s.state == VideoCaptureRuntimeState::PermissionDenied
}

/// The message of a failed capture status.
pub open spec fn runtime_failure_message(s: VideoCaptureRuntimeStatus) -> Seq<char> {
    match opt_text(s.message) {
        Some(m) => m,
        None => "macOS selected-window capture runtime reported failure"@,
    }
}

/// Stream `p` once the capture runtime's report `snapshot` is folded in: a stopped stream
/// forgets its capture status; a reported failure fails an active stream; otherwise the
/// report replaces the capture status.
pub open spec fn reconciled_ok(
    s: VideoStreamSession,
    p: VideoStreamSession,
    snapshot: Option<VideoCaptureRuntimeStatus>,
) -> bool {
    if p.state == VideoStreamState::Stopped {
        s == (VideoStreamSession { capture_runtime: idle_status(), ..p })
    } else {
        match snapshot {
            None => s == p,
            Some(snap) => if runtime_failed(snap) && p.state != VideoStreamState::Failed {
                &&& failed_core_ok(s, p, runtime_failure_message(snap))
                &&& s.failure matches Some(f) && capture_failure_ok(f, runtime_failure_message(snap))
                &&& s.capture_runtime == snap
            } else {
                s == (VideoStreamSession { capture_runtime: snap, ..p })
            },
        }
    }
}

/// A candidate the server offered.
pub open spec fn is_server_candidate(c: WebRtcIceCandidate) -> bool {
    "candidate:apprelay "@.is_prefix_of(c.candidate@)
}

fn feature_name_text(f: Feature) -> (r: &'static str)
    ensures
        r@ == feature_name(f),
{
    match f {
        Feature::AppDiscovery => "AppDiscovery",
        Feature::ApplicationLaunch => "ApplicationLaunch",
        Feature::WindowResize => "WindowResize",
        Feature::WindowVideoStream => "WindowVideoStream",
        Feature::SystemAudioStream => "SystemAudioStream",
        Feature::ClientMicrophoneInput => "ClientMicrophoneInput",
        Feature::KeyboardInput => "KeyboardInput",
        Feature::MouseInput => "MouseInput",
    }
}

fn text3(a: &str, b: &str, c: &str) -> (r: String)
    ensures
        r@ == a@ + b@ + c@,
{
    let mut v = chars_of(a);
    extend_chars(&mut v, &chars_of(b));
    extend_chars(&mut v, &chars_of(c));
    string_from_chars(&v)
}

/// The message a capture error is reported with.
pub fn capture_error_message(error: &AppRelayError) -> (m: String)
    ensures
        m@ == error_message(*error),
{
    match error {
        AppRelayError::InvalidRequest(m) => m.clone(),
        AppRelayError::PermissionDenied(m) => m.clone(),
        AppRelayError::NotFound(m) => m.clone(),
        AppRelayError::ServiceUnavailable(m) => m.clone(),
        AppRelayError::Unsupported { platform, feature } => text3(
            feature_name_text(*feature),
            " is unsupported on ",
            platform_name_text(*platform),
        ),
    }
}

/// A capture failure with `message`.
pub fn capture_failure(message: String) -> (f: VideoStreamFailure)
    ensures
        capture_failure_ok(f, message@),
{
    VideoStreamFailure {
        kind: VideoStreamFailureKind::CaptureFailed,
        message,
        recovery: VideoStreamRecovery {
            action: VideoStreamRecoveryAction::ReconnectStream,
            message: String::from_str("fix the capture backend and reconnect the stream"),
            retryable: true,
        },
    }
}

/// The failure of a stream whose session `session_id` closed.
pub fn app_closed_failure(session_id: &str) -> (f: VideoStreamFailure)
    ensures
        app_closed_failure_ok(f, session_id@),
{
    VideoStreamFailure {
        kind: VideoStreamFailureKind::AppClosed,
        message: text3("application session ", session_id, " closed"),
        recovery: VideoStreamRecovery {
            action: VideoStreamRecoveryAction::RestartApplicationSession,
            message: String::from_str("start a new application session before streaming again"),
            retryable: false,
        },
    }
}

/// Fails a stream: the pipeline drains, the rates drop to zero, and the health, failure
/// reason, capture status and failure describe the failure.
pub fn apply_failure(stream: &mut VideoStreamSession, failure: VideoStreamFailure)
    ensures
        failed_core_ok(*final(stream), *old(stream), failure.message@),
        final(stream).failure == Some(failure),
        failure.kind == VideoStreamFailureKind::CaptureFailed ==> failed_capture_status_ok(
            final(stream).capture_runtime,
            failure.message@,
        ),
        failure.kind == VideoStreamFailureKind::AppClosed ==> final(stream).capture_runtime
            == idle_status(),
{
    stream.state = VideoStreamState::Failed;
    InMemoryVideoEncodingPipeline::drain(&mut stream.encoding);
    stream.stats.frames_encoded = stream.encoding.output.frames_encoded;
    stream.stats.bitrate_kbps = 0;
    stream.stats.latency_ms = 0;
    stream.health = VideoStreamHealth { healthy: false, message: Some(failure.message.clone()) };
    stream.failure_reason = Some(failure.message.clone());
    match failure.kind {
        VideoStreamFailureKind::CaptureFailed => {
            stream.capture_runtime = VideoCaptureRuntimeStatus {
                state: VideoCaptureRuntimeState::Failed,
                frames_delivered: 0,
                last_frame: None,
                message: Some(failure.message.clone()),
            };
        },
        VideoStreamFailureKind::AppClosed => {
            stream.capture_runtime = VideoCaptureRuntimeStatus::default();
        },
    }
    stream.failure = Some(failure);
}

/// Folds the capture runtime's report for the stream into it.
pub fn reconcile_capture_runtime_snapshot(
    capture_backend: &WindowCaptureBackendService,
    stream: &mut VideoStreamSession,
)
    ensures
        reconciled_ok(*final(stream), *old(stream), backend_snapshot(*capture_backend, old(stream).id@)),
{
    if stream.state == VideoStreamState::Stopped {
        stream.capture_runtime = VideoCaptureRuntimeStatus::default();
        return;
    }
    let snapshot = match capture_backend.capture_snapshot(stream.id.as_str()) {
        Some(s) => s,
        None => {
            return;
        },
    };
    let failed = match snapshot.state {
        VideoCaptureRuntimeState::Failed | VideoCaptureRuntimeState::PermissionDenied => true,
        _ => false,
    };
    if failed && stream.state != VideoStreamState::Failed {
        let message = match &snapshot.message {
            Some(m) => m.clone(),
            None => String::from_str("macOS selected-window capture runtime reported failure"),
        };
        apply_failure(stream, capture_failure(message));
        stream.capture_runtime = snapshot;
        return;
    }
    stream.capture_runtime = snapshot;
}

/// The session a stream was started for, as far as the stream knows it: ready, with its
/// window selected as an existing window.
pub open spec fn stream_session(stream: VideoStreamSession) -> ApplicationSession {
    ApplicationSession {
        id: stream.session_id,
        application_id: stream.capture_source.application_id,
        selected_window: SelectedWindow {
            id: stream.selected_window_id,
            application_id: stream.capture_source.application_id,
            title: stream.capture_source.title,
            selection_method: WindowSelectionMethod::ExistingWindow,
        },
        launch_intent: None,
        viewport: stream.viewport,
        resize_intent: None,
        state: SessionState::Ready,
    }
}

/// The session a stream was started for, as far as the stream knows it.
pub fn session_snapshot_from_stream(stream: &VideoStreamSession) -> (s: ApplicationSession)
    ensures
        s == stream_session(*stream),
{
    ApplicationSession {
        id: stream.session_id.clone(),
        application_id: stream.capture_source.application_id.clone(),
        selected_window: SelectedWindow {
            id: stream.selected_window_id.clone(),
            application_id: stream.capture_source.application_id.clone(),
            title: stream.capture_source.title.clone(),
            selection_method: WindowSelectionMethod::ExistingWindow,
        },
        launch_intent: None,
        viewport: stream.viewport,
        resize_intent: None,
        state: SessionState::Ready,
    }
}

fn starts_with_server_prefix(c: &WebRtcIceCandidate) -> (b: bool)
    ensures
        b == is_server_candidate(*c),
{
    let prefix = chars_of("candidate:apprelay ");
    let s = chars_of(c.candidate.as_str());
    if s.len() < prefix.len() {
        return false;
    }
    let mut i: usize = 0;
    while i < prefix.len()
        invariant
            i <= prefix@.len(),
            prefix@.len() <= s@.len(),
            prefix@ == "candidate:apprelay "@,
            s@ == c.candidate@,
            forall|j: int| 0 <= j < i ==> prefix@[j] == s@[j],
        decreases prefix@.len() - i,
    {
        if prefix[i] != s[i] {
            return false;
        }
        i = i + 1;
    }
    true
}

/// The candidates the server offered, in order.
pub fn server_ice_candidates(candidates: &Vec<WebRtcIceCandidate>) -> (r: Vec<WebRtcIceCandidate>)
    ensures
        r@ == candidates@.filter(|c: WebRtcIceCandidate| is_server_candidate(c)),
{
    let ghost f = |c: WebRtcIceCandidate| is_server_candidate(c);
    let mut out: Vec<WebRtcIceCandidate> = Vec::new();
    let mut i: usize = 0;
    assert(candidates@.take(0) =~= Seq::<WebRtcIceCandidate>::empty());
    while i < candidates.len()
        invariant
            i <= candidates@.len(),
            f == (|c: WebRtcIceCandidate| is_server_candidate(c)),
            out@ == candidates@.take(i as int).filter(f),
        decreases candidates@.len() - i,
    {
        proof {
            assert(candidates@.take(i + 1) =~= candidates@.take(i as int).push(candidates@[i as int]));
            candidates@.take(i as int).lemma_filter_push(candidates@[i as int], f);
        }
        if starts_with_server_prefix(&candidates[i]) {
            out.push(candidates[i].clone());
        }
        i = i + 1;
    }
    assert(candidates@.take(candidates@.len() as int) =~= candidates@);
    out
}

/// A new stream `s`, the `n`-th, for `session`, encoding at `target`: when capture failed
/// with `failure`, the stream starts failed; otherwise it is starting, with the capture
/// status the macOS runtime reports (none elsewhere).
pub open spec fn new_stream_ok(
    s: VideoStreamSession,
    session: ApplicationSession,
    n: nat,
    target: ViewportSize,
    failure: Option<Seq<char>>,
    b0: WindowCaptureBackendService,
) -> bool {
    &&& s.id@ == video_stream_id(n)
    &&& s.session_id@ == session.id@
    &&& s.selected_window_id@ == session.selected_window.id@
    &&& s.viewport == session.viewport
    &&& capture_source_ok(s.capture_source, session)
    &&& offer_signaling_ok(s.signaling, s.id@, session.selected_window.id@)
    &&& s.encoding.contract == crate::video_pipeline::configured_contract(session.viewport, target)
    &&& s.encoding.output == crate::video_pipeline::empty_output()
    &&& match failure {
        Some(m) => {
            &&& s.state == VideoStreamState::Failed
            &&& s.encoding.state == VideoEncodingPipelineState::Drained
            &&& s.stats == (VideoStreamStats {
                frames_encoded: 0,
                bitrate_kbps: 0,
                latency_ms: 0,
                reconnect_attempts: 0,
            })
            &&& video_health_is(s.health, false, Some(m))
            &&& opt_text(s.failure_reason) == Some(m)
            &&& s.failure matches Some(f) && capture_failure_ok(f, m)
            &&& failed_capture_status_ok(s.capture_runtime, m)
        },
        None => {
            &&& s.state == VideoStreamState::Starting
            &&& s.encoding.state == VideoEncodingPipelineState::Configured
            &&& s.stats == (VideoStreamStats {
                frames_encoded: 0,
                bitrate_kbps: 0,
                latency_ms: 0,
                reconnect_attempts: 0,
            })
            &&& video_health_is(s.health, true, None)
            &&& s.failure_reason is None
            &&& s.failure is None
            &&& s.capture_runtime == (if b0 is MacosSelectedWindow {
                starting_status()
            } else {
                idle_status()
            })
        },
    }
}

pub open spec fn session_not_found(id: Seq<char>) -> Seq<char> {
    "session "@ + id + " was not found"@
}

pub open spec fn stream_not_found(id: Seq<char>) -> Seq<char> {
    "stream "@ + id + " was not found"@
}

/// Different stream numbers give different stream ids.
pub proof fn lemma_video_stream_id_injective(a: nat, b: nat)
    requires
        video_stream_id(a) == video_stream_id(b),
    ensures
        a == b,
{
    let p = "stream-"@;
    assert(video_stream_id(a).subrange(p.len() as int, video_stream_id(a).len() as int) =~= dec(a));
    assert(video_stream_id(b).subrange(p.len() as int, video_stream_id(b).len() as int) =~= dec(b));
    crate::decimal::lemma_dec(a);
    crate::decimal::lemma_dec(b);
}

/// Every stream has the id `stream-<n>` for a number `n` below `next`, the numbers grow
/// with the position, and every stream encodes at the fixed frame rate.
pub open spec fn streams_wf(streams: Seq<VideoStreamSession>, numbers: Seq<nat>, next: nat) -> bool {
    &&& next >= 1
    &&& numbers.len() == streams.len()
    &&& forall|i: int|
        0 <= i < streams.len() ==> (#[trigger] streams[i]).id@ == video_stream_id(numbers[i])
            && numbers[i] < next && streams[i].encoding.contract.target.max_fps == MAX_FPS
    &&& forall|i: int, j: int| 0 <= i < j < numbers.len() ==> #[trigger] numbers[i] < #[trigger] numbers[j]
}

/// Replacing a stream by one with the same id that still encodes at the fixed frame rate
/// keeps the streams well formed.
pub proof fn lemma_streams_wf_update(
    streams: Seq<VideoStreamSession>,
    numbers: Seq<nat>,
    next: nat,
    k: int,
    s: VideoStreamSession,
)
    requires
        streams_wf(streams, numbers, next),
        0 <= k < streams.len(),
        s.id == streams[k].id,
        s.encoding.contract.target.max_fps == MAX_FPS,
    ensures
        streams_wf(streams.update(k, s), numbers, next),
{
    let t = streams.update(k, s);
    assert forall|i: int| 0 <= i < t.len() implies (#[trigger] t[i]).id@ == video_stream_id(numbers[i])
        && numbers[i] < next && t[i].encoding.contract.target.max_fps == MAX_FPS by {
        assert(streams[i].id@ == video_stream_id(numbers[i]));
    }
}

/// Whether some stream has id `id`.
pub open spec fn has_stream(s: Seq<VideoStreamSession>, id: Seq<char>) -> bool {
    exists|k: int| 0 <= k < s.len() && (#[trigger] s[k]).id@ == id
}

/// Position `k` holds the first stream with id `id`.
pub open spec fn first_stream(s: Seq<VideoStreamSession>, id: Seq<char>, k: int) -> bool {
    &&& 0 <= k < s.len()
    &&& s[k].id@ == id
    &&& forall|j: int| 0 <= j < k ==> (#[trigger] s[j]).id@ != id
}

/// Whether stream `s` has id `id` and is not stopped.
pub open spec fn active_with_id(s: VideoStreamSession, id: Seq<char>) -> bool {
    s.id@ == id && s.state != VideoStreamState::Stopped
}

/// Whether some stream with id `id` is not stopped.
pub open spec fn has_active_stream(s: Seq<VideoStreamSession>, id: Seq<char>) -> bool {
    exists|k: int| 0 <= k < s.len() && active_with_id(#[trigger] s[k], id)
}

/// Position `k` holds the first stream with id `id` that is not stopped.
pub open spec fn first_active_stream(s: Seq<VideoStreamSession>, id: Seq<char>, k: int) -> bool {
    &&& 0 <= k < s.len()
    &&& active_with_id(s[k], id)
    &&& forall|j: int| 0 <= j < k ==> !active_with_id(#[trigger] s[j], id)
}

/// Stream `p` once stopped by its client: capture forgotten, pipeline drained, failure
/// cleared.
pub open spec fn stopped_ok(s: VideoStreamSession, p: VideoStreamSession) -> bool {
    &&& same_identity(s, p)
    &&& s.viewport == p.viewport
    &&& s.signaling == p.signaling
    &&& s.stats == p.stats
    &&& s.state == VideoStreamState::Stopped
    &&& s.encoding.contract == p.encoding.contract
    &&& s.encoding.state == VideoEncodingPipelineState::Drained
    &&& s.encoding.output == p.encoding.output
    &&& s.capture_runtime == idle_status()
    &&& video_health_is(s.health, false, Some("stream stopped by client"@))
    &&& s.failure is None
    &&& s.failure_reason is None
}

/// Video streams kept in memory, captured through a backend.
pub struct InMemoryVideoStreamService {
    capture_backend: WindowCaptureBackendService,
    streams: Vec<VideoStreamSession>,
    next_stream_sequence: u64,
    numbers: Ghost<Seq<nat>>,
}

impl InMemoryVideoStreamService {
    pub closed spec fn backend(&self) -> WindowCaptureBackendService {
        self.capture_backend
    }

    pub closed spec fn streams(&self) -> Seq<VideoStreamSession> {
        self.streams@
    }

    pub closed spec fn next_number(&self) -> nat {
        self.next_stream_sequence as nat
    }

    /// The number in the id of each stream.
    pub closed spec fn numbers(&self) -> Seq<nat> {
        self.numbers@
    }

    /// Every stream has the id `stream-<n>` for a distinct `n` below the next number, and
    /// encodes at the fixed frame rate.
    pub open spec fn wf(&self) -> bool {
        streams_wf(self.streams(), self.numbers(), self.next_number())
    }

    /// No two streams share an id.
    pub proof fn lemma_ids_unique(&self)
        requires
            self.wf(),
        ensures
            forall|i: int, j: int|
                0 <= i < self.streams().len() && 0 <= j < self.streams().len() && i != j
                    ==> #[trigger] self.streams()[i].id@ != #[trigger] self.streams()[j].id@,
    {
        assert forall|i: int, j: int|
            0 <= i < self.streams().len() && 0 <= j < self.streams().len() && i
                != j implies #[trigger] self.streams()[i].id@ != #[trigger] self.streams()[j].id@ by {
            if self.streams()[i].id@ == self.streams()[j].id@ {
                lemma_video_stream_id_injective(self.numbers()[i], self.numbers()[j]);
            }
        }
    }

    /// Whether one more stream id can be issued.
    pub open spec fn has_room(&self) -> bool {
        self.next_number() < u64::MAX
    }

    /// A service capturing through `capture_backend`, with no stream.
    pub fn new(capture_backend: WindowCaptureBackendService) -> (s: Self)
        ensures
            s.wf(),
            s.backend() == capture_backend,
            s.streams() == Seq::<VideoStreamSession>::empty(),
            s.next_number() == 1,
    {
        InMemoryVideoStreamService {
            capture_backend,
            streams: Vec::new(),
            next_stream_sequence: 1,
            numbers: Ghost(Seq::empty()),
        }
    }

    /// The capture backend, to change; the streams stay as they are.
    pub fn capture_backend_mut(&mut self) -> (b: &mut WindowCaptureBackendService)
        ensures
            *b == old(self).backend(),
            final(self).backend() == *final(b),
            final(self).streams() == old(self).streams(),
            final(self).numbers() == old(self).numbers(),
            final(self).next_number() == old(self).next_number(),
    {
        &mut self.capture_backend
    }

    /// The capture backend.
    pub fn capture_backend(&self) -> (b: &WindowCaptureBackendService)
        ensures
            *b == self.backend(),
    {
        &self.capture_backend
    }

    /// The next stream id, `stream-<n>`; the number moves on.
    fn next_stream_id(&mut self) -> (id: String)
        requires
            old(self).has_room(),
        ensures
            id@ == video_stream_id(old(self).next_number()),
            final(self).next_number() == old(self).next_number() + 1,
            final(self).backend() == old(self).backend(),
            final(self).streams() == old(self).streams(),
            final(self).numbers() == old(self).numbers(),
    {
        let mut v = chars_of("stream-");
        write_dec(self.next_stream_sequence, &mut v);
        self.next_stream_sequence = self.next_stream_sequence + 1;
        string_from_chars(&v)
    }

    /// Starts a stream of `session`'s selected window, encoding at `encoded_target` (the
    /// resolution the session's viewport is capped to). The session must be the requested,
    /// open one; a backend without window capture refuses; a capture that fails gives a
    /// stream that starts failed.
    pub fn start_stream(
        &mut self,
        request: crate::video_protocol::StartVideoStreamRequest,
        session: &ApplicationSession,
        encoded_target: ViewportSize,
    ) -> (r: Result<VideoStreamSession, AppRelayError>)
        requires
            old(self).wf(),
            session.id@ == request.session_id@ && session.state != SessionState::Closed ==> old(
                self,
            ).has_room(),
            bitrate_computable(encoded_target),
            crate::video_pipeline::unscaled_target(session.viewport) matches Some(t) ==> encoded_target == t,
        ensures
            final(self).wf(),
            (session.id@ != request.session_id@ || session.state == SessionState::Closed) ==> (r
                matches Err(AppRelayError::NotFound(m)) && m@ == session_not_found(request.session_id@))
                && *final(self) == *old(self),
            !(session.id@ != request.session_id@ || session.state == SessionState::Closed) ==> {
                &&& final(self).next_number() == old(self).next_number() + 1
                &&& exists|c: Result<crate::video_capture::WindowCaptureStart, AppRelayError>|
                    capture_started_ok(
                        old(self).backend(),
                        final(self).backend(),
                        video_stream_id(old(self).next_number()),
                        *session,
                        c,
                    )
                &&& (old(self).backend() matches WindowCaptureBackendService::Unsupported { platform }
                    ==> r == Err::<VideoStreamSession, AppRelayError>(
                    AppRelayError::Unsupported { platform, feature: Feature::WindowVideoStream },
                ) && final(self).streams() == old(self).streams())
                &&& (!(old(self).backend() is Unsupported) ==> (r matches Ok(s) && {
                    &&& final(self).streams().len() == old(self).streams().len() + 1
                    &&& final(self).streams().drop_last() == old(self).streams()
                    &&& same_video_stream(final(self).streams().last(), s)
                    &&& new_stream_ok(
                        s,
                        *session,
                        old(self).next_number(),
                        encoded_target,
                        start_failure(old(self).backend()),
                        old(self).backend(),
                    )
                }))
            },
    {
        if session.id != request.session_id || session.state == SessionState::Closed {
            return Err(
                AppRelayError::NotFound(text3("session ", request.session_id.as_str(), " was not found")),
            );
        }
        let ghost n = self.next_number();
        let stream_id = self.next_stream_id();
        let capture = self.capture_backend.start_capture(stream_id.as_str(), session);
        let (capture_source, signaling, failure) = match capture {
            Ok(c) => (c.source, c.signaling, None),
            Err(e) => {
                let unsupported = match &e {
                    AppRelayError::Unsupported { .. } => true,
                    _ => false,
                };
                if unsupported {
                    return Err(e);
                }
                (
                    capture_source_from_session(session),
                    signaling_for_stream(stream_id.as_str(), session.selected_window.id.as_str()),
                    Some(capture_failure(capture_error_message(&e))),
                )
            },
        };
        let mut stream = VideoStreamSession {
            id: stream_id,
            session_id: session.id.clone(),
            selected_window_id: session.selected_window.id.clone(),
            viewport: session.viewport,
            capture_source,
            capture_runtime: VideoCaptureRuntimeStatus::default(),
            encoding: InMemoryVideoEncodingPipeline::configured(session.viewport, encoded_target),
            signaling,
            stats: VideoStreamStats {
                frames_encoded: 0,
                bitrate_kbps: 0,
                latency_ms: 0,
                reconnect_attempts: 0,
            },
            health: VideoStreamHealth { healthy: true, message: None },
            failure: None,
            state: VideoStreamState::Starting,
            failure_reason: None,
        };
        match failure {
            Some(f) => apply_failure(&mut stream, f),
            None => reconcile_capture_runtime_snapshot(&self.capture_backend, &mut stream),
        }
        self.streams.push(stream.clone());
        proof {
            self.numbers@ = self.numbers@.push(n);
            let t = self.streams();
            let ns = self.numbers();
            assert forall|i: int| 0 <= i < t.len() implies (#[trigger] t[i]).id@ == video_stream_id(ns[i])
                && ns[i] < self.next_number() && t[i].encoding.contract.target.max_fps == MAX_FPS by {
                if i < t.len() - 1 {
                    assert(t[i] == old(self).streams()[i]);
                }
            }
            assert forall|i: int, j: int| 0 <= i < j < ns.len() implies #[trigger] ns[i] < #[trigger] ns[j] by {
                assert(ns[i] == old(self).numbers()[i]);
                assert(old(self).streams()[i].id@ == video_stream_id(old(self).numbers()[i]));
                if j < ns.len() - 1 {
                    assert(ns[j] == old(self).numbers()[j]);
                }
            }
        }
        Ok(stream)
    }
}


impl InMemoryVideoStreamService {
    /// The position of the first stream with id `id`.
    fn find_stream(&self, id: &str) -> (r: Option<usize>)
        ensures
            r matches Some(k) ==> first_stream(self.streams(), id@, k as int),
            r is None ==> !has_stream(self.streams(), id@),
    {
        let target = String::from_str(id);
        let mut i: usize = 0;
        while i < self.streams.len()
            invariant
                i <= self.streams@.len(),
                target@ == id@,
                forall|j: int| 0 <= j < i ==> (#[trigger] self.streams@[j]).id@ != id@,
            decreases self.streams@.len() - i,
        {
            if self.streams[i].id == target {
                return Some(i);
            }
            i = i + 1;
        }
        None
    }

    /// The position of the first stream with id `id` that is not stopped.
    fn find_active(&self, id: &str) -> (r: Option<usize>)
        ensures
            r matches Some(k) ==> first_active_stream(self.streams(), id@, k as int),
            r is None ==> !has_active_stream(self.streams(), id@),
    {
        let target = String::from_str(id);
        let mut i: usize = 0;
        while i < self.streams.len()
            invariant
                i <= self.streams@.len(),
                target@ == id@,
                forall|j: int| 0 <= j < i ==> !active_with_id(#[trigger] self.streams@[j], id@),
            decreases self.streams@.len() - i,
        {
            if self.streams[i].id == target && self.streams[i].state != VideoStreamState::Stopped {
                return Some(i);
            }
            i = i + 1;
        }
        None
    }

    /// Stops the stream `request.stream_id` that is not stopped yet: its capture stops
    /// (unless it failed), its pipeline drains and its failure clears. With no such stream,
    /// nothing changes and the answer is `NotFound`.
    pub fn stop_stream(&mut self, request: crate::video_protocol::StopVideoStreamRequest) -> (r: Result<
        VideoStreamSession,
        AppRelayError,
    >)
        requires
            old(self).wf(),
        ensures
            final(self).wf(),
            final(self).next_number() == old(self).next_number(),
            !has_active_stream(old(self).streams(), request.stream_id@) ==> (r matches Err(
                AppRelayError::NotFound(m),
            ) && m@ == stream_not_found(request.stream_id@)) && *final(self) == *old(self),
            forall|k: int|
                first_active_stream(old(self).streams(), request.stream_id@, k) ==> {
                    let p = old(self).streams()[k];
                    &&& final(self).streams().len() == old(self).streams().len()
                    &&& final(self).streams() == old(self).streams().update(k, final(self).streams()[k])
                    &&& stopped_ok(final(self).streams()[k], p)
                    &&& (p.state != VideoStreamState::Failed ==> capture_stopped_ok(
                        old(self).backend(),
                        final(self).backend(),
                        p.id@,
                    ))
                    &&& (p.state == VideoStreamState::Failed ==> final(self).backend() == old(
                        self,
                    ).backend())
                    &&& r matches Ok(s) && same_video_stream(s, final(self).streams()[k])
                },
    {
        let k = match self.find_active(request.stream_id.as_str()) {
            Some(k) => k,
            None => {
                return Err(
                    AppRelayError::NotFound(
                        text3("stream ", request.stream_id.as_str(), " was not found"),
                    ),
                );
            },
        };
        let ghost p = self.streams@[k as int];
        let stream = &mut self.streams[k];
        if stream.state != VideoStreamState::Failed {
            self.capture_backend.stop_capture(stream.id.as_str());
        }
        stream.state = VideoStreamState::Stopped;
        InMemoryVideoEncodingPipeline::drain(&mut stream.encoding);
        stream.capture_runtime = VideoCaptureRuntimeStatus::default();
        stream.health = VideoStreamHealth {
            healthy: false,
            message: Some(String::from_str("stream stopped by client")),
        };
        stream.failure = None;
        stream.failure_reason = None;
        let out = stream.clone();
        proof {
            lemma_streams_wf_update(old(self).streams(), self.numbers(), self.next_number(), k as int, self.streams()[k as int]);
            assert(self.streams() =~= old(self).streams().update(k as int, self.streams()[k as int]));
        }
        Ok(out)
    }

    /// The stream `stream_id`, with its capture runtime's report folded in first.
    pub fn stream_status(&mut self, stream_id: &str) -> (r: Result<VideoStreamSession, AppRelayError>)
        requires
            old(self).wf(),
        ensures
            final(self).wf(),
            final(self).next_number() == old(self).next_number(),
            final(self).backend() == old(self).backend(),
            !has_stream(old(self).streams(), stream_id@) ==> (r matches Err(AppRelayError::NotFound(m))
                && m@ == stream_not_found(stream_id@)) && *final(self) == *old(self),
            forall|k: int|
                first_stream(old(self).streams(), stream_id@, k) ==> {
                    &&& final(self).streams() == old(self).streams().update(k, final(self).streams()[k])
                    &&& reconciled_ok(
                        final(self).streams()[k],
                        old(self).streams()[k],
                        backend_snapshot(old(self).backend(), stream_id@),
                    )
                    &&& r matches Ok(s) && same_video_stream(s, final(self).streams()[k])
                },
    {
        let k = match self.find_stream(stream_id) {
            Some(k) => k,
            None => {
                return Err(AppRelayError::NotFound(text3("stream ", stream_id, " was not found")));
            },
        };
        let stream = &mut self.streams[k];
        reconcile_capture_runtime_snapshot(&self.capture_backend, stream);
        let out = stream.clone();
        proof {
            lemma_streams_wf_update(old(self).streams(), self.numbers(), self.next_number(), k as int, self.streams()[k as int]);
            assert(self.streams() =~= old(self).streams().update(k as int, self.streams()[k as int]));
        }
        Ok(out)
    }
}


/// Whether a stream is not stopped.
pub open spec fn not_stopped(s: VideoStreamSession) -> bool {
    s.state != VideoStreamState::Stopped
}

/// `r` lists, in order, copies of the streams of `s` that are not stopped.
pub open spec fn lists_active(r: Seq<VideoStreamSession>, s: Seq<VideoStreamSession>) -> bool {
    let a = s.filter(|x: VideoStreamSession| not_stopped(x));
    &&& r.len() == a.len()
    &&& forall|j: int| 0 <= j < r.len() ==> same_video_stream(#[trigger] r[j], a[j])
}

/// One step of closing session `session_id`: stream `p` becomes `s` and the backend goes
/// from `b0` to `b1`. A stream of the session that is not stopped fails as closed, its
/// capture stopped first unless it had failed; any other stream and the backend are kept.
pub open spec fn closed_step_ok(
    b0: WindowCaptureBackendService,
    b1: WindowCaptureBackendService,
    s: VideoStreamSession,
    p: VideoStreamSession,
    session_id: Seq<char>,
) -> bool {
    if p.session_id@ == session_id && p.state != VideoStreamState::Stopped {
        &&& app_closed_ok(s, p, session_id)
        &&& (p.state != VideoStreamState::Failed ==> capture_stopped_ok(b0, b1, p.id@))
        &&& (p.state == VideoStreamState::Failed ==> b1 == b0)
    } else {
        s == p && b1 == b0
    }
}

/// The backends `bs` the closing of session `session_id` passes through, one step per
/// stream, from `b_old` to `b_new`, turning streams `old` into `new`.
pub open spec fn closed_trace_ok(
    bs: Seq<WindowCaptureBackendService>,
    old: Seq<VideoStreamSession>,
    new: Seq<VideoStreamSession>,
    session_id: Seq<char>,
    b_old: WindowCaptureBackendService,
    b_new: WindowCaptureBackendService,
) -> bool {
    &&& new.len() == old.len()
    &&& bs.len() == old.len() + 1
    &&& bs[0] == b_old
    &&& bs[old.len() as int] == b_new
    &&& forall|i: int| 0 <= i < old.len() ==> closed_step_ok(bs[i], bs[i + 1], #[trigger] new[i], old[i], session_id)
}

impl InMemoryVideoStreamService {
    /// The streams that are not stopped, in order, each with its capture runtime's report
    /// folded in (every stream gets the report, stopped ones too).
    pub fn active_streams(&mut self) -> (r: Vec<VideoStreamSession>)
        requires
            old(self).wf(),
        ensures
            final(self).wf(),
            final(self).next_number() == old(self).next_number(),
            final(self).backend() == old(self).backend(),
            final(self).streams().len() == old(self).streams().len(),
            forall|i: int|
                0 <= i < old(self).streams().len() ==> reconciled_ok(
                    #[trigger] final(self).streams()[i],
                    old(self).streams()[i],
                    backend_snapshot(old(self).backend(), old(self).streams()[i].id@),
                ),
            lists_active(r@, final(self).streams()),
    {
        let ghost f = |x: VideoStreamSession| not_stopped(x);
        let mut out: Vec<VideoStreamSession> = Vec::new();
        let mut i: usize = 0;
        assert(self.streams@.take(0) =~= Seq::<VideoStreamSession>::empty());
        while i < self.streams.len()
            invariant
                i <= self.streams@.len(),
                self.streams@.len() == old(self).streams@.len(),
                self.capture_backend == old(self).capture_backend,
                self.next_number() == old(self).next_number(),
                self.numbers() == old(self).numbers(),
                self.wf(),
                f == (|x: VideoStreamSession| not_stopped(x)),
                forall|j: int|
                    0 <= j < i ==> reconciled_ok(
                        #[trigger] self.streams@[j],
                        old(self).streams@[j],
                        backend_snapshot(old(self).backend(), old(self).streams@[j].id@),
                    ),
                forall|j: int| i <= j < self.streams@.len() ==> #[trigger] self.streams@[j] == old(self).streams@[j],
                out@.len() == self.streams@.take(i as int).filter(f).len(),
                forall|j: int|
                    0 <= j < out@.len() ==> same_video_stream(
                        #[trigger] out@[j],
                        self.streams@.take(i as int).filter(f)[j],
                    ),
            decreases self.streams@.len() - i,
        {
            let ghost before = self.streams@;
            let stream = &mut self.streams[i];
            reconcile_capture_runtime_snapshot(&self.capture_backend, stream);
            let keep = stream.state != VideoStreamState::Stopped;
            if keep {
                out.push(stream.clone());
            }
            proof {
                lemma_streams_wf_update(before, self.numbers(), self.next_number(), i as int, self.streams@[i as int]);
                assert(self.streams@ =~= before.update(i as int, self.streams@[i as int]));
                assert(self.streams@.take(i as int) =~= before.take(i as int));
                assert(self.streams@.take(i + 1) =~= self.streams@.take(i as int).push(self.streams@[i as int]));
                self.streams@.take(i as int).lemma_filter_push(self.streams@[i as int], f);
            }
            i = i + 1;
        }
        assert(self.streams@.take(self.streams@.len() as int) =~= self.streams@);
        out
    }

    /// Fails every stream of session `session_id` that is not stopped, as its application
    /// session closed; the capture of each that had not failed stops first.
    pub fn record_session_closed(&mut self, session_id: &str)
        requires
            old(self).wf(),
        ensures
            final(self).wf(),
            final(self).next_number() == old(self).next_number(),
            exists|bs: Seq<WindowCaptureBackendService>|
                closed_trace_ok(
                    bs,
                    old(self).streams(),
                    final(self).streams(),
                    session_id@,
                    old(self).backend(),
                    final(self).backend(),
                ),
    {
        let target = String::from_str(session_id);
        let ghost mut bs: Seq<WindowCaptureBackendService> = seq![self.capture_backend];
        let mut i: usize = 0;
        while i < self.streams.len()
            invariant
                i <= self.streams@.len(),
                self.streams@.len() == old(self).streams@.len(),
                target@ == session_id@,
                self.next_number() == old(self).next_number(),
                self.numbers() == old(self).numbers(),
                self.wf(),
                bs.len() == i + 1,
                bs[0] == old(self).capture_backend,
                bs[i as int] == self.capture_backend,
                forall|j: int|
                    0 <= j < i ==> closed_step_ok(
                        bs[j],
                        bs[j + 1],
                        #[trigger] self.streams@[j],
                        old(self).streams@[j],
                        session_id@,
                    ),
                forall|j: int| i <= j < self.streams@.len() ==> #[trigger] self.streams@[j] == old(self).streams@[j],
            decreases self.streams@.len() - i,
        {
            let ghost before = self.streams@;
            let ghost b0 = self.capture_backend;
            let stream = &mut self.streams[i];
            if stream.session_id == target && stream.state != VideoStreamState::Stopped {
                if stream.state != VideoStreamState::Failed {
                    self.capture_backend.stop_capture(stream.id.as_str());
                }
                apply_failure(stream, app_closed_failure(session_id));
            }
            proof {
                lemma_streams_wf_update(before, self.numbers(), self.next_number(), i as int, self.streams@[i as int]);
                assert(self.streams@ =~= before.update(i as int, self.streams@[i as int]));
                bs = bs.push(self.capture_backend);
                assert(closed_step_ok(b0, self.capture_backend, self.streams@[i as int], old(self).streams@[i as int], session_id@));
            }
            i = i + 1;
        }
        assert(closed_trace_ok(
            bs,
            old(self).streams(),
            self.streams(),
            session_id@,
            old(self).backend(),
            self.backend(),
        ));
    }
}


pub open spec fn stream_stopped_message(id: Seq<char>) -> Seq<char> {
    "stream "@ + id + " has been stopped"@
}

pub open spec fn stream_failed_message(id: Seq<char>) -> Seq<char> {
    "stream "@ + id + " is failed and must be reconnected before negotiation"@
}

pub open spec fn already_negotiated_message(id: Seq<char>) -> Seq<char> {
    "stream "@ + id + " has already been negotiated"@
}

/// Stream `p` with the report `snapshot` in place of its capture status, if there is one.
pub open spec fn with_report(p: VideoStreamSession, snapshot: Option<VideoCaptureRuntimeStatus>) -> VideoStreamSession {
    match snapshot {
        Some(x) => VideoStreamSession { capture_runtime: x, ..p },
        None => p,
    }
}

/// Whether a report says capture failed.
pub open spec fn report_fails(snapshot: Option<VideoCaptureRuntimeStatus>) -> bool {
    snapshot matches Some(x) && runtime_failed(x)
}

/// Stream `q` once the client's `answer` and `candidates` are taken: negotiated, the first
/// frame encoded, streaming at the target bitrate with the latency of one frame.
pub open spec fn negotiated_ok(
    s: VideoStreamSession,
    q: VideoStreamSession,
    answer: crate::video_protocol::WebRtcSessionDescription,
    candidates: Seq<WebRtcIceCandidate>,
) -> bool {
    &&& same_identity(s, q)
    &&& s.viewport == q.viewport
    &&& s.capture_runtime == q.capture_runtime
    &&& s.signaling.kind == q.signaling.kind
    &&& s.signaling.offer == q.signaling.offer
    &&& s.signaling.answer == Some(answer)
    &&& s.signaling.ice_candidates@ == q.signaling.ice_candidates@ + candidates
    &&& s.signaling.negotiation_state == VideoStreamNegotiationState::Negotiated
    &&& crate::video_pipeline::next_frame_encoded(s.encoding, q.encoding)
    &&& s.stats == (VideoStreamStats {
        frames_encoded: s.encoding.output.frames_encoded,
        bitrate_kbps: q.encoding.contract.target.target_bitrate_kbps,
        latency_ms: (1000u32 / q.encoding.contract.target.max_fps) as u32,
        reconnect_attempts: q.stats.reconnect_attempts,
    })
    &&& s.state == VideoStreamState::Streaming
    &&& video_health_is(s.health, true, Some("WebRTC negotiation completed"@))
    &&& s.failure is None
    &&& s.failure_reason is None
}

/// The outcome of negotiating stream `p` (the first with its id) with the client's answer,
/// given the capture runtime's report `snap`: the report is folded in first; a stopped or
/// failed stream, or one already negotiated, refuses and keeps the report; any other takes
/// the answer.
pub open spec fn negotiation_ok(
    s: VideoStreamSession,
    p: VideoStreamSession,
    snap: Option<VideoCaptureRuntimeStatus>,
    request: crate::video_protocol::NegotiateVideoStreamRequest,
    r: Result<VideoStreamSession, AppRelayError>,
) -> bool {
    let id = request.stream_id@;
    if p.state == VideoStreamState::Stopped {
        reconciled_ok(s, p, snap) && (r matches Err(AppRelayError::InvalidRequest(m)) && m@
            == stream_stopped_message(id))
    } else if p.state == VideoStreamState::Failed || report_fails(snap) {
        reconciled_ok(s, p, snap) && (r matches Err(AppRelayError::InvalidRequest(m)) && m@
            == stream_failed_message(id))
    } else if p.signaling.negotiation_state == VideoStreamNegotiationState::Negotiated {
        reconciled_ok(s, p, snap) && (r matches Err(AppRelayError::InvalidRequest(m)) && m@
            == already_negotiated_message(id))
    } else {
        &&& negotiated_ok(s, with_report(p, snap), request.client_answer, request.client_ice_candidates@)
        &&& r matches Ok(x) && same_video_stream(x, s)
    }
}

/// Whether negotiating stream `p` with `request` may get as far as encoding: an answer,
/// for a stream that is neither stopped, failed nor negotiated yet.
pub open spec fn takes_answer(p: VideoStreamSession, request: crate::video_protocol::NegotiateVideoStreamRequest) -> bool {
    &&& request.client_answer.sdp_type == crate::video_protocol::WebRtcSdpType::Answer
    &&& p.state != VideoStreamState::Stopped
    &&& p.state != VideoStreamState::Failed
    &&& p.signaling.negotiation_state != VideoStreamNegotiationState::Negotiated
}

impl InMemoryVideoStreamService {
    /// Takes the client's WebRTC answer and candidates for stream `request.stream_id`, after
    /// folding in its capture runtime's report: the stream is negotiated, encodes its first
    /// frame and streams. Only an answer is taken; a stopped or failed stream, or one
    /// already negotiated, refuses.
    pub fn negotiate_stream(&mut self, request: crate::video_protocol::NegotiateVideoStreamRequest) -> (r:
        Result<VideoStreamSession, AppRelayError>)
        requires
            old(self).wf(),
            forall|k: int|
                first_stream(old(self).streams(), request.stream_id@, k) && takes_answer(
                    #[trigger] old(self).streams()[k],
                    request,
                ) ==> crate::video_pipeline::can_encode_next(old(self).streams()[k].encoding),
        ensures
            final(self).wf(),
            final(self).next_number() == old(self).next_number(),
            final(self).backend() == old(self).backend(),
            request.client_answer.sdp_type != crate::video_protocol::WebRtcSdpType::Answer ==> (r
                matches Err(AppRelayError::InvalidRequest(m)) && m@
                == "video stream negotiation requires a WebRTC answer"@) && *final(self) == *old(self),
            request.client_answer.sdp_type == crate::video_protocol::WebRtcSdpType::Answer && !has_stream(
                old(self).streams(),
                request.stream_id@,
            ) ==> (r matches Err(AppRelayError::NotFound(m)) && m@ == stream_not_found(request.stream_id@))
                && *final(self) == *old(self),
            request.client_answer.sdp_type == crate::video_protocol::WebRtcSdpType::Answer ==> forall|k: int|
                first_stream(old(self).streams(), request.stream_id@, k) ==> {
                    &&& final(self).streams() == old(self).streams().update(k, final(self).streams()[k])
                    &&& negotiation_ok(
                        final(self).streams()[k],
                        old(self).streams()[k],
                        backend_snapshot(old(self).backend(), request.stream_id@),
                        request,
                        r,
                    )
                },
    {
        let is_answer = match request.client_answer.sdp_type {
            crate::video_protocol::WebRtcSdpType::Answer => true,
            crate::video_protocol::WebRtcSdpType::Offer => false,
        };
        if !is_answer {
            return Err(
                AppRelayError::InvalidRequest(
                    String::from_str("video stream negotiation requires a WebRTC answer"),
                ),
            );
        }
        let k = match self.find_stream(request.stream_id.as_str()) {
            Some(k) => k,
            None => {
                return Err(
                    AppRelayError::NotFound(
                        text3("stream ", request.stream_id.as_str(), " was not found"),
                    ),
                );
            },
        };
        let ghost req = request;
        let ghost p = self.streams@[k as int];
        let stream = &mut self.streams[k];
        reconcile_capture_runtime_snapshot(&self.capture_backend, stream);
        let outcome: Result<(), AppRelayError> = if stream.state == VideoStreamState::Stopped {
            Err(
                AppRelayError::InvalidRequest(
                    text3("stream ", request.stream_id.as_str(), " has been stopped"),
                ),
            )
        } else if stream.state == VideoStreamState::Failed {
            Err(
                AppRelayError::InvalidRequest(
                    text3(
                        "stream ",
                        request.stream_id.as_str(),
                        " is failed and must be reconnected before negotiation",
                    ),
                ),
            )
        } else if stream.signaling.negotiation_state == VideoStreamNegotiationState::Negotiated {
            Err(
                AppRelayError::InvalidRequest(
                    text3("stream ", request.stream_id.as_str(), " has already been negotiated"),
                ),
            )
        } else {
            let mut extra = request.client_ice_candidates;
            stream.signaling.answer = Some(request.client_answer);
            stream.signaling.ice_candidates.append(&mut extra);
            stream.signaling.negotiation_state = VideoStreamNegotiationState::Negotiated;
            InMemoryVideoEncodingPipeline::encode_next_frame(&mut stream.encoding);
            stream.stats.frames_encoded = stream.encoding.output.frames_encoded;
            stream.stats.bitrate_kbps = stream.encoding.contract.target.target_bitrate_kbps;
            stream.stats.latency_ms = 1000 / stream.encoding.contract.target.max_fps;
            stream.state = VideoStreamState::Streaming;
            stream.health = VideoStreamHealth {
                healthy: true,
                message: Some(String::from_str("WebRTC negotiation completed")),
            };
            stream.failure = None;
            stream.failure_reason = None;
            Ok(())
        };
        let out = stream.clone();
        proof {
            lemma_streams_wf_update(old(self).streams(), self.numbers(), self.next_number(), k as int, self.streams()[k as int]);
            assert(self.streams() =~= old(self).streams().update(k as int, self.streams()[k as int]));
        }
        match outcome {
            Ok(()) => Ok(out),
            Err(e) => Err(e),
        }
    }
}


pub open spec fn session_closed_message(id: Seq<char>) -> Seq<char> {
    "stream "@ + id + " cannot reconnect because its application session closed"@
}

/// Whether a stream's failure asks for its capture to be started again.
pub open spec fn needs_capture_retry(q: VideoStreamSession) -> bool {
    q.failure matches Some(f) && f.kind == VideoStreamFailureKind::CaptureFailed && f.recovery.retryable
}

/// Stream `q` capturing through the restarted capture `c`.
pub open spec fn with_capture(q: VideoStreamSession, c: crate::video_capture::WindowCaptureStart) -> VideoStreamSession {
    VideoStreamSession { capture_source: c.source, signaling: c.signaling, ..q }
}

/// Stream `base` started over: starting again, its pipeline reset, awaiting a new answer
/// with only the server's candidates, its counters cleared but for one more reconnect.
pub open spec fn reset_ok(t: VideoStreamSession, base: VideoStreamSession) -> bool {
    &&& same_identity(t, base)
    &&& t.viewport == base.viewport
    &&& t.capture_runtime == base.capture_runtime
    &&& t.state == VideoStreamState::Starting
    &&& t.encoding.contract == base.encoding.contract
    &&& t.encoding.state == VideoEncodingPipelineState::Configured
    &&& t.encoding.output == crate::video_pipeline::empty_output()
    &&& t.signaling.kind == base.signaling.kind
    &&& t.signaling.offer == base.signaling.offer
    &&& t.signaling.negotiation_state == VideoStreamNegotiationState::AwaitingAnswer
    &&& t.signaling.answer is None
    &&& t.signaling.ice_candidates@ == base.signaling.ice_candidates@.filter(
        |c: WebRtcIceCandidate| is_server_candidate(c),
    )
    &&& t.stats == (VideoStreamStats {
        frames_encoded: 0,
        bitrate_kbps: 0,
        latency_ms: 0,
        reconnect_attempts: (base.stats.reconnect_attempts + 1) as u64,
    })
    &&& video_health_is(t.health, true, Some("reconnect requested"@))
    &&& t.failure is None
    &&& t.failure_reason is None
}

/// Stream `base` started over, then given the report of backend `b` on it.
pub open spec fn restarted_ok(s: VideoStreamSession, base: VideoStreamSession, b: WindowCaptureBackendService) -> bool {
    exists|t: VideoStreamSession| #[trigger] reset_ok(t, base) && reconciled_ok(s, t, backend_snapshot(b, base.id@))
}

/// Stream `q` after its capture failed to start again with `message`: one more reconnect
/// counted, then failed.
pub open spec fn retry_failed_ok(s: VideoStreamSession, q: VideoStreamSession, message: Seq<char>) -> bool {
    capture_failed_ok(
        s,
        VideoStreamSession {
            stats: VideoStreamStats {
                reconnect_attempts: (q.stats.reconnect_attempts + 1) as u64,
                ..q.stats
            },
            ..q
        },
        message,
    )
}

/// Reconnecting stream `q` (the report of backend `b0` already folded in), which ends as
/// `s` with the backend at `b1`: a stopped stream, or one whose session closed, refuses;
/// a stream whose capture failed starts its capture again (counting one more reconnect and
/// failing again if that fails); the stream then starts over.
pub open spec fn reconnect_from(
    s: VideoStreamSession,
    q: VideoStreamSession,
    b0: WindowCaptureBackendService,
    b1: WindowCaptureBackendService,
    r: Result<VideoStreamSession, AppRelayError>,
    id: Seq<char>,
) -> bool {
    if q.state == VideoStreamState::Stopped {
        s == q && b1 == b0 && (r matches Err(AppRelayError::InvalidRequest(m)) && m@ == stream_stopped_message(id))
    } else if q.failure matches Some(f) && f.kind == VideoStreamFailureKind::AppClosed {
        s == q && b1 == b0 && (r matches Err(AppRelayError::InvalidRequest(m)) && m@ == session_closed_message(id))
    } else if needs_capture_retry(q) {
        &&& exists|c: Result<crate::video_capture::WindowCaptureStart, AppRelayError>, bm: WindowCaptureBackendService|
            #[trigger] capture_started_ok(b0, bm, id, stream_session(q), c) && b1 == bm && match c {
                Err(e) => retry_failed_ok(s, q, error_message(e)),
                Ok(cs) => restarted_ok(s, with_capture(q, cs), bm),
            }
        &&& r matches Ok(x) && same_video_stream(x, s)
    } else {
        &&& b1 == b0
        &&& restarted_ok(s, q, b0)
        &&& r matches Ok(x) && same_video_stream(x, s)
    }
}

/// Whether reconnecting stream `p` may count a reconnect: it is not stopped, nor failed
/// because its session closed.
pub open spec fn may_reconnect(p: VideoStreamSession) -> bool {
    &&& p.state != VideoStreamState::Stopped
    &&& !(p.state == VideoStreamState::Failed && (p.failure matches Some(f) && f.kind
        == VideoStreamFailureKind::AppClosed))
}

impl InMemoryVideoStreamService {
    /// Reconnects stream `request.stream_id` after folding in its capture runtime's report:
    /// a stopped stream, or one whose application session closed, refuses; a stream whose
    /// capture failed starts capture again first; the stream then starts over, awaiting a
    /// new answer.
    pub fn reconnect_stream(&mut self, request: crate::video_protocol::ReconnectVideoStreamRequest) -> (r:
        Result<VideoStreamSession, AppRelayError>)
        requires
            old(self).wf(),
            forall|k: int|
                first_stream(old(self).streams(), request.stream_id@, k) && may_reconnect(
                    #[trigger] old(self).streams()[k],
                ) ==> old(self).streams()[k].stats.reconnect_attempts < u64::MAX,
        ensures
            final(self).wf(),
            final(self).next_number() == old(self).next_number(),
            !has_stream(old(self).streams(), request.stream_id@) ==> (r matches Err(
                AppRelayError::NotFound(m),
            ) && m@ == stream_not_found(request.stream_id@)) && *final(self) == *old(self),
            forall|k: int|
                first_stream(old(self).streams(), request.stream_id@, k) ==> {
                    &&& final(self).streams() == old(self).streams().update(k, final(self).streams()[k])
                    &&& exists|q: VideoStreamSession|
                        #[trigger] reconciled_ok(
                            q,
                            old(self).streams()[k],
                            backend_snapshot(old(self).backend(), request.stream_id@),
                        ) && reconnect_from(
                            final(self).streams()[k],
                            q,
                            old(self).backend(),
                            final(self).backend(),
                            r,
                            request.stream_id@,
                        )
                },
    {
        let k = match self.find_stream(request.stream_id.as_str()) {
            Some(k) => k,
            None => {
                return Err(
                    AppRelayError::NotFound(
                        text3("stream ", request.stream_id.as_str(), " was not found"),
                    ),
                );
            },
        };
        let ghost p = self.streams@[k as int];
        let ghost b0 = self.capture_backend;
        let stream = &mut self.streams[k];
        reconcile_capture_runtime_snapshot(&self.capture_backend, stream);
        let ghost q = *stream;
        let app_closed = match &stream.failure {
            Some(f) => f.kind == VideoStreamFailureKind::AppClosed,
            None => false,
        };
        let outcome: Result<(), AppRelayError> = if stream.state == VideoStreamState::Stopped {
            Err(
                AppRelayError::InvalidRequest(
                    text3("stream ", request.stream_id.as_str(), " has been stopped"),
                ),
            )
        } else if app_closed {
            Err(
                AppRelayError::InvalidRequest(
                    text3(
                        "stream ",
                        request.stream_id.as_str(),
                        " cannot reconnect because its application session closed",
                    ),
                ),
            )
        } else {
            let retry = match &stream.failure {
                Some(f) => f.kind == VideoStreamFailureKind::CaptureFailed && f.recovery.retryable,
                None => false,
            };
            assert(may_reconnect(p));
            assert(stream.stats.reconnect_attempts == p.stats.reconnect_attempts);
            let mut failed_again = false;
            let ghost mut c: Option<Result<crate::video_capture::WindowCaptureStart, AppRelayError>> = None;
            if retry {
                let session = session_snapshot_from_stream(stream);
                let started = self.capture_backend.start_capture(stream.id.as_str(), &session);
                proof {
                    c = Some(started);
                }
                match started {
                    Ok(capture) => {
                        stream.capture_source = capture.source;
                        stream.signaling = capture.signaling;
                    },
                    Err(e) => {
                        stream.stats.reconnect_attempts = stream.stats.reconnect_attempts + 1;
                        let ghost q1 = *stream;
                        apply_failure(stream, capture_failure(capture_error_message(&e)));
                        assert(capture_failed_ok(*stream, q1, error_message(e)));
                        failed_again = true;
                    },
                }
            }
            if !failed_again {
                let ghost base = *stream;
                stream.state = VideoStreamState::Starting;
                InMemoryVideoEncodingPipeline::reset_for_reconnect(&mut stream.encoding);
                stream.signaling.negotiation_state = VideoStreamNegotiationState::AwaitingAnswer;
                stream.signaling.answer = None;
                stream.signaling.ice_candidates = server_ice_candidates(&stream.signaling.ice_candidates);
                stream.stats = VideoStreamStats {
                    frames_encoded: 0,
                    bitrate_kbps: 0,
                    latency_ms: 0,
                    reconnect_attempts: stream.stats.reconnect_attempts + 1,
                };
                stream.health = VideoStreamHealth {
                    healthy: true,
                    message: Some(String::from_str("reconnect requested")),
                };
                stream.failure = None;
                stream.failure_reason = None;
                let ghost t = *stream;
                assert(reset_ok(t, base));
                reconcile_capture_runtime_snapshot(&self.capture_backend, stream);
                assert(restarted_ok(*stream, base, self.capture_backend));
            }
            proof {
                if retry {
                    assert(capture_started_ok(b0, self.capture_backend, request.stream_id@, stream_session(q), c->0));
                }
            }
            Ok(())
        };
        let out = stream.clone();
        proof {
            lemma_streams_wf_update(old(self).streams(), self.numbers(), self.next_number(), k as int, self.streams()[k as int]);
            assert(self.streams() =~= old(self).streams().update(k as int, self.streams()[k as int]));
            assert(reconciled_ok(q, p, backend_snapshot(b0, request.stream_id@)));
        }
        match outcome {
            Ok(()) => Ok(out),
            Err(e) => Err(e),
        }
    }
}


/// Whether a resize to viewport `v` is followed: 320 by 240 up to 7680 by 4320.
pub open spec fn accepts_resize(v: ViewportSize) -> bool {
    320 <= v.width <= 7680 && 240 <= v.height <= 4320
}

/// Stream `q` following its session to viewport `v`, encoded at `target`: the pipeline is
/// reconfigured (encoding on only if the stream was streaming), the bitrate follows the
/// target and a streaming stream keeps the latency of one frame.
pub open spec fn viewport_updated_ok(s: VideoStreamSession, q: VideoStreamSession, v: ViewportSize, target: ViewportSize) -> bool {
    &&& same_identity(s, q)
    &&& s.capture_runtime == q.capture_runtime
    &&& s.signaling == q.signaling
    &&& s.state == q.state
    &&& s.viewport == v
    &&& s.encoding.output == q.encoding.output
    &&& s.encoding.state == if q.state == VideoStreamState::Streaming && q.encoding.state
        == VideoEncodingPipelineState::Encoding {
        VideoEncodingPipelineState::Encoding
    } else {
        VideoEncodingPipelineState::Configured
    }
    &&& s.encoding.contract == (crate::video_pipeline::VideoEncodingContract {
        target: crate::video_pipeline::VideoEncodingTarget {
            resolution: target,
            target_bitrate_kbps: bitrate_for(target) as u32,
            ..q.encoding.contract.target
        },
        adaptation: crate::video_pipeline::adaptation_for(v, target),
        ..q.encoding.contract
    })
    &&& s.stats == (VideoStreamStats {
        bitrate_kbps: bitrate_for(target) as u32,
        latency_ms: if q.state == VideoStreamState::Streaming {
            (1000u32 / q.encoding.contract.target.max_fps) as u32
        } else {
            q.stats.latency_ms
        },
        ..q.stats
    })
    &&& video_health_is(s.health, true, Some("stream viewport updated"@))
    &&& s.failure is None
    &&& s.failure_reason is None
}

/// Resizing stream `q` (its report already folded in), the backend going from `b0` to
/// `b1`: a failed stream is left; otherwise its capture is resized, and when that fails
/// the capture stops and the stream fails.
pub open spec fn resized_from(
    s: VideoStreamSession,
    q: VideoStreamSession,
    b0: WindowCaptureBackendService,
    b1: WindowCaptureBackendService,
    v: ViewportSize,
    target: ViewportSize,
) -> bool {
    if q.state == VideoStreamState::Failed {
        s == q && b1 == b0
    } else {
        exists|res: Result<(), AppRelayError>, bm: WindowCaptureBackendService|
            #[trigger] capture_resized_ok(b0, bm, q.id@, q.selected_window_id@, v, res) && match res {
                Err(e) => capture_stopped_ok(bm, b1, q.id@) && capture_failed_ok(s, q, error_message(e)),
                Ok(_) => b1 == bm && viewport_updated_ok(s, q, v, target),
            }
    }
}

/// One step of a resize of session `session_id` to `v`: a stream of the session that is
/// not stopped gets its report folded in and is resized; any other stream and the backend
/// are kept.
pub open spec fn resize_step_ok(
    b0: WindowCaptureBackendService,
    b1: WindowCaptureBackendService,
    s: VideoStreamSession,
    p: VideoStreamSession,
    session_id: Seq<char>,
    v: ViewportSize,
    target: ViewportSize,
) -> bool {
    if p.session_id@ == session_id && p.state != VideoStreamState::Stopped {
        exists|q: VideoStreamSession|
            #[trigger] reconciled_ok(q, p, backend_snapshot(b0, p.id@)) && resized_from(s, q, b0, b1, v, target)
    } else {
        s == p && b1 == b0
    }
}

/// The backends `bs` a resize passes through, one step per stream, from `b_old` to
/// `b_new`, turning streams `old` into `new`.
pub open spec fn resize_trace_ok(
    bs: Seq<WindowCaptureBackendService>,
    old: Seq<VideoStreamSession>,
    new: Seq<VideoStreamSession>,
    session_id: Seq<char>,
    v: ViewportSize,
    target: ViewportSize,
    b_old: WindowCaptureBackendService,
    b_new: WindowCaptureBackendService,
) -> bool {
    &&& new.len() == old.len()
    &&& bs.len() == old.len() + 1
    &&& bs[0] == b_old
    &&& bs[old.len() as int] == b_new
    &&& forall|i: int|
        0 <= i < old.len() ==> resize_step_ok(bs[i], bs[i + 1], #[trigger] new[i], old[i], session_id, v, target)
}

impl InMemoryVideoStreamService {
    /// Follows session `request.session_id` to `request.viewport`, encoded at `target` (the
    /// viewport brought within the encoder's limits): each of its streams that is not
    /// stopped gets its report folded in, then, unless failed, its capture resized. A
    /// viewport outside 320 by 240 to 7680 by 4320 is ignored.
    pub fn record_resize(&mut self, request: &crate::protocol::ResizeSessionRequest, target: ViewportSize)
        requires
            old(self).wf(),
            bitrate_computable(target),
            crate::video_pipeline::unscaled_target(request.viewport) matches Some(t) ==> target == t,
        ensures
            final(self).wf(),
            final(self).next_number() == old(self).next_number(),
            !accepts_resize(request.viewport) ==> *final(self) == *old(self),
            accepts_resize(request.viewport) ==> exists|bs: Seq<WindowCaptureBackendService>|
                resize_trace_ok(
                    bs,
                    old(self).streams(),
                    final(self).streams(),
                    request.session_id@,
                    request.viewport,
                    target,
                    old(self).backend(),
                    final(self).backend(),
                ),
    {
        let v = request.viewport;
        if !(v.width >= 320 && v.height >= 240 && v.width <= 7680 && v.height <= 4320) {
            return;
        }
        let ghost bs0: Seq<WindowCaptureBackendService> = seq![self.capture_backend];
        let ghost mut bs = bs0;
        let mut i: usize = 0;
        while i < self.streams.len()
            invariant
                i <= self.streams@.len(),
                self.streams@.len() == old(self).streams@.len(),
                self.next_number() == old(self).next_number(),
                self.numbers() == old(self).numbers(),
                self.wf(),
                bitrate_computable(target),
                v == request.viewport,
                bs.len() == i + 1,
                bs[0] == old(self).capture_backend,
                bs[i as int] == self.capture_backend,
                forall|j: int|
                    0 <= j < i ==> resize_step_ok(
                        bs[j],
                        bs[j + 1],
                        #[trigger] self.streams@[j],
                        old(self).streams@[j],
                        request.session_id@,
                        v,
                        target,
                    ),
                forall|j: int| i <= j < self.streams@.len() ==> #[trigger] self.streams@[j] == old(self).streams@[j],
            decreases self.streams@.len() - i,
        {
            let ghost before = self.streams@;
            let ghost b0 = self.capture_backend;
            let ghost p = self.streams@[i as int];
            let stream = &mut self.streams[i];
            if stream.session_id == request.session_id && stream.state != VideoStreamState::Stopped {
                reconcile_capture_runtime_snapshot(&self.capture_backend, stream);
                let ghost q = *stream;
                if stream.state != VideoStreamState::Failed {
                    let resized = self.capture_backend.resize_capture(
                        stream.id.as_str(),
                        stream.selected_window_id.as_str(),
                        v,
                    );
                    let ghost bm = self.capture_backend;
                    match resized {
                        Err(e) => {
                            self.capture_backend.stop_capture(stream.id.as_str());
                            apply_failure(stream, capture_failure(capture_error_message(&e)));
                            assert(capture_failed_ok(*stream, q, error_message(e)));
                        },
                        Ok(()) => {
                            let streaming = stream.state == VideoStreamState::Streaming;
                            stream.viewport = v;
                            InMemoryVideoEncodingPipeline::reconfigure(&mut stream.encoding, v, target, streaming);
                            stream.stats.bitrate_kbps = stream.encoding.contract.target.target_bitrate_kbps;
                            if streaming {
                                stream.stats.latency_ms = 1000 / stream.encoding.contract.target.max_fps;
                            }
                            stream.health = VideoStreamHealth {
                                healthy: true,
                                message: Some(String::from_str("stream viewport updated")),
                            };
                            stream.failure = None;
                            stream.failure_reason = None;
                            assert(viewport_updated_ok(*stream, q, v, target));
                        },
                    }
                    assert(capture_resized_ok(b0, bm, q.id@, q.selected_window_id@, v, resized));
                }
                assert(reconciled_ok(q, p, backend_snapshot(b0, p.id@)));
            }
            proof {
                lemma_streams_wf_update(before, self.numbers(), self.next_number(), i as int, self.streams@[i as int]);
                assert(self.streams@ =~= before.update(i as int, self.streams@[i as int]));
                bs = bs.push(self.capture_backend);
                assert(resize_step_ok(b0, self.capture_backend, self.streams@[i as int], old(self).streams@[i as int], request.session_id@, v, target));
            }
            i = i + 1;
        }
        assert(resize_trace_ok(
            bs,
            old(self).streams(),
            self.streams(),
            request.session_id@,
            v,
            target,
            old(self).backend(),
            self.backend(),
        ));
    }
}


impl InMemoryVideoStreamService {
    /// Encodes the next frame of stream `stream_id`, as the capture runtime would, and gives
    /// the new frame's sequence number; `None` when there is no such stream.
    pub fn advance_encoded_frame_for_test(&mut self, stream_id: &str) -> (r: Option<u64>)
        requires
            old(self).wf(),
            forall|k: int|
                first_stream(old(self).streams(), stream_id@, k) ==> crate::video_pipeline::can_encode_next(
                    #[trigger] old(self).streams()[k].encoding,
                ),
        ensures
            final(self).wf(),
            final(self).next_number() == old(self).next_number(),
            final(self).backend() == old(self).backend(),
            !has_stream(old(self).streams(), stream_id@) ==> r is None && *final(self) == *old(self),
            forall|k: int|
                first_stream(old(self).streams(), stream_id@, k) ==> {
                    let p = old(self).streams()[k];
                    let s = final(self).streams()[k];
                    &&& final(self).streams() == old(self).streams().update(k, s)
                    &&& crate::video_pipeline::next_frame_encoded(s.encoding, p.encoding)
                    &&& s == (VideoStreamSession {
                        encoding: s.encoding,
                        stats: VideoStreamStats { frames_encoded: s.encoding.output.frames_encoded, ..p.stats },
                        ..p
                    })
                    &&& r == Some((p.encoding.output.frames_encoded + 1) as u64)
                },
    {
        let k = match self.find_stream(stream_id) {
            Some(k) => k,
            None => {
                return None;
            },
        };
        let stream = &mut self.streams[k];
        InMemoryVideoEncodingPipeline::encode_next_frame(&mut stream.encoding);
        stream.stats.frames_encoded = stream.encoding.output.frames_encoded;
        let r = match &stream.encoding.output.last_frame {
            Some(f) => Some(f.sequence),
            None => None,
        };
        proof {
            lemma_streams_wf_update(old(self).streams(), self.numbers(), self.next_number(), k as int, self.streams()[k as int]);
            assert(self.streams() =~= old(self).streams().update(k as int, self.streams()[k as int]));
        }
        r
    }
}

impl Default for InMemoryVideoStreamService {
    /// A service capturing through the Linux selected-window backend.
    fn default() -> (s: Self)
        ensures
            s.wf(),
            s.backend() == WindowCaptureBackendService::LinuxSelectedWindow,
            s.streams() == Seq::<VideoStreamSession>::empty(),
            s.next_number() == 1,
    {
        Self::new(WindowCaptureBackendService::LinuxSelectedWindow)
    }
}


impl InMemoryVideoStreamService {
    /// The number the next stream id will carry.
    pub fn next_stream_number(&self) -> (n: u64)
        ensures
            n == self.next_number(),
    {
        self.next_stream_sequence
    }

    /// The first stream with id `stream_id`, as last recorded (no report folded in).
    pub fn recorded_stream(&self, stream_id: &str) -> (r: Option<&VideoStreamSession>)
        ensures
            r is None <==> !has_stream(self.streams(), stream_id@),
            forall|k: int| first_stream(self.streams(), stream_id@, k) ==> r == Some(&self.streams()[k]),
    {
        match self.find_stream(stream_id) {
            Some(k) => Some(&self.streams[k]),
            None => None,
        }
    }
}


/// After a reconnect starts a stream over, the next negotiation that succeeds encodes a
/// fresh keyframe: sequence one, stamped at zero.
pub proof fn lemma_reconnect_then_negotiate_starts_with_keyframe(
    t: VideoStreamSession,
    base: VideoStreamSession,
    q: VideoStreamSession,
    snap: Option<VideoCaptureRuntimeStatus>,
    s: VideoStreamSession,
    snap2: Option<VideoCaptureRuntimeStatus>,
    request: crate::video_protocol::NegotiateVideoStreamRequest,
    r: Result<VideoStreamSession, AppRelayError>,
)
    requires
        reset_ok(t, base),
        reconciled_ok(q, t, snap),
        negotiation_ok(s, q, snap2, request, r),
        r is Ok,
    ensures
        s.encoding.output.last_frame matches Some(f) && f.keyframe && f.sequence == 1 && f.timestamp_ms == 0,
        s.encoding.output.keyframes_encoded == 1,
        s.stats.frames_encoded == 1,
{
    assert(q.encoding == t.encoding);
    assert(0nat % (crate::video_pipeline::KEYFRAME_INTERVAL_FRAMES as nat) == 0);
}

/// A stream whose application session closed cannot be reconnected, whatever its capture
/// runtime reports in between.
pub proof fn lemma_closed_session_refuses_reconnect(
    s: VideoStreamSession,
    p: VideoStreamSession,
    session_id: Seq<char>,
    q: VideoStreamSession,
    snap: Option<VideoCaptureRuntimeStatus>,
    s2: VideoStreamSession,
    b0: WindowCaptureBackendService,
    b1: WindowCaptureBackendService,
    r: Result<VideoStreamSession, AppRelayError>,
    id: Seq<char>,
)
    requires
        app_closed_ok(s, p, session_id),
        reconciled_ok(q, s, snap),
        reconnect_from(s2, q, b0, b1, r, id),
    ensures
        r matches Err(AppRelayError::InvalidRequest(m)) && m@ == session_closed_message(id),
        s2 == q,
        b1 == b0,
{
}

/// A stopped stream stays stopped: negotiating it refuses.
pub proof fn lemma_stopped_stream_refuses_negotiation(
    s: VideoStreamSession,
    p: VideoStreamSession,
    s2: VideoStreamSession,
    snap: Option<VideoCaptureRuntimeStatus>,
    request: crate::video_protocol::NegotiateVideoStreamRequest,
    r: Result<VideoStreamSession, AppRelayError>,
)
    requires
        stopped_ok(s, p),
        negotiation_ok(s2, s, snap, request, r),
    ensures
        r matches Err(AppRelayError::InvalidRequest(m)) && m@ == stream_stopped_message(request.stream_id@),
        s2.state == VideoStreamState::Stopped,
{
}


impl InMemoryVideoStreamService {
    /// Stream ids are unique, so asking for the status of any recorded stream by its id
    /// finds that very stream.
    pub proof fn lemma_status_finds_stream(&self, k: int)
        requires
            self.wf(),
            0 <= k < self.streams().len(),
        ensures
            first_stream(self.streams(), self.streams()[k].id@, k),
            has_stream(self.streams(), self.streams()[k].id@),
    {
        self.lemma_ids_unique();
        assert forall|j: int| 0 <= j < k implies (#[trigger] self.streams()[j]).id@ != self.streams()[k].id@ by {
        }
    }
}

} // verus!
