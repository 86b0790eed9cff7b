use apprelay_core::media::EncodedVideoFrame;
use apprelay_core::protocol::{
    AppRelayError, ApplicationSession, CreateSessionRequest, Feature, Platform, ResizeSessionRequest,
    SelectedWindow, SessionState, ViewportSize, WindowSelectionMethod,
};
use apprelay_core::sessions::{ApplicationSessionService, InMemoryApplicationSessionService};
use apprelay_core::video_capture::{
    FakeMacosWindowCaptureRuntime, MacosWindowCaptureResizeRequest, MacosWindowCaptureRuntimeCalls,
    MacosWindowCaptureStartRequest, WindowCaptureBackendService,
};
use apprelay_core::video_pipeline::{
    InMemoryVideoEncodingPipeline, VideoCodec, VideoEncodingPipelineState, VideoHardwareAcceleration,
    VideoResolutionAdaptationReason, VideoResolutionLimits, MAX_HEIGHT, MAX_PIXELS, MAX_WIDTH,
};
use apprelay_core::video_protocol::{
    CapturedVideoFrame, NegotiateVideoStreamRequest, ReconnectVideoStreamRequest,
    StartVideoStreamRequest, StopVideoStreamRequest, VideoCaptureRuntimeState,
    VideoCaptureRuntimeStatus, VideoCaptureScope, VideoStreamFailureKind,
    VideoStreamNegotiationState, VideoStreamRecoveryAction, VideoStreamSession,
    VideoStreamSignalingKind, VideoStreamState, WebRtcIceCandidate, WebRtcSdpType,
    WebRtcSessionDescription,
};
use apprelay_core::video_stream::InMemoryVideoStreamService;

/// The resolution a viewport is encoded at, brought within the encoder's limits.
fn encoded_target(viewport: ViewportSize) -> ViewportSize {
    if let Some(target) = InMemoryVideoEncodingPipeline::unscaled_target(viewport) {
        return target;
    }
    let pixels = u64::from(viewport.width) * u64::from(viewport.height);
    let width_scale = f64::from(MAX_WIDTH) / viewport.width as f64;
    let height_scale = f64::from(MAX_HEIGHT) / viewport.height as f64;
    let pixel_scale = (f64::from(MAX_PIXELS) / pixels as f64).sqrt();
    let scale = width_scale.min(height_scale).min(pixel_scale);
    ViewportSize::new(
        InMemoryVideoEncodingPipeline::floor_to_even((viewport.width as f64 * scale).floor() as u64),
        InMemoryVideoEncodingPipeline::floor_to_even((viewport.height as f64 * scale).floor() as u64),
    )
}

fn start(
    service: &mut InMemoryVideoStreamService,
    session: &ApplicationSession,
) -> Result<VideoStreamSession, AppRelayError> {
    service.start_stream(
        StartVideoStreamRequest { session_id: session.id.clone() },
        session,
        encoded_target(session.viewport),
    )
}

fn resize(service: &mut InMemoryVideoStreamService, session_id: &str, viewport: ViewportSize) {
    service.record_resize(
        &ResizeSessionRequest { session_id: session_id.to_string(), viewport },
        encoded_target(viewport),
    );
}

fn runtime_calls(service: &InMemoryVideoStreamService) -> MacosWindowCaptureRuntimeCalls {
    service.capture_backend().test_runtime_calls().expect("test runtime")
}

fn terminal_session() -> ApplicationSession {
    let mut session_service = InMemoryApplicationSessionService::default();
    session_service
        .create_session(CreateSessionRequest {
            application_id: "terminal".to_string(),
            viewport: ViewportSize::new(1280, 720),
        })
        .expect("create session")
}

fn macos_session() -> ApplicationSession {
    ApplicationSession {
        id: "session-1".to_string(),
        application_id: "dev.apprelay.fake".to_string(),
        selected_window: SelectedWindow {
            id: "macos-window-session-1-88".to_string(),
            application_id: "dev.apprelay.fake".to_string(),
            title: "Native Fake Window".to_string(),
            selection_method: WindowSelectionMethod::NativeWindow,
        },
        launch_intent: None,
        viewport: ViewportSize::new(1280, 720),
        resize_intent: None,
        state: SessionState::Ready,
    }
}

fn macos_service(runtime: FakeMacosWindowCaptureRuntime) -> InMemoryVideoStreamService {
    InMemoryVideoStreamService::new(WindowCaptureBackendService::macos_selected_window_with_runtime(
        runtime,
    ))
}

fn answer(sdp: &str, candidates: Vec<WebRtcIceCandidate>, stream_id: &str) -> NegotiateVideoStreamRequest {
    NegotiateVideoStreamRequest {
        stream_id: stream_id.to_string(),
        client_answer: WebRtcSessionDescription {
            sdp_type: WebRtcSdpType::Answer,
            sdp: sdp.to_string(),
        },
        client_ice_candidates: candidates,
    }
}

#[test]
fn video_stream_service_starts_and_stops_selected_window_stream() {
    let session = terminal_session();
    let mut stream_service = InMemoryVideoStreamService::default();

    let stream = start(&mut stream_service, &session).expect("start stream");

    assert_eq!(stream.id, "stream-1");
    assert_eq!(stream.session_id, session.id);
    assert_eq!(stream.selected_window_id, session.selected_window.id);
    assert_eq!(stream.capture_source.scope, VideoCaptureScope::SelectedWindow);
    assert_eq!(stream.capture_source.selected_window_id, session.selected_window.id);
    assert_eq!(stream.capture_source.application_id, session.selected_window.application_id);
    assert_eq!(stream.viewport, ViewportSize::new(1280, 720));
    assert_eq!(stream.state, VideoStreamState::Starting);
    assert_eq!(stream.encoding.contract.target.resolution, ViewportSize::new(1280, 720));
    assert_eq!(stream.encoding.contract.adaptation.current_target, ViewportSize::new(1280, 720));
    assert_eq!(
        stream.encoding.contract.adaptation.reason,
        VideoResolutionAdaptationReason::MatchesViewport
    );
    assert_eq!(stream.encoding.contract.codec, VideoCodec::H264);
    assert_eq!(
        stream.encoding.contract.hardware_acceleration,
        VideoHardwareAcceleration::Unaccelerated
    );
    assert_eq!(stream.encoding.state, VideoEncodingPipelineState::Configured);
    assert_eq!(stream.encoding.output.frames_encoded, 0);
    assert_eq!(stream.signaling.kind, VideoStreamSignalingKind::WebRtcOffer);
    assert_eq!(stream_service.stream_status("stream-1").expect("stream status"), stream);

    let stopped = stream_service
        .stop_stream(StopVideoStreamRequest { stream_id: "stream-1".to_string() })
        .expect("stop stream");

    assert_eq!(stopped.state, VideoStreamState::Stopped);
    assert_eq!(stopped.encoding.state, VideoEncodingPipelineState::Drained);
}

#[test]
fn macos_selected_window_capture_starts_metadata_backed_stream() {
    let session = macos_session();
    let mut stream_service = macos_service(FakeMacosWindowCaptureRuntime::new());

    let stream = start(&mut stream_service, &session).expect("start macOS stream");

    assert_eq!(stream.selected_window_id, session.selected_window.id);
    assert_eq!(stream.capture_source.scope, VideoCaptureScope::SelectedWindow);
    assert_eq!(stream.capture_source.selected_window_id, session.selected_window.id);
    assert_eq!(stream.capture_source.application_id, session.selected_window.application_id);
    assert_eq!(stream.capture_source.title, session.selected_window.title);
    assert_eq!(stream.signaling.kind, VideoStreamSignalingKind::WebRtcOffer);
    assert_eq!(
        stream.signaling.offer,
        Some(WebRtcSessionDescription {
            sdp_type: WebRtcSdpType::Offer,
            sdp: "apprelay-webrtc-offer:stream-1:macos-window-session-1-88".to_string(),
        })
    );
    assert_eq!(
        stream.signaling.ice_candidates,
        vec![WebRtcIceCandidate {
            candidate: "candidate:apprelay stream-1 macos-window-session-1-88 typ host".to_string(),
            sdp_mid: Some("video".to_string()),
            sdp_m_line_index: Some(0),
        }]
    );
    assert_eq!(
        runtime_calls(&stream_service).starts,
        vec![MacosWindowCaptureStartRequest {
            stream_id: "stream-1".to_string(),
            selected_window_id: "macos-window-session-1-88".to_string(),
            application_id: "dev.apprelay.fake".to_string(),
            title: "Native Fake Window".to_string(),
            target_viewport: ViewportSize::new(1280, 720),
        }]
    );
    assert_eq!(runtime_calls(&stream_service).stops, Vec::<String>::new());
    assert_eq!(stream.capture_runtime.state, VideoCaptureRuntimeState::Starting);
    assert_eq!(stream.capture_runtime.frames_delivered, 0);
}

#[test]
fn macos_capture_runtime_delivered_frame_snapshot_updates_capture_status_only() {
    let session = macos_session();
    let mut stream_service = macos_service(FakeMacosWindowCaptureRuntime::new());
    let stream = start(&mut stream_service, &session).expect("start macOS stream");

    stream_service.capture_backend_mut().deliver_test_frame(
        &stream.id,
        ViewportSize::new(1280, 720),
        33,
    );
    let status = stream_service.stream_status(&stream.id).expect("stream status");

    assert_eq!(status.capture_runtime.state, VideoCaptureRuntimeState::Delivering);
    assert_eq!(status.capture_runtime.frames_delivered, 1);
    assert_eq!(
        status.capture_runtime.last_frame,
        Some(CapturedVideoFrame {
            sequence: 1,
            timestamp_ms: 33,
            size: ViewportSize::new(1280, 720),
        })
    );
    assert_eq!(status.encoding.output.frames_encoded, 0);
    assert_eq!(status.stats.frames_encoded, 0);
    assert_eq!(status.state, VideoStreamState::Starting);
}

#[test]
fn macos_capture_runtime_failure_creates_retryable_capture_failure() {
    let session = macos_session();
    let mut runtime = FakeMacosWindowCaptureRuntime::new();
    runtime.fail_next_start("ScreenCaptureKit boundary failed");
    let mut stream_service = macos_service(runtime);

    let failed = start(&mut stream_service, &session).expect("start stream records failure");

    assert_eq!(failed.state, VideoStreamState::Failed);
    assert_eq!(failed.capture_runtime.state, VideoCaptureRuntimeState::Failed);
    assert_eq!(
        failed.capture_runtime.message.as_deref(),
        Some("ScreenCaptureKit boundary failed")
    );
    assert_eq!(
        failed.failure.as_ref().map(|failure| &failure.kind),
        Some(&VideoStreamFailureKind::CaptureFailed)
    );
    assert_eq!(
        failed.failure.as_ref().map(|failure| &failure.recovery.action),
        Some(&VideoStreamRecoveryAction::ReconnectStream)
    );
    assert!(failed.failure.as_ref().unwrap().recovery.retryable);
    assert_eq!(failed.failure_reason.as_deref(), Some("ScreenCaptureKit boundary failed"));
    assert_eq!(runtime_calls(&stream_service).starts.len(), 1);
}

#[test]
fn macos_capture_runtime_failure_snapshot_becomes_stream_failure() {
    let session = macos_session();
    let mut stream_service = macos_service(FakeMacosWindowCaptureRuntime::new());
    let stream = start(&mut stream_service, &session).expect("start stream");

    stream_service.capture_backend_mut().deliver_test_frame(
        &stream.id,
        ViewportSize::new(1280, 720),
        33,
    );
    stream_service.capture_backend_mut().fail_test_stream(
        &stream.id,
        "Screen Recording permission is required",
        true,
    );
    let status = stream_service.stream_status(&stream.id).expect("stream status");

    assert_eq!(status.state, VideoStreamState::Failed);
    assert_eq!(status.capture_runtime.state, VideoCaptureRuntimeState::PermissionDenied);
    assert_eq!(
        status.capture_runtime.message.as_deref(),
        Some("Screen Recording permission is required")
    );
    assert_eq!(status.capture_runtime.frames_delivered, 1);
    assert_eq!(
        status.failure.as_ref().map(|failure| &failure.kind),
        Some(&VideoStreamFailureKind::CaptureFailed)
    );
    assert_eq!(
        status.health.message.as_deref(),
        Some("Screen Recording permission is required")
    );
    assert_eq!(status.encoding.output.frames_encoded, 0);
}

#[test]
fn macos_capture_runtime_failure_snapshot_blocks_negotiation() {
    let session = macos_session();
    let mut stream_service = macos_service(FakeMacosWindowCaptureRuntime::new());
    let stream = start(&mut stream_service, &session).expect("start stream");
    stream_service.capture_backend_mut().fail_test_stream(
        &stream.id,
        "ScreenCaptureKit stream failed",
        false,
    );

    let error = stream_service
        .negotiate_stream(answer("client-answer", Vec::new(), &stream.id))
        .expect_err("runtime failure blocks negotiation");

    assert_eq!(
        error,
        AppRelayError::InvalidRequest(
            "stream stream-1 is failed and must be reconnected before negotiation".to_string()
        )
    );
    let status = stream_service.stream_status(&stream.id).expect("stream status");
    assert_eq!(status.state, VideoStreamState::Failed);
    assert_eq!(status.encoding.output.frames_encoded, 0);
}

#[test]
fn macos_capture_runtime_failure_snapshot_reconnect_restarts_runtime() {
    let session = macos_session();
    let mut stream_service = macos_service(FakeMacosWindowCaptureRuntime::new());
    let stream = start(&mut stream_service, &session).expect("start stream");
    stream_service.capture_backend_mut().fail_test_stream(
        &stream.id,
        "ScreenCaptureKit stream failed",
        false,
    );

    let reconnected = stream_service
        .reconnect_stream(ReconnectVideoStreamRequest { stream_id: stream.id.clone() })
        .expect("reconnect after runtime failure");

    assert_eq!(reconnected.state, VideoStreamState::Starting);
    assert_eq!(reconnected.failure, None);
    assert_eq!(reconnected.capture_runtime.state, VideoCaptureRuntimeState::Starting);
    assert_eq!(runtime_calls(&stream_service).starts.len(), 2);
}

#[test]
fn macos_capture_runtime_failure_snapshot_skips_resize() {
    let session = macos_session();
    let mut stream_service = macos_service(FakeMacosWindowCaptureRuntime::new());
    let stream = start(&mut stream_service, &session).expect("start stream");
    stream_service.capture_backend_mut().fail_test_stream(
        &stream.id,
        "ScreenCaptureKit stream failed",
        false,
    );

    resize(&mut stream_service, &session.id, ViewportSize::new(1440, 900));

    let status = stream_service.stream_status(&stream.id).expect("stream status");
    assert_eq!(status.state, VideoStreamState::Failed);
    assert_eq!(status.viewport, ViewportSize::new(1280, 720));
    assert_eq!(runtime_calls(&stream_service).resizes, Vec::new());
}

#[test]
fn macos_capture_runtime_reconnect_retries_after_failure_and_clears_it() {
    let session = macos_session();
    let mut runtime = FakeMacosWindowCaptureRuntime::new();
    runtime.fail_next_start("ScreenCaptureKit boundary failed");
    let mut stream_service = macos_service(runtime);
    let failed = start(&mut stream_service, &session).expect("start stream records failure");

    let reconnected = stream_service
        .reconnect_stream(ReconnectVideoStreamRequest { stream_id: failed.id })
        .expect("reconnect stream");

    assert_eq!(reconnected.state, VideoStreamState::Starting);
    assert_eq!(reconnected.failure, None);
    assert_eq!(reconnected.failure_reason, None);
    assert!(reconnected.health.healthy);
    assert_eq!(reconnected.stats.reconnect_attempts, 1);
    assert_eq!(runtime_calls(&stream_service).starts.len(), 2);
}

#[test]
fn macos_capture_runtime_receives_resize_for_active_stream() {
    let session = macos_session();
    let mut stream_service = macos_service(FakeMacosWindowCaptureRuntime::new());
    let stream = start(&mut stream_service, &session).expect("start stream");

    resize(&mut stream_service, &session.id, ViewportSize::new(1440, 900));

    assert_eq!(
        runtime_calls(&stream_service).resizes,
        vec![MacosWindowCaptureResizeRequest {
            stream_id: stream.id.clone(),
            selected_window_id: "macos-window-session-1-88".to_string(),
            target_viewport: ViewportSize::new(1440, 900),
        }]
    );
    assert_eq!(
        stream_service.stream_status(&stream.id).expect("stream status").viewport,
        ViewportSize::new(1440, 900)
    );
}

#[test]
fn macos_capture_runtime_does_not_receive_invalid_resize() {
    let session = macos_session();
    let mut stream_service = macos_service(FakeMacosWindowCaptureRuntime::new());
    start(&mut stream_service, &session).expect("start stream");

    resize(&mut stream_service, &session.id, ViewportSize::new(100, 100));

    assert_eq!(runtime_calls(&stream_service).resizes, Vec::new());
}

#[test]
fn macos_capture_runtime_does_not_resize_stopped_or_failed_streams() {
    let session = macos_session();
    let mut runtime = FakeMacosWindowCaptureRuntime::new();
    runtime.fail_next_start("ScreenCaptureKit boundary failed");
    let mut stream_service = macos_service(runtime);
    let failed = start(&mut stream_service, &session).expect("start failed stream");
    assert_eq!(failed.state, VideoStreamState::Failed);
    let active = start(&mut stream_service, &session).expect("start active stream");
    stream_service
        .stop_stream(StopVideoStreamRequest { stream_id: active.id })
        .expect("stop stream");

    resize(&mut stream_service, &session.id, ViewportSize::new(1440, 900));

    assert_eq!(runtime_calls(&stream_service).resizes, Vec::new());
}

#[test]
fn macos_capture_runtime_resize_failure_marks_stream_failed() {
    let session = macos_session();
    let mut runtime = FakeMacosWindowCaptureRuntime::new();
    runtime.fail_next_resize("ScreenCaptureKit resize failed");
    let mut stream_service = macos_service(runtime);
    let stream = start(&mut stream_service, &session).expect("start stream");

    resize(&mut stream_service, &session.id, ViewportSize::new(1440, 900));

    let status = stream_service.stream_status(&stream.id).expect("stream status");
    assert_eq!(status.state, VideoStreamState::Failed);
    assert_eq!(
        status.failure.as_ref().map(|failure| &failure.kind),
        Some(&VideoStreamFailureKind::CaptureFailed)
    );
    assert_eq!(
        status.failure.as_ref().map(|failure| &failure.recovery.action),
        Some(&VideoStreamRecoveryAction::ReconnectStream)
    );
    assert!(status.failure.as_ref().unwrap().recovery.retryable);
    assert_eq!(status.failure_reason.as_deref(), Some("ScreenCaptureKit resize failed"));
    assert_eq!(status.capture_runtime.message.as_deref(), Some("ScreenCaptureKit resize failed"));
    assert_eq!(runtime_calls(&stream_service).resizes.len(), 1);
    assert_eq!(runtime_calls(&stream_service).stops, vec![stream.id]);
}

#[test]
fn macos_capture_runtime_stop_and_session_close_stop_active_streams() {
    let session = macos_session();
    let mut stream_service = macos_service(FakeMacosWindowCaptureRuntime::new());
    let stream = start(&mut stream_service, &session).expect("start stream");

    let stopped = stream_service
        .stop_stream(StopVideoStreamRequest { stream_id: stream.id.clone() })
        .expect("stop stream");
    assert_eq!(stopped.capture_runtime, VideoCaptureRuntimeStatus::default());
    assert_eq!(stream_service.capture_backend().capture_snapshot(&stream.id), None);

    let second_stream = start(&mut stream_service, &session).expect("start second stream");
    stream_service.record_session_closed(&session.id);

    assert_eq!(
        runtime_calls(&stream_service).stops,
        vec!["stream-1".to_string(), second_stream.id]
    );
}

#[test]
fn video_stream_service_reconnects_active_stream() {
    let session = terminal_session();
    let mut stream_service = InMemoryVideoStreamService::default();
    let stream = start(&mut stream_service, &session).expect("start stream");

    let reconnected = stream_service
        .reconnect_stream(ReconnectVideoStreamRequest { stream_id: stream.id })
        .expect("reconnect stream");

    assert_eq!(reconnected.state, VideoStreamState::Starting);
    assert_eq!(
        reconnected.signaling.negotiation_state,
        VideoStreamNegotiationState::AwaitingAnswer
    );
    assert_eq!(reconnected.stats.reconnect_attempts, 1);
    assert_eq!(reconnected.health.message.as_deref(), Some("reconnect requested"));
}

#[test]
fn video_stream_service_lists_active_streams() {
    let session = terminal_session();
    let mut stream_service =
        InMemoryVideoStreamService::new(WindowCaptureBackendService::fails_once("initial capture failed"));

    let failed = start(&mut stream_service, &session).expect("start failed stream");
    let streaming = start(&mut stream_service, &session).expect("start stream");
    let streaming = stream_service
        .negotiate_stream(answer("client-answer", Vec::new(), &streaming.id))
        .expect("negotiate stream");
    let stopped = start(&mut stream_service, &session).expect("start stopped stream");
    stream_service
        .stop_stream(StopVideoStreamRequest { stream_id: stopped.id })
        .expect("stop stream");
    let starting = start(&mut stream_service, &session).expect("start active stream");

    let active_streams = stream_service.active_streams();

    assert_eq!(
        active_streams
            .iter()
            .map(|stream| (&stream.id, &stream.state))
            .collect::<Vec<_>>(),
        vec![
            (&failed.id, &VideoStreamState::Failed),
            (&streaming.id, &VideoStreamState::Streaming),
            (&starting.id, &VideoStreamState::Starting),
        ]
    );
}

#[test]
fn video_stream_service_negotiates_webrtc_answer() {
    let session = terminal_session();
    let mut stream_service = InMemoryVideoStreamService::default();
    let stream = start(&mut stream_service, &session).expect("start stream");

    let negotiated = stream_service
        .negotiate_stream(answer(
            "client-answer",
            vec![WebRtcIceCandidate {
                candidate: "candidate:client stream-1 typ host".to_string(),
                sdp_mid: Some("video".to_string()),
                sdp_m_line_index: Some(0),
            }],
            &stream.id,
        ))
        .expect("negotiate stream");

    assert_eq!(negotiated.state, VideoStreamState::Streaming);
    assert_eq!(negotiated.encoding.state, VideoEncodingPipelineState::Encoding);
    assert_eq!(negotiated.encoding.output.frames_submitted, 1);
    assert_eq!(negotiated.encoding.output.frames_encoded, 1);
    assert_eq!(negotiated.encoding.output.keyframes_encoded, 1);
    assert_eq!(
        negotiated.encoding.output.last_frame,
        Some(EncodedVideoFrame {
            sequence: 1,
            timestamp_ms: 0,
            byte_length: 23032,
            keyframe: true,
            payload: Vec::new(),
        })
    );
    assert_eq!(negotiated.stats.frames_encoded, 1);
    assert_eq!(negotiated.stats.bitrate_kbps, 2764);
    assert_eq!(negotiated.stats.latency_ms, 33);
    assert_eq!(negotiated.signaling.negotiation_state, VideoStreamNegotiationState::Negotiated);
    assert_eq!(
        negotiated.signaling.answer,
        Some(WebRtcSessionDescription {
            sdp_type: WebRtcSdpType::Answer,
            sdp: "client-answer".to_string(),
        })
    );
    assert_eq!(negotiated.signaling.ice_candidates.len(), 2);
}

#[test]
fn video_stream_service_updates_viewport_on_session_resize() {
    let session = terminal_session();
    let mut stream_service = InMemoryVideoStreamService::default();
    let stream = start(&mut stream_service, &session).expect("start stream");

    resize(&mut stream_service, &session.id, ViewportSize::new(1440, 900));

    let status = stream_service.stream_status(&stream.id).expect("stream status");
    assert_eq!(status.viewport, ViewportSize::new(1440, 900));
    assert_eq!(status.encoding.contract.target.resolution, ViewportSize::new(1440, 900));
    assert_eq!(status.encoding.contract.target.target_bitrate_kbps, 3888);
    assert_eq!(status.encoding.state, VideoEncodingPipelineState::Configured);
    assert_eq!(status.health.message.as_deref(), Some("stream viewport updated"));
}

#[test]
fn video_stream_service_caps_non_negotiated_encoding_to_adaptive_limits() {
    let session = terminal_session();
    let mut stream_service = InMemoryVideoStreamService::default();
    let stream = start(&mut stream_service, &session).expect("start stream");

    resize(&mut stream_service, &session.id, ViewportSize::new(2560, 1440));

    let status = stream_service.stream_status(&stream.id).expect("stream status");
    assert_eq!(status.viewport, ViewportSize::new(2560, 1440));
    assert_eq!(status.encoding.contract.target.resolution, ViewportSize::new(1920, 1080));
    assert_eq!(
        status.encoding.contract.adaptation.requested_viewport,
        ViewportSize::new(2560, 1440)
    );
    assert_eq!(status.encoding.contract.adaptation.current_target, ViewportSize::new(1920, 1080));
    assert_eq!(
        status.encoding.contract.adaptation.limits,
        VideoResolutionLimits { max_width: 1920, max_height: 1080, max_pixels: 2_073_600 }
    );
    assert_eq!(
        status.encoding.contract.adaptation.reason,
        VideoResolutionAdaptationReason::CappedToLimits
    );
    assert_eq!(status.encoding.contract.target.target_bitrate_kbps, 6220);
    assert_eq!(status.encoding.state, VideoEncodingPipelineState::Configured);
}

#[test]
fn video_stream_service_ignores_invalid_direct_resize_viewports() {
    let session = terminal_session();
    let mut stream_service = InMemoryVideoStreamService::default();
    let stream = start(&mut stream_service, &session).expect("start stream");

    for viewport in [
        ViewportSize::new(0, 720),
        ViewportSize::new(100, 100),
        ViewportSize::new(8000, 4500),
    ] {
        resize(&mut stream_service, &session.id, viewport);
    }

    let status = stream_service.stream_status(&stream.id).expect("stream status");
    assert_eq!(status.viewport, ViewportSize::new(1280, 720));
    assert_eq!(
        status.encoding.contract.adaptation.requested_viewport,
        ViewportSize::new(1280, 720)
    );
    assert_eq!(status.encoding.contract.target.resolution, ViewportSize::new(1280, 720));
    assert_eq!(status.encoding.contract.adaptation.current_target, ViewportSize::new(1280, 720));
    assert_eq!(
        status.encoding.contract.adaptation.reason,
        VideoResolutionAdaptationReason::MatchesViewport
    );
    assert_eq!(status.encoding.contract.target.target_bitrate_kbps, 2764);
    assert_eq!(status.health.message, None);
}

#[test]
fn video_stream_service_keeps_streaming_encoding_coherent_after_resize() {
    let session = terminal_session();
    let mut stream_service = InMemoryVideoStreamService::default();
    let stream = start(&mut stream_service, &session).expect("start stream");
    stream_service
        .negotiate_stream(answer("client-answer", Vec::new(), &stream.id))
        .expect("negotiate stream");

    resize(&mut stream_service, &session.id, ViewportSize::new(2560, 1440));

    let status = stream_service.stream_status(&stream.id).expect("stream status");
    assert_eq!(status.state, VideoStreamState::Streaming);
    assert_eq!(status.encoding.state, VideoEncodingPipelineState::Encoding);
    assert_eq!(status.viewport, ViewportSize::new(2560, 1440));
    assert_eq!(status.encoding.contract.target.resolution, ViewportSize::new(1920, 1080));
    assert_eq!(
        status.encoding.contract.adaptation.reason,
        VideoResolutionAdaptationReason::CappedToLimits
    );
    assert_eq!(status.stats.frames_encoded, 1);
    assert_eq!(status.stats.bitrate_kbps, 6220);
    assert_eq!(status.stats.latency_ms, 33);
}

#[test]
fn video_stream_service_reconnect_renegotiation_starts_with_fresh_keyframe() {
    let session = terminal_session();
    let mut stream_service = InMemoryVideoStreamService::default();
    let stream = start(&mut stream_service, &session).expect("start stream");
    stream_service
        .negotiate_stream(answer(
            "first-client-answer",
            vec![WebRtcIceCandidate {
                candidate: "candidate:first-client stream-1 typ host".to_string(),
                sdp_mid: Some("video".to_string()),
                sdp_m_line_index: Some(0),
            }],
            &stream.id,
        ))
        .expect("first negotiate stream");

    let reconnected = stream_service
        .reconnect_stream(ReconnectVideoStreamRequest { stream_id: stream.id.clone() })
        .expect("reconnect stream");
    assert_eq!(reconnected.encoding.state, VideoEncodingPipelineState::Configured);
    assert_eq!(reconnected.encoding.output.frames_encoded, 0);
    assert_eq!(reconnected.encoding.output.last_frame, None);
    assert_eq!(
        reconnected.signaling.ice_candidates,
        vec![WebRtcIceCandidate {
            candidate: "candidate:apprelay stream-1 window-session-1 typ host".to_string(),
            sdp_mid: Some("video".to_string()),
            sdp_m_line_index: Some(0),
        }]
    );

    let renegotiated = stream_service
        .negotiate_stream(answer(
            "second-client-answer",
            vec![WebRtcIceCandidate {
                candidate: "candidate:second-client stream-1 typ host".to_string(),
                sdp_mid: Some("video".to_string()),
                sdp_m_line_index: Some(0),
            }],
            &stream.id,
        ))
        .expect("second negotiate stream");

    assert_eq!(
        renegotiated.encoding.output.last_frame,
        Some(EncodedVideoFrame {
            sequence: 1,
            timestamp_ms: 0,
            byte_length: 23032,
            keyframe: true,
            payload: Vec::new(),
        })
    );
    assert_eq!(renegotiated.encoding.output.keyframes_encoded, 1);
    assert_eq!(renegotiated.stats.frames_encoded, 1);
    assert_eq!(renegotiated.stats.reconnect_attempts, 1);
    assert_eq!(renegotiated.signaling.ice_candidates.len(), 2);
    assert!(renegotiated.signaling.ice_candidates.iter().any(
        |candidate| candidate.candidate == "candidate:apprelay stream-1 window-session-1 typ host"
    ));
    assert!(renegotiated
        .signaling
        .ice_candidates
        .iter()
        .any(|candidate| candidate.candidate == "candidate:second-client stream-1 typ host"));
    assert!(!renegotiated
        .signaling
        .ice_candidates
        .iter()
        .any(|candidate| candidate.candidate == "candidate:first-client stream-1 typ host"));
}

#[test]
fn video_stream_service_marks_active_stream_failed_when_session_closes() {
    let session = terminal_session();
    let mut stream_service = InMemoryVideoStreamService::default();
    let stream = start(&mut stream_service, &session).expect("start stream");

    stream_service.record_session_closed(&session.id);

    let status = stream_service.stream_status(&stream.id).expect("stream status");
    assert_eq!(status.state, VideoStreamState::Failed);
    assert_eq!(status.encoding.state, VideoEncodingPipelineState::Drained);
    assert_eq!(status.stats.frames_encoded, status.encoding.output.frames_encoded);
    assert_eq!(status.stats.bitrate_kbps, 0);
    assert_eq!(status.stats.latency_ms, 0);
    assert_eq!(
        status.failure.as_ref().map(|failure| &failure.kind),
        Some(&VideoStreamFailureKind::AppClosed)
    );
    assert_eq!(
        status.failure.as_ref().map(|failure| &failure.recovery.action),
        Some(&VideoStreamRecoveryAction::RestartApplicationSession)
    );
    assert!(!status.failure.as_ref().unwrap().recovery.retryable);
}

#[test]
fn video_stream_service_rejects_reconnect_after_session_close() {
    let session = terminal_session();
    let mut stream_service = InMemoryVideoStreamService::default();
    let stream = start(&mut stream_service, &session).expect("start stream");
    stream_service.record_session_closed(&session.id);

    assert_eq!(
        stream_service.reconnect_stream(ReconnectVideoStreamRequest { stream_id: stream.id }),
        Err(AppRelayError::InvalidRequest(
            "stream stream-1 cannot reconnect because its application session closed".to_string()
        ))
    );
}

#[test]
fn video_stream_service_returns_actionable_capture_failure_state() {
    let session = terminal_session();
    let mut stream_service =
        InMemoryVideoStreamService::new(WindowCaptureBackendService::FailingSelectedWindow {
            message: "capture backend failed".to_string(),
        });

    let failed = start(&mut stream_service, &session).expect("start stream");

    assert_eq!(failed.state, VideoStreamState::Failed);
    assert_eq!(failed.encoding.state, VideoEncodingPipelineState::Drained);
    assert!(!failed.health.healthy);
    assert_eq!(
        failed.failure.as_ref().map(|failure| &failure.kind),
        Some(&VideoStreamFailureKind::CaptureFailed)
    );
    assert_eq!(
        failed.failure.as_ref().map(|failure| &failure.recovery.action),
        Some(&VideoStreamRecoveryAction::ReconnectStream)
    );
    assert!(failed.failure.as_ref().unwrap().recovery.retryable);
    assert_eq!(failed.failure_reason.as_deref(), Some("capture backend failed"));
    assert_eq!(failed.stats.frames_encoded, failed.encoding.output.frames_encoded);
}

#[test]
fn video_stream_service_reconnect_keeps_retryable_capture_failure_when_recapture_fails() {
    let session = terminal_session();
    let mut stream_service =
        InMemoryVideoStreamService::new(WindowCaptureBackendService::FailingSelectedWindow {
            message: "capture backend failed".to_string(),
        });
    let failed = start(&mut stream_service, &session).expect("start stream");

    let reconnected = stream_service
        .reconnect_stream(ReconnectVideoStreamRequest { stream_id: failed.id })
        .expect("reconnect stream");

    assert_eq!(reconnected.state, VideoStreamState::Failed);
    assert_eq!(reconnected.encoding.state, VideoEncodingPipelineState::Drained);
    assert_eq!(
        reconnected.failure.as_ref().map(|failure| &failure.kind),
        Some(&VideoStreamFailureKind::CaptureFailed)
    );
    assert_eq!(reconnected.failure_reason.as_deref(), Some("capture backend failed"));
    assert!(!reconnected.health.healthy);
    assert_eq!(reconnected.stats.bitrate_kbps, 0);
    assert_eq!(reconnected.stats.latency_ms, 0);
    assert_eq!(reconnected.stats.reconnect_attempts, 1);
    assert_eq!(
        stream_service.negotiate_stream(answer("client-answer", Vec::new(), &reconnected.id)),
        Err(AppRelayError::InvalidRequest(
            "stream stream-1 is failed and must be reconnected before negotiation".to_string()
        ))
    );
}

#[test]
fn video_stream_service_reconnect_clears_capture_failure_after_successful_recapture() {
    let session = terminal_session();
    let mut stream_service =
        InMemoryVideoStreamService::new(WindowCaptureBackendService::fails_once("capture backend failed"));
    let failed = start(&mut stream_service, &session).expect("start stream");

    let reconnected = stream_service
        .reconnect_stream(ReconnectVideoStreamRequest { stream_id: failed.id })
        .expect("reconnect stream");

    assert_eq!(reconnected.state, VideoStreamState::Starting);
    assert_eq!(reconnected.encoding.state, VideoEncodingPipelineState::Configured);
    assert_eq!(reconnected.failure, None);
    assert_eq!(reconnected.failure_reason, None);
    assert!(reconnected.health.healthy);
    assert_eq!(reconnected.health.message.as_deref(), Some("reconnect requested"));
    assert_eq!(reconnected.stats.frames_encoded, 0);
    assert_eq!(reconnected.stats.bitrate_kbps, 0);
    assert_eq!(reconnected.stats.latency_ms, 0);
    assert_eq!(reconnected.stats.reconnect_attempts, 1);
    assert_eq!(
        reconnected.signaling.ice_candidates,
        vec![WebRtcIceCandidate {
            candidate: "candidate:apprelay stream-1 window-session-1 typ host".to_string(),
            sdp_mid: Some("video".to_string()),
            sdp_m_line_index: Some(0),
        }]
    );
}

#[test]
fn video_stream_service_rejects_negotiation_while_failed() {
    let session = terminal_session();
    let mut stream_service =
        InMemoryVideoStreamService::new(WindowCaptureBackendService::FailingSelectedWindow {
            message: "capture backend failed".to_string(),
        });
    let failed = start(&mut stream_service, &session).expect("start stream");

    assert_eq!(
        stream_service.negotiate_stream(answer("client-answer", Vec::new(), &failed.id)),
        Err(AppRelayError::InvalidRequest(
            "stream stream-1 is failed and must be reconnected before negotiation".to_string()
        ))
    );
}

#[test]
fn video_stream_service_reports_unsupported_capture_backend() {
    let session = terminal_session();
    let mut stream_service = InMemoryVideoStreamService::new(WindowCaptureBackendService::Unsupported {
        platform: Platform::Linux,
    });

    assert_eq!(
        start(&mut stream_service, &session),
        Err(AppRelayError::unsupported(Platform::Linux, Feature::WindowVideoStream))
    );
}

#[test]
fn video_stream_service_refuses_unknown_and_closed_inputs() {
    let session = terminal_session();
    let mut stream_service = InMemoryVideoStreamService::default();

    assert_eq!(
        stream_service.stop_stream(StopVideoStreamRequest { stream_id: "stream-9".to_string() }),
        Err(AppRelayError::NotFound("stream stream-9 was not found".to_string()))
    );
    assert_eq!(
        stream_service.stream_status("stream-9"),
        Err(AppRelayError::NotFound("stream stream-9 was not found".to_string()))
    );
    assert_eq!(
        stream_service.reconnect_stream(ReconnectVideoStreamRequest { stream_id: "stream-9".to_string() }),
        Err(AppRelayError::NotFound("stream stream-9 was not found".to_string()))
    );
    assert_eq!(
        stream_service.negotiate_stream(answer("client-answer", Vec::new(), "stream-9")),
        Err(AppRelayError::NotFound("stream stream-9 was not found".to_string()))
    );

    let mut other = session.clone();
    other.id = "session-other".to_string();
    assert_eq!(
        stream_service.start_stream(
            StartVideoStreamRequest { session_id: "session-missing".to_string() },
            &other,
            ViewportSize::new(1280, 720),
        ),
        Err(AppRelayError::NotFound("session session-missing was not found".to_string()))
    );
    assert!(stream_service.active_streams().is_empty());
}

#[test]
fn video_stream_service_refuses_offers_repeats_and_stopped_streams() {
    let session = terminal_session();
    let mut stream_service = InMemoryVideoStreamService::default();
    let stream = start(&mut stream_service, &session).expect("start stream");

    let mut offer = answer("client-offer", Vec::new(), &stream.id);
    offer.client_answer.sdp_type = WebRtcSdpType::Offer;
    assert_eq!(
        stream_service.negotiate_stream(offer),
        Err(AppRelayError::InvalidRequest(
            "video stream negotiation requires a WebRTC answer".to_string()
        ))
    );

    stream_service
        .negotiate_stream(answer("client-answer", Vec::new(), &stream.id))
        .expect("negotiate stream");
    assert_eq!(
        stream_service.negotiate_stream(answer("client-answer", Vec::new(), &stream.id)),
        Err(AppRelayError::InvalidRequest("stream stream-1 has already been negotiated".to_string()))
    );

    stream_service
        .stop_stream(StopVideoStreamRequest { stream_id: stream.id.clone() })
        .expect("stop stream");
    assert_eq!(
        stream_service.negotiate_stream(answer("client-answer", Vec::new(), &stream.id)),
        Err(AppRelayError::InvalidRequest("stream stream-1 has been stopped".to_string()))
    );
    assert_eq!(
        stream_service.reconnect_stream(ReconnectVideoStreamRequest { stream_id: stream.id.clone() }),
        Err(AppRelayError::InvalidRequest("stream stream-1 has been stopped".to_string()))
    );
    assert_eq!(
        stream_service.stop_stream(StopVideoStreamRequest { stream_id: stream.id }),
        Err(AppRelayError::NotFound("stream stream-1 was not found".to_string()))
    );
}

#[test]
fn video_stream_ids_are_numbered_and_distinct() {
    let session = terminal_session();
    let mut stream_service = InMemoryVideoStreamService::default();
    let first = start(&mut stream_service, &session).expect("first stream");
    let second = start(&mut stream_service, &session).expect("second stream");
    let third = start(&mut stream_service, &session).expect("third stream");

    assert_eq!(first.id, "stream-1");
    assert_eq!(second.id, "stream-2");
    assert_eq!(third.id, "stream-3");
    assert_eq!(stream_service.active_streams().len(), 3);
}

#[test]
fn video_stream_test_frames_advance_the_pipeline() {
    let session = terminal_session();
    let mut stream_service = InMemoryVideoStreamService::default();
    let stream = start(&mut stream_service, &session).expect("start stream");

    assert_eq!(stream_service.advance_encoded_frame_for_test(&stream.id), Some(1));
    assert_eq!(stream_service.advance_encoded_frame_for_test(&stream.id), Some(2));
    assert_eq!(stream_service.advance_encoded_frame_for_test("stream-9"), None);

    let status = stream_service.stream_status(&stream.id).expect("stream status");
    assert_eq!(status.stats.frames_encoded, 2);
    assert_eq!(status.encoding.output.frames_encoded, 2);
    assert_eq!(status.encoding.output.keyframes_encoded, 1);
    assert_eq!(status.encoding.output.last_frame.as_ref().map(|frame| frame.timestamp_ms), Some(33));
}

#[test]
fn session_close_leaves_other_sessions_streams() {
    let session = terminal_session();
    let mut other = session.clone();
    other.id = "session-2".to_string();
    let mut stream_service = InMemoryVideoStreamService::default();
    let first = start(&mut stream_service, &session).expect("first stream");
    let second = start(&mut stream_service, &other).expect("second stream");

    stream_service.record_session_closed(&session.id);

    assert_eq!(
        stream_service.stream_status(&first.id).expect("first status").state,
        VideoStreamState::Failed
    );
    assert_eq!(stream_service.stream_status(&second.id).expect("second status"), second);
}
