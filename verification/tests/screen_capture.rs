use apprelay_core::protocol::{AppRelayError, ViewportSize};
use apprelay_core::screen_capture::{ScreenCaptureKitActiveCapture, ScreenCaptureKitWindowRuntime};
use apprelay_core::video_capture::{MacosWindowCaptureResizeRequest, MacosWindowCaptureStartRequest};
use apprelay_core::video_protocol::{CapturedVideoFrame, VideoCaptureRuntimeState};

fn start_request(stream_id: &str, selected_window_id: &str) -> MacosWindowCaptureStartRequest {
    MacosWindowCaptureStartRequest {
        stream_id: stream_id.into(),
        selected_window_id: selected_window_id.into(),
        application_id: "app".into(),
        title: "T".into(),
        target_viewport: ViewportSize { width: 320, height: 240 },
    }
}

fn started(runtime: &mut ScreenCaptureKitWindowRuntime, stream_id: &str, window: &str) -> u32 {
    let request = start_request(stream_id, window);
    let native = runtime.begin_start(&request).expect("window id parses");
    runtime.finish_start(request, native, Ok(())).expect("capture starts");
    native
}

#[test]
fn snapshot_is_empty_until_capture_starts() {
    let runtime = ScreenCaptureKitWindowRuntime::new();
    assert!(runtime.snapshot("stream-1").is_none());
}

#[test]
fn stop_on_unknown_stream_is_a_noop() {
    let mut runtime = ScreenCaptureKitWindowRuntime::new();
    assert!(!runtime.stop("stream-1"));
    assert!(runtime.snapshot("stream-1").is_none());
}

#[test]
fn start_with_invalid_window_id_format_returns_typed_error() {
    let mut runtime = ScreenCaptureKitWindowRuntime::new();
    let err = runtime
        .begin_start(&start_request("stream-1", "not-a-macos-id"))
        .expect_err("invalid id should fail");
    assert!(matches!(err, AppRelayError::InvalidRequest(_)));
    let snapshot = runtime.snapshot("stream-1").expect("snapshot recorded");
    assert_eq!(snapshot.state, VideoCaptureRuntimeState::Failed);
    assert!(snapshot.message.is_some());
}

#[test]
fn screen_capture_start_reports_starting_then_frames() {
    let mut runtime = ScreenCaptureKitWindowRuntime::new();
    let request = start_request("stream-1", "macos-window-session-1-88");
    assert_eq!(runtime.begin_start(&request), Ok(88));
    assert_eq!(
        runtime.snapshot("stream-1").expect("starting").state,
        VideoCaptureRuntimeState::Starting
    );
    assert_eq!(runtime.finish_start(request, 88, Ok(())), Ok(()));

    let first = runtime.record_frame("stream-1", Some(ViewportSize::new(640, 480)), ViewportSize::new(320, 240), 7);
    assert_eq!(first.frames_delivered, 1);
    let second = runtime.record_frame("stream-1", None, ViewportSize::new(320, 240), 9);
    assert_eq!(second.state, VideoCaptureRuntimeState::Delivering);
    assert_eq!(
        second.last_frame,
        Some(CapturedVideoFrame { sequence: 2, timestamp_ms: 9, size: ViewportSize::new(320, 240) })
    );
    assert_eq!(runtime.snapshot("stream-1"), Some(second));
}

#[test]
fn screen_capture_refuses_a_second_start_and_reports_failed_starts() {
    let mut runtime = ScreenCaptureKitWindowRuntime::new();
    started(&mut runtime, "stream-1", "macos-window-session-1-88");
    assert_eq!(
        runtime.begin_start(&start_request("stream-1", "macos-window-session-1-88")),
        Err(AppRelayError::InvalidRequest("ScreenCaptureKit stream stream-1 is already running".to_string()))
    );

    let request = start_request("stream-2", "macos-window-session-1-89");
    let native = runtime.begin_start(&request).expect("parses");
    let denied = AppRelayError::PermissionDenied("Screen Recording permission is required".to_string());
    assert_eq!(runtime.finish_start(request, native, Err(denied.clone())), Err(denied));
    let snapshot = runtime.snapshot("stream-2").expect("failure recorded");
    assert_eq!(snapshot.state, VideoCaptureRuntimeState::PermissionDenied);
    assert_eq!(snapshot.message.as_deref(), Some("Screen Recording permission is required"));
    assert!(!runtime.stop("stream-2"));
}

#[test]
fn screen_capture_resize_restarts_the_same_window_only() {
    let mut runtime = ScreenCaptureKitWindowRuntime::new();
    assert_eq!(
        runtime.begin_resize(&MacosWindowCaptureResizeRequest {
            stream_id: "stream-1".into(),
            selected_window_id: "macos-window-session-1-88".into(),
            target_viewport: ViewportSize::new(1440, 900),
        }),
        Err(AppRelayError::NotFound("ScreenCaptureKit stream stream-1 is not running".to_string()))
    );
    started(&mut runtime, "stream-1", "macos-window-session-1-88");

    let wrong = MacosWindowCaptureResizeRequest {
        stream_id: "stream-1".into(),
        selected_window_id: "macos-window-session-1-99".into(),
        target_viewport: ViewportSize::new(1440, 900),
    };
    assert_eq!(
        runtime.begin_resize(&wrong),
        Err(AppRelayError::InvalidRequest(
            "stream stream-1 captures window macos-window-session-1-88 but resize was requested for macos-window-session-1-99"
                .to_string()
        ))
    );

    let request = MacosWindowCaptureResizeRequest {
        stream_id: "stream-1".into(),
        selected_window_id: "macos-window-session-1-88".into(),
        target_viewport: ViewportSize::new(1440, 900),
    };
    let active = runtime.begin_resize(&request).expect("running");
    assert_eq!(
        active,
        ScreenCaptureKitActiveCapture {
            selected_window_id: "macos-window-session-1-88".into(),
            application_id: "app".into(),
            title: "T".into(),
            target_viewport: ViewportSize::new(320, 240),
            native_window_id: 88,
        }
    );
    let restart = ScreenCaptureKitWindowRuntime::restart_request(&request, &active);
    assert_eq!(restart.target_viewport, ViewportSize::new(1440, 900));
    assert_eq!(restart.application_id, "app");
    assert_eq!(runtime.finish_resize(request, active, Ok(())), Ok(()));
    assert!(runtime.stop("stream-1"));
    assert!(runtime.snapshot("stream-1").is_none());
}

#[test]
fn screen_capture_failed_resize_reports_the_error() {
    let mut runtime = ScreenCaptureKitWindowRuntime::new();
    started(&mut runtime, "stream-1", "macos-window-session-1-88");
    let request = MacosWindowCaptureResizeRequest {
        stream_id: "stream-1".into(),
        selected_window_id: "macos-window-session-1-88".into(),
        target_viewport: ViewportSize::new(1440, 900),
    };
    runtime.begin_resize(&request).expect("running");
    let error = runtime.fail_resize(
        "stream-1",
        AppRelayError::ServiceUnavailable("stop_capture failed".to_string()),
    );
    assert_eq!(error, AppRelayError::ServiceUnavailable("stop_capture failed".to_string()));
    let snapshot = runtime.snapshot("stream-1").expect("failure");
    assert_eq!(snapshot.state, VideoCaptureRuntimeState::Failed);
    assert_eq!(snapshot.message.as_deref(), Some("stop_capture failed"));
    assert!(!runtime.stop("stream-1"));
}
