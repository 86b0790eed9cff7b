use apprelay_core::protocol::{AppRelayError, ViewportSize};
use apprelay_core::video_encoder::H264EncoderConfig;
use apprelay_core::video_protocol::{CapturedVideoFrame, VideoCaptureRuntimeState, VideoCaptureRuntimeStatus};
use apprelay_core::videotoolbox::{
    annex_b_frame, encoder_config_for, frame_parameter_sets, is_sync_sample, VideoToolboxBridgeState,
    VideoToolboxEncoderState,
};

#[test]
fn configure_rejects_zero_dimensions_before_touching_videotoolbox() {
    let mut encoder = VideoToolboxEncoderState::new();
    let err = encoder
        .begin_configure(&H264EncoderConfig {
            width: 0,
            height: 720,
            target_bitrate_kbps: 1_000,
            max_fps: 30,
            keyframe_interval_frames: 60,
        })
        .expect_err("zero width must be rejected");
    assert!(matches!(err, AppRelayError::InvalidRequest(_)));
    assert!(!encoder.has_session());
}

#[test]
fn encode_without_configure_returns_service_unavailable() {
    let encoder = VideoToolboxEncoderState::new();
    let err = encoder.check_encode(true).expect_err("must require configure");
    assert!(matches!(err, AppRelayError::ServiceUnavailable(_)));
}

#[test]
fn snapshot_surfaces_recorded_encoder_error_as_failed() {
    let mut bridge = VideoToolboxBridgeState::new();
    bridge.record_encode_error(
        "stream-err",
        AppRelayError::ServiceUnavailable("encoder went sideways".to_string()),
    );
    let snapshot = bridge
        .snapshot("stream-err", None)
        .expect("encoder error must produce a snapshot even if SCK never recorded one");
    assert_eq!(snapshot.state, VideoCaptureRuntimeState::Failed);
    let message = snapshot.message.expect("encoder error message must surface");
    assert!(
        message.contains("encoder went sideways"),
        "expected user_message to be carried through, got {message:?}"
    );
}

#[test]
fn snapshot_maps_permission_denied_encoder_error() {
    let mut bridge = VideoToolboxBridgeState::new();
    bridge.record_encode_error(
        "stream-perm",
        AppRelayError::PermissionDenied("screen recording denied".to_string()),
    );
    let snapshot = bridge.snapshot("stream-perm", None).expect("snapshot present");
    assert_eq!(snapshot.state, VideoCaptureRuntimeState::PermissionDenied);
}

#[test]
fn remove_encoder_clears_recorded_encoder_error() {
    let mut bridge = VideoToolboxBridgeState::new();
    bridge.record_encode_error("stream-clear", AppRelayError::ServiceUnavailable("stale".to_string()));
    bridge.remove_encoder("stream-clear");
    assert_eq!(bridge.snapshot("stream-clear", None), None);
}

#[test]
fn encoder_needs_a_pixel_buffer_then_a_session() {
    let mut encoder = VideoToolboxEncoderState::new();
    assert_eq!(
        encoder.check_encode(false),
        Err(AppRelayError::InvalidRequest("VideoToolbox encoder received a null pixel buffer".to_string()))
    );
    let config = encoder_config_for(ViewportSize::new(1280, 720));
    assert_eq!(
        config,
        H264EncoderConfig {
            width: 1280,
            height: 720,
            target_bitrate_kbps: 2_500,
            max_fps: 30,
            keyframe_interval_frames: 60,
        }
    );
    encoder.begin_configure(&config).expect("valid");
    assert_eq!(encoder.finish_configure(config, Ok(())), Ok(()));
    assert!(encoder.has_session());
    assert_eq!(encoder.check_encode(true), Ok(()));
    encoder.tear_down();
    assert!(!encoder.has_session());
}

#[test]
fn encoded_samples_become_annex_b_frames() {
    assert!(is_sync_sample(None));
    assert!(is_sync_sample(Some(false)));
    assert!(!is_sync_sample(Some(true)));

    let sets = frame_parameter_sets(&vec![vec![0x67, 0x42], vec![0x68]], 4).expect("4-byte prefixes");
    assert_eq!(sets, vec![0, 0, 0, 1, 0x67, 0x42, 0, 0, 0, 1, 0x68]);
    assert_eq!(
        frame_parameter_sets(&vec![vec![0x67]], 2),
        Err(AppRelayError::ServiceUnavailable(
            "VideoToolbox H.264 NAL header length is 2; expected 4".to_string()
        ))
    );
    assert_eq!(
        frame_parameter_sets(&vec![], -3),
        Err(AppRelayError::ServiceUnavailable(
            "VideoToolbox H.264 NAL header length is -3; expected 4".to_string()
        ))
    );

    assert_eq!(annex_b_frame(&[], true, &sets), Ok(None));
    let frame = annex_b_frame(&[0, 0, 0, 2, 0x65, 0x88], true, &sets)
        .expect("well formed")
        .expect("non-empty");
    assert!(frame.keyframe);
    assert_eq!(frame.timestamp_ms, 0);
    assert_eq!(
        frame.payload,
        vec![0, 0, 0, 1, 0x67, 0x42, 0, 0, 0, 1, 0x68, 0, 0, 0, 1, 0x65, 0x88]
    );
    assert!(matches!(
        annex_b_frame(&[0, 0, 0, 9, 0x65], false, &[]),
        Err(AppRelayError::ServiceUnavailable(_))
    ));
}

#[test]
fn bridge_keeps_each_streams_latest_payload() {
    let mut bridge = VideoToolboxBridgeState::new();
    bridge.record_payload("stream-1", vec![1, 2, 3]);
    assert!(!bridge.has_encoder("stream-1"));
    assert_eq!(bridge.latest_encoded_payload("stream-1"), None);

    bridge.record_encode_error("stream-1", AppRelayError::ServiceUnavailable("old".to_string()));
    assert_eq!(
        bridge.install_encoder("stream-1", ViewportSize::new(1280, 720), Ok(())),
        Ok(())
    );
    assert!(bridge.has_encoder("stream-1"));
    assert_eq!(bridge.latest_encoded_payload("stream-1"), None);
    let capture = VideoCaptureRuntimeStatus {
        state: VideoCaptureRuntimeState::Delivering,
        frames_delivered: 4,
        last_frame: Some(CapturedVideoFrame { sequence: 4, timestamp_ms: 9, size: ViewportSize::new(1280, 720) }),
        message: None,
    };
    assert_eq!(bridge.snapshot("stream-1", Some(capture.clone())), Some(capture.clone()));

    bridge.record_payload("stream-1", Vec::new());
    assert_eq!(bridge.latest_encoded_payload("stream-1"), None);
    bridge.record_payload("stream-1", vec![0, 0, 0, 1, 0x65]);
    assert_eq!(bridge.latest_encoded_payload("stream-1"), Some(vec![0, 0, 0, 1, 0x65]));

    bridge.record_encode_error("stream-1", AppRelayError::ServiceUnavailable("encode failed".to_string()));
    let failed = bridge.snapshot("stream-1", Some(capture)).expect("failure");
    assert_eq!(failed.state, VideoCaptureRuntimeState::Failed);
    assert_eq!(failed.frames_delivered, 4);
    assert_eq!(failed.message.as_deref(), Some("encode failed"));

    let refused = AppRelayError::InvalidRequest("bad size".to_string());
    assert_eq!(
        bridge.install_encoder("stream-2", ViewportSize::new(0, 0), Err(refused.clone())),
        Err(refused)
    );
    assert!(!bridge.has_encoder("stream-2"));
}
