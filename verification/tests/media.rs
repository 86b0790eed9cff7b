use apprelay_core::media::{
    EncodedVideoFrame, IceCandidatePayload, PollSignalingRequest, SdpRole, SignalingDirection,
    SignalingEnvelope, SignalingSubmitAck, SubmitSignalingRequest, WebRtcPeerRole,
};
use apprelay_core::protocol::{AppRelayError, ViewportSize};
use apprelay_core::signaling::{InMemorySignalingService, SignalingService, MAX_ENVELOPES_PER_SESSION};
use apprelay_core::video_encoder::{H264EncoderConfig, H264VideoEncoder, InMemoryH264VideoEncoder};
use apprelay_core::video_pipeline::{
    InMemoryVideoEncodingPipeline, VideoEncodingPipelineState, VideoResolutionAdaptationReason,
};
use apprelay_core::webrtc_peer::{stream_key, InMemoryWebRtcPeer, Str0mWebRtcPeer, WebRtcPeer};

fn ok_config() -> H264EncoderConfig {
    H264EncoderConfig {
        width: 1280,
        height: 720,
        target_bitrate_kbps: 2_500,
        max_fps: 30,
        keyframe_interval_frames: 60,
    }
}

fn frame() -> EncodedVideoFrame {
    EncodedVideoFrame {
        sequence: 1,
        timestamp_ms: 0,
        byte_length: 0,
        keyframe: true,
        payload: Vec::new(),
    }
}

#[test]
fn validate_rejects_zero_dimensions() {
    let mut config = ok_config();
    config.width = 0;
    assert!(matches!(
        config.validate(),
        Err(AppRelayError::InvalidRequest(_))
    ));
}

#[test]
fn validate_rejects_odd_dimensions() {
    let mut config = ok_config();
    config.width = 1281;
    assert!(matches!(
        config.validate(),
        Err(AppRelayError::InvalidRequest(_))
    ));
}

#[test]
fn validate_rejects_zero_fps() {
    let mut config = ok_config();
    config.max_fps = 0;
    assert!(matches!(
        config.validate(),
        Err(AppRelayError::InvalidRequest(_))
    ));
}

#[test]
fn validate_rejects_zero_bitrate() {
    let mut config = ok_config();
    config.target_bitrate_kbps = 0;
    assert!(matches!(
        config.validate(),
        Err(AppRelayError::InvalidRequest(_))
    ));
}

#[test]
fn validate_rejects_zero_keyframe_interval() {
    let mut config = ok_config();
    config.keyframe_interval_frames = 0;
    assert!(matches!(
        config.validate(),
        Err(AppRelayError::InvalidRequest(_))
    ));
}

#[test]
fn validate_messages_name_the_dimensions() {
    let mut config = ok_config();
    config.height = 0;
    assert_eq!(
        config.validate(),
        Err(AppRelayError::InvalidRequest(
            "H.264 encoder dimensions must be non-zero (got 1280x0)".to_string()
        ))
    );
    config.height = 721;
    assert_eq!(
        config.validate(),
        Err(AppRelayError::InvalidRequest(
            "H.264 encoder dimensions must be even (got 1280x721); H.264 macroblocks require it"
                .to_string()
        ))
    );
    assert_eq!(ok_config().validate(), Ok(()));
}

#[test]
fn in_memory_encoder_requires_configure_before_pushing_frames() {
    let mut encoder = InMemoryH264VideoEncoder::new();
    let err = encoder
        .encode_synthetic_frame(0)
        .expect_err("must require configure first");
    assert!(matches!(err, AppRelayError::ServiceUnavailable(_)));
}

#[test]
fn in_memory_encoder_emits_empty_payloads_with_keyframe_cadence() {
    let mut encoder = InMemoryH264VideoEncoder::new();
    encoder.configure(ok_config()).expect("configure");

    let first = encoder.encode_synthetic_frame(0).expect("first frame");
    assert!(first.keyframe, "first frame must be a keyframe");
    assert!(first.payload.is_empty());

    for offset in 1u32..60 {
        let frame = encoder
            .encode_synthetic_frame(u64::from(offset) * 33)
            .expect("intermediate frame");
        assert!(!frame.keyframe, "frame {offset} should not be a keyframe");
    }

    let sixty_first = encoder.encode_synthetic_frame(60 * 33).expect("60th frame");
    assert!(
        sixty_first.keyframe,
        "the keyframe-interval boundary must produce a keyframe"
    );
    assert_eq!(encoder.frames_pushed(), 61);
}

#[test]
fn in_memory_encoder_resets_state_on_shutdown() {
    let mut encoder = InMemoryH264VideoEncoder::new();
    encoder.configure(ok_config()).expect("configure");
    encoder.encode_synthetic_frame(0).expect("frame");
    assert_eq!(encoder.frames_pushed(), 1);

    encoder.shutdown();
    assert_eq!(encoder.frames_pushed(), 0);

    let err = encoder
        .encode_synthetic_frame(0)
        .expect_err("must be unconfigured after shutdown");
    assert!(matches!(err, AppRelayError::ServiceUnavailable(_)));
}

#[test]
fn in_memory_encoder_refuses_invalid_configuration_and_keeps_state() {
    let mut encoder = InMemoryH264VideoEncoder::new();
    encoder.configure(ok_config()).expect("configure");
    encoder.encode_synthetic_frame(7).expect("frame");
    let mut bad = ok_config();
    bad.max_fps = 0;

    assert!(encoder.configure(bad).is_err());
    assert_eq!(encoder.frames_pushed(), 1);
    let next = encoder.encode_synthetic_frame(40).expect("still configured");
    assert_eq!(next.timestamp_ms, 40);
}

#[test]
fn start_returns_phase_d1_pending() {
    let mut peer = Str0mWebRtcPeer::new();
    let err = peer
        .start("session-1", "stream-1", WebRtcPeerRole::Offerer)
        .expect_err("expected ServiceUnavailable while D.1 is pending");
    assert!(
        matches!(err, AppRelayError::ServiceUnavailable(message) if message.contains("Phase D.1"))
    );
}

#[test]
fn consume_signaling_returns_phase_d1_pending() {
    let mut peer = Str0mWebRtcPeer::new();
    let err = peer
        .consume_signaling(
            "session-1",
            SignalingEnvelope::SdpOffer {
                sdp: "v=0".to_string(),
                role: SdpRole::Offerer,
            },
        )
        .expect_err("expected ServiceUnavailable while D.1 is pending");
    assert!(matches!(err, AppRelayError::ServiceUnavailable(_)));
}

#[test]
fn push_encoded_frame_returns_phase_d1_pending() {
    let mut peer = Str0mWebRtcPeer::new();
    let err = peer
        .push_encoded_frame("stream-1", &frame())
        .expect_err("expected ServiceUnavailable while D.1 is pending");
    assert!(matches!(err, AppRelayError::ServiceUnavailable(_)));
}

#[test]
fn drains_are_empty_in_scaffold() {
    let mut peer = Str0mWebRtcPeer::new();
    assert!(peer.take_outbound_signaling("session-1").is_empty());
    assert!(peer.take_outbound_rtp().is_empty());
}

#[test]
fn stop_is_idempotent_in_scaffold() {
    let mut peer = Str0mWebRtcPeer::new();
    peer.stop("session-unknown", "stream-unknown")
        .expect("stop is idempotent even on never-started streams");
}

#[test]
fn in_memory_peer_start_stop_round_trips() {
    let mut peer = InMemoryWebRtcPeer::new();
    peer.start("session-1", "stream-1", WebRtcPeerRole::Offerer)
        .expect("start");
    peer.start("session-1", "stream-2", WebRtcPeerRole::Answerer)
        .expect("start");
    assert_eq!(peer.started_stream_count(), 2);

    peer.stop("session-1", "stream-1").expect("stop");
    assert_eq!(peer.started_stream_count(), 1);

    peer.stop("session-1", "stream-1").expect("stop again");
    assert_eq!(peer.started_stream_count(), 1);
}

#[test]
fn in_memory_peer_restart_keeps_one_entry() {
    let mut peer = InMemoryWebRtcPeer::new();
    peer.start("session-1", "stream-1", WebRtcPeerRole::Offerer)
        .expect("start");
    peer.start("session-1", "stream-1", WebRtcPeerRole::Answerer)
        .expect("restart");
    assert_eq!(peer.started_stream_count(), 1);
    assert_eq!(stream_key("session-1", "stream-1"), "session-1::stream-1");
}

#[test]
fn in_memory_peer_consume_signaling_counts() {
    let mut peer = InMemoryWebRtcPeer::new();
    peer.consume_signaling(
        "session-1",
        SignalingEnvelope::SdpOffer {
            sdp: "v=0".to_string(),
            role: SdpRole::Offerer,
        },
    )
    .expect("consume");
    peer.consume_signaling("session-1", SignalingEnvelope::EndOfCandidates)
        .expect("consume");
    assert_eq!(peer.consumed_envelope_count(), 2);
}

#[test]
fn in_memory_peer_drains_are_always_empty() {
    let mut peer = InMemoryWebRtcPeer::new();
    peer.start("session-1", "stream-1", WebRtcPeerRole::Offerer)
        .unwrap();
    peer.push_encoded_frame("stream-1", &frame()).unwrap();
    assert!(peer.take_outbound_signaling("session-1").is_empty());
    assert!(peer.take_outbound_rtp().is_empty());
    assert_eq!(peer.pushed_frame_count(), 1);
    let _ = ViewportSize {
        width: 1280,
        height: 720,
    };
    assert!(peer.take_outbound_rtp().is_empty());
}

fn submit_offer(service: &mut InMemorySignalingService, session: &str) -> SignalingSubmitAck {
    service
        .submit(SubmitSignalingRequest {
            session_id: session.to_string(),
            direction: SignalingDirection::OfferToAnswerer,
            envelope: SignalingEnvelope::SdpOffer {
                sdp: "v=0\r\n".to_string(),
                role: SdpRole::Offerer,
            },
        })
        .expect("submit offer")
}

#[test]
fn submit_returns_monotonic_sequence_per_session() {
    let mut service = InMemorySignalingService::new();
    let first = submit_offer(&mut service, "session-1");
    let second = submit_offer(&mut service, "session-1");
    let other = submit_offer(&mut service, "session-2");

    assert_eq!(first.sequence, 1);
    assert_eq!(second.sequence, 2);
    assert_eq!(other.sequence, 1);
    assert_eq!(first.envelope_kind, "sdp-offer");
    assert_eq!(first.payload_byte_length, 5);
}

#[test]
fn poll_returns_only_messages_after_since_sequence() {
    let mut service = InMemorySignalingService::new();
    submit_offer(&mut service, "session-1");
    service
        .submit(SubmitSignalingRequest {
            session_id: "session-1".to_string(),
            direction: SignalingDirection::OfferToAnswerer,
            envelope: SignalingEnvelope::IceCandidate(IceCandidatePayload {
                candidate: "candidate:foo".to_string(),
                sdp_mid: "video".to_string(),
                sdp_mline_index: 0,
            }),
        })
        .expect("submit candidate");
    service
        .submit(SubmitSignalingRequest {
            session_id: "session-1".to_string(),
            direction: SignalingDirection::OfferToAnswerer,
            envelope: SignalingEnvelope::EndOfCandidates,
        })
        .expect("submit end-of-candidates");

    let poll = service
        .poll(PollSignalingRequest {
            session_id: "session-1".to_string(),
            direction: SignalingDirection::OfferToAnswerer,
            since_sequence: 1,
        })
        .expect("poll envelopes");

    assert_eq!(poll.messages.len(), 2);
    assert_eq!(poll.messages[0].sequence, 2);
    assert_eq!(poll.messages[1].sequence, 3);
    assert_eq!(poll.last_sequence, 3);
    assert!(matches!(
        poll.messages[1].envelope,
        SignalingEnvelope::EndOfCandidates
    ));
}

#[test]
fn poll_isolates_directions() {
    let mut service = InMemorySignalingService::new();
    service
        .submit(SubmitSignalingRequest {
            session_id: "session-1".to_string(),
            direction: SignalingDirection::OfferToAnswerer,
            envelope: SignalingEnvelope::SdpOffer {
                sdp: "offer".to_string(),
                role: SdpRole::Offerer,
            },
        })
        .expect("submit offer");
    service
        .submit(SubmitSignalingRequest {
            session_id: "session-1".to_string(),
            direction: SignalingDirection::AnswererToOfferer,
            envelope: SignalingEnvelope::SdpAnswer {
                sdp: "answer".to_string(),
            },
        })
        .expect("submit answer");

    let offer_poll = service
        .poll(PollSignalingRequest {
            session_id: "session-1".to_string(),
            direction: SignalingDirection::OfferToAnswerer,
            since_sequence: 0,
        })
        .expect("poll offer side");
    let answer_poll = service
        .poll(PollSignalingRequest {
            session_id: "session-1".to_string(),
            direction: SignalingDirection::AnswererToOfferer,
            since_sequence: 0,
        })
        .expect("poll answer side");

    assert_eq!(offer_poll.messages.len(), 1);
    assert!(matches!(
        offer_poll.messages[0].envelope,
        SignalingEnvelope::SdpOffer { .. }
    ));
    assert_eq!(answer_poll.messages.len(), 1);
    assert!(matches!(
        answer_poll.messages[0].envelope,
        SignalingEnvelope::SdpAnswer { .. }
    ));
}

#[test]
fn poll_unknown_session_returns_empty_with_since_sequence_preserved() {
    let mut service = InMemorySignalingService::new();
    let poll = service
        .poll(PollSignalingRequest {
            session_id: "session-1".to_string(),
            direction: SignalingDirection::OfferToAnswerer,
            since_sequence: 5,
        })
        .expect("poll unknown session");

    assert!(poll.messages.is_empty());
    assert_eq!(poll.last_sequence, 5);
}

#[test]
fn close_session_drops_queued_messages_and_resets_sequence() {
    let mut service = InMemorySignalingService::new();
    submit_offer(&mut service, "session-1");
    service.close_session("session-1");

    let poll = service
        .poll(PollSignalingRequest {
            session_id: "session-1".to_string(),
            direction: SignalingDirection::OfferToAnswerer,
            since_sequence: 0,
        })
        .expect("poll closed session");
    assert!(poll.messages.is_empty());

    let resubmit = submit_offer(&mut service, "session-1");
    assert_eq!(
        resubmit.sequence, 1,
        "sequence resets after the session is closed"
    );
}

#[test]
fn submit_rejects_blank_session_id() {
    let mut service = InMemorySignalingService::new();
    let error = service
        .submit(SubmitSignalingRequest {
            session_id: "  ".to_string(),
            direction: SignalingDirection::OfferToAnswerer,
            envelope: SignalingEnvelope::EndOfCandidates,
        })
        .expect_err("blank session id rejected");
    assert!(matches!(error, AppRelayError::InvalidRequest(_)));
}

#[test]
fn submit_refuses_a_full_backlog_until_polling_acknowledges() {
    let mut service = InMemorySignalingService::new();
    for _ in 0..MAX_ENVELOPES_PER_SESSION {
        submit_offer(&mut service, "session-1");
    }
    assert_eq!(service.current_depth("session-1"), MAX_ENVELOPES_PER_SESSION);
    let refused = service.submit(SubmitSignalingRequest {
        session_id: "session-1".to_string(),
        direction: SignalingDirection::AnswererToOfferer,
        envelope: SignalingEnvelope::EndOfCandidates,
    });
    assert_eq!(
        refused,
        Err(AppRelayError::ServiceUnavailable(
            "signaling backlog full for session session-1".to_string()
        ))
    );

    service
        .poll(PollSignalingRequest {
            session_id: "session-1".to_string(),
            direction: SignalingDirection::OfferToAnswerer,
            since_sequence: 10,
        })
        .expect("poll acknowledges");
    assert_eq!(service.current_depth("session-1"), MAX_ENVELOPES_PER_SESSION - 10);
    let accepted = submit_offer(&mut service, "session-1");
    assert_eq!(accepted.sequence, 257);
}

#[test]
fn encoding_pipeline_counts_frames_and_keyframes() {
    let viewport = ViewportSize::new(1280, 720);
    let target = InMemoryVideoEncodingPipeline::unscaled_target(viewport).expect("within limits");
    let mut pipeline = InMemoryVideoEncodingPipeline::configured(viewport, target);

    assert_eq!(pipeline.contract.target.target_bitrate_kbps, 2764);
    assert_eq!(
        pipeline.contract.adaptation.reason,
        VideoResolutionAdaptationReason::MatchesViewport
    );

    InMemoryVideoEncodingPipeline::encode_next_frame(&mut pipeline);
    let first = pipeline.output.last_frame.clone().expect("first frame");
    assert!(first.keyframe);
    assert_eq!(first.sequence, 1);
    assert_eq!(first.timestamp_ms, 0);
    assert_eq!(first.byte_length, 23032);

    InMemoryVideoEncodingPipeline::encode_next_frame(&mut pipeline);
    let second = pipeline.output.last_frame.clone().expect("second frame");
    assert!(!second.keyframe);
    assert_eq!(second.timestamp_ms, 33);
    assert_eq!(second.byte_length, 11516);
    assert_eq!(pipeline.output.keyframes_encoded, 1);
    assert_eq!(pipeline.output.bytes_produced, 23032 + 11516);
    assert_eq!(pipeline.state, VideoEncodingPipelineState::Encoding);

    InMemoryVideoEncodingPipeline::drain(&mut pipeline);
    assert_eq!(pipeline.state, VideoEncodingPipelineState::Drained);
    InMemoryVideoEncodingPipeline::reset_for_reconnect(&mut pipeline);
    assert_eq!(pipeline.state, VideoEncodingPipelineState::Configured);
    assert_eq!(pipeline.output.frames_encoded, 0);
}

#[test]
fn encoding_pipeline_limits_and_even_dimensions() {
    assert_eq!(InMemoryVideoEncodingPipeline::floor_to_even(1081), 1080);
    assert_eq!(InMemoryVideoEncodingPipeline::floor_to_even(1), 2);
    assert_eq!(InMemoryVideoEncodingPipeline::floor_to_even(u64::MAX), u32::MAX - 0);
    assert_eq!(
        InMemoryVideoEncodingPipeline::unscaled_target(ViewportSize::new(0, 720)),
        Some(ViewportSize::new(2, 2))
    );
    assert_eq!(
        InMemoryVideoEncodingPipeline::unscaled_target(ViewportSize::new(3840, 2160)),
        None
    );
    assert_eq!(
        InMemoryVideoEncodingPipeline::target_bitrate_kbps(&ViewportSize::new(2, 2)),
        250
    );
}

#[test]
fn poll_drops_acknowledged_envelopes_for_good_and_hands_out_in_order() {
    let mut service = InMemorySignalingService::new();
    submit_offer(&mut service, "session-1");
    submit_offer(&mut service, "session-1");
    submit_offer(&mut service, "session-1");

    let first = service
        .poll(PollSignalingRequest {
            session_id: "session-1".to_string(),
            direction: SignalingDirection::OfferToAnswerer,
            since_sequence: 2,
        })
        .expect("poll after 2");
    let sequences: Vec<u64> = first.messages.iter().map(|m| m.sequence).collect();
    assert_eq!(sequences, vec![3]);
    assert_eq!(service.current_depth("session-1"), 1);

    let again = service
        .poll(PollSignalingRequest {
            session_id: "session-1".to_string(),
            direction: SignalingDirection::OfferToAnswerer,
            since_sequence: 0,
        })
        .expect("poll from the start");
    let sequences: Vec<u64> = again.messages.iter().map(|m| m.sequence).collect();
    assert_eq!(sequences, vec![3]);
    assert_eq!(again.last_sequence, 3);
}

#[test]
fn poll_twice_with_the_same_since_hands_out_the_same_envelopes() {
    let mut service = InMemorySignalingService::new();
    submit_offer(&mut service, "session-1");
    submit_offer(&mut service, "session-1");
    submit_offer(&mut service, "session-1");
    let request = || PollSignalingRequest {
        session_id: "session-1".to_string(),
        direction: SignalingDirection::OfferToAnswerer,
        since_sequence: 1,
    };

    let first = service.poll(request()).expect("first poll");
    let second = service.poll(request()).expect("second poll");
    let a: Vec<u64> = first.messages.iter().map(|m| m.sequence).collect();
    let b: Vec<u64> = second.messages.iter().map(|m| m.sequence).collect();
    assert_eq!(a, vec![2, 3]);
    assert_eq!(a, b);
    assert_eq!(first.last_sequence, second.last_sequence);
    assert_eq!(service.current_depth("session-1"), 2);
}
