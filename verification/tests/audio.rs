use apprelay_core::audio_backend::{AudioBackendNativeReadiness, AudioBackendService, NativeLegState};
use apprelay_core::audio_protocol::{
    AudioBackendContract, AudioBackendFailureKind, AudioBackendKind, AudioBackendLeg,
    AudioBackendMediaStats, AudioBackendReadiness, AudioStreamSession, AudioStreamState, AudioStreamStats,
    MicrophoneMode, StartAudioStreamRequest, StopAudioStreamRequest, UpdateAudioStreamRequest,
};
use apprelay_core::audio_stream::{AudioStreamService, InMemoryAudioStreamService};
use apprelay_core::protocol::{AppRelayError, CreateSessionRequest, Feature, Platform, ViewportSize};
use apprelay_core::sessions::{ApplicationSessionService, InMemoryApplicationSessionService};

#[test]
fn audio_stream_starts_with_opt_in_microphone_and_mute_state() {
    let mut session_service = InMemoryApplicationSessionService::default();
    let session = session_service
        .create_session(CreateSessionRequest {
            application_id: "terminal".to_string(),
            viewport: ViewportSize::new(1280, 720),
        })
        .expect("create session");
    let mut stream_service = InMemoryAudioStreamService::default();

    let stream = stream_service
        .start_stream(
            StartAudioStreamRequest {
                session_id: session.id.clone(),
                microphone: MicrophoneMode::Enabled,
                system_audio_muted: false,
                microphone_muted: true,
                output_device_id: Some("speakers".to_string()),
                input_device_id: Some("mic".to_string()),
            },
            &session,
        )
        .expect("start audio stream");

    assert_eq!(stream.session_id, session.id);
    assert_eq!(stream.microphone, MicrophoneMode::Enabled);
    assert!(stream.microphone_injection.requested);
    assert!(!stream.microphone_injection.active);
    assert_eq!(
        stream.microphone_injection.readiness,
        AudioBackendReadiness::PlannedNative
    );
    assert_eq!(
        stream.microphone_injection.reason.as_deref(),
        Some("server-side microphone injection backend is not implemented yet")
    );
    assert!(!stream.mute.system_audio_muted);
    assert!(stream.mute.microphone_muted);
    assert!(stream.capabilities.system_audio.supported);
    let backend = stream.backend.as_ref().expect("backend contract");
    assert_eq!(backend.control_plane, AudioBackendKind::ControlPlane);
    assert_eq!(backend.planned_capture, AudioBackendKind::PipeWire);
    assert_eq!(backend.planned_playback, AudioBackendKind::PipeWire);
    assert_eq!(backend.planned_microphone, AudioBackendKind::PipeWire);
    assert_eq!(backend.readiness, AudioBackendReadiness::ControlPlaneOnly);
    assert_eq!(backend.statuses.len(), 4);
    assert!(backend.statuses.iter().all(|status| !status.available));
    assert!(backend.statuses.iter().all(|status| {
        status.media
            == AudioBackendMediaStats {
                available: false,
                packets_sent: 0,
                packets_received: 0,
                bytes_sent: 0,
                bytes_received: 0,
                latency_ms: 0,
            }
    }));
    assert!(backend.statuses.iter().all(|status| {
        status.failure.as_ref().is_some_and(|failure| {
            failure.kind == AudioBackendFailureKind::NativeBackendNotImplemented
        })
    }));
    assert_eq!(stream.state, AudioStreamState::Streaming);
}

#[test]
fn audio_stream_reports_microphone_injection_not_requested_when_microphone_disabled() {
    let mut session_service = InMemoryApplicationSessionService::default();
    let session = session_service
        .create_session(CreateSessionRequest {
            application_id: "terminal".to_string(),
            viewport: ViewportSize::new(1280, 720),
        })
        .expect("create session");
    let mut stream_service = InMemoryAudioStreamService::default();

    let stream = stream_service
        .start_stream(
            StartAudioStreamRequest {
                session_id: session.id.clone(),
                microphone: MicrophoneMode::Disabled,
                system_audio_muted: false,
                microphone_muted: true,
                output_device_id: None,
                input_device_id: None,
            },
            &session,
        )
        .expect("start audio stream");

    assert!(!stream.microphone_injection.requested);
    assert!(!stream.microphone_injection.active);
    assert_eq!(
        stream.microphone_injection.readiness,
        AudioBackendReadiness::PlannedNative
    );
    assert_eq!(
        stream.microphone_injection.reason.as_deref(),
        Some("microphone input is disabled for this session")
    );
}

#[test]
fn audio_backend_contract_maps_native_backends_by_platform() {
    let cases = [
        (Platform::Linux, AudioBackendKind::PipeWire),
        (Platform::Macos, AudioBackendKind::CoreAudio),
        (Platform::Windows, AudioBackendKind::Wasapi),
    ];

    for (platform, expected_backend) in cases {
        let readiness = AudioBackendNativeReadiness::unavailable();
        let contract = AudioBackendService::for_platform(platform).backend_contract();
        assert_eq!(contract.planned_capture, expected_backend);
        assert_eq!(
            AudioBackendNativeReadiness::native_legs(),
            vec![
                AudioBackendLeg::Capture,
                AudioBackendLeg::Playback,
                AudioBackendLeg::ClientMicrophoneCapture,
                AudioBackendLeg::ServerMicrophoneInjection,
            ]
        );
        assert!(AudioBackendNativeReadiness::native_legs()
            .into_iter()
            .all(|leg| readiness.leg_state_of(platform, leg) == NativeLegState::NotImplemented));

        let contract = AudioBackendService::for_platform(platform).backend_contract();

        assert_eq!(contract.control_plane, AudioBackendKind::ControlPlane);
        assert_eq!(contract.planned_capture, expected_backend);
        assert_eq!(contract.planned_playback, expected_backend);
        assert_eq!(contract.planned_microphone, expected_backend);
        assert_eq!(contract.readiness, AudioBackendReadiness::ControlPlaneOnly);
        assert_eq!(
            contract
                .statuses
                .iter()
                .map(|status| status.leg.clone())
                .collect::<Vec<_>>(),
            vec![
                AudioBackendLeg::Capture,
                AudioBackendLeg::Playback,
                AudioBackendLeg::ClientMicrophoneCapture,
                AudioBackendLeg::ServerMicrophoneInjection,
            ]
        );
        assert!(contract.statuses.iter().all(|status| {
            status.backend == expected_backend
                && !status.available
                && status.readiness == AudioBackendReadiness::PlannedNative
                && !status.media.available
                && status.media.packets_sent == 0
                && status.media.packets_received == 0
                && status.media.bytes_sent == 0
                && status.media.bytes_received == 0
                && status.media.latency_ms == 0
                && status.failure.as_ref().is_some_and(|failure| {
                    failure.kind == AudioBackendFailureKind::NativeBackendNotImplemented
                })
        }));
    }
}

#[test]
fn audio_backend_default_production_media_status_stays_unavailable() {
    for platform in [Platform::Linux, Platform::Macos, Platform::Windows] {
        let contract = AudioBackendService::for_platform(platform).backend_contract();

        assert_eq!(contract.readiness, AudioBackendReadiness::ControlPlaneOnly);
        assert_eq!(contract.statuses.len(), 4);
        assert!(contract.statuses.iter().all(|status| {
            !status.available
                && status.readiness == AudioBackendReadiness::PlannedNative
                && status.media == AudioBackendMediaStats::default()
                && status.failure.as_ref().is_some_and(|failure| {
                    failure.kind == AudioBackendFailureKind::NativeBackendNotImplemented
                })
        }));
    }
}

#[test]
fn audio_backend_linux_pipewire_capture_adapter_boundary_is_capture_only() {
    let readiness = AudioBackendNativeReadiness::with_linux_pipewire_capture_adapter_boundary();
    assert_eq!(
        AudioBackendNativeReadiness::native_legs()
            .into_iter()
            .filter(|leg| {
                readiness.leg_state_of(Platform::Linux, *leg) == NativeLegState::AdapterUnavailable
            })
            .collect::<Vec<_>>(),
        vec![AudioBackendLeg::Capture]
    );
    assert!(AudioBackendNativeReadiness::native_legs().into_iter().all(|leg| {
        !matches!(
            readiness.leg_state_of(Platform::Linux, leg),
            NativeLegState::AdapterAvailable | NativeLegState::AvailableForTest
        )
    }));

    let contract = AudioBackendService::for_platform_with_native_readiness(
        Platform::Linux,
        AudioBackendNativeReadiness::with_linux_pipewire_capture_adapter_boundary(),
    )
    .backend_contract();

    assert_eq!(contract.readiness, AudioBackendReadiness::ControlPlaneOnly);
    assert!(contract
        .notes
        .iter()
        .any(|note| note.contains("PipeWire capture has an adapter boundary")));

    for status in &contract.statuses {
        assert!(!status.available);
        assert_eq!(status.readiness, AudioBackendReadiness::PlannedNative);
        assert_eq!(status.media, AudioBackendMediaStats::default());
        assert_eq!(
            status.failure.as_ref().map(|failure| &failure.kind),
            Some(&AudioBackendFailureKind::NativeBackendNotImplemented)
        );
    }

    let capture = contract
        .statuses
        .iter()
        .find(|status| status.leg == AudioBackendLeg::Capture)
        .expect("capture status");
    assert!(capture
        .failure
        .as_ref()
        .expect("capture failure")
        .message
        .contains("PipeWire adapter boundary"));

    for planned_leg in [
        AudioBackendLeg::Playback,
        AudioBackendLeg::ClientMicrophoneCapture,
        AudioBackendLeg::ServerMicrophoneInjection,
    ] {
        let status = contract
            .statuses
            .iter()
            .find(|status| status.leg == planned_leg)
            .expect("planned leg status");
        assert!(status
            .failure
            .as_ref()
            .expect("planned leg failure")
            .message
            .contains("is not implemented yet"));
        assert!(!status
            .failure
            .as_ref()
            .expect("planned leg failure")
            .message
            .contains("adapter boundary"));
    }
}

#[test]
fn audio_backend_pipewire_capture_adapter_boundary_does_not_affect_macos_or_windows() {
    for (platform, expected_backend) in [
        (Platform::Macos, AudioBackendKind::CoreAudio),
        (Platform::Windows, AudioBackendKind::Wasapi),
    ] {
        let readiness = AudioBackendNativeReadiness::with_linux_pipewire_capture_adapter_boundary();
        assert!(AudioBackendNativeReadiness::native_legs()
            .into_iter()
            .all(|leg| readiness.leg_state_of(platform, leg) == NativeLegState::NotImplemented));

        let contract = AudioBackendService::for_platform_with_native_readiness(
            platform,
            AudioBackendNativeReadiness::with_linux_pipewire_capture_adapter_boundary(),
        )
        .backend_contract();

        assert_eq!(contract.readiness, AudioBackendReadiness::ControlPlaneOnly);
        assert!(contract.statuses.iter().all(|status| {
            status.backend == expected_backend
                && !status.available
                && status.readiness == AudioBackendReadiness::PlannedNative
                && status.media == AudioBackendMediaStats::default()
                && status.failure.as_ref().is_some_and(|failure| {
                    failure.kind == AudioBackendFailureKind::NativeBackendNotImplemented
                        && !failure.message.contains("adapter boundary")
                })
        }));
    }
}

#[test]
fn audio_backend_pipewire_capture_runtime_reports_capture_telemetry_only() {
    let mut session_service = InMemoryApplicationSessionService::default();
    let session = session_service
        .create_session(CreateSessionRequest {
            application_id: "terminal".to_string(),
            viewport: ViewportSize::new(1280, 720),
        })
        .expect("create session");
    let mut stream_service = InMemoryAudioStreamService::new(
        AudioBackendService::for_platform_with_native_readiness(
            Platform::Linux,
            AudioBackendNativeReadiness::with_linux_pipewire_capture_runtime_for_test(
                pipewire_capture_media_for_test(),
            ),
        ),
    );

    let stream = stream_service
        .start_stream(
            StartAudioStreamRequest {
                session_id: session.id.clone(),
                microphone: MicrophoneMode::Enabled,
                system_audio_muted: false,
                microphone_muted: false,
                output_device_id: None,
                input_device_id: None,
            },
            &session,
        )
        .expect("start audio stream");
    let backend = stream.backend.as_ref().expect("backend contract");

    assert_eq!(backend.readiness, AudioBackendReadiness::ControlPlaneOnly);
    assert_pipewire_capture_runtime_status(backend);
    assert!(!stream.microphone_injection.active);

    let stopped = stream_service
        .stop_stream(StopAudioStreamRequest {
            stream_id: stream.id.clone(),
        })
        .expect("stop audio stream");

    assert_eq!(stopped.state, AudioStreamState::Stopped);
    assert_pipewire_capture_runtime_media_cleared(&stopped);
    let status = stream_service
        .stream_status(&stream.id)
        .expect("stopped stream status");
    assert_pipewire_capture_runtime_media_cleared(&status);
}

#[test]
fn audio_backend_pipewire_capture_runtime_session_close_clears_capture_telemetry() {
    let mut session_service = InMemoryApplicationSessionService::default();
    let session = session_service
        .create_session(CreateSessionRequest {
            application_id: "terminal".to_string(),
            viewport: ViewportSize::new(1280, 720),
        })
        .expect("create session");
    let mut stream_service = InMemoryAudioStreamService::new(
        AudioBackendService::for_platform_with_native_readiness(
            Platform::Linux,
            AudioBackendNativeReadiness::with_linux_pipewire_capture_runtime_for_test(
                pipewire_capture_media_for_test(),
            ),
        ),
    );
    let stream = stream_service
        .start_stream(
            StartAudioStreamRequest {
                session_id: session.id.clone(),
                microphone: MicrophoneMode::Enabled,
                system_audio_muted: false,
                microphone_muted: false,
                output_device_id: None,
                input_device_id: None,
            },
            &session,
        )
        .expect("start audio stream");

    stream_service.record_session_closed(&session.id);

    let status = stream_service
        .stream_status(&stream.id)
        .expect("closed stream status");
    assert_eq!(status.state, AudioStreamState::Stopped);
    assert_pipewire_capture_runtime_media_cleared(&status);
}

#[test]
fn audio_backend_pipewire_capture_runtime_refresh_starts_active_stream_capture() {
    let mut session_service = InMemoryApplicationSessionService::default();
    let session = session_service
        .create_session(CreateSessionRequest {
            application_id: "terminal".to_string(),
            viewport: ViewportSize::new(1280, 720),
        })
        .expect("create session");
    let mut stream_service = InMemoryAudioStreamService::new(
        AudioBackendService::for_platform_with_native_readiness(
            Platform::Linux,
            AudioBackendNativeReadiness::with_linux_pipewire_capture_adapter_boundary(),
        ),
    );
    let stream = stream_service
        .start_stream(
            StartAudioStreamRequest {
                session_id: session.id.clone(),
                microphone: MicrophoneMode::Disabled,
                system_audio_muted: false,
                microphone_muted: true,
                output_device_id: None,
                input_device_id: None,
            },
            &session,
        )
        .expect("start audio stream");

    stream_service.configure_native_readiness(
        AudioBackendNativeReadiness::with_linux_pipewire_capture_runtime_for_test(
            pipewire_capture_media_for_test(),
        ),
    );

    let refreshed = stream_service
        .stream_status(&stream.id)
        .expect("refreshed stream status");
    assert_pipewire_capture_runtime_status(
        refreshed.backend.as_ref().expect("backend contract"),
    );
    assert_eq!(
        refreshed.health.message.as_deref(),
        Some("audio backend readiness updated")
    );
}

#[test]
fn audio_backend_pipewire_capture_runtime_refresh_clears_downgraded_capture() {
    let mut session_service = InMemoryApplicationSessionService::default();
    let session = session_service
        .create_session(CreateSessionRequest {
            application_id: "terminal".to_string(),
            viewport: ViewportSize::new(1280, 720),
        })
        .expect("create session");
    let mut stream_service = InMemoryAudioStreamService::new(
        AudioBackendService::for_platform_with_native_readiness(
            Platform::Linux,
            AudioBackendNativeReadiness::with_linux_pipewire_capture_runtime_for_test(
                pipewire_capture_media_for_test(),
            ),
        ),
    );
    let stream = stream_service
        .start_stream(
            StartAudioStreamRequest {
                session_id: session.id.clone(),
                microphone: MicrophoneMode::Disabled,
                system_audio_muted: false,
                microphone_muted: true,
                output_device_id: None,
                input_device_id: None,
            },
            &session,
        )
        .expect("start audio stream");

    stream_service.configure_native_readiness(
        AudioBackendNativeReadiness::with_linux_pipewire_capture_adapter_boundary(),
    );

    let refreshed = stream_service
        .stream_status(&stream.id)
        .expect("refreshed stream status");
    let backend = refreshed.backend.as_ref().expect("backend contract");
    let capture = backend
        .statuses
        .iter()
        .find(|status| status.leg == AudioBackendLeg::Capture)
        .expect("capture status");
    assert!(!capture.available);
    assert_eq!(capture.readiness, AudioBackendReadiness::PlannedNative);
    assert_eq!(capture.media, AudioBackendMediaStats::default());
    assert!(capture
        .failure
        .as_ref()
        .expect("capture failure")
        .message
        .contains("PipeWire adapter boundary"));
}

#[test]
fn audio_backend_pipewire_capture_start_failure_reports_capture_unavailable() {
    let mut session_service = InMemoryApplicationSessionService::default();
    let session = session_service
        .create_session(CreateSessionRequest {
            application_id: "terminal".to_string(),
            viewport: ViewportSize::new(1280, 720),
        })
        .expect("create session");
    let mut stream_service = InMemoryAudioStreamService::new(
        AudioBackendService::for_platform_with_native_readiness(
            Platform::Linux,
            AudioBackendNativeReadiness::with_linux_pipewire_capture_start_failure_for_test(),
        ),
    );

    let stream = stream_service
        .start_stream(
            StartAudioStreamRequest {
                session_id: session.id.clone(),
                microphone: MicrophoneMode::Disabled,
                system_audio_muted: false,
                microphone_muted: true,
                output_device_id: None,
                input_device_id: None,
            },
            &session,
        )
        .expect("start audio stream");
    let capture = stream
        .backend
        .as_ref()
        .expect("backend contract")
        .statuses
        .iter()
        .find(|status| status.leg == AudioBackendLeg::Capture)
        .expect("capture status");

    assert!(!capture.available);
    assert_eq!(capture.readiness, AudioBackendReadiness::PlannedNative);
    assert_eq!(capture.media, AudioBackendMediaStats::default());
    assert!(capture
        .failure
        .as_ref()
        .expect("capture failure")
        .message
        .contains("failed to start"));

    let refreshed = stream_service
        .stream_status(&stream.id)
        .expect("refreshed stream status");
    let refreshed_capture = refreshed
        .backend
        .as_ref()
        .expect("backend contract")
        .statuses
        .iter()
        .find(|status| status.leg == AudioBackendLeg::Capture)
        .expect("capture status");
    assert!(!refreshed_capture.available);
    assert!(refreshed_capture.failure.is_some());
}



#[test]
fn audio_backend_contract_can_model_native_leg_readiness() {
    let contract = AudioBackendService::for_platform_with_native_readiness(
        Platform::Linux,
        AudioBackendNativeReadiness::with_available_legs(vec![
            AudioBackendLeg::Capture,
            AudioBackendLeg::Playback,
            AudioBackendLeg::ClientMicrophoneCapture,
        ]),
    )
    .backend_contract();

    assert_eq!(contract.readiness, AudioBackendReadiness::ControlPlaneOnly);
    for available_leg in [
        AudioBackendLeg::Capture,
        AudioBackendLeg::Playback,
        AudioBackendLeg::ClientMicrophoneCapture,
    ] {
        let status = contract
            .statuses
            .iter()
            .find(|status| status.leg == available_leg)
            .expect("available leg status");
        assert!(status.available);
        assert_eq!(status.readiness, AudioBackendReadiness::NativeAvailable);
        assert!(!status.media.available);
        assert_eq!(status.media.packets_sent, 0);
        assert_eq!(status.media.packets_received, 0);
        assert_eq!(status.media.bytes_sent, 0);
        assert_eq!(status.media.bytes_received, 0);
        assert_eq!(status.media.latency_ms, 0);
        assert_eq!(status.failure, None);
    }

    let microphone_injection = contract
        .statuses
        .iter()
        .find(|status| status.leg == AudioBackendLeg::ServerMicrophoneInjection)
        .expect("microphone injection status");
    assert!(!microphone_injection.available);
    assert_eq!(
        microphone_injection.readiness,
        AudioBackendReadiness::PlannedNative
    );
    assert!(microphone_injection.failure.is_some());
}

#[test]
fn audio_backend_runtime_media_session_reports_test_telemetry() {
    let mut session_service = InMemoryApplicationSessionService::default();
    let session = session_service
        .create_session(CreateSessionRequest {
            application_id: "terminal".to_string(),
            viewport: ViewportSize::new(1280, 720),
        })
        .expect("create session");
    let mut stream_service = InMemoryAudioStreamService::default();
    stream_service.configure_native_readiness(
        AudioBackendNativeReadiness::with_available_legs(
            AudioBackendNativeReadiness::native_legs(),
        ),
    );
    let stream = stream_service
        .start_stream(
            StartAudioStreamRequest {
                session_id: session.id.clone(),
                microphone: MicrophoneMode::Enabled,
                system_audio_muted: false,
                microphone_muted: false,
                output_device_id: None,
                input_device_id: None,
            },
            &session,
        )
        .expect("start audio stream");

    stream_service.start_native_media_session_for_test(
        &stream.id,
        AudioBackendNativeReadiness::native_legs()
            .into_iter()
            .enumerate()
            .map(|(index, leg)| {
                let offset = index as u64 + 1;
                (
                    leg,
                    AudioBackendMediaStats {
                        available: true,
                        packets_sent: 10 * offset,
                        packets_received: 20 * offset,
                        bytes_sent: 1000 * offset,
                        bytes_received: 2000 * offset,
                        latency_ms: 12 + index as u32,
                    },
                )
            })
            .collect(),
    );

    let refreshed = stream_service
        .stream_status(&stream.id)
        .expect("stream status after media session start");
    let backend = refreshed.backend.expect("backend contract");

    assert_eq!(backend.readiness, AudioBackendReadiness::NativeAvailable);
    assert!(backend.statuses.iter().all(|status| {
        status.available
            && status.readiness == AudioBackendReadiness::NativeAvailable
            && status.failure.is_none()
            && status.media.available
            && status.media.packets_sent > 0
            && status.media.packets_received > 0
            && status.media.bytes_sent > 0
            && status.media.bytes_received > 0
            && status.media.latency_ms > 0
    }));
    assert_eq!(
        refreshed.stats,
        AudioStreamStats {
            packets_sent: 100,
            packets_received: 200,
            latency_ms: 15,
        }
    );
    assert!(refreshed.microphone_injection.active);
}

#[test]
fn audio_stream_status_rebuilds_backend_from_current_native_runtime() {
    let mut session_service = InMemoryApplicationSessionService::default();
    let session = session_service
        .create_session(CreateSessionRequest {
            application_id: "terminal".to_string(),
            viewport: ViewportSize::new(1280, 720),
        })
        .expect("create session");
    let mut stream_service = InMemoryAudioStreamService::default();
    stream_service.configure_native_readiness(
        AudioBackendNativeReadiness::with_available_legs(
            AudioBackendNativeReadiness::native_legs(),
        ),
    );
    let stream = stream_service
        .start_stream(
            StartAudioStreamRequest {
                session_id: session.id.clone(),
                microphone: MicrophoneMode::Enabled,
                system_audio_muted: false,
                microphone_muted: false,
                output_device_id: None,
                input_device_id: None,
            },
            &session,
        )
        .expect("start audio stream");

    assert_eq!(
        stream.stats,
        AudioStreamStats {
            packets_sent: 0,
            packets_received: 0,
            latency_ms: 0,
        }
    );

    stream_service.start_native_media_session_without_refresh_for_test(
        &stream.id,
        native_media_stats_for_test().collect(),
    );

    let status = stream_service
        .stream_status(&stream.id)
        .expect("stream status after native counters changed");
    assert_eq!(
        status.stats,
        AudioStreamStats {
            packets_sent: 100,
            packets_received: 200,
            latency_ms: 15,
        }
    );
    assert_backend_leg_media(&status, AudioBackendLeg::Capture, true);
    assert_backend_leg_media(&status, AudioBackendLeg::Playback, true);
    assert_backend_leg_media(&status, AudioBackendLeg::ClientMicrophoneCapture, true);
    assert_backend_leg_media(&status, AudioBackendLeg::ServerMicrophoneInjection, true);
}

#[test]
fn audio_backend_runtime_media_status_respects_mute_state() {
    let mut session_service = InMemoryApplicationSessionService::default();
    let session = session_service
        .create_session(CreateSessionRequest {
            application_id: "terminal".to_string(),
            viewport: ViewportSize::new(1280, 720),
        })
        .expect("create session");
    let mut stream_service = InMemoryAudioStreamService::default();
    stream_service.configure_native_readiness(
        AudioBackendNativeReadiness::with_available_legs(
            AudioBackendNativeReadiness::native_legs(),
        ),
    );
    let stream = stream_service
        .start_stream(
            StartAudioStreamRequest {
                session_id: session.id.clone(),
                microphone: MicrophoneMode::Enabled,
                system_audio_muted: false,
                microphone_muted: false,
                output_device_id: None,
                input_device_id: None,
            },
            &session,
        )
        .expect("start audio stream");
    stream_service
        .start_native_media_session_for_test(&stream.id, native_media_stats_for_test().collect());

    let muted = stream_service
        .update_stream(UpdateAudioStreamRequest {
            stream_id: stream.id.clone(),
            system_audio_muted: true,
            microphone_muted: true,
            output_device_id: None,
            input_device_id: None,
        })
        .expect("mute stream");
    let muted_backend = muted.backend.as_ref().expect("backend contract");
    assert_eq!(
        muted_backend.readiness,
        AudioBackendReadiness::NativeAvailable
    );
    assert!(muted_backend.statuses.iter().all(|status| {
        status.available
            && status.readiness == AudioBackendReadiness::NativeAvailable
            && status.failure.is_none()
            && status.media == AudioBackendMediaStats::default()
    }));
    assert_eq!(
        muted.stats,
        AudioStreamStats {
            packets_sent: 0,
            packets_received: 0,
            latency_ms: 0,
        }
    );

    let unmuted = stream_service
        .update_stream(UpdateAudioStreamRequest {
            stream_id: stream.id.clone(),
            system_audio_muted: false,
            microphone_muted: false,
            output_device_id: None,
            input_device_id: None,
        })
        .expect("unmute stream");
    let unmuted_backend = unmuted.backend.as_ref().expect("backend contract");
    assert!(unmuted_backend.statuses.iter().all(|status| {
        status.available
            && status.readiness == AudioBackendReadiness::NativeAvailable
            && status.failure.is_none()
            && status.media.available
            && status.media.packets_sent > 0
            && status.media.packets_received > 0
            && status.media.bytes_sent > 0
            && status.media.bytes_received > 0
            && status.media.latency_ms > 0
    }));
    assert_eq!(
        unmuted.stats,
        AudioStreamStats {
            packets_sent: 100,
            packets_received: 200,
            latency_ms: 15,
        }
    );
}

#[test]
fn audio_backend_runtime_media_status_respects_device_availability() {
    let mut session_service = InMemoryApplicationSessionService::default();
    let session = session_service
        .create_session(CreateSessionRequest {
            application_id: "terminal".to_string(),
            viewport: ViewportSize::new(1280, 720),
        })
        .expect("create session");
    let mut stream_service = InMemoryAudioStreamService::default();
    stream_service.configure_native_readiness(
        AudioBackendNativeReadiness::with_available_legs(
            AudioBackendNativeReadiness::native_legs(),
        ),
    );
    let stream = stream_service
        .start_stream(
            StartAudioStreamRequest {
                session_id: session.id.clone(),
                microphone: MicrophoneMode::Enabled,
                system_audio_muted: false,
                microphone_muted: false,
                output_device_id: Some("speakers".to_string()),
                input_device_id: Some("mic".to_string()),
            },
            &session,
        )
        .expect("start audio stream");
    stream_service
        .start_native_media_session_for_test(&stream.id, native_media_stats_for_test().collect());

    stream_service.disconnect_audio_device_for_test("speakers");
    let output_lost = stream_service
        .stream_status(&stream.id)
        .expect("stream status after output disconnect");
    assert!(!output_lost.health.healthy);
    assert_eq!(
        output_lost.health.message.as_deref(),
        Some("selected output device speakers is unavailable")
    );
    assert_backend_leg_media(&output_lost, AudioBackendLeg::Playback, false);
    assert_backend_leg_media(&output_lost, AudioBackendLeg::Capture, true);
    assert_backend_leg_media(&output_lost, AudioBackendLeg::ClientMicrophoneCapture, true);
    assert_backend_leg_media(
        &output_lost,
        AudioBackendLeg::ServerMicrophoneInjection,
        true,
    );
    assert_eq!(
        output_lost.stats,
        AudioStreamStats {
            packets_sent: 80,
            packets_received: 160,
            latency_ms: 15,
        }
    );

    stream_service.reconnect_audio_device_for_test("speakers");
    stream_service.disconnect_audio_device_for_test("mic");
    let input_lost = stream_service
        .stream_status(&stream.id)
        .expect("stream status after input disconnect");
    assert!(!input_lost.health.healthy);
    assert_eq!(
        input_lost.health.message.as_deref(),
        Some("selected input device mic is unavailable")
    );
    assert_backend_leg_media(&input_lost, AudioBackendLeg::Capture, true);
    assert_backend_leg_media(&input_lost, AudioBackendLeg::Playback, true);
    assert_backend_leg_media(&input_lost, AudioBackendLeg::ClientMicrophoneCapture, false);
    assert_backend_leg_media(
        &input_lost,
        AudioBackendLeg::ServerMicrophoneInjection,
        false,
    );
    assert_eq!(
        input_lost.stats,
        AudioStreamStats {
            packets_sent: 30,
            packets_received: 60,
            latency_ms: 13,
        }
    );
}

#[test]
fn server_microphone_injection_runtime_starts_for_opt_in_streams() {
    let mut session_service = InMemoryApplicationSessionService::default();
    let session = session_service
        .create_session(CreateSessionRequest {
            application_id: "terminal".to_string(),
            viewport: ViewportSize::new(1280, 720),
        })
        .expect("create session");
    let mut stream_service = InMemoryAudioStreamService::new(
        AudioBackendService::for_platform_with_native_readiness(
            Platform::Linux,
            AudioBackendNativeReadiness::with_server_microphone_injection_runtime_for_test(
                microphone_injection_media_for_test(),
            ),
        ),
    );

    let stream = stream_service
        .start_stream(
            StartAudioStreamRequest {
                session_id: session.id.clone(),
                microphone: MicrophoneMode::Enabled,
                system_audio_muted: false,
                microphone_muted: false,
                output_device_id: None,
                input_device_id: None,
            },
            &session,
        )
        .expect("start audio stream");

    assert!(stream.microphone_injection.requested);
    assert!(stream.microphone_injection.active);
    assert_eq!(stream.microphone_injection.reason, None);
    let backend = stream.backend.as_ref().expect("backend contract");
    assert_eq!(backend.readiness, AudioBackendReadiness::ControlPlaneOnly);
    assert_server_microphone_injection_runtime_status(backend);
}

#[test]
fn server_microphone_injection_runtime_respects_session_opt_in() {
    let mut session_service = InMemoryApplicationSessionService::default();
    let session = session_service
        .create_session(CreateSessionRequest {
            application_id: "terminal".to_string(),
            viewport: ViewportSize::new(1280, 720),
        })
        .expect("create session");
    let mut stream_service = InMemoryAudioStreamService::new(
        AudioBackendService::for_platform_with_native_readiness(
            Platform::Linux,
            AudioBackendNativeReadiness::with_server_microphone_injection_runtime_for_test(
                microphone_injection_media_for_test(),
            ),
        ),
    );

    let stream = stream_service
        .start_stream(
            StartAudioStreamRequest {
                session_id: session.id.clone(),
                microphone: MicrophoneMode::Disabled,
                system_audio_muted: false,
                microphone_muted: true,
                output_device_id: None,
                input_device_id: None,
            },
            &session,
        )
        .expect("start audio stream");

    assert!(!stream.microphone_injection.requested);
    assert!(!stream.microphone_injection.active);
    assert_eq!(
        stream.microphone_injection.reason.as_deref(),
        Some("microphone input is disabled for this session")
    );
    let injection = stream
        .backend
        .as_ref()
        .expect("backend contract")
        .statuses
        .iter()
        .find(|status| status.leg == AudioBackendLeg::ServerMicrophoneInjection)
        .expect("microphone injection status");
    assert!(injection.available);
    assert_eq!(injection.readiness, AudioBackendReadiness::NativeAvailable);
    assert_eq!(injection.failure, None);
    assert_eq!(injection.media, AudioBackendMediaStats::default());
}

#[test]
fn server_microphone_injection_runtime_refresh_clears_downgraded_media() {
    let mut session_service = InMemoryApplicationSessionService::default();
    let session = session_service
        .create_session(CreateSessionRequest {
            application_id: "terminal".to_string(),
            viewport: ViewportSize::new(1280, 720),
        })
        .expect("create session");
    let mut stream_service = InMemoryAudioStreamService::new(
        AudioBackendService::for_platform_with_native_readiness(
            Platform::Linux,
            AudioBackendNativeReadiness::with_server_microphone_injection_runtime_for_test(
                microphone_injection_media_for_test(),
            ),
        ),
    );
    let stream = stream_service
        .start_stream(
            StartAudioStreamRequest {
                session_id: session.id.clone(),
                microphone: MicrophoneMode::Enabled,
                system_audio_muted: false,
                microphone_muted: false,
                output_device_id: None,
                input_device_id: None,
            },
            &session,
        )
        .expect("start audio stream");

    stream_service.configure_native_readiness(AudioBackendNativeReadiness::unavailable());

    let refreshed = stream_service
        .stream_status(&stream.id)
        .expect("refreshed stream status");
    assert!(!refreshed.microphone_injection.active);
    assert_eq!(
        refreshed.microphone_injection.reason.as_deref(),
        Some("server-side microphone injection backend is not implemented yet")
    );
    let injection = refreshed
        .backend
        .as_ref()
        .expect("backend contract")
        .statuses
        .iter()
        .find(|status| status.leg == AudioBackendLeg::ServerMicrophoneInjection)
        .expect("microphone injection status");
    assert!(!injection.available);
    assert_eq!(injection.readiness, AudioBackendReadiness::PlannedNative);
    assert_eq!(injection.media, AudioBackendMediaStats::default());
    assert!(injection.failure.is_some());
}

#[test]
fn client_playback_runtime_starts_for_active_streams() {
    let mut session_service = InMemoryApplicationSessionService::default();
    let session = session_service
        .create_session(CreateSessionRequest {
            application_id: "terminal".to_string(),
            viewport: ViewportSize::new(1280, 720),
        })
        .expect("create session");
    let mut stream_service = InMemoryAudioStreamService::new(
        AudioBackendService::for_platform_with_native_readiness(
            Platform::Linux,
            AudioBackendNativeReadiness::with_client_playback_runtime_for_test(
                playback_media_for_test(),
            ),
        ),
    );

    let stream = stream_service
        .start_stream(
            StartAudioStreamRequest {
                session_id: session.id.clone(),
                microphone: MicrophoneMode::Disabled,
                system_audio_muted: false,
                microphone_muted: true,
                output_device_id: Some("speakers".to_string()),
                input_device_id: None,
            },
            &session,
        )
        .expect("start audio stream");

    let backend = stream.backend.as_ref().expect("backend contract");
    assert_eq!(backend.readiness, AudioBackendReadiness::ControlPlaneOnly);
    assert_client_playback_runtime_status(backend);
}

#[test]
fn client_playback_runtime_refresh_starts_active_stream_playback() {
    let mut session_service = InMemoryApplicationSessionService::default();
    let session = session_service
        .create_session(CreateSessionRequest {
            application_id: "terminal".to_string(),
            viewport: ViewportSize::new(1280, 720),
        })
        .expect("create session");
    let mut stream_service = InMemoryAudioStreamService::default();
    let stream = stream_service
        .start_stream(
            StartAudioStreamRequest {
                session_id: session.id.clone(),
                microphone: MicrophoneMode::Disabled,
                system_audio_muted: false,
                microphone_muted: true,
                output_device_id: None,
                input_device_id: None,
            },
            &session,
        )
        .expect("start audio stream");

    stream_service.configure_native_readiness(
        AudioBackendNativeReadiness::with_client_playback_runtime_for_test(
            playback_media_for_test(),
        ),
    );

    let refreshed = stream_service
        .stream_status(&stream.id)
        .expect("refreshed stream status");
    assert_client_playback_runtime_status(
        refreshed.backend.as_ref().expect("backend contract"),
    );
    assert_eq!(
        refreshed.health.message.as_deref(),
        Some("audio backend readiness updated")
    );
}

#[test]
fn client_playback_runtime_refresh_clears_downgraded_media() {
    let mut session_service = InMemoryApplicationSessionService::default();
    let session = session_service
        .create_session(CreateSessionRequest {
            application_id: "terminal".to_string(),
            viewport: ViewportSize::new(1280, 720),
        })
        .expect("create session");
    let mut stream_service = InMemoryAudioStreamService::new(
        AudioBackendService::for_platform_with_native_readiness(
            Platform::Linux,
            AudioBackendNativeReadiness::with_client_playback_runtime_for_test(
                playback_media_for_test(),
            ),
        ),
    );
    let stream = stream_service
        .start_stream(
            StartAudioStreamRequest {
                session_id: session.id.clone(),
                microphone: MicrophoneMode::Disabled,
                system_audio_muted: false,
                microphone_muted: true,
                output_device_id: None,
                input_device_id: None,
            },
            &session,
        )
        .expect("start audio stream");

    stream_service.configure_native_readiness(AudioBackendNativeReadiness::unavailable());

    let refreshed = stream_service
        .stream_status(&stream.id)
        .expect("refreshed stream status");
    let playback = refreshed
        .backend
        .as_ref()
        .expect("backend contract")
        .statuses
        .iter()
        .find(|status| status.leg == AudioBackendLeg::Playback)
        .expect("playback status");
    assert!(!playback.available);
    assert_eq!(playback.readiness, AudioBackendReadiness::PlannedNative);
    assert_eq!(playback.media, AudioBackendMediaStats::default());
    assert!(playback.failure.is_some());
}

#[test]
fn client_microphone_capture_runtime_starts_for_opt_in_streams() {
    let mut session_service = InMemoryApplicationSessionService::default();
    let session = session_service
        .create_session(CreateSessionRequest {
            application_id: "terminal".to_string(),
            viewport: ViewportSize::new(1280, 720),
        })
        .expect("create session");
    let mut stream_service = InMemoryAudioStreamService::new(
        AudioBackendService::for_platform_with_native_readiness(
            Platform::Linux,
            AudioBackendNativeReadiness::with_client_microphone_capture_runtime_for_test(
                microphone_capture_media_for_test(),
            ),
        ),
    );

    let stream = stream_service
        .start_stream(
            StartAudioStreamRequest {
                session_id: session.id.clone(),
                microphone: MicrophoneMode::Enabled,
                system_audio_muted: false,
                microphone_muted: false,
                output_device_id: None,
                input_device_id: Some("mic".to_string()),
            },
            &session,
        )
        .expect("start audio stream");

    let backend = stream.backend.as_ref().expect("backend contract");
    assert_eq!(backend.readiness, AudioBackendReadiness::ControlPlaneOnly);
    assert_client_microphone_capture_runtime_status(backend);
}

#[test]
fn client_microphone_capture_runtime_respects_session_opt_in() {
    let mut session_service = InMemoryApplicationSessionService::default();
    let session = session_service
        .create_session(CreateSessionRequest {
            application_id: "terminal".to_string(),
            viewport: ViewportSize::new(1280, 720),
        })
        .expect("create session");
    let mut stream_service = InMemoryAudioStreamService::new(
        AudioBackendService::for_platform_with_native_readiness(
            Platform::Linux,
            AudioBackendNativeReadiness::with_client_microphone_capture_runtime_for_test(
                microphone_capture_media_for_test(),
            ),
        ),
    );

    let stream = stream_service
        .start_stream(
            StartAudioStreamRequest {
                session_id: session.id.clone(),
                microphone: MicrophoneMode::Disabled,
                system_audio_muted: false,
                microphone_muted: true,
                output_device_id: None,
                input_device_id: Some("mic".to_string()),
            },
            &session,
        )
        .expect("start audio stream");

    let capture = stream
        .backend
        .as_ref()
        .expect("backend contract")
        .statuses
        .iter()
        .find(|status| status.leg == AudioBackendLeg::ClientMicrophoneCapture)
        .expect("client microphone capture status");
    assert!(capture.available);
    assert_eq!(capture.readiness, AudioBackendReadiness::NativeAvailable);
    assert_eq!(capture.failure, None);
    assert_eq!(capture.media, AudioBackendMediaStats::default());
    assert!(!stream.microphone_injection.requested);
}

#[test]
fn client_microphone_capture_runtime_refresh_starts_active_opt_in_streams() {
    let mut session_service = InMemoryApplicationSessionService::default();
    let session = session_service
        .create_session(CreateSessionRequest {
            application_id: "terminal".to_string(),
            viewport: ViewportSize::new(1280, 720),
        })
        .expect("create session");
    let mut stream_service = InMemoryAudioStreamService::default();
    let stream = stream_service
        .start_stream(
            StartAudioStreamRequest {
                session_id: session.id.clone(),
                microphone: MicrophoneMode::Enabled,
                system_audio_muted: false,
                microphone_muted: false,
                output_device_id: None,
                input_device_id: None,
            },
            &session,
        )
        .expect("start audio stream");

    stream_service.configure_native_readiness(
        AudioBackendNativeReadiness::with_client_microphone_capture_runtime_for_test(
            microphone_capture_media_for_test(),
        ),
    );

    let refreshed = stream_service
        .stream_status(&stream.id)
        .expect("refreshed stream status");
    assert_client_microphone_capture_runtime_status(
        refreshed.backend.as_ref().expect("backend contract"),
    );
    assert_eq!(
        refreshed.health.message.as_deref(),
        Some("audio backend readiness updated")
    );
}

#[test]
fn client_microphone_capture_runtime_refresh_clears_downgraded_media() {
    let mut session_service = InMemoryApplicationSessionService::default();
    let session = session_service
        .create_session(CreateSessionRequest {
            application_id: "terminal".to_string(),
            viewport: ViewportSize::new(1280, 720),
        })
        .expect("create session");
    let mut stream_service = InMemoryAudioStreamService::new(
        AudioBackendService::for_platform_with_native_readiness(
            Platform::Linux,
            AudioBackendNativeReadiness::with_client_microphone_capture_runtime_for_test(
                microphone_capture_media_for_test(),
            ),
        ),
    );
    let stream = stream_service
        .start_stream(
            StartAudioStreamRequest {
                session_id: session.id.clone(),
                microphone: MicrophoneMode::Enabled,
                system_audio_muted: false,
                microphone_muted: false,
                output_device_id: None,
                input_device_id: None,
            },
            &session,
        )
        .expect("start audio stream");

    stream_service.configure_native_readiness(AudioBackendNativeReadiness::unavailable());

    let refreshed = stream_service
        .stream_status(&stream.id)
        .expect("refreshed stream status");
    let capture = refreshed
        .backend
        .as_ref()
        .expect("backend contract")
        .statuses
        .iter()
        .find(|status| status.leg == AudioBackendLeg::ClientMicrophoneCapture)
        .expect("client microphone capture status");
    assert!(!capture.available);
    assert_eq!(capture.readiness, AudioBackendReadiness::PlannedNative);
    assert_eq!(capture.media, AudioBackendMediaStats::default());
    assert!(capture.failure.is_some());
}

#[test]
fn audio_stream_stop_clears_native_media_session_status() {
    let mut session_service = InMemoryApplicationSessionService::default();
    let session = session_service
        .create_session(CreateSessionRequest {
            application_id: "terminal".to_string(),
            viewport: ViewportSize::new(1280, 720),
        })
        .expect("create session");
    let mut stream_service = InMemoryAudioStreamService::default();
    stream_service.configure_native_readiness(
        AudioBackendNativeReadiness::with_available_legs(
            AudioBackendNativeReadiness::native_legs(),
        ),
    );
    let stream = stream_service
        .start_stream(
            StartAudioStreamRequest {
                session_id: session.id.clone(),
                microphone: MicrophoneMode::Enabled,
                system_audio_muted: false,
                microphone_muted: false,
                output_device_id: None,
                input_device_id: None,
            },
            &session,
        )
        .expect("start audio stream");
    stream_service
        .start_native_media_session_for_test(&stream.id, native_media_stats_for_test().collect());

    let stopped = stream_service
        .stop_stream(StopAudioStreamRequest {
            stream_id: stream.id.clone(),
        })
        .expect("stop audio stream");

    assert_eq!(stopped.state, AudioStreamState::Stopped);
    assert_backend_media_cleared(&stopped);
    let status = stream_service
        .stream_status(&stream.id)
        .expect("stopped stream status");
    assert_backend_media_cleared(&status);
}

#[test]
fn audio_stream_session_close_clears_native_media_session_status() {
    let mut session_service = InMemoryApplicationSessionService::default();
    let session = session_service
        .create_session(CreateSessionRequest {
            application_id: "terminal".to_string(),
            viewport: ViewportSize::new(1280, 720),
        })
        .expect("create session");
    let mut stream_service = InMemoryAudioStreamService::default();
    stream_service.configure_native_readiness(
        AudioBackendNativeReadiness::with_available_legs(
            AudioBackendNativeReadiness::native_legs(),
        ),
    );
    let stream = stream_service
        .start_stream(
            StartAudioStreamRequest {
                session_id: session.id.clone(),
                microphone: MicrophoneMode::Enabled,
                system_audio_muted: false,
                microphone_muted: false,
                output_device_id: None,
                input_device_id: None,
            },
            &session,
        )
        .expect("start audio stream");
    let second_stream = stream_service
        .start_stream(
            StartAudioStreamRequest {
                session_id: session.id.clone(),
                microphone: MicrophoneMode::Enabled,
                system_audio_muted: false,
                microphone_muted: false,
                output_device_id: None,
                input_device_id: None,
            },
            &session,
        )
        .expect("start second audio stream");
    stream_service
        .start_native_media_session_for_test(&stream.id, native_media_stats_for_test().collect());
    stream_service
        .start_native_media_session_for_test(&second_stream.id, native_media_stats_for_test().collect());

    stream_service.record_session_closed(&session.id);

    for stream_id in [stream.id, second_stream.id] {
        let status = stream_service
            .stream_status(&stream_id)
            .expect("closed session stream status");
        assert_eq!(status.state, AudioStreamState::Stopped);
        assert_backend_media_cleared(&status);
    }
}

#[test]
fn audio_backend_readiness_configuration_refreshes_active_streams() {
    let mut session_service = InMemoryApplicationSessionService::default();
    let session = session_service
        .create_session(CreateSessionRequest {
            application_id: "terminal".to_string(),
            viewport: ViewportSize::new(1280, 720),
        })
        .expect("create session");
    let mut stream_service = InMemoryAudioStreamService::default();
    let stream = stream_service
        .start_stream(
            StartAudioStreamRequest {
                session_id: session.id.clone(),
                microphone: MicrophoneMode::Enabled,
                system_audio_muted: false,
                microphone_muted: false,
                output_device_id: None,
                input_device_id: None,
            },
            &session,
        )
        .expect("start audio stream");

    stream_service.configure_native_readiness(
        AudioBackendNativeReadiness::with_available_legs(vec![
            AudioBackendLeg::Capture,
            AudioBackendLeg::Playback,
            AudioBackendLeg::ClientMicrophoneCapture,
            AudioBackendLeg::ServerMicrophoneInjection,
        ]),
    );

    let refreshed = stream_service
        .stream_status(&stream.id)
        .expect("stream status after readiness update");
    let backend = refreshed.backend.expect("backend contract");

    assert_eq!(backend.readiness, AudioBackendReadiness::NativeAvailable);
    assert!(backend.statuses.iter().all(|status| {
        status.available
            && status.readiness == AudioBackendReadiness::NativeAvailable
            && !status.media.available
            && status.media.packets_sent == 0
            && status.media.packets_received == 0
            && status.media.bytes_sent == 0
            && status.media.bytes_received == 0
            && status.media.latency_ms == 0
            && status.failure.is_none()
    }));
    assert!(refreshed.capabilities.microphone_injection.supported);
    assert!(refreshed.microphone_injection.active);
    assert_eq!(
        refreshed.microphone_injection.readiness,
        AudioBackendReadiness::NativeAvailable
    );
    assert_eq!(refreshed.microphone_injection.reason, None);
    assert_eq!(
        refreshed.health.message.as_deref(),
        Some("audio backend readiness updated")
    );
}

fn native_media_stats_for_test(
) -> impl Iterator<Item = (AudioBackendLeg, AudioBackendMediaStats)> {
    AudioBackendNativeReadiness::native_legs()
        .into_iter()
        .enumerate()
        .map(|(index, leg)| {
            let offset = index as u64 + 1;
            (
                leg,
                AudioBackendMediaStats {
                    available: true,
                    packets_sent: 10 * offset,
                    packets_received: 20 * offset,
                    bytes_sent: 1000 * offset,
                    bytes_received: 2000 * offset,
                    latency_ms: 12 + index as u32,
                },
            )
        })
}

fn microphone_injection_media_for_test() -> AudioBackendMediaStats {
    AudioBackendMediaStats {
        available: true,
        packets_sent: 31,
        packets_received: 37,
        bytes_sent: 3100,
        bytes_received: 3700,
        latency_ms: 7,
    }
}

fn playback_media_for_test() -> AudioBackendMediaStats {
    AudioBackendMediaStats {
        available: true,
        packets_sent: 41,
        packets_received: 43,
        bytes_sent: 4100,
        bytes_received: 4300,
        latency_ms: 6,
    }
}

fn microphone_capture_media_for_test() -> AudioBackendMediaStats {
    AudioBackendMediaStats {
        available: true,
        packets_sent: 53,
        packets_received: 59,
        bytes_sent: 5300,
        bytes_received: 5900,
        latency_ms: 8,
    }
}

fn assert_backend_leg_media(
    stream: &AudioStreamSession,
    leg: AudioBackendLeg,
    media_available: bool,
) {
    let status = stream
        .backend
        .as_ref()
        .expect("backend contract")
        .statuses
        .iter()
        .find(|status| status.leg == leg)
        .expect("backend leg status");
    assert!(status.available);
    assert_eq!(status.readiness, AudioBackendReadiness::NativeAvailable);
    assert_eq!(status.failure, None);
    assert_eq!(status.media.available, media_available);
    if media_available {
        assert!(status.media.packets_sent > 0);
        assert!(status.media.packets_received > 0);
        assert!(status.media.bytes_sent > 0);
        assert!(status.media.bytes_received > 0);
        assert!(status.media.latency_ms > 0);
    } else {
        assert_eq!(status.media, AudioBackendMediaStats::default());
    }
}

fn assert_client_playback_runtime_status(backend: &AudioBackendContract) {
    let playback = backend
        .statuses
        .iter()
        .find(|status| status.leg == AudioBackendLeg::Playback)
        .expect("playback status");
    assert!(playback.available);
    assert_eq!(playback.readiness, AudioBackendReadiness::NativeAvailable);
    assert_eq!(playback.failure, None);
    assert!(playback.media.available);
    assert!(playback.media.packets_sent > 0);
    assert!(playback.media.packets_received > 0);
    assert!(playback.media.bytes_sent > 0);
    assert!(playback.media.bytes_received > 0);
    assert!(playback.media.latency_ms > 0);

    for planned_leg in [
        AudioBackendLeg::Capture,
        AudioBackendLeg::ClientMicrophoneCapture,
        AudioBackendLeg::ServerMicrophoneInjection,
    ] {
        let status = backend
            .statuses
            .iter()
            .find(|status| status.leg == planned_leg)
            .expect("planned status");
        assert!(!status.available);
        assert_eq!(status.readiness, AudioBackendReadiness::PlannedNative);
        assert_eq!(status.media, AudioBackendMediaStats::default());
        assert_eq!(
            status.failure.as_ref().map(|failure| &failure.kind),
            Some(&AudioBackendFailureKind::NativeBackendNotImplemented)
        );
    }
}

fn assert_client_microphone_capture_runtime_status(backend: &AudioBackendContract) {
    let capture = backend
        .statuses
        .iter()
        .find(|status| status.leg == AudioBackendLeg::ClientMicrophoneCapture)
        .expect("client microphone capture status");
    assert!(capture.available);
    assert_eq!(capture.readiness, AudioBackendReadiness::NativeAvailable);
    assert_eq!(capture.failure, None);
    assert!(capture.media.available);
    assert!(capture.media.packets_sent > 0);
    assert!(capture.media.packets_received > 0);
    assert!(capture.media.bytes_sent > 0);
    assert!(capture.media.bytes_received > 0);
    assert!(capture.media.latency_ms > 0);

    for planned_leg in [
        AudioBackendLeg::Capture,
        AudioBackendLeg::Playback,
        AudioBackendLeg::ServerMicrophoneInjection,
    ] {
        let status = backend
            .statuses
            .iter()
            .find(|status| status.leg == planned_leg)
            .expect("planned status");
        assert!(!status.available);
        assert_eq!(status.readiness, AudioBackendReadiness::PlannedNative);
        assert_eq!(status.media, AudioBackendMediaStats::default());
        assert_eq!(
            status.failure.as_ref().map(|failure| &failure.kind),
            Some(&AudioBackendFailureKind::NativeBackendNotImplemented)
        );
    }
}

fn assert_server_microphone_injection_runtime_status(backend: &AudioBackendContract) {
    let injection = backend
        .statuses
        .iter()
        .find(|status| status.leg == AudioBackendLeg::ServerMicrophoneInjection)
        .expect("microphone injection status");
    assert!(injection.available);
    assert_eq!(injection.readiness, AudioBackendReadiness::NativeAvailable);
    assert_eq!(injection.failure, None);
    assert!(injection.media.available);
    assert!(injection.media.packets_sent > 0);
    assert!(injection.media.packets_received > 0);
    assert!(injection.media.bytes_sent > 0);
    assert!(injection.media.bytes_received > 0);
    assert!(injection.media.latency_ms > 0);

    for planned_leg in [
        AudioBackendLeg::Capture,
        AudioBackendLeg::Playback,
        AudioBackendLeg::ClientMicrophoneCapture,
    ] {
        let status = backend
            .statuses
            .iter()
            .find(|status| status.leg == planned_leg)
            .expect("planned status");
        assert!(!status.available);
        assert_eq!(status.readiness, AudioBackendReadiness::PlannedNative);
        assert_eq!(status.media, AudioBackendMediaStats::default());
        assert_eq!(
            status.failure.as_ref().map(|failure| &failure.kind),
            Some(&AudioBackendFailureKind::NativeBackendNotImplemented)
        );
    }
}

fn pipewire_capture_media_for_test() -> AudioBackendMediaStats {
    AudioBackendMediaStats {
        available: true,
        packets_sent: 11,
        packets_received: 23,
        bytes_sent: 1100,
        bytes_received: 2300,
        latency_ms: 9,
    }
}

fn assert_pipewire_capture_runtime_status(backend: &AudioBackendContract) {
    let capture = backend
        .statuses
        .iter()
        .find(|status| status.leg == AudioBackendLeg::Capture)
        .expect("capture status");
    assert!(capture.available);
    assert_eq!(capture.readiness, AudioBackendReadiness::NativeAvailable);
    assert_eq!(capture.failure, None);
    assert!(capture.media.available);
    assert!(capture.media.packets_sent > 0);
    assert!(capture.media.packets_received > 0);
    assert!(capture.media.bytes_sent > 0);
    assert!(capture.media.bytes_received > 0);
    assert!(capture.media.latency_ms > 0);

    for planned_leg in [
        AudioBackendLeg::Playback,
        AudioBackendLeg::ClientMicrophoneCapture,
        AudioBackendLeg::ServerMicrophoneInjection,
    ] {
        let status = backend
            .statuses
            .iter()
            .find(|status| status.leg == planned_leg)
            .expect("planned status");
        assert!(!status.available);
        assert_eq!(status.readiness, AudioBackendReadiness::PlannedNative);
        assert_eq!(status.media, AudioBackendMediaStats::default());
        assert_eq!(
            status.failure.as_ref().map(|failure| &failure.kind),
            Some(&AudioBackendFailureKind::NativeBackendNotImplemented)
        );
    }
}

fn assert_pipewire_capture_runtime_media_cleared(stream: &AudioStreamSession) {
    let backend = stream.backend.as_ref().expect("backend contract");
    let capture = backend
        .statuses
        .iter()
        .find(|status| status.leg == AudioBackendLeg::Capture)
        .expect("capture status");
    assert!(capture.available);
    assert_eq!(capture.readiness, AudioBackendReadiness::NativeAvailable);
    assert_eq!(capture.failure, None);
    assert_eq!(capture.media, AudioBackendMediaStats::default());

    for planned_leg in [
        AudioBackendLeg::Playback,
        AudioBackendLeg::ClientMicrophoneCapture,
        AudioBackendLeg::ServerMicrophoneInjection,
    ] {
        let status = backend
            .statuses
            .iter()
            .find(|status| status.leg == planned_leg)
            .expect("planned status");
        assert!(!status.available);
        assert_eq!(status.readiness, AudioBackendReadiness::PlannedNative);
        assert_eq!(status.media, AudioBackendMediaStats::default());
    }
}

fn assert_backend_media_cleared(stream: &AudioStreamSession) {
    let backend = stream.backend.as_ref().expect("backend contract");
    assert_eq!(backend.readiness, AudioBackendReadiness::NativeAvailable);
    assert!(backend.statuses.iter().all(|status| {
        status.available
            && status.readiness == AudioBackendReadiness::NativeAvailable
            && status.failure.is_none()
            && status.media == AudioBackendMediaStats::default()
    }));
}

#[test]
fn audio_backend_contract_marks_mobile_and_unknown_platforms_unsupported() {
    for platform in [Platform::Android, Platform::Ios, Platform::Unknown] {
        assert!(matches!(
            AudioBackendService::for_platform(platform),
            AudioBackendService::Unsupported { .. }
        ));

        let contract = AudioBackendService::for_platform(platform).backend_contract();

        assert_eq!(contract.control_plane, AudioBackendKind::Unsupported);
        assert_eq!(contract.planned_capture, AudioBackendKind::Unsupported);
        assert_eq!(contract.planned_playback, AudioBackendKind::Unsupported);
        assert_eq!(contract.planned_microphone, AudioBackendKind::Unsupported);
        assert_eq!(contract.readiness, AudioBackendReadiness::Unsupported);
        assert_eq!(contract.statuses.len(), 4);
        assert!(contract.statuses.iter().all(|status| {
            status.backend == AudioBackendKind::Unsupported
                && !status.available
                && status.readiness == AudioBackendReadiness::Unsupported
                && status.media == AudioBackendMediaStats::default()
                && status.failure.as_ref().is_some_and(|failure| {
                    failure.kind == AudioBackendFailureKind::UnsupportedPlatform
                })
        }));
    }
}

#[test]
fn invalid_desktop_control_platform_reports_unsupported_backend_state() {
    for platform in [Platform::Android, Platform::Ios, Platform::Unknown] {
        let backend = AudioBackendService::DesktopControl {
            platform,
            native_readiness: AudioBackendNativeReadiness::unavailable(),
        };

        let capabilities = backend.capabilities();
        let expected_reason = format!("audio streaming is unsupported on {platform:?}");
        assert!(!capabilities.system_audio.supported);
        assert!(!capabilities.microphone_capture.supported);
        assert!(!capabilities.microphone_injection.supported);
        assert!(!capabilities.echo_cancellation.supported);
        assert!(!capabilities.device_selection.supported);
        assert_eq!(
            capabilities.system_audio.reason.as_deref(),
            Some(expected_reason.as_str())
        );

        let contract = backend.backend_contract();
        assert_eq!(contract.control_plane, AudioBackendKind::Unsupported);
        assert_eq!(contract.planned_capture, AudioBackendKind::Unsupported);
        assert_eq!(contract.planned_playback, AudioBackendKind::Unsupported);
        assert_eq!(contract.planned_microphone, AudioBackendKind::Unsupported);
        assert_eq!(contract.readiness, AudioBackendReadiness::Unsupported);
        assert_eq!(contract.statuses.len(), 4);
        assert!(contract.statuses.iter().all(|status| {
            status.backend == AudioBackendKind::Unsupported
                && !status.available
                && status.readiness == AudioBackendReadiness::Unsupported
                && status.failure.as_ref().is_some_and(|failure| {
                    failure.kind == AudioBackendFailureKind::UnsupportedPlatform
                })
        }));
        assert_eq!(
            backend.microphone_injection_readiness(),
            AudioBackendReadiness::Unsupported
        );
    }
}

#[test]
fn invalid_desktop_control_platform_stream_start_reports_unsupported() {
    let mut session_service = InMemoryApplicationSessionService::default();
    let session = session_service
        .create_session(CreateSessionRequest {
            application_id: "terminal".to_string(),
            viewport: ViewportSize::new(1280, 720),
        })
        .expect("create session");
    let mut stream_service =
        InMemoryAudioStreamService::new(AudioBackendService::DesktopControl {
            platform: Platform::Android,
            native_readiness: AudioBackendNativeReadiness::unavailable(),
        });

    let error = stream_service
        .start_stream(
            StartAudioStreamRequest {
                session_id: session.id.clone(),
                microphone: MicrophoneMode::Disabled,
                system_audio_muted: false,
                microphone_muted: false,
                output_device_id: None,
                input_device_id: None,
            },
            &session,
        )
        .expect_err("invalid desktop control platform should be unsupported");

    assert_eq!(
        error,
        AppRelayError::unsupported(Platform::Android, Feature::SystemAudioStream)
    );
}

#[test]
fn audio_stream_updates_mute_and_devices() {
    let mut session_service = InMemoryApplicationSessionService::default();
    let session = session_service
        .create_session(CreateSessionRequest {
            application_id: "terminal".to_string(),
            viewport: ViewportSize::new(1280, 720),
        })
        .expect("create session");
    let mut stream_service = InMemoryAudioStreamService::default();
    let stream = stream_service
        .start_stream(
            StartAudioStreamRequest {
                session_id: session.id.clone(),
                microphone: MicrophoneMode::Disabled,
                system_audio_muted: false,
                microphone_muted: true,
                output_device_id: None,
                input_device_id: None,
            },
            &session,
        )
        .expect("start audio stream");

    let updated = stream_service
        .update_stream(UpdateAudioStreamRequest {
            stream_id: stream.id,
            system_audio_muted: true,
            microphone_muted: true,
            output_device_id: Some("headphones".to_string()),
            input_device_id: None,
        })
        .expect("update audio stream");

    assert!(updated.mute.system_audio_muted);
    assert_eq!(
        updated.devices.output_device_id.as_deref(),
        Some("headphones")
    );
    assert_eq!(
        updated.health.message.as_deref(),
        Some("audio stream controls updated")
    );
}
