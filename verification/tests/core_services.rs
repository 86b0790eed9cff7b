use apprelay_core::permissions::ApplicationPermission;
use apprelay_core::policy::SessionPolicy;
use apprelay_core::protocol::{
    AppRelayError, ApplicationLaunch, ApplicationLaunchIntent, ApplicationSession,
    ApplicationSummary, CreateSessionRequest, Feature, HealthStatus, LaunchIntentStatus, Platform,
    ResizeIntentStatus, ResizeSessionRequest, SelectedWindow, SessionState, ViewportSize,
    WindowResizeIntent, WindowSelectionMethod,
};
use apprelay_core::services::{
    ApplicationDiscovery, CapabilityService, DefaultCapabilityService, HealthService,
    StaticHealthService, UnsupportedApplicationDiscovery,
};
use apprelay_core::sessions::{
    ApplicationLaunchBackendService, ApplicationSessionService, InMemoryApplicationSessionService,
    WindowResizeBackendService,
};

fn test_permission(application_id: &str, label: &str) -> ApplicationPermission {
    ApplicationPermission {
        application_id: application_id.to_string(),
        label: label.to_string(),
    }
}

#[test]
fn static_health_service_returns_configured_status() {
    let service = StaticHealthService::new("apprelay-server", "0.1.0");

    assert_eq!(
        service.status(),
        HealthStatus::healthy("apprelay-server".to_string(), "0.1.0".to_string())
    );
}

#[test]
fn windows_capabilities_keep_non_audio_gaps_explicit() {
    let service = DefaultCapabilityService::new(Platform::Windows);
    let capabilities = service.platform_capabilities();

    assert_eq!(capabilities.len(), 8);
    assert!(capabilities
        .iter()
        .all(|capability| capability.platform == Platform::Windows));
    assert!(capabilities.iter().any(|capability| {
        capability.feature == Feature::SystemAudioStream && capability.supported
    }));
    assert!(capabilities.iter().any(|capability| {
        capability.feature == Feature::ClientMicrophoneInput && capability.supported
    }));
    assert!(capabilities.iter().any(|capability| {
        capability.feature == Feature::AppDiscovery && !capability.supported
    }));
}

#[test]
fn linux_capabilities_support_application_discovery() {
    let service = DefaultCapabilityService::new(Platform::Linux);
    let capabilities = service.platform_capabilities();

    assert!(capabilities
        .iter()
        .any(|capability| capability.feature == Feature::AppDiscovery && capability.supported));
}

#[test]
fn desktop_audio_capabilities_report_planned_native_backend() {
    let cases = [
        (Platform::Linux, "PipeWire"),
        (Platform::Macos, "CoreAudio"),
        (Platform::Windows, "WASAPI"),
    ];

    for (platform, expected_backend) in cases {
        let service = DefaultCapabilityService::new(platform);
        let capabilities = service.platform_capabilities();
        let system_audio = capabilities
            .iter()
            .find(|capability| capability.feature == Feature::SystemAudioStream)
            .expect("system audio capability");
        let microphone = capabilities
            .iter()
            .find(|capability| capability.feature == Feature::ClientMicrophoneInput)
            .expect("microphone capability");

        assert!(system_audio.supported);
        assert!(microphone.supported);
        assert!(system_audio
            .reason
            .as_deref()
            .is_some_and(|reason| reason.contains(expected_backend)));
        assert_eq!(system_audio.reason, microphone.reason);
    }
}

#[test]
fn macos_capabilities_support_application_discovery() {
    let service = DefaultCapabilityService::new(Platform::Macos);
    let capabilities = service.platform_capabilities();

    assert!(capabilities
        .iter()
        .any(|capability| capability.feature == Feature::AppDiscovery && capability.supported));
}

#[test]
fn windows_capabilities_mark_missing_backend_as_not_implemented() {
    let service = DefaultCapabilityService::new(Platform::Windows);
    let capabilities = service.platform_capabilities();
    let app_discovery = capabilities
        .iter()
        .find(|capability| capability.feature == Feature::AppDiscovery)
        .expect("app discovery capability");

    assert!(!app_discovery.supported);
    assert_eq!(
        app_discovery.reason.as_deref(),
        Some("desktop application discovery backend is not implemented for this platform yet")
    );
}

#[test]
fn mobile_capabilities_report_client_targets_and_keep_order() {
    let capabilities = DefaultCapabilityService::new(Platform::Ios).platform_capabilities();
    let features: Vec<Feature> = capabilities.iter().map(|c| c.feature).collect();

    assert_eq!(
        features,
        vec![
            Feature::AppDiscovery,
            Feature::ApplicationLaunch,
            Feature::WindowResize,
            Feature::WindowVideoStream,
            Feature::SystemAudioStream,
            Feature::ClientMicrophoneInput,
            Feature::KeyboardInput,
            Feature::MouseInput,
        ]
    );
    assert!(capabilities.iter().all(|c| !c.supported));
    assert_eq!(
        capabilities[4].reason.as_deref(),
        Some("mobile platforms are client targets and do not expose desktop audio control-plane capture")
    );
    assert_eq!(
        capabilities[6].reason.as_deref(),
        Some("feature planned but not implemented in Phase 1")
    );
}

#[test]
fn unsupported_application_discovery_returns_typed_error() {
    let discovery = UnsupportedApplicationDiscovery::new(Platform::Windows);

    assert_eq!(
        discovery.available_applications(),
        Err(AppRelayError::unsupported(
            Platform::Windows,
            Feature::AppDiscovery
        ))
    );
}

#[test]
fn session_service_creates_session_for_allowed_application() {
    let mut service = InMemoryApplicationSessionService::new(SessionPolicy::allow_applications(
        vec!["terminal".to_string()],
    ));

    let session = service
        .create_session(CreateSessionRequest {
            application_id: "terminal".to_string(),
            viewport: ViewportSize::new(1280, 720),
        })
        .expect("create session");

    assert_eq!(session.id, "session-1");
    assert_eq!(session.application_id, "terminal");
    assert_eq!(session.state, SessionState::Ready);
    assert_eq!(
        service.active_sessions(),
        vec![ApplicationSession {
            id: "session-1".to_string(),
            application_id: "terminal".to_string(),
            selected_window: SelectedWindow {
                id: "window-session-1".to_string(),
                application_id: "terminal".to_string(),
                title: "terminal".to_string(),
                selection_method: WindowSelectionMethod::ExistingWindow,
            },
            launch_intent: Some(ApplicationLaunchIntent {
                session_id: "session-1".to_string(),
                application_id: "terminal".to_string(),
                launch: None,
                status: LaunchIntentStatus::Attached,
            }),
            viewport: ViewportSize::new(1280, 720),
            resize_intent: None,
            state: SessionState::Ready,
        }]
    );
}

#[test]
fn session_service_rejects_denied_application() {
    let mut service = InMemoryApplicationSessionService::new(SessionPolicy::allow_applications(
        vec!["terminal".to_string()],
    ));

    assert_eq!(
        service.create_session(CreateSessionRequest {
            application_id: "browser".to_string(),
            viewport: ViewportSize::new(1280, 720),
        }),
        Err(AppRelayError::PermissionDenied(
            "application browser is not allowed".to_string()
        ))
    );
}

#[test]
fn session_service_attaches_when_launch_metadata_is_absent() {
    let mut service = InMemoryApplicationSessionService::default();
    let session = service
        .create_session_for_application(
            CreateSessionRequest {
                application_id: "terminal".to_string(),
                viewport: ViewportSize::new(1280, 720),
            },
            ApplicationSummary {
                id: "terminal".to_string(),
                name: "Terminal".to_string(),
                icon: None,
                launch: None,
            },
        )
        .expect("create session");

    assert_eq!(
        session.selected_window.selection_method,
        WindowSelectionMethod::ExistingWindow
    );
    assert_eq!(
        session.launch_intent,
        Some(ApplicationLaunchIntent {
            session_id: "session-1".to_string(),
            application_id: "terminal".to_string(),
            launch: None,
            status: LaunchIntentStatus::Attached,
        })
    );
}

#[test]
fn session_service_records_launch_intent_for_discovered_application() {
    let mut service = InMemoryApplicationSessionService::default();
    let session = service
        .create_session_for_application(
            CreateSessionRequest {
                application_id: "terminal".to_string(),
                viewport: ViewportSize::new(1280, 720),
            },
            ApplicationSummary {
                id: "terminal".to_string(),
                name: "Terminal".to_string(),
                icon: None,
                launch: Some(ApplicationLaunch::DesktopCommand {
                    command: "gnome-terminal".to_string(),
                }),
            },
        )
        .expect("create session");

    assert_eq!(session.selected_window.title, "Terminal");
    assert_eq!(session.selected_window.application_id, "terminal");
    assert_eq!(
        session.selected_window.selection_method,
        WindowSelectionMethod::LaunchIntent
    );
    assert_eq!(
        session.launch_intent,
        Some(ApplicationLaunchIntent {
            session_id: "session-1".to_string(),
            application_id: "terminal".to_string(),
            launch: Some(ApplicationLaunch::DesktopCommand {
                command: "gnome-terminal".to_string(),
            }),
            status: LaunchIntentStatus::Recorded,
        })
    );
}

#[test]
fn session_service_reports_unsupported_launch_backend() {
    let mut service = InMemoryApplicationSessionService::with_launch_backend(
        SessionPolicy::allow_all(),
        ApplicationLaunchBackendService::Unsupported {
            platform: Platform::Linux,
        },
    );

    assert_eq!(
        service.create_session(CreateSessionRequest {
            application_id: "terminal".to_string(),
            viewport: ViewportSize::new(1280, 720),
        }),
        Err(AppRelayError::unsupported(
            Platform::Linux,
            Feature::ApplicationLaunch
        ))
    );
}

#[test]
fn session_service_validates_resize_and_records_viewport() {
    let mut service = InMemoryApplicationSessionService::default();
    let session = service
        .create_session(CreateSessionRequest {
            application_id: "terminal".to_string(),
            viewport: ViewportSize::new(1280, 720),
        })
        .expect("create session");

    let resized = service
        .resize_session(ResizeSessionRequest {
            session_id: session.id,
            viewport: ViewportSize::new(1440, 900),
        })
        .expect("resize session");

    assert_eq!(resized.viewport, ViewportSize::new(1440, 900));
    assert_eq!(
        resized.resize_intent,
        Some(WindowResizeIntent {
            session_id: "session-1".to_string(),
            selected_window_id: "window-session-1".to_string(),
            viewport: ViewportSize::new(1440, 900),
            status: ResizeIntentStatus::Recorded,
        })
    );
}

#[test]
fn session_service_reports_unsupported_resize_backend() {
    let mut service = InMemoryApplicationSessionService::with_resize_backend(
        SessionPolicy::allow_all(),
        WindowResizeBackendService::Unsupported {
            platform: Platform::Linux,
        },
    );
    let session = service
        .create_session(CreateSessionRequest {
            application_id: "terminal".to_string(),
            viewport: ViewportSize::new(1280, 720),
        })
        .expect("create session");

    assert_eq!(
        service.resize_session(ResizeSessionRequest {
            session_id: session.id,
            viewport: ViewportSize::new(1440, 900),
        }),
        Err(AppRelayError::unsupported(
            Platform::Linux,
            Feature::WindowResize
        ))
    );
}

#[test]
fn session_service_closes_session_cleanly() {
    let mut service = InMemoryApplicationSessionService::default();
    let session = service
        .create_session(CreateSessionRequest {
            application_id: "terminal".to_string(),
            viewport: ViewportSize::new(1280, 720),
        })
        .expect("create session");

    let closed = service.close_session(&session.id).expect("close session");

    assert_eq!(closed.state, SessionState::Closed);
    assert_eq!(service.active_sessions(), Vec::new());
}

#[test]
fn session_service_rejects_invalid_viewport() {
    let mut service = InMemoryApplicationSessionService::default();

    assert_eq!(
        service.create_session(CreateSessionRequest {
            application_id: "terminal".to_string(),
            viewport: ViewportSize::new(100, 100),
        }),
        Err(AppRelayError::InvalidRequest(
            "viewport must be at least 320x240".to_string()
        ))
    );
}

#[test]
fn session_service_numbers_sessions_in_order_and_keeps_closed_ones_out() {
    let mut service = InMemoryApplicationSessionService::default();
    let first = service
        .create_session(CreateSessionRequest {
            application_id: "terminal".to_string(),
            viewport: ViewportSize::new(1280, 720),
        })
        .expect("first session");
    let second = service
        .create_session(CreateSessionRequest {
            application_id: "editor".to_string(),
            viewport: ViewportSize::new(1280, 720),
        })
        .expect("second session");

    assert_eq!(first.id, "session-1");
    assert_eq!(second.id, "session-2");

    service.close_session("session-1").expect("close first");
    let active = service.active_sessions();
    assert_eq!(active.len(), 1);
    assert_eq!(active[0].id, "session-2");
    assert!(matches!(
        service.close_session("session-1"),
        Err(AppRelayError::NotFound(_))
    ));
}

#[test]
fn session_policy_can_be_built_from_permissions() {
    let policy = SessionPolicy::from_permissions(&[test_permission("terminal", "Terminal")]);

    assert_eq!(policy.validate_application("terminal"), Ok(()));
    assert_eq!(
        policy.validate_application("browser"),
        Err(AppRelayError::PermissionDenied(
            "application browser is not allowed".to_string()
        ))
    );
}
