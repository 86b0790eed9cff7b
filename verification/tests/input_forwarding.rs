use apprelay_core::input::{KeyAction, KeyModifiers};
use apprelay_core::input_forwarding::{
    ActiveInputFocus, ButtonAction, InMemoryInputForwardingService, InputBackendKind,
    InputBackendService, InputDelivery, InputDeliveryStatus, InputRoute, MappedInputEvent,
    PointerButton, ServerPoint,
};
use apprelay_core::protocol::{
    AppRelayError, ApplicationLaunchIntent, ApplicationSession, CreateSessionRequest, Feature,
    LaunchIntentStatus, Platform, SelectedWindow, SessionState, ViewportSize,
    WindowSelectionMethod,
};
use apprelay_core::sessions::{ApplicationSessionService, InMemoryApplicationSessionService};
use std::path::PathBuf;

/// Forwards an event whose positions are already in server coordinates, the way the
/// control plane does once pointer positions are mapped.
fn forward(
    input: &mut InMemoryInputForwardingService,
    session_id: &str,
    client_viewport: ViewportSize,
    event: MappedInputEvent,
    active_sessions: &[ApplicationSession],
) -> Result<InputDelivery, AppRelayError> {
    InMemoryInputForwardingService::validate_client_viewport(&client_viewport)?;
    let session = InMemoryInputForwardingService::selected_session(session_id, active_sessions)?;
    InMemoryInputForwardingService::check_keyboard_payload(&event)?;
    match input.route_mapped_input(session, event) {
        InputRoute::Finished(result) => result,
        InputRoute::RunOsascript { .. } => panic!("no osascript run expected"),
    }
}

fn native_macos_session(window_id: &str) -> ApplicationSession {
    ApplicationSession {
        id: "session-1".to_string(),
        application_id: "dev.apprelay.fake".to_string(),
        selected_window: SelectedWindow {
            id: window_id.to_string(),
            application_id: "dev.apprelay.fake".to_string(),
            title: "Native Fake Window".to_string(),
            selection_method: WindowSelectionMethod::NativeWindow,
        },
        viewport: ViewportSize::new(1280, 720),
        state: SessionState::Ready,
        launch_intent: Some(ApplicationLaunchIntent {
            session_id: "session-1".to_string(),
            application_id: "dev.apprelay.fake".to_string(),
            launch: None,
            status: LaunchIntentStatus::Attached,
        }),
        resize_intent: None,
    }
}

#[test]
fn input_service_rejects_unauthorized_session() {
    let mut input = InMemoryInputForwardingService::default();

    assert_eq!(
        forward(
            &mut input,
            "session-unknown",
            ViewportSize::new(1280, 720),
            MappedInputEvent::Focus,
            &[],
        ),
        Err(AppRelayError::PermissionDenied(
            "input is not authorized for session session-unknown".to_string()
        ))
    );
}

#[test]
fn input_service_blur_stops_delivery() {
    let mut sessions = InMemoryApplicationSessionService::default();
    let session = sessions
        .create_session(CreateSessionRequest {
            application_id: "terminal".to_string(),
            viewport: ViewportSize::new(1280, 720),
        })
        .expect("create session");
    let active_sessions = sessions.active_sessions();
    let mut input = InMemoryInputForwardingService::default();
    let viewport = ViewportSize::new(1280, 720);

    forward(&mut input, &session.id, viewport, MappedInputEvent::Focus, &active_sessions)
        .expect("focus session");
    forward(&mut input, &session.id, viewport, MappedInputEvent::Blur, &active_sessions)
        .expect("blur session");
    let delivery = forward(
        &mut input,
        &session.id,
        viewport,
        MappedInputEvent::KeyboardText { text: "ignored".to_string() },
        &active_sessions,
    )
    .expect("input ignored while blurred");

    assert_eq!(delivery.status, InputDeliveryStatus::IgnoredBlurred);
    assert_eq!(input.deliveries().len(), 2);
    assert_eq!(input.focused_session_id(), None);
}

#[test]
fn input_service_reports_unsupported_backend() {
    let mut sessions = InMemoryApplicationSessionService::default();
    let session = sessions
        .create_session(CreateSessionRequest {
            application_id: "terminal".to_string(),
            viewport: ViewportSize::new(1280, 720),
        })
        .expect("create session");
    let active_sessions = sessions.active_sessions();
    let mut input = InMemoryInputForwardingService::new(InputBackendService::Unsupported {
        platform: Platform::Linux,
        kind: InputBackendKind::Keyboard,
    });
    let viewport = ViewportSize::new(1280, 720);

    forward(&mut input, &session.id, viewport, MappedInputEvent::Focus, &active_sessions)
        .expect("focus session");

    assert_eq!(
        forward(
            &mut input,
            &session.id,
            viewport,
            MappedInputEvent::KeyboardKey {
                key: "Enter".to_string(),
                action: KeyAction::Press,
                modifiers: KeyModifiers::default(),
            },
            &active_sessions,
        ),
        Err(AppRelayError::unsupported(Platform::Linux, Feature::KeyboardInput))
    );
}

#[test]
fn macos_keyboard_backend_rejects_unusable_native_window_id() {
    let active_sessions = vec![native_macos_session("macos-window-session-1-not-a-number")];
    let mut input = InMemoryInputForwardingService::new(InputBackendService::MacosKeyboard {
        osascript_command: PathBuf::from("unused-osascript"),
    });
    let viewport = ViewportSize::new(1280, 720);

    forward(&mut input, "session-1", viewport, MappedInputEvent::Focus, &active_sessions)
        .expect("focus session");
    let error = forward(
        &mut input,
        "session-1",
        viewport,
        MappedInputEvent::KeyboardText { text: "AppRelay".to_string() },
        &active_sessions,
    )
    .expect_err("invalid native window id should fail input");

    assert!(matches!(error, AppRelayError::InvalidRequest(_)));
}

#[test]
fn macos_keyboard_backend_reports_pointer_unsupported() {
    let mut sessions = InMemoryApplicationSessionService::default();
    let session = sessions
        .create_session(CreateSessionRequest {
            application_id: "terminal".to_string(),
            viewport: ViewportSize::new(1280, 720),
        })
        .expect("create session");
    let active_sessions = sessions.active_sessions();
    let mut input = InMemoryInputForwardingService::new(InputBackendService::MacosKeyboard {
        osascript_command: PathBuf::from("unused-osascript"),
    });
    let viewport = ViewportSize::new(1280, 720);

    forward(&mut input, &session.id, viewport, MappedInputEvent::Focus, &active_sessions)
        .expect("focus session");

    // (10.0, 10.0) in a 1280x720 client viewport maps to (10, 10) in the same server viewport.
    assert_eq!(
        forward(
            &mut input,
            &session.id,
            viewport,
            MappedInputEvent::PointerButton {
                position: ServerPoint::new(10, 10),
                button: PointerButton::Primary,
                action: ButtonAction::Press,
            },
            &active_sessions,
        ),
        Err(AppRelayError::unsupported(Platform::Macos, Feature::MouseInput))
    );
}

#[test]
fn input_service_clears_session_state_on_close() {
    let mut sessions = InMemoryApplicationSessionService::default();
    let session = sessions
        .create_session(CreateSessionRequest {
            application_id: "terminal".to_string(),
            viewport: ViewportSize::new(1280, 720),
        })
        .expect("create session");
    let active_sessions = sessions.active_sessions();
    let mut input = InMemoryInputForwardingService::default();

    forward(
        &mut input,
        &session.id,
        ViewportSize::new(1280, 720),
        MappedInputEvent::Focus,
        &active_sessions,
    )
    .expect("focus session");

    input.close_session(&session.id);

    assert_eq!(input.focused_session_id(), None);
    assert_eq!(input.deliveries(), &[]);
}

#[test]
fn input_service_discovers_only_active_input_focus() {
    let mut sessions = InMemoryApplicationSessionService::default();
    let session = sessions
        .create_session(CreateSessionRequest {
            application_id: "terminal".to_string(),
            viewport: ViewportSize::new(1280, 720),
        })
        .expect("create session");
    let active_sessions = sessions.active_sessions();
    let mut input = InMemoryInputForwardingService::default();
    let viewport = ViewportSize::new(1280, 720);

    forward(&mut input, &session.id, viewport, MappedInputEvent::Focus, &active_sessions)
        .expect("focus session");

    assert_eq!(
        input.active_input_focus(&active_sessions),
        Some(ActiveInputFocus {
            session_id: session.id.clone(),
            selected_window_id: session.selected_window.id.clone(),
        })
    );

    forward(&mut input, &session.id, viewport, MappedInputEvent::Blur, &active_sessions)
        .expect("blur session");

    assert_eq!(input.active_input_focus(&active_sessions), None);

    forward(&mut input, &session.id, viewport, MappedInputEvent::Focus, &active_sessions)
        .expect("refocus session");

    assert_eq!(input.active_input_focus(&[]), None);

    let mut closed_session = session.clone();
    closed_session.state = SessionState::Closed;
    assert_eq!(input.active_input_focus(&[closed_session]), None);

    input.close_session(&session.id);
    assert_eq!(input.active_input_focus(&active_sessions), None);
}

#[test]
fn selected_session_requires_matching_selected_window() {
    let session = ApplicationSession {
        id: "session-1".to_string(),
        application_id: "terminal".to_string(),
        selected_window: SelectedWindow {
            id: "window-session-1".to_string(),
            application_id: "browser".to_string(),
            title: "Browser".to_string(),
            selection_method: WindowSelectionMethod::Synthetic,
        },
        launch_intent: Some(ApplicationLaunchIntent {
            session_id: "session-1".to_string(),
            application_id: "terminal".to_string(),
            launch: None,
            status: LaunchIntentStatus::Attached,
        }),
        viewport: ViewportSize::new(1280, 720),
        resize_intent: None,
        state: SessionState::Ready,
    };
    let mut input = InMemoryInputForwardingService::default();

    assert_eq!(
        forward(
            &mut input,
            "session-1",
            ViewportSize::new(1280, 720),
            MappedInputEvent::Focus,
            &[session],
        ),
        Err(AppRelayError::PermissionDenied(
            "input is not authorized for session session-1".to_string()
        ))
    );
}

#[test]
fn input_service_rejects_empty_client_viewport() {
    let mut input = InMemoryInputForwardingService::default();
    assert_eq!(
        forward(&mut input, "session-1", ViewportSize::new(0, 720), MappedInputEvent::Focus, &[]),
        Err(AppRelayError::InvalidRequest("client viewport must be non-zero".to_string()))
    );
}

#[test]
fn keyboard_payloads_must_not_be_blank() {
    assert_eq!(
        InMemoryInputForwardingService::check_keyboard_payload(&MappedInputEvent::KeyboardText {
            text: String::new(),
        }),
        Err(AppRelayError::InvalidRequest("keyboard text is required".to_string()))
    );
    assert_eq!(
        InMemoryInputForwardingService::check_keyboard_payload(&MappedInputEvent::KeyboardKey {
            key: "  ".to_string(),
            action: KeyAction::Press,
            modifiers: KeyModifiers::default(),
        }),
        Err(AppRelayError::InvalidRequest("key is required".to_string()))
    );
}

#[test]
fn macos_keyboard_text_waits_for_osascript_and_is_recorded_on_success() {
    let active_sessions = vec![native_macos_session("macos-window-session-1-42")];
    let mut input = InMemoryInputForwardingService::new(InputBackendService::MacosKeyboard {
        osascript_command: PathBuf::from("unused-osascript"),
    });
    let session = &active_sessions[0];
    assert!(matches!(
        input.route_mapped_input(session, MappedInputEvent::Focus),
        InputRoute::Finished(Ok(_))
    ));
    let route = input.route_mapped_input(
        session,
        MappedInputEvent::KeyboardText { text: "AppRelay".to_string() },
    );
    let (delivery, invocation) = match route {
        InputRoute::RunOsascript { delivery, invocation } => (delivery, invocation),
        other => panic!("expected an osascript run, got {other:?}"),
    };
    assert_eq!(
        invocation.args,
        vec!["dev.apprelay.fake".to_string(), "AppRelay".to_string(), "42".to_string()]
    );
    assert_eq!(input.deliveries().len(), 1);
    let delivered = input.complete_osascript_delivery(delivery, Ok(())).expect("delivered");
    assert_eq!(delivered.status, InputDeliveryStatus::Delivered);
    assert_eq!(input.deliveries().len(), 2);
}

#[test]
fn recorded_deliveries_keep_the_latest_1024() {
    let mut sessions = InMemoryApplicationSessionService::default();
    let session = sessions
        .create_session(CreateSessionRequest {
            application_id: "terminal".to_string(),
            viewport: ViewportSize::new(1280, 720),
        })
        .expect("create session");
    let mut input = InMemoryInputForwardingService::default();
    for _ in 0..1030 {
        input.route_mapped_input(&session, MappedInputEvent::Focus);
    }
    assert_eq!(input.deliveries().len(), 1024);
}
