use apprelay_core::input::{
    keyboard_command_outcome, macos_key_code, macos_keyboard_bundle_id,
    macos_keyboard_key_invocation, macos_keyboard_target_window_id,
    macos_keyboard_text_invocation, macos_modifier_clause, KeyAction, KeyModifiers,
};
use apprelay_core::macos::{
    avcc_to_annex_b, classify_error_message, cm_time, cm_time_invalid, map_videotoolbox_status,
    parse_macos_native_keyboard_window_id, parse_native_window_id, K_CMTIME_FLAG_VALID,
};
use apprelay_core::protocol::{
    AppRelayError, ApplicationSession, SelectedWindow, SessionState, ViewportSize,
    WindowSelectionMethod,
};

fn native_macos_session(window_id: &str) -> ApplicationSession {
    ApplicationSession {
        id: "session-1".to_string(),
        application_id: "dev.apprelay.fake".to_string(),
        selected_window: SelectedWindow {
            id: window_id.to_string(),
            application_id: "dev.apprelay.fake".to_string(),
            title: "Native Fake Window".to_string(),
            selection_method: WindowSelectionMethod::NativeWindow,
        },
        viewport: ViewportSize::new(1280, 720),
        state: SessionState::Ready,
        launch_intent: None,
        resize_intent: None,
    }
}

#[test]
fn map_status_classifies_invalid_session_as_service_unavailable() {
    match map_videotoolbox_status("ctx", -12_903) {
        AppRelayError::ServiceUnavailable(msg) => assert!(msg.contains("invalid")),
        other => panic!("expected ServiceUnavailable, got {other:?}"),
    }
}

#[test]
fn map_status_classifies_param_err_as_invalid_request() {
    match map_videotoolbox_status("ctx", -50) {
        AppRelayError::InvalidRequest(msg) => assert!(msg.contains("parameter")),
        other => panic!("expected InvalidRequest, got {other:?}"),
    }
}

#[test]
fn map_status_unknown_codes_fall_back_to_service_unavailable() {
    match map_videotoolbox_status("ctx", -1) {
        AppRelayError::ServiceUnavailable(msg) => assert!(msg.contains("osstatus -1")),
        other => panic!("expected ServiceUnavailable, got {other:?}"),
    }
}

#[test]
fn map_status_writes_full_messages() {
    assert_eq!(
        map_videotoolbox_status("VTCompressionSessionCreate", -12_908),
        AppRelayError::ServiceUnavailable(
            "VTCompressionSessionCreate failed: no H.264 encoder is registered with VideoToolbox (osstatus -12908)"
                .to_string()
        )
    );
    assert_eq!(
        map_videotoolbox_status("set", -12_900),
        AppRelayError::InvalidRequest(
            "set failed: VideoToolbox rejected an encoder property (osstatus -12900)".to_string()
        )
    );
    assert_eq!(
        map_videotoolbox_status("ctx", 7),
        AppRelayError::ServiceUnavailable("ctx failed: VideoToolbox returned osstatus 7".to_string())
    );
}

#[test]
fn cm_time_helpers_are_marked_valid() {
    let t = cm_time(123, 1_000);
    assert_eq!(t.value, 123);
    assert_eq!(t.timescale, 1_000);
    assert_eq!(t.flags, K_CMTIME_FLAG_VALID);
    let invalid = cm_time_invalid();
    assert_eq!(invalid.flags, 0);
}

#[test]
fn parse_native_window_id_round_trips_session_format() {
    let id = parse_native_window_id("macos-window-session-42-12345").expect("parses");
    assert_eq!(id, 12_345);
}

#[test]
fn parse_native_window_id_rejects_unprefixed_input() {
    let err = parse_native_window_id("12345").expect_err("expected invalid request");
    assert!(matches!(err, AppRelayError::InvalidRequest(_)));
}

#[test]
fn parse_native_window_id_rejects_non_numeric_native_id() {
    let err =
        parse_native_window_id("macos-window-session-abc").expect_err("expected invalid request");
    assert!(matches!(err, AppRelayError::InvalidRequest(_)));
}

#[test]
fn parse_native_window_id_messages_name_the_problem() {
    assert_eq!(
        parse_native_window_id("macos-window-12"),
        Err(AppRelayError::InvalidRequest(
            "selected window id `macos-window-12` is missing a macOS native window id".to_string()
        ))
    );
    assert_eq!(
        parse_native_window_id("macos-window-s-4294967296"),
        Err(AppRelayError::InvalidRequest(
            "selected window id `macos-window-s-4294967296` has an unusable macOS native window id"
                .to_string()
        ))
    );
    assert_eq!(parse_native_window_id("macos-window-s- 77 "), Ok(77));
}

#[test]
fn classify_permission_messages_as_permission_denied() {
    let denied = classify_error_message("permission denied by TCC".to_string());
    assert!(matches!(denied, AppRelayError::PermissionDenied(_)));
    let unavailable = classify_error_message("framework returned -3801".to_string());
    assert!(matches!(unavailable, AppRelayError::ServiceUnavailable(_)));
    assert_eq!(
        classify_error_message("User DECLINED access".to_string()),
        AppRelayError::PermissionDenied("User DECLINED access".to_string())
    );
}

#[test]
fn avcc_units_become_annex_b() {
    let data = [0, 0, 0, 2, 0xaa, 0xbb, 0, 0, 0, 1, 0xcc, 0x01];
    assert_eq!(
        avcc_to_annex_b(&[0, 0, 0, 1, 0x67], &data),
        Ok(vec![0, 0, 0, 1, 0x67, 0, 0, 0, 1, 0xaa, 0xbb, 0, 0, 0, 1, 0xcc])
    );
    assert_eq!(
        avcc_to_annex_b(&[], &[0, 0, 0, 9, 1]),
        Err(AppRelayError::ServiceUnavailable(
            "VideoToolbox produced a malformed AVCC sample buffer (nal_len=9, offset=4, total=5)"
                .to_string()
        ))
    );
    assert!(avcc_to_annex_b(&[], &[0, 0, 0, 0]).is_err());
}

#[test]
fn keyboard_window_id_must_be_numeric() {
    assert_eq!(
        parse_macos_native_keyboard_window_id("macos-window-session-1-88"),
        Ok("88".to_string())
    );
    assert_eq!(
        parse_macos_native_keyboard_window_id("macos-window-session-1-not-a-number"),
        Err(AppRelayError::InvalidRequest(
            "selected window id `macos-window-session-1-not-a-number` has an unusable macOS native window id"
                .to_string()
        ))
    );
    assert!(matches!(
        macos_keyboard_target_window_id(&native_macos_session("macos-window-session-1-not-a-number")),
        Err(AppRelayError::InvalidRequest(_))
    ));
    assert_eq!(
        macos_keyboard_target_window_id(&native_macos_session("macos-window-session-1-88")),
        Ok(Some("88".to_string()))
    );
    let mut launched = native_macos_session("window-session-1");
    launched.selected_window.selection_method = WindowSelectionMethod::ExistingWindow;
    assert_eq!(macos_keyboard_target_window_id(&launched), Ok(None));
}

#[test]
fn keyboard_key_names_map_to_key_codes() {
    assert_eq!(macos_key_code(" Enter "), Some(36));
    assert_eq!(macos_key_code("ArrowUp"), Some(126));
    assert_eq!(macos_key_code("ESC"), Some(53));
    assert_eq!(macos_key_code("a"), None);
    assert_eq!(
        macos_modifier_clause(KeyModifiers {
            meta: true,
            ..KeyModifiers::default()
        }),
        " using {command down}"
    );
    assert_eq!(
        macos_modifier_clause(KeyModifiers {
            shift: true,
            control: true,
            alt: true,
            meta: false,
        }),
        " using {shift down, control down, option down}"
    );
    assert_eq!(macos_modifier_clause(KeyModifiers::default()), "");
}

#[test]
fn keyboard_key_invocations_cover_codes_characters_and_releases() {
    let modifiers = KeyModifiers {
        meta: true,
        ..KeyModifiers::default()
    };
    let code = macos_keyboard_key_invocation("dev.app", Some("88"), "Enter", KeyAction::Press, modifiers)
        .expect("key code")
        .expect("script");
    assert!(code
        .script_lines
        .contains(&"key code 36 using {command down}".to_string()));
    assert_eq!(code.args, vec!["dev.app".to_string(), "88".to_string()]);
    assert_eq!(code.script_lines.first().map(String::as_str), Some("on run argv"));

    let character =
        macos_keyboard_key_invocation("dev.app", None, "x", KeyAction::Press, KeyModifiers::default())
            .expect("character")
            .expect("script");
    assert!(character.script_lines.contains(&"keystroke inputKey".to_string()));
    assert_eq!(character.args, vec!["dev.app".to_string(), "x".to_string()]);

    assert_eq!(
        macos_keyboard_key_invocation("dev.app", None, "Enter", KeyAction::Release, modifiers),
        Ok(None)
    );
    assert_eq!(
        macos_keyboard_key_invocation("dev.app", None, "F13", KeyAction::Press, modifiers),
        Err(AppRelayError::InvalidRequest(
            "macOS keyboard key `F13` is not supported".to_string()
        ))
    );
}

#[test]
fn keyboard_text_invocation_passes_text_and_window() {
    let invocation = macos_keyboard_text_invocation("dev.app", Some("12"), "AppRelay");
    assert_eq!(
        invocation.args,
        vec!["dev.app".to_string(), "AppRelay".to_string(), "12".to_string()]
    );
    assert_eq!(invocation.script_lines.len(), 25);
    assert!(invocation.script_lines.contains(&"keystroke inputText".to_string()));
}

#[test]
fn keyboard_bundle_and_outcome_rules() {
    let mut session = native_macos_session("macos-window-session-1-88");
    assert_eq!(
        macos_keyboard_bundle_id(&session),
        Ok("dev.apprelay.fake".to_string())
    );
    session.application_id = "  ".to_string();
    assert_eq!(
        macos_keyboard_bundle_id(&session),
        Err(AppRelayError::InvalidRequest(
            "macOS keyboard input requires an application bundle id".to_string()
        ))
    );
    assert_eq!(keyboard_command_outcome(true, "ignored"), Ok(()));
    assert_eq!(
        keyboard_command_outcome(false, "  "),
        Err(AppRelayError::ServiceUnavailable(
            "macOS keyboard input command failed".to_string()
        ))
    );
    assert_eq!(
        keyboard_command_outcome(false, "window not found\n"),
        Err(AppRelayError::ServiceUnavailable(
            "macOS keyboard input command failed: window not found".to_string()
        ))
    );
}
