use apprelay_core::client::{
    ensure_application_allowed, local_authorized_clients, AppIconDto, AppSummaryDto,
    ApplicationSessionDto, CapabilityDto, SelectedWindowDto,
};
use apprelay_core::icons::{base64_encode, extract_icns_png_payload, icon_data_url};
use apprelay_core::permissions::ApplicationPermission;
use apprelay_core::profiles::ConnectionProfile;
use apprelay_core::protocol::{
    AppIcon, AppRelayError, ApplicationLaunch, ApplicationSession, ApplicationSummary, Feature,
    Platform, PlatformCapability, SelectedWindow, SessionState, ViewportSize,
    WindowSelectionMethod,
};

fn test_profile(id: &str, label: &str) -> ConnectionProfile {
    ConnectionProfile {
        id: id.to_string(),
        label: label.to_string(),
        ssh_user: "biplab".to_string(),
        ssh_host: "workstation.local".to_string(),
        local_port: 7676,
        remote_port: 7676,
        auth_token: "token".to_string(),
    }
}

#[test]
fn selected_window_dto_maps_native_window_selection_method() {
    let dto = SelectedWindowDto::from_window(SelectedWindow {
        id: "macos-window-session-1-88".to_string(),
        application_id: "dev.apprelay.fake".to_string(),
        title: "Native Fake Window".to_string(),
        selection_method: WindowSelectionMethod::NativeWindow,
    });

    assert_eq!(dto.selection_method, "nativeWindow");
}

#[test]
fn icon_data_url_encodes_icon_bytes() {
    let icon = AppIcon {
        mime_type: "image/png".to_string(),
        bytes: vec![0x89, 0x50, 0x4e, 0x47],
        source: Some("test.png".to_string()),
    };

    assert_eq!(
        icon_data_url(&icon),
        Some("data:image/png;base64,iVBORw==".to_string())
    );
}

#[test]
fn icon_data_url_extracts_png_from_icns_icon_bytes() {
    let png_bytes = b"\x89PNG\r\n\x1a\npng payload";
    let mut icns_bytes = Vec::new();
    icns_bytes.extend_from_slice(b"icns");
    icns_bytes.extend_from_slice(&((8 + 8 + png_bytes.len()) as u32).to_be_bytes());
    icns_bytes.extend_from_slice(b"ic10");
    icns_bytes.extend_from_slice(&((8 + png_bytes.len()) as u32).to_be_bytes());
    icns_bytes.extend_from_slice(png_bytes);

    let dto = AppIconDto::from_icon(AppIcon {
        mime_type: "image/icns".to_string(),
        bytes: icns_bytes,
        source: Some("Contents/Resources/Test.icns".to_string()),
    });

    assert_eq!(dto.mime_type, "image/png");
    assert_eq!(
        dto.data_url,
        Some(format!(
            "data:image/png;base64,{}",
            base64_encode(png_bytes)
        ))
    );
}

#[test]
fn icon_data_url_preserves_icns_fallback_for_malformed_or_no_png_bytes() {
    let malformed_icon = AppIcon {
        mime_type: "image/icns".to_string(),
        bytes: b"icns\0\0\0\x20bad".to_vec(),
        source: Some("Malformed.icns".to_string()),
    };
    let no_png_icns = b"icns\0\0\0\x10TOC \0\0\0\x08".to_vec();
    let no_png_icon = AppIcon {
        mime_type: "image/icns".to_string(),
        bytes: no_png_icns.clone(),
        source: Some("NoPng.icns".to_string()),
    };

    let malformed_dto = AppIconDto::from_icon(malformed_icon);
    let no_png_dto = AppIconDto::from_icon(no_png_icon);

    assert_eq!(malformed_dto.mime_type, "image/icns");
    assert_eq!(
        malformed_dto.data_url,
        Some("data:image/icns;base64,aWNucwAAACBiYWQ=".to_string())
    );
    assert_eq!(no_png_dto.mime_type, "image/icns");
    assert_eq!(
        no_png_dto.data_url,
        Some(format!(
            "data:image/icns;base64,{}",
            base64_encode(&no_png_icns)
        ))
    );
}

#[test]
fn icon_data_url_preserves_icns_fallback_for_oversized_chunk_length() {
    let oversized_chunk_icns = b"icns\0\0\0\x10ic10\xff\xff\xff\xff".to_vec();
    let dto = AppIconDto::from_icon(AppIcon {
        mime_type: "image/icns".to_string(),
        bytes: oversized_chunk_icns.clone(),
        source: Some("Oversized.icns".to_string()),
    });

    assert_eq!(dto.mime_type, "image/icns");
    assert_eq!(
        dto.data_url,
        Some(format!(
            "data:image/icns;base64,{}",
            base64_encode(&oversized_chunk_icns)
        ))
    );
}

#[test]
fn icon_data_url_omits_empty_icon_bytes() {
    let icon = AppIcon {
        mime_type: "application/x-icon-theme-name".to_string(),
        bytes: Vec::new(),
        source: Some("utilities-terminal".to_string()),
    };

    assert_eq!(icon_data_url(&icon), None);
}

#[test]
fn base64_encodes_all_padding_lengths() {
    assert_eq!(base64_encode(b""), "");
    assert_eq!(base64_encode(b"f"), "Zg==");
    assert_eq!(base64_encode(b"fo"), "Zm8=");
    assert_eq!(base64_encode(b"foo"), "Zm9v");
    assert_eq!(base64_encode(b"foobar"), "Zm9vYmFy");
    assert_eq!(base64_encode(&[0xfb, 0xff]), "+/8=");
}

#[test]
fn icns_payload_is_the_first_png_chunk() {
    let png = b"\x89PNG\r\n\x1a\nAB";
    let mut bytes = Vec::new();
    bytes.extend_from_slice(b"icns");
    bytes.extend_from_slice(&(8u32 + 12 + 8 + png.len() as u32).to_be_bytes());
    bytes.extend_from_slice(b"TOC ");
    bytes.extend_from_slice(&12u32.to_be_bytes());
    bytes.extend_from_slice(b"abcd");
    bytes.extend_from_slice(b"ic10");
    bytes.extend_from_slice(&(8 + png.len() as u32).to_be_bytes());
    bytes.extend_from_slice(png);

    assert_eq!(extract_icns_png_payload(&bytes), Some(png.to_vec()));
    assert_eq!(extract_icns_png_payload(b"icns"), None);
    assert_eq!(extract_icns_png_payload(b"ICNS\0\0\0\x08"), None);
}

#[test]
fn application_summary_dto_names_launch_kind() {
    let dto = AppSummaryDto::from_summary(ApplicationSummary {
        id: "terminal".to_string(),
        name: "Terminal".to_string(),
        icon: None,
        launch: Some(ApplicationLaunch::MacosBundle {
            bundle_path: "/Applications/Terminal.app".to_string(),
        }),
    });

    let launch = dto.launch.expect("launch");
    assert_eq!(launch.kind, "macosBundle");
    assert_eq!(launch.value, "/Applications/Terminal.app");
    assert!(dto.icon.is_none());
}

#[test]
fn capability_and_session_dtos_use_stable_names() {
    let capability = CapabilityDto::from_capability(PlatformCapability::unsupported(
        Platform::Windows,
        Feature::ClientMicrophoneInput,
        "reason",
    ));
    assert_eq!(capability.platform, "windows");
    assert_eq!(capability.feature, "clientMicrophoneInput");
    assert!(!capability.supported);

    let session = ApplicationSessionDto::from_session(ApplicationSession {
        id: "session-1".to_string(),
        application_id: "terminal".to_string(),
        selected_window: SelectedWindow {
            id: "window-session-1".to_string(),
            application_id: "terminal".to_string(),
            title: "terminal".to_string(),
            selection_method: WindowSelectionMethod::ExistingWindow,
        },
        launch_intent: None,
        viewport: ViewportSize::new(1280, 720),
        resize_intent: None,
        state: SessionState::Ready,
    });
    assert_eq!(session.state, "ready");
    assert_eq!(session.selected_window.selection_method, "existingWindow");
    assert_eq!(session.viewport.width, 1280);
}

#[test]
fn local_authorized_clients_add_the_local_dev_client_once() {
    let clients = local_authorized_clients(vec![test_profile("work", "Work")]);
    let ids: Vec<&str> = clients.iter().map(|c| c.id.as_str()).collect();
    assert_eq!(ids, vec!["work", "local-dev-client"]);
    assert_eq!(clients[1].label, "Local Dev Client");

    let clients = local_authorized_clients(vec![test_profile("local-dev-client", "Mine")]);
    assert_eq!(clients.len(), 1);
    assert_eq!(clients[0].label, "Mine");
}

#[test]
fn only_permitted_applications_are_allowed() {
    let permissions = vec![ApplicationPermission {
        application_id: "terminal".to_string(),
        label: "Terminal".to_string(),
    }];

    assert_eq!(ensure_application_allowed("terminal", &permissions), Ok(()));
    assert_eq!(
        ensure_application_allowed("browser", &permissions),
        Err(AppRelayError::PermissionDenied(
            "application browser is not allowed".to_string()
        ))
    );
}
