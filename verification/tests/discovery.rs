use apprelay_core::discovery::{
    order_applications, parse_desktop_entry, parse_macos_app_bundle, plist_string_value,
    DesktopEntryApplicationDiscovery, MacosApplicationDiscovery,
};
use apprelay_core::protocol::{AppIcon, ApplicationLaunch, ApplicationSummary};
use std::path::PathBuf;

fn summary(id: &str, name: &str) -> ApplicationSummary {
    ApplicationSummary {
        id: id.to_string(),
        name: name.to_string(),
        icon: None,
        launch: None,
    }
}

#[test]
fn desktop_entries_offer_only_visible_applications() {
    assert_eq!(
        parse_desktop_entry(
            "[Desktop Entry]\nType=Application\nName=Visible App\nExec=visible --new-window\nIcon=visible-icon\n",
            "visible",
        ),
        Some(ApplicationSummary {
            id: "visible".to_string(),
            name: "Visible App".to_string(),
            icon: Some(AppIcon {
                mime_type: "application/x-icon-theme-name".to_string(),
                bytes: Vec::new(),
                source: Some("visible-icon".to_string()),
            }),
            launch: Some(ApplicationLaunch::DesktopCommand {
                command: "visible --new-window".to_string(),
            }),
        })
    );
    assert_eq!(
        parse_desktop_entry(
            "[Desktop Entry]\nType=Application\nName=Hidden App\nHidden=true\n",
            "hidden"
        ),
        None
    );
    assert_eq!(
        parse_desktop_entry("[Desktop Entry]\nType=Directory\nName=Folder\n", "folder"),
        None
    );
    assert_eq!(
        parse_desktop_entry(
            "[Desktop Entry]\nType=Application\nNoDisplay=true\nName=Quiet\n",
            "quiet"
        ),
        None
    );
}

#[test]
fn desktop_entries_read_only_the_desktop_entry_group() {
    let contents = "# comment\n[Desktop Action New]\nName=Other\nExec=other\n\n  [Desktop Entry]  \n  Type=Application\nName=  Editor  \nName[de]=Bearbeiter\nIcon=\n";
    assert_eq!(
        parse_desktop_entry(contents, "editor"),
        Some(summary("editor", "Editor"))
    );
    assert_eq!(
        parse_desktop_entry("[Desktop Entry]\nType=Application\nName=\n", "blank"),
        None
    );
}

#[test]
fn plist_values_are_trimmed_and_non_empty() {
    let plist = "<dict>\n  <key>CFBundleName</key>\n  <string>  Fallback Name </string>\n  <key>CFBundleIconFile</key><string> </string>\n</dict>";
    assert_eq!(
        plist_string_value(plist, "CFBundleName"),
        Some("Fallback Name".to_string())
    );
    assert_eq!(plist_string_value(plist, "CFBundleIconFile"), None);
    assert_eq!(plist_string_value(plist, "CFBundleIdentifier"), None);
}

#[test]
fn macos_bundles_offer_their_identifier_and_display_name() {
    let plist = r#"<?xml version="1.0" encoding="UTF-8"?>
<plist version="1.0">
<dict>
  <key>CFBundleIdentifier</key>
  <string>dev.apprelay.visible</string>
  <key>CFBundleDisplayName</key>
  <string>Visible Mac App</string>
  <key>CFBundleIconFile</key>
  <string>VisibleIcon</string>
</dict>
</plist>
"#;
    assert_eq!(
        parse_macos_app_bundle(plist, Some("Visible"), "/Applications/Visible.app"),
        Some(ApplicationSummary {
            id: "dev.apprelay.visible".to_string(),
            name: "Visible Mac App".to_string(),
            icon: Some(AppIcon {
                mime_type: "application/x-macos-icon-name".to_string(),
                bytes: Vec::new(),
                source: Some("VisibleIcon".to_string()),
            }),
            launch: Some(ApplicationLaunch::MacosBundle {
                bundle_path: "/Applications/Visible.app".to_string(),
            }),
        })
    );
}

#[test]
fn macos_bundles_fall_back_to_bundle_name() {
    let plist = r#"<?xml version="1.0" encoding="UTF-8"?>
<plist version="1.0">
<dict>
  <key>CFBundleName</key>
  <string>Fallback Name</string>
</dict>
</plist>
"#;
    assert_eq!(
        parse_macos_app_bundle(plist, Some("Fallback"), "/tmp/Fallback.app"),
        Some(ApplicationSummary {
            id: "Fallback".to_string(),
            name: "Fallback Name".to_string(),
            icon: None,
            launch: Some(ApplicationLaunch::MacosBundle {
                bundle_path: "/tmp/Fallback.app".to_string(),
            }),
        })
    );
    assert_eq!(parse_macos_app_bundle("<dict></dict>", None, "/tmp/x.app"), None);
    assert_eq!(parse_macos_app_bundle("<dict></dict>", Some("  "), "/tmp/x.app"), None);
}

#[test]
fn applications_are_listed_by_name_then_id_without_repeats() {
    let ordered = order_applications(vec![
        summary("zeta", "zeta"),
        summary("alpha-2", "Alpha"),
        summary("alpha-1", "alpha"),
        summary("alpha-1", "alpha"),
        summary("beta", "Beta"),
    ]);
    let ids: Vec<&str> = ordered.iter().map(|a| a.id.as_str()).collect();

    assert_eq!(ids, vec!["alpha-1", "alpha-2", "beta", "zeta"]);
}

#[test]
fn discoveries_keep_their_roots() {
    let roots = vec![PathBuf::from("/usr/share/applications"), PathBuf::from("/opt/apps")];
    let desktop = DesktopEntryApplicationDiscovery::new(roots.clone());
    let macos = MacosApplicationDiscovery::new(vec![PathBuf::from("/Applications")]);

    assert_eq!(desktop.roots(), roots.as_slice());
    assert_eq!(macos.roots(), &[PathBuf::from("/Applications")]);
}
