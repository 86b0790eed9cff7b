//! Value types shared by the control plane and its clients.

use vstd::prelude::*;

verus! {

/// The operating system that a server or client runs on.
#[derive(Clone, Copy, Debug, PartialEq, Eq, Structural)]
pub enum Platform {
    Android,
    Ios,
    Linux,
    Macos,
    Windows,
    Unknown,
}

/// A capability that a platform may or may not offer.
#[derive(Clone, Copy, Debug, PartialEq, Eq, Structural)]
pub enum Feature {
    AppDiscovery,
    ApplicationLaunch,
    WindowResize,
    WindowVideoStream,
    SystemAudioStream,
    ClientMicrophoneInput,
    KeyboardInput,
    MouseInput,
}

/// Errors reported by the control-plane services.
#[derive(Debug, PartialEq, Eq)]
pub enum AppRelayError {
    InvalidRequest(String),
    PermissionDenied(String),
    NotFound(String),
    ServiceUnavailable(String),
    Unsupported { platform: Platform, feature: Feature },
}

impl AppRelayError {
    /// The error for a feature that the platform does not offer.
    pub fn unsupported(platform: Platform, feature: Feature) -> (e: Self)
        ensures
            e == (AppRelayError::Unsupported { platform, feature }),
    {
        AppRelayError::Unsupported { platform, feature }
    }
}

impl Clone for AppRelayError {
    fn clone(&self) -> (r: Self)
        ensures
            r == *self,
    {
        match self {
            AppRelayError::InvalidRequest(m) => AppRelayError::InvalidRequest(m.clone()),
            AppRelayError::PermissionDenied(m) => AppRelayError::PermissionDenied(m.clone()),
            AppRelayError::NotFound(m) => AppRelayError::NotFound(m.clone()),
            AppRelayError::ServiceUnavailable(m) => AppRelayError::ServiceUnavailable(m.clone()),
            AppRelayError::Unsupported { platform, feature } => AppRelayError::Unsupported {
                platform: *platform,
                feature: *feature,
            },
        }
    }
}

/// The size of a client or server viewport in pixels.
#[derive(Clone, Copy, Debug, PartialEq, Eq, Structural)]
pub struct ViewportSize {
    pub width: u32,
    pub height: u32,
}

impl ViewportSize {
    pub fn new(width: u32, height: u32) -> (v: Self)
        ensures
            v.width == width,
            v.height == height,
    {
        ViewportSize { width, height }
    }
}

/// How an application is started.
#[derive(Debug, PartialEq, Eq)]
pub enum ApplicationLaunch {
    DesktopCommand { command: String },
    MacosBundle { bundle_path: String },
}

impl Clone for ApplicationLaunch {
    fn clone(&self) -> (r: Self)
        ensures
            r == *self,
    {
        match self {
            ApplicationLaunch::DesktopCommand { command } => ApplicationLaunch::DesktopCommand {
                command: command.clone(),
            },
            ApplicationLaunch::MacosBundle { bundle_path } => ApplicationLaunch::MacosBundle {
                bundle_path: bundle_path.clone(),
            },
        }
    }
}

/// An application icon: raw bytes with a mime type, or a named source.
#[derive(Debug, PartialEq, Eq)]
pub struct AppIcon {
    pub mime_type: String,
    pub bytes: Vec<u8>,
    pub source: Option<String>,
}

/// An application that the server can offer.
#[derive(Debug, PartialEq, Eq)]
pub struct ApplicationSummary {
    pub id: String,
    pub name: String,
    pub icon: Option<AppIcon>,
    pub launch: Option<ApplicationLaunch>,
}

/// The value of an application launch.
pub enum ApplicationLaunchView {
    DesktopCommand { command: Seq<char> },
    MacosBundle { bundle_path: Seq<char> },
}

impl View for ApplicationLaunch {
    type V = ApplicationLaunchView;

    open spec fn view(&self) -> ApplicationLaunchView {
        match self {
            ApplicationLaunch::DesktopCommand { command } => ApplicationLaunchView::DesktopCommand {
                command: command@,
            },
            ApplicationLaunch::MacosBundle { bundle_path } => ApplicationLaunchView::MacosBundle {
                bundle_path: bundle_path@,
            },
        }
    }
}

/// The value of an application icon.
pub struct AppIconView {
    pub mime_type: Seq<char>,
    pub bytes: Seq<u8>,
    pub source: Option<Seq<char>>,
}

pub open spec fn opt_text(o: Option<String>) -> Option<Seq<char>> {
    match o {
        Some(s) => Some(s@),
        None => None,
    }
}

impl View for AppIcon {
    type V = AppIconView;

    open spec fn view(&self) -> AppIconView {
        AppIconView {
            mime_type: self.mime_type@,
            bytes: self.bytes@,
            source: opt_text(self.source),
        }
    }
}

/// The value of an application summary.
pub struct ApplicationSummaryView {
    pub id: Seq<char>,
    pub name: Seq<char>,
    pub icon: Option<AppIconView>,
    pub launch: Option<ApplicationLaunchView>,
}

impl View for ApplicationSummary {
    type V = ApplicationSummaryView;

    open spec fn view(&self) -> ApplicationSummaryView {
        ApplicationSummaryView {
            id: self.id@,
            name: self.name@,
            icon: match self.icon {
                Some(i) => Some(i@),
                None => None,
            },
            launch: match self.launch {
                Some(l) => Some(l@),
                None => None,
            },
        }
    }
}

#[derive(Clone, Copy, Debug, PartialEq, Eq, Structural)]
pub enum LaunchIntentStatus {
    Recorded,
    Attached,
    Unsupported,
}

#[derive(Clone, Copy, Debug, PartialEq, Eq, Structural)]
pub enum ResizeIntentStatus {
    Recorded,
    Applied,
    Unsupported,
}

#[derive(Clone, Copy, Debug, PartialEq, Eq, Structural)]
pub enum WindowSelectionMethod {
    LaunchIntent,
    ExistingWindow,
    NativeWindow,
    Synthetic,
}

#[derive(Clone, Copy, Debug, PartialEq, Eq, Structural)]
pub enum SessionState {
    Starting,
    Ready,
    Closed,
}

/// What the launch backend decided to do for a new session.
#[derive(Debug, PartialEq, Eq)]
pub struct ApplicationLaunchIntent {
    pub session_id: String,
    pub application_id: String,
    pub launch: Option<ApplicationLaunch>,
    pub status: LaunchIntentStatus,
}

impl Clone for ApplicationLaunchIntent {
    fn clone(&self) -> (r: Self)
        ensures
            r == *self,
    {
        ApplicationLaunchIntent {
            session_id: self.session_id.clone(),
            application_id: self.application_id.clone(),
            launch: match &self.launch {
                Some(l) => Some(l.clone()),
                None => None,
            },
            status: self.status,
        }
    }
}

/// The window that a session streams and forwards input to.
#[derive(Debug, PartialEq, Eq)]
pub struct SelectedWindow {
    pub id: String,
    pub application_id: String,
    pub title: String,
    pub selection_method: WindowSelectionMethod,
}

impl Clone for SelectedWindow {
    fn clone(&self) -> (r: Self)
        ensures
            r == *self,
    {
        SelectedWindow {
            id: self.id.clone(),
            application_id: self.application_id.clone(),
            title: self.title.clone(),
            selection_method: self.selection_method,
        }
    }
}

/// A recorded request to resize the selected window.
#[derive(Debug, PartialEq, Eq)]
pub struct WindowResizeIntent {
    pub session_id: String,
    pub selected_window_id: String,
    pub viewport: ViewportSize,
    pub status: ResizeIntentStatus,
}

impl Clone for WindowResizeIntent {
    fn clone(&self) -> (r: Self)
        ensures
            r == *self,
    {
        WindowResizeIntent {
            session_id: self.session_id.clone(),
            selected_window_id: self.selected_window_id.clone(),
            viewport: self.viewport,
            status: self.status,
        }
    }
}

/// A remote application session.
#[derive(Debug, PartialEq, Eq)]
pub struct ApplicationSession {
    pub id: String,
    pub application_id: String,
    pub selected_window: SelectedWindow,
    pub launch_intent: Option<ApplicationLaunchIntent>,
    pub viewport: ViewportSize,
    pub resize_intent: Option<WindowResizeIntent>,
    pub state: SessionState,
}

impl Clone for ApplicationSession {
    fn clone(&self) -> (r: Self)
        ensures
            r == *self,
    {
        ApplicationSession {
            id: self.id.clone(),
            application_id: self.application_id.clone(),
            selected_window: self.selected_window.clone(),
            launch_intent: match &self.launch_intent {
                Some(i) => Some(i.clone()),
                None => None,
            },
            viewport: self.viewport,
            resize_intent: match &self.resize_intent {
                Some(i) => Some(i.clone()),
                None => None,
            },
            state: self.state,
        }
    }
}

#[derive(Debug, PartialEq, Eq)]
pub struct CreateSessionRequest {
    pub application_id: String,
    pub viewport: ViewportSize,
}

#[derive(Debug, PartialEq, Eq)]
pub struct ResizeSessionRequest {
    pub session_id: String,
    pub viewport: ViewportSize,
}

/// The health report of a service.
#[derive(Debug, PartialEq, Eq)]
pub struct HealthStatus {
    pub service: String,
    pub healthy: bool,
    pub version: String,
}

impl HealthStatus {
    /// A healthy report for the given service and version.
    pub fn healthy(service: String, version: String) -> (h: Self)
        ensures
            h.service == service,
            h.version == version,
            h.healthy,
    {
        HealthStatus { service, healthy: true, version }
    }
}

/// Whether a platform offers a feature, and why (not).
#[derive(Debug, PartialEq, Eq)]
pub struct PlatformCapability {
    pub platform: Platform,
    pub feature: Feature,
    pub supported: bool,
    pub reason: Option<String>,
}

impl PlatformCapability {
    pub fn supported(platform: Platform, feature: Feature) -> (c: Self)
        ensures
            c == (PlatformCapability { platform, feature, supported: true, reason: None }),
    {
        PlatformCapability { platform, feature, supported: true, reason: None }
    }

    pub fn supported_with_reason(platform: Platform, feature: Feature, reason: &str) -> (c: Self)
        ensures
            c.platform == platform,
            c.feature == feature,
            c.supported,
            c.reason matches Some(r) && r@ == reason@,
    {
        PlatformCapability {
            platform,
            feature,
            supported: true,
            reason: Some(String::from_str(reason)),
        }
    }

    pub fn unsupported(platform: Platform, feature: Feature, reason: &str) -> (c: Self)
        ensures
            c.platform == platform,
            c.feature == feature,
            !c.supported,
            c.reason matches Some(r) && r@ == reason@,
    {
        PlatformCapability {
            platform,
            feature,
            supported: false,
            reason: Some(String::from_str(reason)),
        }
    }
}

} // verus!
