//! What the desktop client shows and sends: the data transfer objects, their names for
//! enumerations, and the client's own rules (which clients are authorized, which
//! applications may be opened).

use vstd::prelude::*;

use crate::icons::{icon_data_url, icon_data_url_spec, normalized_icon_mime_type, normalized_mime_spec};
use crate::permissions::ApplicationPermission;
use crate::profiles::ConnectionProfile;
use crate::protocol::{
    AppIcon,
    AppRelayError,
    ApplicationLaunch,
    ApplicationLaunchIntent,
    ApplicationSession,
    ApplicationSummary,
    CreateSessionRequest,
    Feature,
    HealthStatus,
    LaunchIntentStatus,
    Platform,
    PlatformCapability,
    ResizeIntentStatus,
    ResizeSessionRequest,
    SelectedWindow,
    SessionState,
    ViewportSize,
    WindowResizeIntent,
    WindowSelectionMethod,
    opt_text,
};
use crate::text::{chars_of, extend_chars, string_from_chars};

verus! {

#[derive(Debug, PartialEq, Eq)]
pub struct ConnectionProfileDto {
    pub id: String,
    pub label: String,
    pub ssh_user: String,
    pub ssh_host: String,
    pub local_port: u16,
    pub remote_port: u16,
    pub auth_token: String,
}

#[derive(Debug, PartialEq, Eq)]
pub struct ApplicationPermissionDto {
    pub application_id: String,
    pub label: String,
}

#[derive(Debug, PartialEq, Eq)]
pub struct HealthStatusDto {
    pub service: String,
    pub healthy: bool,
    pub version: String,
}

#[derive(Debug, PartialEq, Eq)]
pub struct CapabilityDto {
    pub platform: String,
    pub feature: String,
    pub supported: bool,
    pub reason: Option<String>,
}

#[derive(Debug, PartialEq, Eq)]
pub struct AppSummaryDto {
    pub id: String,
    pub name: String,
    pub icon: Option<AppIconDto>,
    pub launch: Option<ApplicationLaunchDto>,
}

#[derive(Debug, PartialEq, Eq)]
pub struct AppIconDto {
    pub mime_type: String,
    pub data_url: Option<String>,
    pub source: Option<String>,
}

#[derive(Debug, PartialEq, Eq)]
pub struct ApplicationLaunchDto {
    pub kind: String,
    pub value: String,
}

#[derive(Clone, Copy, Debug, PartialEq, Eq, Structural)]
pub struct ViewportSizeDto {
    pub width: u32,
    pub height: u32,
}

#[derive(Debug, PartialEq, Eq)]
pub struct CreateSessionRequestDto {
    pub application_id: String,
    pub viewport: ViewportSizeDto,
}

#[derive(Debug, PartialEq, Eq)]
pub struct ResizeSessionRequestDto {
    pub session_id: String,
    pub viewport: ViewportSizeDto,
}

#[derive(Debug, PartialEq, Eq)]
pub struct SelectedWindowDto {
    pub id: String,
    pub application_id: String,
    pub title: String,
    pub selection_method: String,
}

#[derive(Debug, PartialEq, Eq)]
pub struct ApplicationSessionDto {
    pub id: String,
    pub application_id: String,
    pub selected_window: SelectedWindowDto,
    pub launch_intent: Option<ApplicationLaunchIntentDto>,
    pub viewport: ViewportSizeDto,
    pub resize_intent: Option<WindowResizeIntentDto>,
    pub state: String,
}

#[derive(Debug, PartialEq, Eq)]
pub struct ApplicationLaunchIntentDto {
    pub session_id: String,
    pub application_id: String,
    pub launch: Option<ApplicationLaunchDto>,
    pub status: String,
}

#[derive(Debug, PartialEq, Eq)]
pub struct WindowResizeIntentDto {
    pub session_id: String,
    pub selected_window_id: String,
    pub viewport: ViewportSizeDto,
    pub status: String,
}

pub open spec fn launch_intent_status_text(s: LaunchIntentStatus) -> Seq<char> {
    match s {
        LaunchIntentStatus::Recorded => "recorded"@,
        LaunchIntentStatus::Attached => "attached"@,
        LaunchIntentStatus::Unsupported => "unsupported"@,
    }
}

pub fn launch_intent_status_name(status: &LaunchIntentStatus) -> (r: &'static str)
    ensures
        r@ == launch_intent_status_text(*status),
{
    match status {
        LaunchIntentStatus::Recorded => "recorded",
        LaunchIntentStatus::Attached => "attached",
        LaunchIntentStatus::Unsupported => "unsupported",
    }
}

pub open spec fn resize_intent_status_text(s: ResizeIntentStatus) -> Seq<char> {
    match s {
        ResizeIntentStatus::Recorded => "recorded"@,
        ResizeIntentStatus::Applied => "applied"@,
        ResizeIntentStatus::Unsupported => "unsupported"@,
    }
}

pub fn resize_intent_status_name(status: &ResizeIntentStatus) -> (r: &'static str)
    ensures
        r@ == resize_intent_status_text(*status),
{
    match status {
        ResizeIntentStatus::Recorded => "recorded",
        ResizeIntentStatus::Applied => "applied",
        ResizeIntentStatus::Unsupported => "unsupported",
    }
}

pub open spec fn session_state_text(s: SessionState) -> Seq<char> {
    match s {
        SessionState::Starting => "starting"@,
        SessionState::Ready => "ready"@,
        SessionState::Closed => "closed"@,
    }
}

pub fn session_state_name(state: &SessionState) -> (r: &'static str)
    ensures
        r@ == session_state_text(*state),
{
    match state {
        SessionState::Starting => "starting",
        SessionState::Ready => "ready",
        SessionState::Closed => "closed",
    }
}

pub open spec fn selection_method_text(m: WindowSelectionMethod) -> Seq<char> {
    match m {
        WindowSelectionMethod::LaunchIntent => "launchIntent"@,
        WindowSelectionMethod::ExistingWindow => "existingWindow"@,
        WindowSelectionMethod::NativeWindow => "nativeWindow"@,
        WindowSelectionMethod::Synthetic => "synthetic"@,
    }
}

pub fn window_selection_method_name(method: &WindowSelectionMethod) -> (r: &'static str)
    ensures
        r@ == selection_method_text(*method),
{
    match method {
        WindowSelectionMethod::LaunchIntent => "launchIntent",
        WindowSelectionMethod::ExistingWindow => "existingWindow",
        WindowSelectionMethod::NativeWindow => "nativeWindow",
        WindowSelectionMethod::Synthetic => "synthetic",
    }
}

pub open spec fn platform_text(p: Platform) -> Seq<char> {
    match p {
        Platform::Android => "android"@,
        Platform::Ios => "ios"@,
        Platform::Linux => "linux"@,
        Platform::Macos => "macos"@,
        Platform::Windows => "windows"@,
        Platform::Unknown => "unknown"@,
    }
}

pub fn platform_name(platform: Platform) -> (r: &'static str)
    ensures
        r@ == platform_text(platform),
{
    match platform {
        Platform::Android => "android",
        Platform::Ios => "ios",
        Platform::Linux => "linux",
        Platform::Macos => "macos",
        Platform::Windows => "windows",
        Platform::Unknown => "unknown",
    }
}

pub open spec fn feature_text(f: Feature) -> Seq<char> {
    match f {
        Feature::AppDiscovery => "appDiscovery"@,
        Feature::ApplicationLaunch => "applicationLaunch"@,
        Feature::WindowResize => "windowResize"@,
        Feature::WindowVideoStream => "windowVideoStream"@,
        Feature::SystemAudioStream => "systemAudioStream"@,
        Feature::ClientMicrophoneInput => "clientMicrophoneInput"@,
        Feature::KeyboardInput => "keyboardInput"@,
        Feature::MouseInput => "mouseInput"@,
    }
}

pub fn feature_name(feature: &Feature) -> (r: &'static str)
    ensures
        r@ == feature_text(*feature),
{
    match feature {
        Feature::AppDiscovery => "appDiscovery",
        Feature::ApplicationLaunch => "applicationLaunch",
        Feature::WindowResize => "windowResize",
        Feature::WindowVideoStream => "windowVideoStream",
        Feature::SystemAudioStream => "systemAudioStream",
        Feature::ClientMicrophoneInput => "clientMicrophoneInput",
        Feature::KeyboardInput => "keyboardInput",
        Feature::MouseInput => "mouseInput",
    }
}

impl ConnectionProfileDto {
    /// The profile this object carries.
    pub fn into_profile(self) -> (p: ConnectionProfile)
        ensures
            p == (ConnectionProfile {
                id: self.id,
                label: self.label,
                ssh_user: self.ssh_user,
                ssh_host: self.ssh_host,
                local_port: self.local_port,
                remote_port: self.remote_port,
                auth_token: self.auth_token,
            }),
    {
        ConnectionProfile {
            id: self.id,
            label: self.label,
            ssh_user: self.ssh_user,
            ssh_host: self.ssh_host,
            local_port: self.local_port,
            remote_port: self.remote_port,
            auth_token: self.auth_token,
        }
    }

    /// The object carrying a profile.
    pub fn from_profile(p: ConnectionProfile) -> (d: Self)
        ensures
            d == (ConnectionProfileDto {
                id: p.id,
                label: p.label,
                ssh_user: p.ssh_user,
                ssh_host: p.ssh_host,
                local_port: p.local_port,
                remote_port: p.remote_port,
                auth_token: p.auth_token,
            }),
    {
        ConnectionProfileDto {
            id: p.id,
            label: p.label,
            ssh_user: p.ssh_user,
            ssh_host: p.ssh_host,
            local_port: p.local_port,
            remote_port: p.remote_port,
            auth_token: p.auth_token,
        }
    }
}

impl ApplicationPermissionDto {
    /// The permission this object carries.
    pub fn into_permission(self) -> (p: ApplicationPermission)
        ensures
            p == (ApplicationPermission { application_id: self.application_id, label: self.label }),
    {
        ApplicationPermission { application_id: self.application_id, label: self.label }
    }

    /// The object carrying a permission.
    pub fn from_permission(p: ApplicationPermission) -> (d: Self)
        ensures
            d == (ApplicationPermissionDto { application_id: p.application_id, label: p.label }),
    {
        ApplicationPermissionDto { application_id: p.application_id, label: p.label }
    }
}

impl HealthStatusDto {
    /// The object carrying a health report.
    pub fn from_status(s: HealthStatus) -> (d: Self)
        ensures
            d == (HealthStatusDto { service: s.service, healthy: s.healthy, version: s.version }),
    {
        HealthStatusDto { service: s.service, healthy: s.healthy, version: s.version }
    }
}

impl CapabilityDto {
    /// The object carrying a capability, with the platform and feature by name.
    pub fn from_capability(c: PlatformCapability) -> (d: Self)
        ensures
            d.platform@ == platform_text(c.platform),
            d.feature@ == feature_text(c.feature),
            d.supported == c.supported,
            d.reason == c.reason,
    {
        CapabilityDto {
            platform: String::from_str(platform_name(c.platform)),
            feature: String::from_str(feature_name(&c.feature)),
            supported: c.supported,
            reason: c.reason,
        }
    }
}

pub open spec fn launch_kind_text(l: ApplicationLaunch) -> Seq<char> {
    match l {
        ApplicationLaunch::DesktopCommand { .. } => "desktopCommand"@,
        ApplicationLaunch::MacosBundle { .. } => "macosBundle"@,
    }
}

pub open spec fn launch_value(l: ApplicationLaunch) -> String {
    match l {
        ApplicationLaunch::DesktopCommand { command } => command,
        ApplicationLaunch::MacosBundle { bundle_path } => bundle_path,
    }
}

impl ApplicationLaunchDto {
    /// The object carrying a launch: its kind by name and the command or bundle path.
    pub fn from_launch(l: ApplicationLaunch) -> (d: Self)
        ensures
            d.kind@ == launch_kind_text(l),
            d.value == launch_value(l),
    {
        match l {
            ApplicationLaunch::DesktopCommand { command } => ApplicationLaunchDto {
                kind: String::from_str("desktopCommand"),
                value: command,
            },
            ApplicationLaunch::MacosBundle { bundle_path } => ApplicationLaunchDto {
                kind: String::from_str("macosBundle"),
                value: bundle_path,
            },
        }
    }
}

impl AppIconDto {
    /// The object carrying an icon: its data URL when it has bytes, shown under the
    /// normalized mime type; otherwise its own mime type and no URL.
    pub fn from_icon(icon: AppIcon) -> (d: Self)
        ensures
            opt_text(d.data_url) == icon_data_url_spec(icon),
            icon_data_url_spec(icon) is Some ==> d.mime_type@ == normalized_mime_spec(icon),
            icon_data_url_spec(icon) is None ==> d.mime_type == icon.mime_type,
            d.source == icon.source,
    {
        let url = icon_data_url(&icon);
        let mime_type = match url {
            Some(_) => normalized_icon_mime_type(&icon),
            None => icon.mime_type.clone(),
        };
        AppIconDto { mime_type, data_url: url, source: icon.source }
    }
}

impl AppSummaryDto {
    /// The object carrying an application summary.
    pub fn from_summary(a: ApplicationSummary) -> (d: Self)
        ensures
            d.id == a.id,
            d.name == a.name,
            d.icon is Some <==> a.icon is Some,
            a.icon matches Some(i) ==> opt_text(d.icon->0.data_url) == icon_data_url_spec(i)
                && d.icon->0.source == i.source,
            d.launch is Some <==> a.launch is Some,
            a.launch matches Some(l) ==> d.launch->0.kind@ == launch_kind_text(l)
                && d.launch->0.value == launch_value(l),
    {
        AppSummaryDto {
            id: a.id,
            name: a.name,
            icon: match a.icon {
                Some(i) => Some(AppIconDto::from_icon(i)),
                None => None,
            },
            launch: match a.launch {
                Some(l) => Some(ApplicationLaunchDto::from_launch(l)),
                None => None,
            },
        }
    }
}

impl ViewportSizeDto {
    pub fn from_viewport(v: ViewportSize) -> (d: Self)
        ensures
            d == (ViewportSizeDto { width: v.width, height: v.height }),
    {
        ViewportSizeDto { width: v.width, height: v.height }
    }

    pub fn into_viewport(self) -> (v: ViewportSize)
        ensures
            v == (ViewportSize { width: self.width, height: self.height }),
    {
        ViewportSize::new(self.width, self.height)
    }
}

impl CreateSessionRequestDto {
    pub fn into_request(self) -> (r: CreateSessionRequest)
        ensures
            r.application_id == self.application_id,
            r.viewport == (ViewportSize { width: self.viewport.width, height: self.viewport.height }),
    {
        CreateSessionRequest {
            application_id: self.application_id,
            viewport: self.viewport.into_viewport(),
        }
    }
}

impl ResizeSessionRequestDto {
    pub fn into_request(self) -> (r: ResizeSessionRequest)
        ensures
            r.session_id == self.session_id,
            r.viewport == (ViewportSize { width: self.viewport.width, height: self.viewport.height }),
    {
        ResizeSessionRequest { session_id: self.session_id, viewport: self.viewport.into_viewport() }
    }
}

impl SelectedWindowDto {
    /// The object carrying a selected window, with the selection method by name.
    pub fn from_window(w: SelectedWindow) -> (d: Self)
        ensures
            d.id == w.id,
            d.application_id == w.application_id,
            d.title == w.title,
            d.selection_method@ == selection_method_text(w.selection_method),
    {
        let method = String::from_str(window_selection_method_name(&w.selection_method));
        SelectedWindowDto {
            id: w.id,
            application_id: w.application_id,
            title: w.title,
            selection_method: method,
        }
    }
}

impl WindowResizeIntentDto {
    pub fn from_intent(i: WindowResizeIntent) -> (d: Self)
        ensures
            d.session_id == i.session_id,
            d.selected_window_id == i.selected_window_id,
            d.viewport == (ViewportSizeDto { width: i.viewport.width, height: i.viewport.height }),
            d.status@ == resize_intent_status_text(i.status),
    {
        let status = String::from_str(resize_intent_status_name(&i.status));
        WindowResizeIntentDto {
            session_id: i.session_id,
            selected_window_id: i.selected_window_id,
            viewport: ViewportSizeDto::from_viewport(i.viewport),
            status,
        }
    }
}

impl ApplicationLaunchIntentDto {
    pub fn from_intent(i: ApplicationLaunchIntent) -> (d: Self)
        ensures
            d.session_id == i.session_id,
            d.application_id == i.application_id,
            d.launch is Some <==> i.launch is Some,
            i.launch matches Some(l) ==> d.launch->0.kind@ == launch_kind_text(l)
                && d.launch->0.value == launch_value(l),
            d.status@ == launch_intent_status_text(i.status),
    {
        let status = String::from_str(launch_intent_status_name(&i.status));
        ApplicationLaunchIntentDto {
            session_id: i.session_id,
            application_id: i.application_id,
            launch: match i.launch {
                Some(l) => Some(ApplicationLaunchDto::from_launch(l)),
                None => None,
            },
            status,
        }
    }
}

impl ApplicationSessionDto {
    /// The object carrying a session, with its enumerations by name.
    pub fn from_session(s: ApplicationSession) -> (d: Self)
        ensures
            d.id == s.id,
            d.application_id == s.application_id,
            d.selected_window.id == s.selected_window.id,
            d.selected_window.selection_method@ == selection_method_text(
                s.selected_window.selection_method,
            ),
            d.launch_intent is Some <==> s.launch_intent is Some,
            d.viewport == (ViewportSizeDto { width: s.viewport.width, height: s.viewport.height }),
            d.resize_intent is Some <==> s.resize_intent is Some,
            d.state@ == session_state_text(s.state),
    {
        let state = String::from_str(session_state_name(&s.state));
        ApplicationSessionDto {
            id: s.id,
            application_id: s.application_id,
            selected_window: SelectedWindowDto::from_window(s.selected_window),
            launch_intent: match s.launch_intent {
                Some(i) => Some(ApplicationLaunchIntentDto::from_intent(i)),
                None => None,
            },
            viewport: ViewportSizeDto::from_viewport(s.viewport),
            resize_intent: match s.resize_intent {
                Some(i) => Some(WindowResizeIntentDto::from_intent(i)),
                None => None,
            },
            state,
        }
    }
}

/// A client allowed to pair with the local server.
#[derive(Debug, PartialEq, Eq)]
pub struct AuthorizedClient {
    pub id: String,
    pub label: String,
}

impl AuthorizedClient {
    pub fn new(id: &str, label: &str) -> (c: Self)
        ensures
            c.id@ == id@,
            c.label@ == label@,
    {
        AuthorizedClient { id: String::from_str(id), label: String::from_str(label) }
    }
}

/// The id of the built-in local development client.
pub open spec fn local_dev_client_id() -> Seq<char> {
    "local-dev-client"@
}

/// The clients the local server authorizes: one per saved profile (its id and label), then
/// the local development client unless a profile already has its id.
pub open spec fn authorized_clients_spec(profiles: Seq<ConnectionProfile>) -> Seq<(Seq<char>, Seq<char>)> {
    let from_profiles = profiles.map_values(|p: ConnectionProfile| (p.id@, p.label@));
    if exists|i: int| 0 <= i < profiles.len() && profiles[i].id@ == local_dev_client_id() {
        from_profiles
    } else {
        from_profiles.push((local_dev_client_id(), "Local Dev Client"@))
    }
}

pub open spec fn client_pairs(cs: Seq<AuthorizedClient>) -> Seq<(Seq<char>, Seq<char>)> {
    cs.map_values(|c: AuthorizedClient| (c.id@, c.label@))
}

/// The clients the local server authorizes, from the saved profiles.
pub fn local_authorized_clients(profiles: Vec<ConnectionProfile>) -> (r: Vec<AuthorizedClient>)
    ensures
        client_pairs(r@) == authorized_clients_spec(profiles@),
{
    let ghost ps = profiles@;
    let mut clients: Vec<AuthorizedClient> = Vec::new();
    let mut has_local = false;
    let local = String::from_str("local-dev-client");
    let mut i: usize = 0;
    while i < profiles.len()
        invariant
            i <= profiles@.len(),
            ps == profiles@,
            local@ == local_dev_client_id(),
            client_pairs(clients@) == ps.take(i as int).map_values(
                |p: ConnectionProfile| (p.id@, p.label@),
            ),
            has_local == exists|j: int| 0 <= j < i && ps[j].id@ == local_dev_client_id(),
        decreases profiles@.len() - i,
    {
        let ghost before = clients@;
        let client = AuthorizedClient {
            id: profiles[i].id.clone(),
            label: profiles[i].label.clone(),
        };
        if client.id == local {
            has_local = true;
        }
        clients.push(client);
        proof {
            let f = |p: ConnectionProfile| (p.id@, p.label@);
            assert(ps.take(i + 1) =~= ps.take(i as int).push(ps[i as int]));
            assert(ps.take(i + 1).map_values(f) =~= ps.take(i as int).map_values(f).push(
                f(ps[i as int]),
            ));
            assert(client_pairs(clients@) =~= client_pairs(before).push(
                (ps[i as int].id@, ps[i as int].label@),
            ));
            assert(client_pairs(clients@) =~= ps.take(i + 1).map_values(f));
        }
        i = i + 1;
    }
    assert(ps.take(i as int) =~= ps);
    if !has_local {
        let ghost before = clients@;
        clients.push(AuthorizedClient::new("local-dev-client", "Local Dev Client"));
        assert(client_pairs(clients@) =~= client_pairs(before).push(
            (local_dev_client_id(), "Local Dev Client"@),
        ));
    }
    clients
}

/// The message when an application is not among the allowed ones.
pub open spec fn not_allowed_message(application_id: Seq<char>) -> Seq<char> {
    "application "@ + application_id + " is not allowed"@
}

/// The client opens only applications that a saved permission allows.
pub fn ensure_application_allowed(application_id: &str, permissions: &[ApplicationPermission]) -> (r:
    Result<(), AppRelayError>)
    ensures
        r is Ok <==> exists|i: int|
            0 <= i < permissions@.len() && permissions@[i].application_id@ == application_id@,
        r matches Err(e) ==> (e matches AppRelayError::PermissionDenied(m) && m@
            == not_allowed_message(application_id@)),
{
    let target = String::from_str(application_id);
    let mut i: usize = 0;
    while i < permissions.len()
        invariant
            i <= permissions@.len(),
            target@ == application_id@,
            forall|j: int| 0 <= j < i ==> permissions@[j].application_id@ != application_id@,
        decreases permissions@.len() - i,
    {
        if permissions[i].application_id == target {
            return Ok(());
        }
        i = i + 1;
    }
    let mut message = chars_of("application ");
    let id = chars_of(application_id);
    extend_chars(&mut message, id.as_slice());
    let tail = chars_of(" is not allowed");
    extend_chars(&mut message, tail.as_slice());
    Err(AppRelayError::PermissionDenied(string_from_chars(message.as_slice())))
}

} // verus!
