//! Health and capability reports, and the discovery that a platform cannot offer.

use vstd::prelude::*;

use crate::protocol::{
    AppRelayError,
    ApplicationSummary,
    Feature,
    HealthStatus,
    opt_text,
    Platform,
    PlatformCapability,
};

verus! {

/// Reports the health of a service.
pub trait HealthService {
    fn status(&self) -> HealthStatus;
}

/// Reports which features the platform offers.
pub trait CapabilityService {
    fn platform_capabilities(&self) -> Vec<PlatformCapability>;
}

/// Lists the applications that the server can offer.
pub trait ApplicationDiscovery {
    fn available_applications(&self) -> Result<Vec<ApplicationSummary>, AppRelayError>;
}

/// A health service that always reports the same healthy service and version.
#[derive(Clone, Debug)]
pub struct StaticHealthService {
    service: String,
    version: String,
}

impl StaticHealthService {
    /// The reported service name.
    pub closed spec fn service_name(&self) -> Seq<char> {
        self.service@
    }

    /// The reported version.
    pub closed spec fn service_version(&self) -> Seq<char> {
        self.version@
    }

    /// A service that reports `service` at `version` as healthy.
    pub fn new(service: &str, version: &str) -> (s: Self)
        ensures
            s.service_name() == service@,
            s.service_version() == version@,
    {
        StaticHealthService {
            service: String::from_str(service),
            version: String::from_str(version),
        }
    }
}

impl HealthService for StaticHealthService {
    fn status(&self) -> (h: HealthStatus)
        ensures
            h.healthy,
            h.service@ == self.service_name(),
            h.version@ == self.service_version(),
    {
        HealthStatus::healthy(self.service.clone(), self.version.clone())
    }
}

/// The reason given for a feature that is planned but not implemented yet.
pub open spec fn planned_reason() -> Seq<char> {
    "feature planned but not implemented in Phase 1"@
}

/// Whether desktop audio is offered on the platform.
pub open spec fn is_desktop(p: Platform) -> bool {
    p == Platform::Linux || p == Platform::Macos || p == Platform::Windows
}

/// Why desktop audio is or is not offered on the platform.
pub open spec fn audio_reason(p: Platform) -> Seq<char> {
    match p {
        Platform::Linux => "Linux desktop audio control-plane is available; native PipeWire capture/playback backend is planned"@,
        Platform::Macos => "macOS desktop audio control-plane is available; native CoreAudio capture/playback backend is planned"@,
        Platform::Windows => "Windows desktop audio control-plane is available; native WASAPI capture/playback backend is planned"@,
        Platform::Android | Platform::Ios => "mobile platforms are client targets and do not expose desktop audio control-plane capture"@,
        Platform::Unknown => "unknown platform cannot expose desktop audio control-plane capture"@,
    }
}

/// Why application discovery is not offered on the platform (it is on Linux and macOS).
pub open spec fn discovery_reason(p: Platform) -> Option<Seq<char>> {
    match p {
        Platform::Linux | Platform::Macos => None,
        Platform::Windows => Some(
            "desktop application discovery backend is not implemented for this platform yet"@,
        ),
        Platform::Android | Platform::Ios => Some(
            "mobile platforms are client targets and do not expose desktop application discovery"@,
        ),
        Platform::Unknown => Some("unknown platform cannot expose desktop application discovery"@),
    }
}

/// A capability as a feature, whether it is offered, and the reason given.
pub type CapabilityEntry = (Feature, bool, Option<Seq<char>>);

pub open spec fn capability_entry(c: PlatformCapability) -> CapabilityEntry {
    (c.feature, c.supported, opt_text(c.reason))
}

/// The capabilities reported for a platform, in order.
pub open spec fn capabilities_of(p: Platform) -> Seq<CapabilityEntry> {
    seq![
        (Feature::AppDiscovery, discovery_reason(p) is None, discovery_reason(p)),
        (
            Feature::ApplicationLaunch,
            false,
            Some(
                "native launch backend records launch or attach intent but does not spawn applications yet"@,
            ),
        ),
        (Feature::WindowResize, false, Some(planned_reason())),
        (Feature::WindowVideoStream, false, Some(planned_reason())),
        (Feature::SystemAudioStream, is_desktop(p), Some(audio_reason(p))),
        (Feature::ClientMicrophoneInput, is_desktop(p), Some(audio_reason(p))),
        (Feature::KeyboardInput, false, Some(planned_reason())),
        (Feature::MouseInput, false, Some(planned_reason())),
    ]
}

/// Reports the fixed capabilities of one platform.
#[derive(Clone, Debug)]
pub struct DefaultCapabilityService {
    platform: Platform,
}

impl DefaultCapabilityService {
    /// The platform reported on.
    pub closed spec fn reported_platform(&self) -> Platform {
        self.platform
    }

    /// A service reporting on `platform`.
    pub fn new(platform: Platform) -> (s: Self)
        ensures
            s.reported_platform() == platform,
    {
        DefaultCapabilityService { platform }
    }
}

fn audio_reason_text(p: Platform) -> (r: &'static str)
    ensures
        r@ == audio_reason(p),
{
    match p {
        Platform::Linux => "Linux desktop audio control-plane is available; native PipeWire capture/playback backend is planned",
        Platform::Macos => "macOS desktop audio control-plane is available; native CoreAudio capture/playback backend is planned",
        Platform::Windows => "Windows desktop audio control-plane is available; native WASAPI capture/playback backend is planned",
        Platform::Android | Platform::Ios => "mobile platforms are client targets and do not expose desktop audio control-plane capture",
        Platform::Unknown => "unknown platform cannot expose desktop audio control-plane capture",
    }
}

fn app_discovery_capability(p: Platform) -> (c: PlatformCapability)
    ensures
        c.platform == p,
        capability_entry(c) == capabilities_of(p)[0],
{
    match p {
        Platform::Linux | Platform::Macos => PlatformCapability::supported(p, Feature::AppDiscovery),
        Platform::Windows => PlatformCapability::unsupported(
            p,
            Feature::AppDiscovery,
            "desktop application discovery backend is not implemented for this platform yet",
        ),
        Platform::Android | Platform::Ios => PlatformCapability::unsupported(
            p,
            Feature::AppDiscovery,
            "mobile platforms are client targets and do not expose desktop application discovery",
        ),
        Platform::Unknown => PlatformCapability::unsupported(
            p,
            Feature::AppDiscovery,
            "unknown platform cannot expose desktop application discovery",
        ),
    }
}

fn audio_capability(p: Platform, feature: Feature) -> (c: PlatformCapability)
    ensures
        c.platform == p,
        capability_entry(c) == (feature, is_desktop(p), Some(audio_reason(p))),
{
    let reason = audio_reason_text(p);
    let desktop = match p {
        Platform::Linux | Platform::Macos | Platform::Windows => true,
        _ => false,
    };
    if desktop {
        PlatformCapability::supported_with_reason(p, feature, reason)
    } else {
        PlatformCapability::unsupported(p, feature, reason)
    }
}

impl CapabilityService for DefaultCapabilityService {
    fn platform_capabilities(&self) -> (r: Vec<PlatformCapability>)
        ensures
            r@.len() == capabilities_of(self.reported_platform()).len(),
            forall|k: int|
                0 <= k < r@.len() ==> (#[trigger] r@[k]).platform == self.reported_platform()
                    && capability_entry(r@[k]) == capabilities_of(self.reported_platform())[k],
    {
        let p = self.platform;
        let planned = "feature planned but not implemented in Phase 1";
        let mut r: Vec<PlatformCapability> = Vec::new();
        r.push(app_discovery_capability(p));
        r.push(
            PlatformCapability::unsupported(
                p,
                Feature::ApplicationLaunch,
                "native launch backend records launch or attach intent but does not spawn applications yet",
            ),
        );
        r.push(PlatformCapability::unsupported(p, Feature::WindowResize, planned));
        r.push(PlatformCapability::unsupported(p, Feature::WindowVideoStream, planned));
        r.push(audio_capability(p, Feature::SystemAudioStream));
        r.push(audio_capability(p, Feature::ClientMicrophoneInput));
        r.push(PlatformCapability::unsupported(p, Feature::KeyboardInput, planned));
        r.push(PlatformCapability::unsupported(p, Feature::MouseInput, planned));
        assert(planned@ == planned_reason());
        let ghost caps = capabilities_of(p);
        assert forall|k: int| 0 <= k < r@.len() implies (#[trigger] r@[k]).platform == p
            && capability_entry(r@[k]) == caps[k] by {}
        r
    }
}

/// Discovery on a platform that has none: every request is answered `Unsupported`.
#[derive(Clone, Debug)]
pub struct UnsupportedApplicationDiscovery {
    platform: Platform,
}

impl UnsupportedApplicationDiscovery {
    /// The platform reported on.
    pub closed spec fn reported_platform(&self) -> Platform {
        self.platform
    }

    /// Discovery that reports `platform` as lacking it.
    pub fn new(platform: Platform) -> (s: Self)
        ensures
            s.reported_platform() == platform,
    {
        UnsupportedApplicationDiscovery { platform }
    }
}

impl ApplicationDiscovery for UnsupportedApplicationDiscovery {
    fn available_applications(&self) -> (r: Result<Vec<ApplicationSummary>, AppRelayError>)
        ensures
            r == Err::<Vec<ApplicationSummary>, AppRelayError>(
                AppRelayError::Unsupported {
                    platform: self.reported_platform(),
                    feature: Feature::AppDiscovery,
                },
            ),
    {
        Err(AppRelayError::unsupported(self.platform, Feature::AppDiscovery))
    }
}

} // verus!
