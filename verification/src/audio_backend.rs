//! The audio backend of a server: which native backend each platform plans, which legs of
//! it are available, and the contract and capabilities reported to clients.

use vstd::prelude::*;
use crate::audio_protocol::{
    AudioBackendContract, AudioBackendFailure, AudioBackendFailureKind, AudioBackendKind,
    AudioBackendLeg, AudioBackendMediaStats, AudioBackendReadiness, AudioBackendStatus,
    AudioCapability, AudioStreamCapabilities, MicrophoneInjectionState, MicrophoneMode, no_media,
};
use crate::protocol::{AppRelayError, Feature, Platform, opt_text};
use crate::text::{chars_of, extend_chars, string_from_chars};

verus! {

/// The largest packet counter a leg may report: a quarter of `u64::MAX`, so that the
/// counters of any four legs summed into a stream's statistics still fit in a `u64`. The
/// bound is kept per leg because the legs of one stream get their media from separate calls
/// (the readiness runtimes, native test sessions, reconfiguration one leg at a time).
pub const MEDIA_COUNTER_LIMIT: u64 = 0x3fff_ffff_ffff_ffff;

/// Whether the packet counters of a leg are within `MEDIA_COUNTER_LIMIT`.
pub open spec fn media_bounded(m: AudioBackendMediaStats) -> bool {
    m.packets_sent <= MEDIA_COUNTER_LIMIT && m.packets_received <= MEDIA_COUNTER_LIMIT
}

pub open spec fn opt_media_bounded(m: Option<AudioBackendMediaStats>) -> bool {
    m matches Some(x) ==> media_bounded(x)
}

/// The media of a runtime that has started: the same counters, marked available.
pub open spec fn started_media(m: AudioBackendMediaStats) -> AudioBackendMediaStats {
    AudioBackendMediaStats { available: true, ..m }
}

/// The PipeWire capture adapter configured for the capture leg on Linux.
#[derive(Clone, Copy, Debug, PartialEq, Eq, Structural)]
pub enum PipeWireCaptureAdapterState {
    /// The adapter boundary exists, but no capture runtime is wired behind it.
    BoundaryOnly,
    /// A runtime that starts capture and reports the given media.
    FakeCapture { media: AudioBackendMediaStats },
    /// A runtime that is configured but fails to start capture.
    FakeStartFailure,
}

/// Whether the adapter can start capture.
pub open spec fn adapter_can_start(a: PipeWireCaptureAdapterState) -> bool {
    !(a is BoundaryOnly)
}

/// Which native legs are available, and the runtimes configured behind them.
#[derive(Debug, PartialEq, Eq)]
pub struct AudioBackendNativeReadiness {
    available_legs: Vec<AudioBackendLeg>,
    playback_runtime: Option<AudioBackendMediaStats>,
    microphone_capture_runtime: Option<AudioBackendMediaStats>,
    microphone_injection_runtime: Option<AudioBackendMediaStats>,
    pipewire_capture_adapter: Option<PipeWireCaptureAdapterState>,
}

/// The value of a native readiness.
pub struct NativeReadinessView {
    pub available_legs: Seq<AudioBackendLeg>,
    pub playback: Option<AudioBackendMediaStats>,
    pub microphone_capture: Option<AudioBackendMediaStats>,
    pub microphone_injection: Option<AudioBackendMediaStats>,
    pub pipewire: Option<PipeWireCaptureAdapterState>,
}

impl View for AudioBackendNativeReadiness {
    type V = NativeReadinessView;

    closed spec fn view(&self) -> NativeReadinessView {
        NativeReadinessView {
            available_legs: self.available_legs@,
            playback: self.playback_runtime,
            microphone_capture: self.microphone_capture_runtime,
            microphone_injection: self.microphone_injection_runtime,
            pipewire: self.pipewire_capture_adapter,
        }
    }
}

/// The four native legs, in reporting order.
pub open spec fn native_legs() -> Seq<AudioBackendLeg> {
    seq![
        AudioBackendLeg::Capture,
        AudioBackendLeg::Playback,
        AudioBackendLeg::ClientMicrophoneCapture,
        AudioBackendLeg::ServerMicrophoneInjection,
    ]
}

/// Whether every configured runtime reports counters within the limit.
pub open spec fn readiness_bounded(r: NativeReadinessView) -> bool {
    &&& opt_media_bounded(r.playback)
    &&& opt_media_bounded(r.microphone_capture)
    &&& opt_media_bounded(r.microphone_injection)
    &&& (r.pipewire matches Some(PipeWireCaptureAdapterState::FakeCapture { media }) ==> media_bounded(media))
}

/// A readiness with nothing available and no runtime.
pub open spec fn empty_readiness() -> NativeReadinessView {
    NativeReadinessView {
        available_legs: Seq::empty(),
        playback: None,
        microphone_capture: None,
        microphone_injection: None,
        pipewire: None,
    }
}

/// The legs of `legs` that occur in `wanted`, in reporting order and once each.
pub open spec fn canonical_legs(wanted: Seq<AudioBackendLeg>) -> Seq<AudioBackendLeg> {
    native_legs().filter(|l: AudioBackendLeg| wanted.contains(l))
}

fn contains_leg(legs: &Vec<AudioBackendLeg>, leg: AudioBackendLeg) -> (b: bool)
    ensures
        b == legs@.contains(leg),
{
    let mut i: usize = 0;
    while i < legs.len()
        invariant
            i <= legs@.len(),
            forall|j: int| 0 <= j < i ==> legs@[j] != leg,
        decreases legs@.len() - i,
    {
        if legs[i] == leg {
            assert(legs@[i as int] == leg);
            return true;
        }
        i = i + 1;
    }
    false
}

impl AudioBackendNativeReadiness {
    /// Nothing available, no runtime configured: the production default.
    pub fn unavailable() -> (r: Self)
        ensures
            r@ == empty_readiness(),
    {
        AudioBackendNativeReadiness {
            available_legs: Vec::new(),
            playback_runtime: None,
            microphone_capture_runtime: None,
            microphone_injection_runtime: None,
            pipewire_capture_adapter: None,
        }
    }

    /// The four native legs, in reporting order.
    pub fn native_legs() -> (r: Vec<AudioBackendLeg>)
        ensures
            r@ == native_legs(),
    {
        let mut r: Vec<AudioBackendLeg> = Vec::new();
        r.push(AudioBackendLeg::Capture);
        r.push(AudioBackendLeg::Playback);
        r.push(AudioBackendLeg::ClientMicrophoneCapture);
        r.push(AudioBackendLeg::ServerMicrophoneInjection);
        assert(r@ =~= native_legs());
        r
    }

    /// The given legs available, kept in reporting order and once each.
    pub fn with_available_legs(legs: Vec<AudioBackendLeg>) -> (r: Self)
        ensures
            r@.available_legs == canonical_legs(legs@),
            r@.playback is None,
            r@.microphone_capture is None,
            r@.microphone_injection is None,
            r@.pipewire is None,
    {
        let mut out: Vec<AudioBackendLeg> = Vec::new();
        let order = [
            AudioBackendLeg::Capture,
            AudioBackendLeg::Playback,
            AudioBackendLeg::ClientMicrophoneCapture,
            AudioBackendLeg::ServerMicrophoneInjection,
        ];
        let ghost f = |l: AudioBackendLeg| legs@.contains(l);
        assert(order@ == native_legs());
        let mut i: usize = 0;
        assert(native_legs().take(0) =~= Seq::<AudioBackendLeg>::empty());
        while i < 4
            invariant
                i <= 4,
                order@ == native_legs(),
                out@ == native_legs().take(i as int).filter(f),
                f == (|l: AudioBackendLeg| legs@.contains(l)),
            decreases 4 - i,
        {
            proof {
                assert(native_legs().take(i + 1) =~= native_legs().take(i as int).push(order@[i as int]));
                native_legs().take(i as int).lemma_filter_push(order@[i as int], f);
            }
            if contains_leg(&legs, order[i]) {
                out.push(order[i]);
            }
            i = i + 1;
        }
        assert(native_legs().take(4) =~= native_legs());
        AudioBackendNativeReadiness {
            available_legs: out,
            playback_runtime: None,
            microphone_capture_runtime: None,
            microphone_injection_runtime: None,
            pipewire_capture_adapter: None,
        }
    }

    /// A Linux PipeWire capture adapter boundary with no runtime wired behind it.
    pub fn with_linux_pipewire_capture_adapter_boundary() -> (r: Self)
        ensures
            r@ == (NativeReadinessView {
                pipewire: Some(PipeWireCaptureAdapterState::BoundaryOnly),
                ..empty_readiness()
            }),
    {
        AudioBackendNativeReadiness {
            pipewire_capture_adapter: Some(PipeWireCaptureAdapterState::BoundaryOnly),
            ..Self::unavailable()
        }
    }

    /// A Linux PipeWire capture runtime that starts and reports `media`.
    pub fn with_linux_pipewire_capture_runtime_for_test(media: AudioBackendMediaStats) -> (r: Self)
        requires
            media_bounded(media),
        ensures
            r@ == (NativeReadinessView {
                pipewire: Some(PipeWireCaptureAdapterState::FakeCapture { media }),
                ..empty_readiness()
            }),
    {
        AudioBackendNativeReadiness {
            pipewire_capture_adapter: Some(PipeWireCaptureAdapterState::FakeCapture { media }),
            ..Self::unavailable()
        }
    }

    /// A Linux PipeWire capture runtime that is configured but fails to start.
    pub fn with_linux_pipewire_capture_start_failure_for_test() -> (r: Self)
        ensures
            r@ == (NativeReadinessView {
                pipewire: Some(PipeWireCaptureAdapterState::FakeStartFailure),
                ..empty_readiness()
            }),
    {
        AudioBackendNativeReadiness {
            pipewire_capture_adapter: Some(PipeWireCaptureAdapterState::FakeStartFailure),
            ..Self::unavailable()
        }
    }

    /// Server microphone injection available, with a runtime reporting `media`.
    pub fn with_server_microphone_injection_runtime_for_test(media: AudioBackendMediaStats) -> (r: Self)
        requires
            media_bounded(media),
        ensures
            r@ == (NativeReadinessView {
                available_legs: seq![AudioBackendLeg::ServerMicrophoneInjection],
                microphone_injection: Some(media),
                ..empty_readiness()
            }),
    {
        let mut legs: Vec<AudioBackendLeg> = Vec::new();
        legs.push(AudioBackendLeg::ServerMicrophoneInjection);
        let r = AudioBackendNativeReadiness {
            available_legs: legs,
            microphone_injection_runtime: Some(media),
            ..Self::unavailable()
        };
        assert(r.available_legs@ =~= seq![AudioBackendLeg::ServerMicrophoneInjection]);
        r
    }

    /// Client playback available, with a runtime reporting `media`.
    pub fn with_client_playback_runtime_for_test(media: AudioBackendMediaStats) -> (r: Self)
        requires
            media_bounded(media),
        ensures
            r@ == (NativeReadinessView {
                available_legs: seq![AudioBackendLeg::Playback],
                playback: Some(media),
                ..empty_readiness()
            }),
    {
        let mut legs: Vec<AudioBackendLeg> = Vec::new();
        legs.push(AudioBackendLeg::Playback);
        let r = AudioBackendNativeReadiness {
            available_legs: legs,
            playback_runtime: Some(media),
            ..Self::unavailable()
        };
        assert(r.available_legs@ =~= seq![AudioBackendLeg::Playback]);
        r
    }

    /// Client microphone capture available, with a runtime reporting `media`.
    pub fn with_client_microphone_capture_runtime_for_test(media: AudioBackendMediaStats) -> (r: Self)
        requires
            media_bounded(media),
        ensures
            r@ == (NativeReadinessView {
                available_legs: seq![AudioBackendLeg::ClientMicrophoneCapture],
                microphone_capture: Some(media),
                ..empty_readiness()
            }),
    {
        let mut legs: Vec<AudioBackendLeg> = Vec::new();
        legs.push(AudioBackendLeg::ClientMicrophoneCapture);
        let r = AudioBackendNativeReadiness {
            available_legs: legs,
            microphone_capture_runtime: Some(media),
            ..Self::unavailable()
        };
        assert(r.available_legs@ =~= seq![AudioBackendLeg::ClientMicrophoneCapture]);
        r
    }
}

impl Clone for AudioBackendNativeReadiness {
    fn clone(&self) -> (r: Self)
        ensures
            r@ == self@,
    {
        AudioBackendNativeReadiness {
            available_legs: self.available_legs.clone(),
            playback_runtime: self.playback_runtime,
            microphone_capture_runtime: self.microphone_capture_runtime,
            microphone_injection_runtime: self.microphone_injection_runtime,
            pipewire_capture_adapter: self.pipewire_capture_adapter,
        }
    }
}

impl Default for AudioBackendNativeReadiness {
    fn default() -> (r: Self)
        ensures
            r@ == empty_readiness(),
    {
        Self::unavailable()
    }
}

/// The state of one native leg.
#[derive(Clone, Copy, Debug, PartialEq, Eq, Structural)]
pub enum NativeLegState {
    NotImplemented,
    AdapterUnavailable,
    AdapterAvailable,
    AvailableForTest,
}

/// The state of a leg of the native backend of platform `p` under readiness `r`: listed
/// legs are available; otherwise a Linux PipeWire adapter decides the capture leg.
pub open spec fn leg_state(p: Platform, r: NativeReadinessView, leg: AudioBackendLeg) -> NativeLegState {
    if r.available_legs.contains(leg) {
        NativeLegState::AvailableForTest
    } else if p == Platform::Linux && leg == AudioBackendLeg::Capture && r.pipewire is Some {
        if adapter_can_start(r.pipewire->0) {
            NativeLegState::AdapterAvailable
        } else {
            NativeLegState::AdapterUnavailable
        }
    } else {
        NativeLegState::NotImplemented
    }
}

pub open spec fn state_available(s: NativeLegState) -> bool {
    s is AdapterAvailable || s is AvailableForTest
}

pub open spec fn leg_available(p: Platform, r: NativeReadinessView, leg: AudioBackendLeg) -> bool {
    state_available(leg_state(p, r, leg))
}

/// The native backend planned for a platform; only desktops have one.
pub open spec fn native_kind(p: Platform) -> Option<AudioBackendKind> {
    match p {
        Platform::Linux => Some(AudioBackendKind::PipeWire),
        Platform::Macos => Some(AudioBackendKind::CoreAudio),
        Platform::Windows => Some(AudioBackendKind::Wasapi),
        _ => None,
    }
}

/// The name a platform is printed with.
pub open spec fn platform_name(p: Platform) -> Seq<char> {
    match p {
        Platform::Android => "Android"@,
        Platform::Ios => "Ios"@,
        Platform::Linux => "Linux"@,
        Platform::Macos => "Macos"@,
        Platform::Windows => "Windows"@,
        Platform::Unknown => "Unknown"@,
    }
}

pub open spec fn backend_name(p: Platform) -> Seq<char> {
    match p {
        Platform::Linux => "PipeWire"@,
        Platform::Macos => "CoreAudio"@,
        Platform::Windows => "WASAPI"@,
        _ => "native"@,
    }
}

pub open spec fn leg_capability(leg: AudioBackendLeg) -> Seq<char> {
    match leg {
        AudioBackendLeg::Capture => "desktop audio capture"@,
        AudioBackendLeg::Playback => "client playback"@,
        AudioBackendLeg::ClientMicrophoneCapture => "client microphone capture"@,
        AudioBackendLeg::ServerMicrophoneInjection => "server-side microphone injection"@,
    }
}

/// `<capability> via <backend> is not implemented yet`.
pub open spec fn gap_message(leg: AudioBackendLeg, p: Platform) -> Seq<char> {
    leg_capability(leg) + " via "@ + backend_name(p) + " is not implemented yet"@
}

pub open spec fn unavailable_message(s: NativeLegState, leg: AudioBackendLeg, p: Platform) -> Seq<char> {
    if s is AdapterUnavailable {
        "desktop audio capture has a Linux PipeWire adapter boundary, but the real PipeWire capture runtime is not wired yet"@
    } else {
        gap_message(leg, p)
    }
}

pub open spec fn unavailable_recovery(s: NativeLegState) -> Seq<char> {
    if s is AdapterUnavailable {
        "keep the control-plane stream active for state negotiation, but do not expect PipeWire audio packets until the capture runtime is implemented and enabled"@
    } else {
        "keep the control-plane stream active for state negotiation, but do not expect audio packets until the native backend is implemented"@
    }
}

pub open spec fn all_legs_available(p: Platform, r: NativeReadinessView) -> bool {
    &&& leg_available(p, r, AudioBackendLeg::Capture)
    &&& leg_available(p, r, AudioBackendLeg::Playback)
    &&& leg_available(p, r, AudioBackendLeg::ClientMicrophoneCapture)
    &&& leg_available(p, r, AudioBackendLeg::ServerMicrophoneInjection)
}

pub open spec fn no_legs_available(p: Platform, r: NativeReadinessView) -> bool {
    &&& !leg_available(p, r, AudioBackendLeg::Capture)
    &&& !leg_available(p, r, AudioBackendLeg::Playback)
    &&& !leg_available(p, r, AudioBackendLeg::ClientMicrophoneCapture)
    &&& !leg_available(p, r, AudioBackendLeg::ServerMicrophoneInjection)
}

/// The note reported with a desktop contract.
pub open spec fn backend_note(p: Platform, r: NativeReadinessView) -> Seq<char> {
    if all_legs_available(p, r) {
        "all native audio backend legs are configured available for transport-neutral service tests"@
    } else if leg_state(p, r, AudioBackendLeg::Capture) is AdapterAvailable {
        "Linux PipeWire capture runtime contract is configured for the capture leg; playback, client microphone capture, and server-side microphone injection remain planned"@
    } else if leg_state(p, r, AudioBackendLeg::Capture) is AdapterUnavailable {
        "Linux PipeWire capture has an adapter boundary configured, but it remains unavailable until a real PipeWire capture runtime is wired; playback, client microphone capture, and server-side microphone injection remain planned"@
    } else if no_legs_available(p, r) {
        "current stream enforces control-plane state only; native capture, playback, client microphone capture, and server microphone injection are not implemented"@
    } else {
        "current stream enforces control-plane state for unavailable native legs; configured native leg availability is reported per backend status"@
    }
}

/// A leg that a runtime failure (or an override) turned unavailable.
pub open spec fn failed_status_ok(
    st: AudioBackendStatus,
    leg: AudioBackendLeg,
    kind: AudioBackendKind,
    f: AudioBackendFailure,
) -> bool {
    &&& st.leg == leg
    &&& st.backend == kind
    &&& !st.available
    &&& st.readiness == AudioBackendReadiness::PlannedNative
    &&& st.media == no_media()
    &&& st.failure == Some(f)
}

/// A leg of a native backend: available legs report `media`, the others a failure.
pub open spec fn native_status_ok(
    st: AudioBackendStatus,
    p: Platform,
    kind: AudioBackendKind,
    s: NativeLegState,
    leg: AudioBackendLeg,
    media: AudioBackendMediaStats,
) -> bool {
    &&& st.leg == leg
    &&& st.backend == kind
    &&& st.available == state_available(s)
    &&& st.readiness == (if state_available(s) {
        AudioBackendReadiness::NativeAvailable
    } else {
        AudioBackendReadiness::PlannedNative
    })
    &&& st.media == (if state_available(s) { media } else { no_media() })
    &&& if state_available(s) {
        st.failure is None
    } else {
        st.failure matches Some(f) && f.kind == AudioBackendFailureKind::NativeBackendNotImplemented
            && f.message@ == unavailable_message(s, leg, p) && f.recovery@
            == unavailable_recovery(s)
    }
}

/// A leg of a platform without a native backend.
pub open spec fn unsupported_status_ok(st: AudioBackendStatus, leg: AudioBackendLeg, p: Platform) -> bool {
    &&& st.leg == leg
    &&& st.backend == AudioBackendKind::Unsupported
    &&& !st.available
    &&& st.readiness == AudioBackendReadiness::Unsupported
    &&& st.media == no_media()
    &&& st.failure matches Some(f) && f.kind == AudioBackendFailureKind::UnsupportedPlatform
        && f.message@ == "audio native backend is unsupported on "@ + platform_name(p)
        && f.recovery@ == "run the desktop server on Linux, macOS, or Windows"@
}

/// The status at position `i` of a desktop contract.
pub open spec fn desktop_status_ok(
    c: AudioBackendContract,
    i: int,
    p: Platform,
    r: NativeReadinessView,
    kind: AudioBackendKind,
    media_of: spec_fn(AudioBackendLeg) -> AudioBackendMediaStats,
    failure_of: spec_fn(AudioBackendLeg) -> Option<AudioBackendFailure>,
) -> bool {
    let leg = native_legs()[i];
    match failure_of(leg) {
        Some(f) => failed_status_ok(c.statuses@[i], leg, kind, f),
        None => native_status_ok(c.statuses@[i], p, kind, leg_state(p, r, leg), leg, media_of(leg)),
    }
}

/// The contract of a desktop backend: statuses per leg with the media each leg would
/// carry (`media_of`) and the runtime failures recorded for it (`failure_of`).
pub open spec fn desktop_contract_ok(
    c: AudioBackendContract,
    p: Platform,
    r: NativeReadinessView,
    kind: AudioBackendKind,
    media_of: spec_fn(AudioBackendLeg) -> AudioBackendMediaStats,
    failure_of: spec_fn(AudioBackendLeg) -> Option<AudioBackendFailure>,
) -> bool {
    &&& c.control_plane == AudioBackendKind::ControlPlane
    &&& c.planned_capture == kind
    &&& c.planned_playback == kind
    &&& c.planned_microphone == kind
    &&& c.statuses@.len() == 4
    &&& desktop_status_ok(c, 0, p, r, kind, media_of, failure_of)
    &&& desktop_status_ok(c, 1, p, r, kind, media_of, failure_of)
    &&& desktop_status_ok(c, 2, p, r, kind, media_of, failure_of)
    &&& desktop_status_ok(c, 3, p, r, kind, media_of, failure_of)
    &&& c.readiness == (if all_legs_available(p, r) {
        AudioBackendReadiness::NativeAvailable
    } else {
        AudioBackendReadiness::ControlPlaneOnly
    })
    &&& c.notes@.len() == 1
    &&& c.notes@[0]@ == backend_note(p, r)
}

pub open spec fn unsupported_status_at(
    c: AudioBackendContract,
    i: int,
    p: Platform,
    failure_of: spec_fn(AudioBackendLeg) -> Option<AudioBackendFailure>,
) -> bool {
    let leg = native_legs()[i];
    match failure_of(leg) {
        Some(f) => failed_status_ok(c.statuses@[i], leg, AudioBackendKind::Unsupported, f),
        None => unsupported_status_ok(c.statuses@[i], leg, p),
    }
}

/// The contract of a platform without a native backend.
pub open spec fn unsupported_contract_ok(
    c: AudioBackendContract,
    p: Platform,
    failure_of: spec_fn(AudioBackendLeg) -> Option<AudioBackendFailure>,
) -> bool {
    &&& c.control_plane == AudioBackendKind::Unsupported
    &&& c.planned_capture == AudioBackendKind::Unsupported
    &&& c.planned_playback == AudioBackendKind::Unsupported
    &&& c.planned_microphone == AudioBackendKind::Unsupported
    &&& c.statuses@.len() == 4
    &&& unsupported_status_at(c, 0, p, failure_of)
    &&& unsupported_status_at(c, 1, p, failure_of)
    &&& unsupported_status_at(c, 2, p, failure_of)
    &&& unsupported_status_at(c, 3, p, failure_of)
    &&& c.readiness == AudioBackendReadiness::Unsupported
    &&& c.notes@.len() == 1
    &&& c.notes@[0]@ == "audio native backend contract is unsupported on "@ + platform_name(p)
}

/// No runtime failure on any leg.
pub open spec fn no_failures() -> spec_fn(AudioBackendLeg) -> Option<AudioBackendFailure> {
    |leg: AudioBackendLeg| None
}

/// No media on any leg.
pub open spec fn quiet_media() -> spec_fn(AudioBackendLeg) -> AudioBackendMediaStats {
    |leg: AudioBackendLeg| no_media()
}

/// Where audio is controlled: a desktop with its native readiness, or a platform without
/// audio.
#[derive(Debug, PartialEq, Eq)]
pub enum AudioBackendService {
    DesktopControl { platform: Platform, native_readiness: AudioBackendNativeReadiness },
    Unsupported { platform: Platform },
}

impl Clone for AudioBackendService {
    fn clone(&self) -> (r: Self)
        ensures
            r.platform() == self.platform(),
            r.native() == self.native(),
    {
        match self {
            AudioBackendService::DesktopControl { platform, native_readiness } => {
                AudioBackendService::DesktopControl {
                    platform: *platform,
                    native_readiness: native_readiness.clone(),
                }
            },
            AudioBackendService::Unsupported { platform } => AudioBackendService::Unsupported {
                platform: *platform,
            },
        }
    }
}

impl AudioBackendService {
    /// The platform served.
    pub open spec fn platform(&self) -> Platform {
        match self {
            AudioBackendService::DesktopControl { platform, .. } => *platform,
            AudioBackendService::Unsupported { platform } => *platform,
        }
    }

    /// The native readiness of a desktop backend whose platform has a native backend.
    pub open spec fn native(&self) -> Option<NativeReadinessView> {
        match self {
            AudioBackendService::DesktopControl { platform, native_readiness } => if native_kind(
                *platform,
            ) is Some {
                Some(native_readiness@)
            } else {
                None
            },
            AudioBackendService::Unsupported { .. } => None,
        }
    }

    /// The readiness held by a desktop backend, whatever its platform.
    pub open spec fn readiness(&self) -> Option<NativeReadinessView> {
        match self {
            AudioBackendService::DesktopControl { native_readiness, .. } => Some(native_readiness@),
            AudioBackendService::Unsupported { .. } => None,
        }
    }

    /// Whether every runtime of the backend reports counters within the limit.
    pub open spec fn bounded(&self) -> bool {
        self.readiness() matches Some(r) ==> readiness_bounded(r)
    }

    /// Whether a leg is available on this backend.
    pub open spec fn leg_ready(&self, leg: AudioBackendLeg) -> bool {
        self.native() matches Some(r) && leg_available(self.platform(), r, leg)
    }

    /// The contract of this backend, given the media each leg would carry and the runtime
    /// failures recorded for it.
    pub open spec fn contract_ok(
        &self,
        c: AudioBackendContract,
        media_of: spec_fn(AudioBackendLeg) -> AudioBackendMediaStats,
        failure_of: spec_fn(AudioBackendLeg) -> Option<AudioBackendFailure>,
    ) -> bool {
        match self.native() {
            Some(r) => desktop_contract_ok(
                c,
                self.platform(),
                r,
                native_kind(self.platform())->0,
                media_of,
                failure_of,
            ),
            None => unsupported_contract_ok(c, self.platform(), failure_of),
        }
    }

    /// The parts of a contract other than its leg statuses.
    pub open spec fn header_ok(&self, c: AudioBackendContract) -> bool {
        match self.native() {
            Some(r) => {
                let kind = native_kind(self.platform())->0;
                &&& c.control_plane == AudioBackendKind::ControlPlane
                &&& c.planned_capture == kind
                &&& c.planned_playback == kind
                &&& c.planned_microphone == kind
                &&& c.readiness == (if all_legs_available(self.platform(), r) {
                    AudioBackendReadiness::NativeAvailable
                } else {
                    AudioBackendReadiness::ControlPlaneOnly
                })
                &&& c.notes@.len() == 1
                &&& c.notes@[0]@ == backend_note(self.platform(), r)
            },
            None => {
                &&& c.control_plane == AudioBackendKind::Unsupported
                &&& c.planned_capture == AudioBackendKind::Unsupported
                &&& c.planned_playback == AudioBackendKind::Unsupported
                &&& c.planned_microphone == AudioBackendKind::Unsupported
                &&& c.readiness == AudioBackendReadiness::Unsupported
                &&& c.notes@.len() == 1
                &&& c.notes@[0]@ == "audio native backend contract is unsupported on "@ + platform_name(
                    self.platform(),
                )
            },
        }
    }

    /// The status of the leg at position `i` of a contract.
    pub open spec fn status_ok(
        &self,
        st: AudioBackendStatus,
        i: int,
        media_of: spec_fn(AudioBackendLeg) -> AudioBackendMediaStats,
        failure_of: spec_fn(AudioBackendLeg) -> Option<AudioBackendFailure>,
    ) -> bool {
        let leg = native_legs()[i];
        match self.native() {
            Some(r) => {
                let kind = native_kind(self.platform())->0;
                match failure_of(leg) {
                    Some(f) => failed_status_ok(st, leg, kind, f),
                    None => native_status_ok(
                        st,
                        self.platform(),
                        kind,
                        leg_state(self.platform(), r, leg),
                        leg,
                        media_of(leg),
                    ),
                }
            },
            None => match failure_of(leg) {
                Some(f) => failed_status_ok(st, leg, AudioBackendKind::Unsupported, f),
                None => unsupported_status_ok(st, leg, self.platform()),
            },
        }
    }

    /// A contract is its header and the status of each of its four legs.
    pub proof fn lemma_contract_parts(
        &self,
        c: AudioBackendContract,
        media_of: spec_fn(AudioBackendLeg) -> AudioBackendMediaStats,
        failure_of: spec_fn(AudioBackendLeg) -> Option<AudioBackendFailure>,
    )
        ensures
            self.contract_ok(c, media_of, failure_of) <==> (self.header_ok(c) && c.statuses@.len()
                == 4 && forall|i: int|
                0 <= i < 4 ==> #[trigger] self.status_ok(c.statuses@[i], i, media_of, failure_of)),
    {
        if self.header_ok(c) && c.statuses@.len() == 4 {
            if forall|i: int|
                0 <= i < 4 ==> #[trigger] self.status_ok(c.statuses@[i], i, media_of, failure_of) {
                assert(self.status_ok(c.statuses@[0], 0, media_of, failure_of));
                assert(self.status_ok(c.statuses@[1], 1, media_of, failure_of));
                assert(self.status_ok(c.statuses@[2], 2, media_of, failure_of));
                assert(self.status_ok(c.statuses@[3], 3, media_of, failure_of));
            }
            if self.contract_ok(c, media_of, failure_of) {
                assert forall|i: int| 0 <= i < 4 implies #[trigger] self.status_ok(
                    c.statuses@[i],
                    i,
                    media_of,
                    failure_of,
                ) by {
                    if i == 0 {
                    } else if i == 1 {
                    } else if i == 2 {
                    } else {
                    }
                }
            }
        }
    }

    /// A leg reports either no media or the media it would carry.
    pub proof fn lemma_status_media(
        &self,
        st: AudioBackendStatus,
        i: int,
        media_of: spec_fn(AudioBackendLeg) -> AudioBackendMediaStats,
        failure_of: spec_fn(AudioBackendLeg) -> Option<AudioBackendFailure>,
    )
        requires
            0 <= i < 4,
            self.status_ok(st, i, media_of, failure_of),
        ensures
            st.media == no_media() || st.media == media_of(native_legs()[i]),
    {
    }

    /// Whether server microphone injection is available.
    pub open spec fn injection_available(&self) -> bool {
        self.leg_ready(AudioBackendLeg::ServerMicrophoneInjection)
    }

    /// Why microphone injection is (not) offered.
    pub open spec fn injection_reason(&self) -> Option<Seq<char>> {
        if self.native() is Some {
            if self.injection_available() {
                None
            } else {
                Some("server-side microphone injection backend is not implemented yet"@)
            }
        } else {
            Some(unsupported_audio_reason(self.platform()))
        }
    }

    pub open spec fn injection_readiness(&self) -> AudioBackendReadiness {
        if self.native() is Some {
            if self.injection_available() {
                AudioBackendReadiness::NativeAvailable
            } else {
                AudioBackendReadiness::PlannedNative
            }
        } else {
            AudioBackendReadiness::Unsupported
        }
    }

    /// The capabilities of this backend.
    pub open spec fn capabilities_ok(&self, c: AudioStreamCapabilities) -> bool {
        if self.native() is Some {
            &&& cap_is(c.system_audio, true, Some("desktop audio control-plane support is available"@))
            &&& cap_is(
                c.microphone_capture,
                true,
                Some("desktop microphone control-plane support is available"@),
            )
            &&& cap_is(c.microphone_injection, self.injection_available(), self.injection_reason())
            &&& cap_is(c.echo_cancellation, true, None)
            &&& cap_is(c.device_selection, true, None)
        } else {
            let reason = Some(unsupported_audio_reason(self.platform()));
            &&& cap_is(c.system_audio, false, reason)
            &&& cap_is(c.microphone_capture, false, reason)
            &&& cap_is(c.microphone_injection, false, reason)
            &&& cap_is(c.echo_cancellation, false, reason)
            &&& cap_is(c.device_selection, false, reason)
        }
    }

    /// Whether the client microphone can be captured.
    pub open spec fn microphone_capture_supported(&self) -> bool {
        self.native() is Some
    }

    /// The microphone injection state of a stream with microphone `mode`.
    pub open spec fn injection_state_ok(&self, s: MicrophoneInjectionState, mode: MicrophoneMode) -> bool {
        let requested = mode == MicrophoneMode::Enabled;
        let supported = self.injection_available();
        let active = requested && supported && self.injection_readiness()
            == AudioBackendReadiness::NativeAvailable;
        &&& s.requested == requested
        &&& s.active == active
        &&& s.readiness == self.injection_readiness()
        &&& opt_text(s.reason) == (if !requested {
            Some("microphone input is disabled for this session"@)
        } else if active {
            None
        } else if !supported {
            self.injection_reason()
        } else {
            Some("microphone injection is waiting for transport media"@)
        })
    }

    /// Whether streams can be started at all.
    pub open spec fn supported(&self) -> bool {
        self.native() is Some
    }
}

/// `audio streaming is unsupported on <platform>`.
pub open spec fn unsupported_audio_reason(p: Platform) -> Seq<char> {
    "audio streaming is unsupported on "@ + platform_name(p)
}

/// A capability with the given support and reason.
pub open spec fn cap_is(c: AudioCapability, supported: bool, reason: Option<Seq<char>>) -> bool {
    c.supported == supported && opt_text(c.reason) == reason
}

/// The position of a leg in reporting order.
pub open spec fn leg_position(leg: AudioBackendLeg) -> int {
    match leg {
        AudioBackendLeg::Capture => 0,
        AudioBackendLeg::Playback => 1,
        AudioBackendLeg::ClientMicrophoneCapture => 2,
        AudioBackendLeg::ServerMicrophoneInjection => 3,
    }
}

/// Media given per leg in reporting order.
pub open spec fn media_by_position(m: Seq<AudioBackendMediaStats>) -> spec_fn(AudioBackendLeg) -> AudioBackendMediaStats {
    |leg: AudioBackendLeg| m[leg_position(leg)]
}

pub fn platform_name_text(p: Platform) -> (r: &'static str)
    ensures
        r@ == platform_name(p),
{
    match p {
        Platform::Android => "Android",
        Platform::Ios => "Ios",
        Platform::Linux => "Linux",
        Platform::Macos => "Macos",
        Platform::Windows => "Windows",
        Platform::Unknown => "Unknown",
    }
}

fn native_kind_of(p: Platform) -> (r: Option<AudioBackendKind>)
    ensures
        r == native_kind(p),
{
    match p {
        Platform::Linux => Some(AudioBackendKind::PipeWire),
        Platform::Macos => Some(AudioBackendKind::CoreAudio),
        Platform::Windows => Some(AudioBackendKind::Wasapi),
        _ => None,
    }
}

/// The concatenation of two strings.
fn concat2(a: &str, b: &str) -> (r: String)
    ensures
        r@ == a@ + b@,
{
    let mut v = chars_of(a);
    let t = chars_of(b);
    extend_chars(&mut v, &t);
    string_from_chars(&v)
}

fn gap_message_text(leg: AudioBackendLeg, p: Platform) -> (r: String)
    ensures
        r@ == gap_message(leg, p),
{
    let capability = match leg {
        AudioBackendLeg::Capture => "desktop audio capture",
        AudioBackendLeg::Playback => "client playback",
        AudioBackendLeg::ClientMicrophoneCapture => "client microphone capture",
        AudioBackendLeg::ServerMicrophoneInjection => "server-side microphone injection",
    };
    let backend = match p {
        Platform::Linux => "PipeWire",
        Platform::Macos => "CoreAudio",
        Platform::Windows => "WASAPI",
        _ => "native",
    };
    let mut v = chars_of(capability);
    extend_chars(&mut v, &chars_of(" via "));
    extend_chars(&mut v, &chars_of(backend));
    extend_chars(&mut v, &chars_of(" is not implemented yet"));
    string_from_chars(&v)
}

fn unavailable_message_text(s: NativeLegState, leg: AudioBackendLeg, p: Platform) -> (r: String)
    ensures
        r@ == unavailable_message(s, leg, p),
{
    match s {
        NativeLegState::AdapterUnavailable => String::from_str(
            "desktop audio capture has a Linux PipeWire adapter boundary, but the real PipeWire capture runtime is not wired yet",
        ),
        _ => gap_message_text(leg, p),
    }
}

fn unavailable_recovery_text(s: NativeLegState) -> (r: String)
    ensures
        r@ == unavailable_recovery(s),
{
    match s {
        NativeLegState::AdapterUnavailable => String::from_str(
            "keep the control-plane stream active for state negotiation, but do not expect PipeWire audio packets until the capture runtime is implemented and enabled",
        ),
        _ => String::from_str(
            "keep the control-plane stream active for state negotiation, but do not expect audio packets until the native backend is implemented",
        ),
    }
}

fn is_state_available(s: NativeLegState) -> (b: bool)
    ensures
        b == state_available(s),
{
    match s {
        NativeLegState::AdapterAvailable | NativeLegState::AvailableForTest => true,
        _ => false,
    }
}

fn native_status(
    p: Platform,
    kind: AudioBackendKind,
    s: NativeLegState,
    leg: AudioBackendLeg,
    media: AudioBackendMediaStats,
) -> (st: AudioBackendStatus)
    ensures
        native_status_ok(st, p, kind, s, leg, media),
{
    if is_state_available(s) {
        AudioBackendStatus {
            leg,
            backend: kind,
            available: true,
            readiness: AudioBackendReadiness::NativeAvailable,
            media,
            failure: None,
        }
    } else {
        AudioBackendStatus {
            leg,
            backend: kind,
            available: false,
            readiness: AudioBackendReadiness::PlannedNative,
            media: AudioBackendMediaStats::default(),
            failure: Some(
                AudioBackendFailure {
                    kind: AudioBackendFailureKind::NativeBackendNotImplemented,
                    message: unavailable_message_text(s, leg, p),
                    recovery: unavailable_recovery_text(s),
                },
            ),
        }
    }
}

fn unsupported_status(leg: AudioBackendLeg, p: Platform) -> (st: AudioBackendStatus)
    ensures
        unsupported_status_ok(st, leg, p),
{
    AudioBackendStatus {
        leg,
        backend: AudioBackendKind::Unsupported,
        available: false,
        readiness: AudioBackendReadiness::Unsupported,
        media: AudioBackendMediaStats::default(),
        failure: Some(
            AudioBackendFailure {
                kind: AudioBackendFailureKind::UnsupportedPlatform,
                message: concat2("audio native backend is unsupported on ", platform_name_text(p)),
                recovery: String::from_str("run the desktop server on Linux, macOS, or Windows"),
            },
        ),
    }
}

fn unsupported_contract(p: Platform) -> (c: AudioBackendContract)
    ensures
        unsupported_contract_ok(c, p, no_failures()),
{
    let mut statuses: Vec<AudioBackendStatus> = Vec::new();
    statuses.push(unsupported_status(AudioBackendLeg::Capture, p));
    statuses.push(unsupported_status(AudioBackendLeg::Playback, p));
    statuses.push(unsupported_status(AudioBackendLeg::ClientMicrophoneCapture, p));
    statuses.push(unsupported_status(AudioBackendLeg::ServerMicrophoneInjection, p));
    let mut notes: Vec<String> = Vec::new();
    notes.push(concat2("audio native backend contract is unsupported on ", platform_name_text(p)));
    AudioBackendContract {
        control_plane: AudioBackendKind::Unsupported,
        planned_capture: AudioBackendKind::Unsupported,
        planned_playback: AudioBackendKind::Unsupported,
        planned_microphone: AudioBackendKind::Unsupported,
        statuses,
        readiness: AudioBackendReadiness::Unsupported,
        notes,
    }
}

impl AudioBackendNativeReadiness {
    /// The state of `leg` on platform `p`.
    pub fn leg_state_of(&self, p: Platform, leg: AudioBackendLeg) -> (s: NativeLegState)
        ensures
            s == leg_state(p, self@, leg),
    {
        if contains_leg(&self.available_legs, leg) {
            NativeLegState::AvailableForTest
        } else {
            match (p, leg, self.pipewire_capture_adapter) {
                (Platform::Linux, AudioBackendLeg::Capture, Some(a)) => match a {
                    PipeWireCaptureAdapterState::BoundaryOnly => NativeLegState::AdapterUnavailable,
                    _ => NativeLegState::AdapterAvailable,
                },
                _ => NativeLegState::NotImplemented,
            }
        }
    }

    /// The configured runtimes.
    pub fn playback(&self) -> (r: Option<AudioBackendMediaStats>)
        ensures
            r == self@.playback,
    {
        self.playback_runtime
    }

    pub fn microphone_capture(&self) -> (r: Option<AudioBackendMediaStats>)
        ensures
            r == self@.microphone_capture,
    {
        self.microphone_capture_runtime
    }

    pub fn microphone_injection(&self) -> (r: Option<AudioBackendMediaStats>)
        ensures
            r == self@.microphone_injection,
    {
        self.microphone_injection_runtime
    }

    pub fn pipewire_adapter(&self) -> (r: Option<PipeWireCaptureAdapterState>)
        ensures
            r == self@.pipewire,
    {
        self.pipewire_capture_adapter
    }
}

fn note_text(p: Platform, r: &AudioBackendNativeReadiness) -> (t: String)
    ensures
        t@ == backend_note(p, r@),
{
    let capture = r.leg_state_of(p, AudioBackendLeg::Capture);
    let playback = r.leg_state_of(p, AudioBackendLeg::Playback);
    let mic = r.leg_state_of(p, AudioBackendLeg::ClientMicrophoneCapture);
    let inject = r.leg_state_of(p, AudioBackendLeg::ServerMicrophoneInjection);
    let a = is_state_available(capture);
    let b = is_state_available(playback);
    let c = is_state_available(mic);
    let d = is_state_available(inject);
    if a && b && c && d {
        String::from_str(
            "all native audio backend legs are configured available for transport-neutral service tests",
        )
    } else if capture == NativeLegState::AdapterAvailable {
        String::from_str(
            "Linux PipeWire capture runtime contract is configured for the capture leg; playback, client microphone capture, and server-side microphone injection remain planned",
        )
    } else if capture == NativeLegState::AdapterUnavailable {
        String::from_str(
            "Linux PipeWire capture has an adapter boundary configured, but it remains unavailable until a real PipeWire capture runtime is wired; playback, client microphone capture, and server-side microphone injection remain planned",
        )
    } else if !a && !b && !c && !d {
        String::from_str(
            "current stream enforces control-plane state only; native capture, playback, client microphone capture, and server microphone injection are not implemented",
        )
    } else {
        String::from_str(
            "current stream enforces control-plane state for unavailable native legs; configured native leg availability is reported per backend status",
        )
    }
}

fn desktop_contract(
    p: Platform,
    kind: AudioBackendKind,
    r: &AudioBackendNativeReadiness,
    media: &Vec<AudioBackendMediaStats>,
) -> (c: AudioBackendContract)
    requires
        native_kind(p) == Some(kind),
        media@.len() == 4,
    ensures
        desktop_contract_ok(c, p, r@, kind, media_by_position(media@), no_failures()),
{
    let capture = r.leg_state_of(p, AudioBackendLeg::Capture);
    let playback = r.leg_state_of(p, AudioBackendLeg::Playback);
    let mic = r.leg_state_of(p, AudioBackendLeg::ClientMicrophoneCapture);
    let inject = r.leg_state_of(p, AudioBackendLeg::ServerMicrophoneInjection);
    let mut statuses: Vec<AudioBackendStatus> = Vec::new();
    statuses.push(native_status(p, kind, capture, AudioBackendLeg::Capture, media[0]));
    statuses.push(native_status(p, kind, playback, AudioBackendLeg::Playback, media[1]));
    statuses.push(native_status(p, kind, mic, AudioBackendLeg::ClientMicrophoneCapture, media[2]));
    statuses.push(
        native_status(p, kind, inject, AudioBackendLeg::ServerMicrophoneInjection, media[3]),
    );
    let all = is_state_available(capture) && is_state_available(playback) && is_state_available(
        mic,
    ) && is_state_available(inject);
    let mut notes: Vec<String> = Vec::new();
    notes.push(note_text(p, r));
    AudioBackendContract {
        control_plane: AudioBackendKind::ControlPlane,
        planned_capture: kind,
        planned_playback: kind,
        planned_microphone: kind,
        statuses,
        readiness: if all {
            AudioBackendReadiness::NativeAvailable
        } else {
            AudioBackendReadiness::ControlPlaneOnly
        },
        notes,
    }
}

fn capability(supported: bool, reason: Option<&str>) -> (c: AudioCapability)
    ensures
        c.supported == supported,
        opt_text(c.reason) == (match reason {
            Some(s) => Some(s@),
            None => None,
        }),
{
    AudioCapability {
        supported,
        reason: match reason {
            Some(s) => Some(String::from_str(s)),
            None => None,
        },
    }
}

impl AudioBackendService {
    /// The backend of a platform: desktops control audio, other platforms have none.
    pub fn for_platform(platform: Platform) -> (b: Self)
        ensures
            b.platform() == platform,
            native_kind(platform) is Some ==> b.native() == Some(empty_readiness()),
            native_kind(platform) is None ==> b == (AudioBackendService::Unsupported { platform }),
            b.bounded(),
    {
        match platform {
            Platform::Linux | Platform::Macos | Platform::Windows => AudioBackendService::DesktopControl {
                platform,
                native_readiness: AudioBackendNativeReadiness::unavailable(),
            },
            _ => AudioBackendService::Unsupported { platform },
        }
    }

    /// The backend of a platform with the given native readiness on desktops.
    pub fn for_platform_with_native_readiness(
        platform: Platform,
        native_readiness: AudioBackendNativeReadiness,
    ) -> (b: Self)
        ensures
            b.platform() == platform,
            native_kind(platform) is Some ==> b.native() == Some(native_readiness@),
            native_kind(platform) is None ==> b == (AudioBackendService::Unsupported { platform }),
            readiness_bounded(native_readiness@) ==> b.bounded(),
    {
        match platform {
            Platform::Linux | Platform::Macos | Platform::Windows => AudioBackendService::DesktopControl {
                platform,
                native_readiness,
            },
            _ => AudioBackendService::Unsupported { platform },
        }
    }

    /// The capabilities reported to clients.
    pub fn capabilities(&self) -> (c: AudioStreamCapabilities)
        ensures
            self.capabilities_ok(c),
    {
        let p = match self {
            AudioBackendService::DesktopControl { platform, .. } => *platform,
            AudioBackendService::Unsupported { platform } => *platform,
        };
        let native = match self {
            AudioBackendService::DesktopControl { platform, native_readiness } => match native_kind_of(*platform) {
                Some(_) => Some(native_readiness),
                None => None,
            },
            AudioBackendService::Unsupported { .. } => None,
        };
        match native {
            Some(r) => {
                let inject = is_state_available(
                    r.leg_state_of(p, AudioBackendLeg::ServerMicrophoneInjection),
                );
                AudioStreamCapabilities {
                    system_audio: capability(true, Some("desktop audio control-plane support is available")),
                    microphone_capture: capability(
                        true,
                        Some("desktop microphone control-plane support is available"),
                    ),
                    microphone_injection: if inject {
                        capability(true, None)
                    } else {
                        capability(
                            false,
                            Some("server-side microphone injection backend is not implemented yet"),
                        )
                    },
                    echo_cancellation: capability(true, None),
                    device_selection: capability(true, None),
                }
            },
            None => {
                let name = platform_name_text(p);
                let reason = concat2("audio streaming is unsupported on ", name);
                AudioStreamCapabilities {
                    system_audio: AudioCapability { supported: false, reason: Some(reason.clone()) },
                    microphone_capture: AudioCapability { supported: false, reason: Some(reason.clone()) },
                    microphone_injection: AudioCapability { supported: false, reason: Some(reason.clone()) },
                    echo_cancellation: AudioCapability { supported: false, reason: Some(reason.clone()) },
                    device_selection: AudioCapability { supported: false, reason: Some(reason) },
                }
            },
        }
    }

    /// The contract of this backend when each leg would carry `media` (in reporting order),
    /// before runtime failures are applied.
    pub(crate) fn contract_with_media(&self, media: &Vec<AudioBackendMediaStats>) -> (c: AudioBackendContract)
        requires
            media@.len() == 4,
        ensures
            self.contract_ok(c, media_by_position(media@), no_failures()),
    {
        match self {
            AudioBackendService::DesktopControl { platform, native_readiness } => match native_kind_of(*platform) {
                Some(kind) => desktop_contract(*platform, kind, native_readiness, media),
                None => unsupported_contract(*platform),
            },
            AudioBackendService::Unsupported { platform } => unsupported_contract(*platform),
        }
    }

    /// The contract reported with no media session: no leg carries media.
    pub fn backend_contract(&self) -> (c: AudioBackendContract)
        ensures
            self.contract_ok(c, quiet_media(), no_failures()),
    {
        let mut media: Vec<AudioBackendMediaStats> = Vec::new();
        media.push(AudioBackendMediaStats::default());
        media.push(AudioBackendMediaStats::default());
        media.push(AudioBackendMediaStats::default());
        media.push(AudioBackendMediaStats::default());
        let c = self.contract_with_media(&media);
        assert(media@[0] == no_media() && media@[1] == no_media() && media@[2] == no_media() && media@[3] == no_media());
        c
    }

    /// The microphone injection state of a stream whose microphone is `mode`.
    pub fn microphone_injection_state(&self, mode: MicrophoneMode) -> (s: MicrophoneInjectionState)
        ensures
            self.injection_state_ok(s, mode),
    {
        let p = match self {
            AudioBackendService::DesktopControl { platform, .. } => *platform,
            AudioBackendService::Unsupported { platform } => *platform,
        };
        let native = match self {
            AudioBackendService::DesktopControl { platform, native_readiness } => match native_kind_of(*platform) {
                Some(_) => Some(native_readiness),
                None => None,
            },
            AudioBackendService::Unsupported { .. } => None,
        };
        let requested = match mode {
            MicrophoneMode::Enabled => true,
            MicrophoneMode::Disabled => false,
        };
        let (supported, readiness) = match native {
            Some(r) => if is_state_available(r.leg_state_of(p, AudioBackendLeg::ServerMicrophoneInjection)) {
                (true, AudioBackendReadiness::NativeAvailable)
            } else {
                (false, AudioBackendReadiness::PlannedNative)
            },
            None => (false, AudioBackendReadiness::Unsupported),
        };
        let active = requested && supported && readiness == AudioBackendReadiness::NativeAvailable;
        let reason = if !requested {
            Some(String::from_str("microphone input is disabled for this session"))
        } else if active {
            None
        } else if !supported {
            match native {
                Some(_) => Some(
                    String::from_str("server-side microphone injection backend is not implemented yet"),
                ),
                None => Some(concat2("audio streaming is unsupported on ", platform_name_text(p))),
            }
        } else {
            Some(String::from_str("microphone injection is waiting for transport media"))
        };
        MicrophoneInjectionState { requested, active, readiness, reason }
    }

    /// How far server microphone injection is from carrying media.
    pub fn microphone_injection_readiness(&self) -> (r: AudioBackendReadiness)
        ensures
            r == self.injection_readiness(),
    {
        let p = match self {
            AudioBackendService::DesktopControl { platform, .. } => *platform,
            AudioBackendService::Unsupported { platform } => *platform,
        };
        match self {
            AudioBackendService::DesktopControl { platform, native_readiness } => match native_kind_of(*platform) {
                Some(_) => if is_state_available(
                    native_readiness.leg_state_of(p, AudioBackendLeg::ServerMicrophoneInjection),
                ) {
                    AudioBackendReadiness::NativeAvailable
                } else {
                    AudioBackendReadiness::PlannedNative
                },
                None => AudioBackendReadiness::Unsupported,
            },
            AudioBackendService::Unsupported { .. } => AudioBackendReadiness::Unsupported,
        }
    }

    /// Streams can be started on a desktop with a native backend; elsewhere the system
    /// audio stream is unsupported.
    pub fn ensure_supported(&self) -> (r: Result<(), AppRelayError>)
        ensures
            r is Ok <==> self.supported(),
            r matches Err(e) ==> e == (AppRelayError::Unsupported { platform: self.platform(), feature: Feature::SystemAudioStream }),
    {
        match self {
            AudioBackendService::DesktopControl { platform, .. } => match native_kind_of(*platform) {
                Some(_) => Ok(()),
                None => Err(AppRelayError::unsupported(*platform, Feature::SystemAudioStream)),
            },
            AudioBackendService::Unsupported { platform } => Err(
                AppRelayError::unsupported(*platform, Feature::SystemAudioStream),
            ),
        }
    }
}


/// Production readiness claims no native leg: on every platform, every leg of a backend
/// built with it is not implemented, so none is available.
pub proof fn lemma_production_readiness_has_no_leg(p: Platform, leg: AudioBackendLeg)
    ensures
        leg_state(p, empty_readiness(), leg) == NativeLegState::NotImplemented,
        !state_available(leg_state(p, empty_readiness(), leg)),
{
}

} // verus!
