//! Value types of audio streams: requests, stream state, capabilities and the native
//! backend contract reported with each stream.

use vstd::prelude::*;

verus! {

/// One direction of native audio media.
#[derive(Clone, Copy, Debug, PartialEq, Eq, Structural)]
pub enum AudioBackendLeg {
    Capture,
    Playback,
    ClientMicrophoneCapture,
    ServerMicrophoneInjection,
}

/// The backend that carries (or is planned to carry) audio.
#[derive(Clone, Copy, Debug, PartialEq, Eq, Structural)]
pub enum AudioBackendKind {
    ControlPlane,
    PipeWire,
    CoreAudio,
    Wasapi,
    Unsupported,
}

/// How far a backend, or one leg of it, is from carrying media.
#[derive(Clone, Copy, Debug, PartialEq, Eq, Structural)]
pub enum AudioBackendReadiness {
    Unsupported,
    ControlPlaneOnly,
    PlannedNative,
    NativeAvailable,
}

/// Why a backend leg carries no media.
#[derive(Clone, Copy, Debug, PartialEq, Eq, Structural)]
pub enum AudioBackendFailureKind {
    UnsupportedPlatform,
    NativeBackendNotImplemented,
}

/// Media counters of one backend leg.
#[derive(Clone, Copy, Debug, PartialEq, Eq, Structural)]
pub struct AudioBackendMediaStats {
    pub available: bool,
    pub packets_sent: u64,
    pub packets_received: u64,
    pub bytes_sent: u64,
    pub bytes_received: u64,
    pub latency_ms: u32,
}

/// The counters of a leg that carries nothing.
pub open spec fn no_media() -> AudioBackendMediaStats {
    AudioBackendMediaStats {
        available: false,
        packets_sent: 0,
        packets_received: 0,
        bytes_sent: 0,
        bytes_received: 0,
        latency_ms: 0,
    }
}

impl Default for AudioBackendMediaStats {
    fn default() -> (m: Self)
        ensures
            m == no_media(),
    {
        AudioBackendMediaStats {
            available: false,
            packets_sent: 0,
            packets_received: 0,
            bytes_sent: 0,
            bytes_received: 0,
            latency_ms: 0,
        }
    }
}

/// Why a leg is unavailable, and what to do about it.
#[derive(Debug, PartialEq, Eq)]
pub struct AudioBackendFailure {
    pub kind: AudioBackendFailureKind,
    pub message: String,
    pub recovery: String,
}

impl Clone for AudioBackendFailure {
    fn clone(&self) -> (r: Self)
        ensures
            r == *self,
    {
        AudioBackendFailure {
            kind: self.kind,
            message: self.message.clone(),
            recovery: self.recovery.clone(),
        }
    }
}

/// The state of one backend leg.
#[derive(Debug, PartialEq, Eq)]
pub struct AudioBackendStatus {
    pub leg: AudioBackendLeg,
    pub backend: AudioBackendKind,
    pub available: bool,
    pub readiness: AudioBackendReadiness,
    pub media: AudioBackendMediaStats,
    pub failure: Option<AudioBackendFailure>,
}

impl Clone for AudioBackendStatus {
    fn clone(&self) -> (r: Self)
        ensures
            r == *self,
    {
        AudioBackendStatus {
            leg: self.leg,
            backend: self.backend,
            available: self.available,
            readiness: self.readiness,
            media: self.media,
            failure: match &self.failure {
                Some(f) => Some(f.clone()),
                None => None,
            },
        }
    }
}

/// The native backend contract of a stream: which backends are planned, the state of each
/// leg, the overall readiness and notes for the client.
#[derive(Debug, PartialEq, Eq)]
pub struct AudioBackendContract {
    pub control_plane: AudioBackendKind,
    pub planned_capture: AudioBackendKind,
    pub planned_playback: AudioBackendKind,
    pub planned_microphone: AudioBackendKind,
    pub statuses: Vec<AudioBackendStatus>,
    pub readiness: AudioBackendReadiness,
    pub notes: Vec<String>,
}

/// A copy of a list of strings.
pub fn clone_strings(v: &Vec<String>) -> (r: Vec<String>)
    ensures
        r@ == v@,
{
    let mut r: Vec<String> = Vec::new();
    let mut i: usize = 0;
    while i < v.len()
        invariant
            i <= v@.len(),
            r@ == v@.take(i as int),
        decreases v@.len() - i,
    {
        r.push(v[i].clone());
        i = i + 1;
        assert(r@ =~= v@.take(i as int));
    }
    assert(v@.take(v@.len() as int) =~= v@);
    r
}

/// A copy of a list of leg states.
pub fn clone_statuses(v: &Vec<AudioBackendStatus>) -> (r: Vec<AudioBackendStatus>)
    ensures
        r@ == v@,
{
    let mut r: Vec<AudioBackendStatus> = Vec::new();
    let mut i: usize = 0;
    while i < v.len()
        invariant
            i <= v@.len(),
            r@ == v@.take(i as int),
        decreases v@.len() - i,
    {
        r.push(v[i].clone());
        i = i + 1;
        assert(r@ =~= v@.take(i as int));
    }
    assert(v@.take(v@.len() as int) =~= v@);
    r
}

impl Clone for AudioBackendContract {
    fn clone(&self) -> (r: Self)
        ensures
            r.control_plane == self.control_plane,
            r.planned_capture == self.planned_capture,
            r.planned_playback == self.planned_playback,
            r.planned_microphone == self.planned_microphone,
            r.statuses@ == self.statuses@,
            r.readiness == self.readiness,
            r.notes@ == self.notes@,
    {
        AudioBackendContract {
            control_plane: self.control_plane,
            planned_capture: self.planned_capture,
            planned_playback: self.planned_playback,
            planned_microphone: self.planned_microphone,
            statuses: clone_statuses(&self.statuses),
            readiness: self.readiness,
            notes: clone_strings(&self.notes),
        }
    }
}

/// A copy of an optional string.
pub fn clone_opt_string(o: &Option<String>) -> (r: Option<String>)
    ensures
        r == *o,
{
    match o {
        Some(s) => Some(s.clone()),
        None => None,
    }
}

/// Whether an audio feature is offered, and why (not).
#[derive(Debug, PartialEq, Eq)]
pub struct AudioCapability {
    pub supported: bool,
    pub reason: Option<String>,
}

impl Clone for AudioCapability {
    fn clone(&self) -> (r: Self)
        ensures
            r == *self,
    {
        AudioCapability { supported: self.supported, reason: clone_opt_string(&self.reason) }
    }
}

/// The audio features a backend offers.
#[derive(Debug, PartialEq, Eq)]
pub struct AudioStreamCapabilities {
    pub system_audio: AudioCapability,
    pub microphone_capture: AudioCapability,
    pub microphone_injection: AudioCapability,
    pub echo_cancellation: AudioCapability,
    pub device_selection: AudioCapability,
}

impl Clone for AudioStreamCapabilities {
    fn clone(&self) -> (r: Self)
        ensures
            r == *self,
    {
        AudioStreamCapabilities {
            system_audio: self.system_audio.clone(),
            microphone_capture: self.microphone_capture.clone(),
            microphone_injection: self.microphone_injection.clone(),
            echo_cancellation: self.echo_cancellation.clone(),
            device_selection: self.device_selection.clone(),
        }
    }
}

/// What audio a stream captures.
#[derive(Clone, Copy, Debug, PartialEq, Eq, Structural)]
pub enum AudioCaptureScope {
    SelectedApplication,
}

/// The application and window whose audio a stream carries.
#[derive(Debug, PartialEq, Eq)]
pub struct AudioSource {
    pub scope: AudioCaptureScope,
    pub selected_window_id: String,
    pub application_id: String,
    pub title: String,
}

impl Clone for AudioSource {
    fn clone(&self) -> (r: Self)
        ensures
            r == *self,
    {
        AudioSource {
            scope: self.scope,
            selected_window_id: self.selected_window_id.clone(),
            application_id: self.application_id.clone(),
            title: self.title.clone(),
        }
    }
}

/// The output and input devices chosen for a stream, if any.
#[derive(Debug, PartialEq, Eq)]
pub struct AudioDeviceSelection {
    pub output_device_id: Option<String>,
    pub input_device_id: Option<String>,
}

impl Clone for AudioDeviceSelection {
    fn clone(&self) -> (r: Self)
        ensures
            r == *self,
    {
        AudioDeviceSelection {
            output_device_id: clone_opt_string(&self.output_device_id),
            input_device_id: clone_opt_string(&self.input_device_id),
        }
    }
}

/// Which directions of a stream are muted.
#[derive(Clone, Copy, Debug, PartialEq, Eq, Structural)]
pub struct AudioMuteState {
    pub system_audio_muted: bool,
    pub microphone_muted: bool,
}

/// Whether the client's microphone takes part in a stream.
#[derive(Clone, Copy, Debug, PartialEq, Eq, Structural)]
pub enum MicrophoneMode {
    Disabled,
    Enabled,
}

/// Whether the client's microphone is injected on the server.
#[derive(Debug, PartialEq, Eq)]
pub struct MicrophoneInjectionState {
    pub requested: bool,
    pub active: bool,
    pub readiness: AudioBackendReadiness,
    pub reason: Option<String>,
}

impl Clone for MicrophoneInjectionState {
    fn clone(&self) -> (r: Self)
        ensures
            r == *self,
    {
        MicrophoneInjectionState {
            requested: self.requested,
            active: self.active,
            readiness: self.readiness,
            reason: clone_opt_string(&self.reason),
        }
    }
}

/// Whether a stream is healthy, with a message.
#[derive(Debug, PartialEq, Eq)]
pub struct AudioStreamHealth {
    pub healthy: bool,
    pub message: Option<String>,
}

impl Clone for AudioStreamHealth {
    fn clone(&self) -> (r: Self)
        ensures
            r == *self,
    {
        AudioStreamHealth { healthy: self.healthy, message: clone_opt_string(&self.message) }
    }
}

/// Media counters of a whole stream.
#[derive(Clone, Copy, Debug, PartialEq, Eq, Structural)]
pub struct AudioStreamStats {
    pub packets_sent: u64,
    pub packets_received: u64,
    pub latency_ms: u32,
}

/// The lifecycle state of a stream.
#[derive(Clone, Copy, Debug, PartialEq, Eq, Structural)]
pub enum AudioStreamState {
    Streaming,
    Stopped,
}

/// An audio stream of an application session.
#[derive(Debug, PartialEq, Eq)]
pub struct AudioStreamSession {
    pub id: String,
    pub session_id: String,
    pub selected_window_id: String,
    pub source: AudioSource,
    pub devices: AudioDeviceSelection,
    pub microphone: MicrophoneMode,
    pub microphone_injection: MicrophoneInjectionState,
    pub mute: AudioMuteState,
    pub capabilities: AudioStreamCapabilities,
    pub stats: AudioStreamStats,
    pub health: AudioStreamHealth,
    pub state: AudioStreamState,
    pub backend: Option<AudioBackendContract>,
}

/// Whether two contracts hold the same values.
pub open spec fn same_contract(a: AudioBackendContract, b: AudioBackendContract) -> bool {
    &&& a.control_plane == b.control_plane
    &&& a.planned_capture == b.planned_capture
    &&& a.planned_playback == b.planned_playback
    &&& a.planned_microphone == b.planned_microphone
    &&& a.statuses@ == b.statuses@
    &&& a.readiness == b.readiness
    &&& a.notes@ == b.notes@
}

/// Whether two optional contracts hold the same values.
pub open spec fn same_opt_contract(a: Option<AudioBackendContract>, b: Option<AudioBackendContract>) -> bool {
    match (a, b) {
        (Some(x), Some(y)) => same_contract(x, y),
        (None, None) => true,
        _ => false,
    }
}

/// Whether two streams hold the same values.
pub open spec fn same_stream(a: AudioStreamSession, b: AudioStreamSession) -> bool {
    &&& a.id == b.id
    &&& a.session_id == b.session_id
    &&& a.selected_window_id == b.selected_window_id
    &&& a.source == b.source
    &&& a.devices == b.devices
    &&& a.microphone == b.microphone
    &&& a.microphone_injection == b.microphone_injection
    &&& a.mute == b.mute
    &&& a.capabilities == b.capabilities
    &&& a.stats == b.stats
    &&& a.health == b.health
    &&& a.state == b.state
    &&& same_opt_contract(a.backend, b.backend)
}

impl Clone for AudioStreamSession {
    fn clone(&self) -> (r: Self)
        ensures
            same_stream(r, *self),
    {
        AudioStreamSession {
            id: self.id.clone(),
            session_id: self.session_id.clone(),
            selected_window_id: self.selected_window_id.clone(),
            source: self.source.clone(),
            devices: self.devices.clone(),
            microphone: self.microphone,
            microphone_injection: self.microphone_injection.clone(),
            mute: self.mute,
            capabilities: self.capabilities.clone(),
            stats: self.stats,
            health: self.health.clone(),
            state: self.state,
            backend: match &self.backend {
                Some(c) => Some(c.clone()),
                None => None,
            },
        }
    }
}

/// A request to start an audio stream for a session.
#[derive(Debug, PartialEq, Eq)]
pub struct StartAudioStreamRequest {
    pub session_id: String,
    pub microphone: MicrophoneMode,
    pub system_audio_muted: bool,
    pub microphone_muted: bool,
    pub output_device_id: Option<String>,
    pub input_device_id: Option<String>,
}

/// A request to stop an audio stream.
#[derive(Debug, PartialEq, Eq)]
pub struct StopAudioStreamRequest {
    pub stream_id: String,
}

/// A request to change the mute state and devices of an audio stream.
#[derive(Debug, PartialEq, Eq)]
pub struct UpdateAudioStreamRequest {
    pub stream_id: String,
    pub system_audio_muted: bool,
    pub microphone_muted: bool,
    pub output_device_id: Option<String>,
    pub input_device_id: Option<String>,
}

} // verus!
