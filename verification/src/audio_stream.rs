//! Audio streams of application sessions, kept in memory: their control-plane state, and
//! the native media that the backend's runtimes report for each leg.

use vstd::prelude::*;
use crate::audio_backend::{
    AudioBackendNativeReadiness, AudioBackendService, PipeWireCaptureAdapterState, media_bounded,
    media_by_position, no_failures, quiet_media, started_media, MEDIA_COUNTER_LIMIT,
};
use crate::audio_protocol::{
    AudioBackendContract, AudioBackendFailure, AudioBackendFailureKind, AudioBackendLeg,
    AudioBackendMediaStats, AudioBackendReadiness, AudioBackendStatus, AudioCaptureScope,
    AudioDeviceSelection, AudioMuteState, AudioSource, AudioStreamHealth, AudioStreamSession,
    AudioStreamState, AudioStreamStats, MicrophoneMode, StartAudioStreamRequest,
    StopAudioStreamRequest, UpdateAudioStreamRequest, no_media, same_stream,
};
use crate::audio_runtime::{LegKey, LegTable, stream_keys};
use crate::decimal::{dec, write_dec};
use crate::protocol::{AppRelayError, ApplicationSession, SessionState, opt_text};
use crate::text::{chars_of, extend_chars, string_from_chars};

verus! {

/// The id of the `n`-th audio stream.
pub open spec fn audio_stream_id(n: nat) -> Seq<char> {
    "audio-stream-"@ + dec(n)
}

/// Whether the mute state silences a leg.
pub open spec fn leg_muted(leg: AudioBackendLeg, mute: AudioMuteState) -> bool {
    match leg {
        AudioBackendLeg::Capture | AudioBackendLeg::Playback => mute.system_audio_muted,
        _ => mute.microphone_muted,
    }
}

/// The device a leg uses, if one was chosen.
pub open spec fn selected_device(leg: AudioBackendLeg, d: AudioDeviceSelection) -> Option<Seq<char>> {
    match leg {
        AudioBackendLeg::Playback => opt_text(d.output_device_id),
        AudioBackendLeg::ClientMicrophoneCapture | AudioBackendLeg::ServerMicrophoneInjection => opt_text(
            d.input_device_id,
        ),
        AudioBackendLeg::Capture => None,
    }
}

/// Whether the device a leg uses is unavailable.
pub open spec fn device_gone(leg: AudioBackendLeg, d: AudioDeviceSelection, unavailable: Seq<Seq<char>>) -> bool {
    selected_device(leg, d) matches Some(id) && unavailable.contains(id)
}

/// The media a leg carries if it is available: nothing when muted or when its device is
/// gone, otherwise what its runtime reports.
pub open spec fn candidate_media(muted: bool, gone: bool, session: Option<AudioBackendMediaStats>) -> AudioBackendMediaStats {
    if muted || gone {
        no_media()
    } else {
        match session {
            Some(m) => m,
            None => no_media(),
        }
    }
}

/// The media each leg of stream `id` would carry.
pub open spec fn stream_media(
    media: Map<LegKey, AudioBackendMediaStats>,
    id: Seq<char>,
    mute: AudioMuteState,
    d: AudioDeviceSelection,
    unavailable: Seq<Seq<char>>,
) -> spec_fn(AudioBackendLeg) -> AudioBackendMediaStats {
    |leg: AudioBackendLeg|
        candidate_media(leg_muted(leg, mute), device_gone(leg, d, unavailable), media.index_opt((id, leg)))
}

/// The runtime failures recorded for the legs of stream `id`.
pub open spec fn stream_failures(failures: Map<LegKey, AudioBackendFailure>, id: Seq<char>) -> spec_fn(
    AudioBackendLeg,
) -> Option<AudioBackendFailure> {
    |leg: AudioBackendLeg| failures.index_opt((id, leg))
}

/// Different stream numbers give different stream ids.
pub proof fn lemma_audio_stream_id_injective(a: nat, b: nat)
    requires
        audio_stream_id(a) == audio_stream_id(b),
    ensures
        a == b,
{
    let p = "audio-stream-"@;
    assert(audio_stream_id(a).subrange(p.len() as int, audio_stream_id(a).len() as int) =~= dec(a));
    assert(audio_stream_id(b).subrange(p.len() as int, audio_stream_id(b).len() as int) =~= dec(b));
    crate::decimal::lemma_dec(a);
    crate::decimal::lemma_dec(b);
}

/// The packets sent by the legs that carry media.
pub open spec fn sent_total(s: Seq<AudioBackendStatus>) -> int
    decreases s.len(),
{
    if s.len() == 0 {
        0
    } else {
        sent_total(s.drop_last()) + if s.last().media.available {
            s.last().media.packets_sent as int
        } else {
            0
        }
    }
}

/// The packets received by the legs that carry media.
pub open spec fn received_total(s: Seq<AudioBackendStatus>) -> int
    decreases s.len(),
{
    if s.len() == 0 {
        0
    } else {
        received_total(s.drop_last()) + if s.last().media.available {
            s.last().media.packets_received as int
        } else {
            0
        }
    }
}

/// The highest latency among the legs that carry media.
pub open spec fn latency_peak(s: Seq<AudioBackendStatus>) -> int
    decreases s.len(),
{
    if s.len() == 0 {
        0
    } else {
        let rest = latency_peak(s.drop_last());
        let here = if s.last().media.available {
            s.last().media.latency_ms as int
        } else {
            0
        };
        if here > rest {
            here
        } else {
            rest
        }
    }
}

/// The stream counters summed over the legs of a contract that carry media.
pub open spec fn stats_match(stats: AudioStreamStats, s: Seq<AudioBackendStatus>) -> bool {
    &&& stats.packets_sent as int == sent_total(s)
    &&& stats.packets_received as int == received_total(s)
    &&& stats.latency_ms as int == latency_peak(s)
}

pub open spec fn statuses_bounded(s: Seq<AudioBackendStatus>) -> bool {
    forall|i: int| 0 <= i < s.len() ==> media_bounded(#[trigger] s[i].media)
}

/// A health with the given flag and message.
pub open spec fn health_is(h: AudioStreamHealth, healthy: bool, message: Seq<char>) -> bool {
    h.healthy == healthy && opt_text(h.message) == Some(message)
}

/// The health of a stream whose devices are `d`: an unavailable output device, then an
/// unavailable input device, make it unhealthy.
pub open spec fn device_health_ok(
    h: AudioStreamHealth,
    d: AudioDeviceSelection,
    unavailable: Seq<Seq<char>>,
    healthy_message: Seq<char>,
) -> bool {
    if opt_text(d.output_device_id) matches Some(o) && unavailable.contains(o) {
        health_is(h, false, "selected output device "@ + opt_text(d.output_device_id)->0 + " is unavailable"@)
    } else if opt_text(d.input_device_id) matches Some(i) && unavailable.contains(i) {
        health_is(h, false, "selected input device "@ + opt_text(d.input_device_id)->0 + " is unavailable"@)
    } else {
        health_is(h, true, healthy_message)
    }
}

pub open spec fn string_views(v: Seq<String>) -> Seq<Seq<char>> {
    v.map_values(|s: String| s@)
}

/// The failure recorded when a configured PipeWire capture runtime does not start.
pub open spec fn start_failure_ok(f: AudioBackendFailure) -> bool {
    &&& f.kind == AudioBackendFailureKind::NativeBackendNotImplemented
    &&& f.message@ == "desktop audio capture via PipeWire is configured, but the capture runtime failed to start"@
    &&& f.recovery@ == "keep the control-plane stream active and check the PipeWire capture command configuration"@
}

/// The PipeWire adapter of a Linux desktop backend.
pub open spec fn pipewire_adapter(b: AudioBackendService) -> Option<PipeWireCaptureAdapterState> {
    match b {
        AudioBackendService::DesktopControl { platform, native_readiness } => if platform
            == crate::protocol::Platform::Linux {
            native_readiness@.pipewire
        } else {
            None
        },
        AudioBackendService::Unsupported { .. } => None,
    }
}

/// The media a runtime reports for `leg` of a stream with microphone `mode`, if a runtime
/// for that leg starts: capture from a PipeWire runtime, playback always, the microphone
/// legs only when the microphone is enabled.
pub open spec fn runtime_media(b: AudioBackendService, leg: AudioBackendLeg, mode: MicrophoneMode) -> Option<
    AudioBackendMediaStats,
> {
    match leg {
        AudioBackendLeg::Capture => match pipewire_adapter(b) {
            Some(PipeWireCaptureAdapterState::FakeCapture { media }) => Some(started_media(media)),
            _ => None,
        },
        AudioBackendLeg::Playback => match b.readiness() {
            Some(r) => match r.playback {
                Some(m) => Some(started_media(m)),
                None => None,
            },
            None => None,
        },
        AudioBackendLeg::ClientMicrophoneCapture => if mode == MicrophoneMode::Enabled {
            match b.readiness() {
                Some(r) => match r.microphone_capture {
                    Some(m) => Some(started_media(m)),
                    None => None,
                },
                None => None,
            }
        } else {
            None
        },
        AudioBackendLeg::ServerMicrophoneInjection => if mode == MicrophoneMode::Enabled {
            match b.readiness() {
                Some(r) => match r.microphone_injection {
                    Some(m) => Some(started_media(m)),
                    None => None,
                },
                None => None,
            }
        } else {
            None
        },
    }
}

/// Whether a leg's runtime is configured but fails to start.
pub open spec fn runtime_fails(b: AudioBackendService, leg: AudioBackendLeg) -> bool {
    leg == AudioBackendLeg::Capture && pipewire_adapter(b) == Some(
        PipeWireCaptureAdapterState::FakeStartFailure,
    )
}

/// The records of key `k` after the runtime of its leg was started (`m0`, `f0` before,
/// `m1`, `f1` after): started media replaces any failure, a failing start replaces any
/// media, and an absent runtime leaves both as they were.
pub open spec fn leg_started_ok(
    b: AudioBackendService,
    mode: MicrophoneMode,
    k: LegKey,
    m0: Map<LegKey, AudioBackendMediaStats>,
    f0: Map<LegKey, AudioBackendFailure>,
    m1: Map<LegKey, AudioBackendMediaStats>,
    f1: Map<LegKey, AudioBackendFailure>,
) -> bool {
    match runtime_media(b, k.1, mode) {
        Some(m) => m1.index_opt(k) == Some(m) && !f1.contains_key(k),
        None => if runtime_fails(b, k.1) {
            !m1.contains_key(k) && f1.contains_key(k) && start_failure_ok(f1[k])
        } else {
            m1.index_opt(k) == m0.index_opt(k) && f1.index_opt(k) == f0.index_opt(k)
        },
    }
}

/// The runtime records after the runtimes of stream `id` were started.
pub open spec fn runtime_started_ok(
    b: AudioBackendService,
    id: Seq<char>,
    mode: MicrophoneMode,
    m0: Map<LegKey, AudioBackendMediaStats>,
    f0: Map<LegKey, AudioBackendFailure>,
    m1: Map<LegKey, AudioBackendMediaStats>,
    f1: Map<LegKey, AudioBackendFailure>,
) -> bool {
    &&& m1.remove_keys(stream_keys(id)) == m0.remove_keys(stream_keys(id))
    &&& f1.remove_keys(stream_keys(id)) == f0.remove_keys(stream_keys(id))
    &&& leg_started_ok(b, mode, (id, AudioBackendLeg::Capture), m0, f0, m1, f1)
    &&& leg_started_ok(b, mode, (id, AudioBackendLeg::Playback), m0, f0, m1, f1)
    &&& leg_started_ok(b, mode, (id, AudioBackendLeg::ClientMicrophoneCapture), m0, f0, m1, f1)
    &&& leg_started_ok(b, mode, (id, AudioBackendLeg::ServerMicrophoneInjection), m0, f0, m1, f1)
}

/// The contract of an active stream: its legs' media under its mute state and devices,
/// with the runtime failures recorded for it.
pub open spec fn active_contract_ok(
    b: AudioBackendService,
    c: AudioBackendContract,
    media: Map<LegKey, AudioBackendMediaStats>,
    failures: Map<LegKey, AudioBackendFailure>,
    id: Seq<char>,
    mute: AudioMuteState,
    d: AudioDeviceSelection,
    unavailable: Seq<Seq<char>>,
) -> bool {
    b.contract_ok(c, stream_media(media, id, mute, d, unavailable), stream_failures(failures, id))
}

/// A stream's contract and counters, rebuilt from the runtime records.
pub open spec fn backend_of_stream_ok(
    b: AudioBackendService,
    s: AudioStreamSession,
    media: Map<LegKey, AudioBackendMediaStats>,
    failures: Map<LegKey, AudioBackendFailure>,
    unavailable: Seq<Seq<char>>,
) -> bool {
    s.backend matches Some(c) && active_contract_ok(
        b,
        c,
        media,
        failures,
        s.id@,
        s.mute,
        s.devices,
        unavailable,
    ) && stats_match(s.stats, c.statuses@)
}

/// The stream started by `request` for `session` as the `n`-th stream.
pub open spec fn started_stream_ok(
    s: AudioStreamSession,
    b: AudioBackendService,
    request: StartAudioStreamRequest,
    session: ApplicationSession,
    n: nat,
    media: Map<LegKey, AudioBackendMediaStats>,
    failures: Map<LegKey, AudioBackendFailure>,
    unavailable: Seq<Seq<char>>,
) -> bool {
    &&& s.id@ == audio_stream_id(n)
    &&& s.session_id@ == session.id@
    &&& s.selected_window_id@ == session.selected_window.id@
    &&& s.source.scope == AudioCaptureScope::SelectedApplication
    &&& s.source.selected_window_id@ == session.selected_window.id@
    &&& s.source.application_id@ == session.application_id@
    &&& s.source.title@ == session.selected_window.title@
    &&& s.devices.output_device_id == request.output_device_id
    &&& s.devices.input_device_id == request.input_device_id
    &&& s.microphone == request.microphone
    &&& b.injection_state_ok(s.microphone_injection, request.microphone)
    &&& s.mute == (AudioMuteState {
        system_audio_muted: request.system_audio_muted,
        microphone_muted: request.microphone_muted,
    })
    &&& b.capabilities_ok(s.capabilities)
    &&& health_is(s.health, true, "audio stream started"@)
    &&& s.state == AudioStreamState::Streaming
    &&& backend_of_stream_ok(b, s, media, failures, unavailable)
}

/// The message of an unknown session.
pub open spec fn session_not_found(id: Seq<char>) -> Seq<char> {
    "session "@ + id + " was not found"@
}

/// The message of an unknown stream.
pub open spec fn stream_not_found(id: Seq<char>) -> Seq<char> {
    "audio stream "@ + id + " was not found"@
}

/// The first stream with id `id` is at `k`.
pub open spec fn first_with_id(s: Seq<AudioStreamSession>, id: Seq<char>, k: int) -> bool {
    &&& 0 <= k < s.len()
    &&& s[k].id@ == id
    &&& forall|j: int| 0 <= j < k ==> (#[trigger] s[j]).id@ != id
}

pub open spec fn has_id(s: Seq<AudioStreamSession>, id: Seq<char>) -> bool {
    exists|k: int| 0 <= k < s.len() && (#[trigger] s[k]).id@ == id
}

/// The first stream with id `id` that is not stopped is at `k`.
pub open spec fn first_active_with_id(s: Seq<AudioStreamSession>, id: Seq<char>, k: int) -> bool {
    &&& 0 <= k < s.len()
    &&& s[k].id@ == id
    &&& s[k].state != AudioStreamState::Stopped
    &&& forall|j: int| 0 <= j < k ==> !((#[trigger] s[j]).id@ == id && s[j].state != AudioStreamState::Stopped)
}

pub open spec fn has_active_id(s: Seq<AudioStreamSession>, id: Seq<char>) -> bool {
    exists|k: int|
        0 <= k < s.len() && (#[trigger] s[k]).id@ == id && s[k].state != AudioStreamState::Stopped
}

/// Audio streams kept in memory, with the native media records of their legs.
pub struct InMemoryAudioStreamService {
    backend: AudioBackendService,
    media: LegTable<AudioBackendMediaStats>,
    failures: LegTable<AudioBackendFailure>,
    unavailable_device_ids: Vec<String>,
    streams: Vec<AudioStreamSession>,
    next_stream_number: u64,
    numbers: Ghost<Seq<nat>>,
}

impl InMemoryAudioStreamService {
    pub closed spec fn backend(&self) -> AudioBackendService {
        self.backend
    }

    /// The media that started runtimes report, per stream and leg.
    pub closed spec fn media(&self) -> Map<LegKey, AudioBackendMediaStats> {
        self.media@
    }

    /// The failures recorded for legs whose runtime did not start, per stream and leg.
    pub closed spec fn failures(&self) -> Map<LegKey, AudioBackendFailure> {
        self.failures@
    }

    /// The ids of the devices known to be unavailable.
    pub closed spec fn unavailable(&self) -> Seq<Seq<char>> {
        string_views(self.unavailable_device_ids@)
    }

    pub closed spec fn streams(&self) -> Seq<AudioStreamSession> {
        self.streams@
    }

    pub closed spec fn next_number(&self) -> nat {
        self.next_stream_number as nat
    }

    /// The number in the id of each stream.
    pub closed spec fn numbers(&self) -> Seq<nat> {
        self.numbers@
    }

    /// Every stream has the id `audio-stream-<n>` for a distinct `n` below the next number,
    /// numbers grow with the position, and every recorded counter is within the limit.
    pub open spec fn wf(&self) -> bool {
        &&& self.next_number() >= 1
        &&& self.backend().bounded()
        &&& forall|k: LegKey| #[trigger] self.media().contains_key(k) ==> media_bounded(self.media()[k])
        &&& self.numbers().len() == self.streams().len()
        &&& forall|i: int|
            0 <= i < self.streams().len() ==> (#[trigger] self.streams()[i]).id@ == audio_stream_id(
                self.numbers()[i],
            ) && self.numbers()[i] < self.next_number()
        &&& forall|i: int, j: int|
            0 <= i < j < self.numbers().len() ==> #[trigger] self.numbers()[i]
                < #[trigger] self.numbers()[j]
    }

    /// No two streams share an id.
    pub proof fn lemma_ids_unique(&self)
        requires
            self.wf(),
        ensures
            forall|i: int, j: int|
                0 <= i < self.streams().len() && 0 <= j < self.streams().len() && i != j
                    ==> #[trigger] self.streams()[i].id@ != #[trigger] self.streams()[j].id@,
    {
        assert forall|i: int, j: int|
            0 <= i < self.streams().len() && 0 <= j < self.streams().len() && i
                != j implies #[trigger] self.streams()[i].id@ != #[trigger] self.streams()[j].id@ by {
            if self.streams()[i].id@ == self.streams()[j].id@ {
                lemma_audio_stream_id_injective(self.numbers()[i], self.numbers()[j]);
            }
        }
    }

    /// Stream ids are unique, so asking for the status of any recorded stream by its id
    /// finds that very stream (for the stream just started, the last one).
    pub proof fn lemma_status_finds_stream(&self, k: int)
        requires
            self.wf(),
            0 <= k < self.streams().len(),
        ensures
            first_with_id(self.streams(), self.streams()[k].id@, k),
            has_id(self.streams(), self.streams()[k].id@),
    {
        self.lemma_ids_unique();
        assert forall|j: int| 0 <= j < k implies (#[trigger] self.streams()[j]).id@ != self.streams()[k].id@ by {
        }
    }

    /// Whether one more stream id can be issued.
    pub open spec fn has_room(&self) -> bool {
        self.next_number() < u64::MAX
    }

    /// A service on `backend` with no stream.
    pub fn new(backend: AudioBackendService) -> (s: Self)
        ensures
            s.backend() == backend,
            s.media() == Map::<LegKey, AudioBackendMediaStats>::empty(),
            s.failures() == Map::<LegKey, AudioBackendFailure>::empty(),
            s.unavailable() == Seq::<Seq<char>>::empty(),
            s.streams() == Seq::<AudioStreamSession>::empty(),
            s.next_number() == 1,
            backend.bounded() ==> s.wf(),
    {
        let s = InMemoryAudioStreamService {
            backend,
            media: LegTable::new(),
            failures: LegTable::new(),
            unavailable_device_ids: Vec::new(),
            streams: Vec::new(),
            next_stream_number: 1,
            numbers: Ghost(Seq::empty()),
        };
        assert(s.unavailable() =~= Seq::<Seq<char>>::empty());
        s
    }
}

fn text3(a: &str, b: &str, c: &str) -> (r: String)
    ensures
        r@ == a@ + b@ + c@,
{
    let mut v = chars_of(a);
    extend_chars(&mut v, &chars_of(b));
    extend_chars(&mut v, &chars_of(c));
    string_from_chars(&v)
}

fn stream_id_text(n: u64) -> (s: String)
    ensures
        s@ == audio_stream_id(n as nat),
{
    let mut v = chars_of("audio-stream-");
    write_dec(n, &mut v);
    string_from_chars(&v)
}

fn contains_text(v: &Vec<String>, id: &String) -> (b: bool)
    ensures
        b == string_views(v@).contains(id@),
{
    let mut i: usize = 0;
    while i < v.len()
        invariant
            i <= v@.len(),
            forall|j: int| 0 <= j < i ==> (#[trigger] v@[j])@ != id@,
        decreases v@.len() - i,
    {
        if v[i] == *id {
            assert(string_views(v@)[i as int] == id@);
            return true;
        }
        i = i + 1;
    }
    assert forall|j: int| 0 <= j < string_views(v@).len() implies string_views(v@)[j] != id@ by {
        assert(string_views(v@)[j] == v@[j]@);
    }
    false
}

/// The stream counters of a contract: packets summed and the highest latency, over the legs
/// that carry media.
fn stats_of(c: &AudioBackendContract) -> (r: AudioStreamStats)
    requires
        statuses_bounded(c.statuses@),
        c.statuses@.len() <= 4,
    ensures
        stats_match(r, c.statuses@),
{
    let ghost s = c.statuses@;
    let mut sent: u64 = 0;
    let mut received: u64 = 0;
    let mut latency: u32 = 0;
    let mut i: usize = 0;
    assert(s.take(0) =~= Seq::<AudioBackendStatus>::empty());
    while i < c.statuses.len()
        invariant
            s == c.statuses@,
            i <= s.len(),
            s.len() <= 4,
            statuses_bounded(s),
            sent as int == sent_total(s.take(i as int)),
            received as int == received_total(s.take(i as int)),
            latency as int == latency_peak(s.take(i as int)),
            sent <= (i as int) * (MEDIA_COUNTER_LIMIT as int),
            received <= (i as int) * (MEDIA_COUNTER_LIMIT as int),
        decreases s.len() - i,
    {
        proof {
            assert(s.take(i + 1).drop_last() =~= s.take(i as int));
            assert(s.take(i + 1).last() == s[i as int]);
            assert(media_bounded(s[i as int].media));
        }
        let m = c.statuses[i].media;
        if m.available {
            sent = sent + m.packets_sent;
            received = received + m.packets_received;
            if m.latency_ms > latency {
                latency = m.latency_ms;
            }
        }
        i = i + 1;
    }
    assert(s.take(s.len() as int) =~= s);
    AudioStreamStats { packets_sent: sent, packets_received: received, latency_ms: latency }
}

fn pipewire_capture_start_failure() -> (f: AudioBackendFailure)
    ensures
        start_failure_ok(f),
{
    AudioBackendFailure {
        kind: AudioBackendFailureKind::NativeBackendNotImplemented,
        message: String::from_str(
            "desktop audio capture via PipeWire is configured, but the capture runtime failed to start",
        ),
        recovery: String::from_str(
            "keep the control-plane stream active and check the PipeWire capture command configuration",
        ),
    }
}

impl InMemoryAudioStreamService {
    fn device_unavailable(&self, id: &Option<String>) -> (b: bool)
        ensures
            b == (opt_text(*id) matches Some(x) && self.unavailable().contains(x)),
    {
        match id {
            Some(s) => contains_text(&self.unavailable_device_ids, s),
            None => false,
        }
    }

    /// The media `leg` of stream `id` carries if available.
    fn leg_media_now(&self, id: &str, leg: AudioBackendLeg, mute: AudioMuteState, d: &AudioDeviceSelection) -> (m:
        AudioBackendMediaStats)
        requires
            self.wf(),
        ensures
            m == stream_media(self.media(), id@, mute, *d, self.unavailable())(leg),
            media_bounded(m),
    {
        let muted = match leg {
            AudioBackendLeg::Capture | AudioBackendLeg::Playback => mute.system_audio_muted,
            _ => mute.microphone_muted,
        };
        let gone = match leg {
            AudioBackendLeg::Playback => self.device_unavailable(&d.output_device_id),
            AudioBackendLeg::Capture => false,
            _ => self.device_unavailable(&d.input_device_id),
        };
        if muted || gone {
            AudioBackendMediaStats::default()
        } else {
            match self.media.get(id, leg) {
                Some(m) => {
                    assert(self.media().contains_key((id@, leg)));
                    *m
                },
                None => AudioBackendMediaStats::default(),
            }
        }
    }

    /// The contract of active stream `id` with the given mute state and devices, with the
    /// runtime failures of its legs applied.
    fn contract_for(&self, id: &str, mute: AudioMuteState, d: &AudioDeviceSelection) -> (c:
        AudioBackendContract)
        requires
            self.wf(),
        ensures
            active_contract_ok(
                self.backend(),
                c,
                self.media(),
                self.failures(),
                id@,
                mute,
                *d,
                self.unavailable(),
            ),
            statuses_bounded(c.statuses@),
            c.statuses@.len() == 4,
    {
        let ghost mo = stream_media(self.media(), id@, mute, *d, self.unavailable());
        let ghost fo = stream_failures(self.failures(), id@);
        let mut media: Vec<AudioBackendMediaStats> = Vec::new();
        media.push(self.leg_media_now(id, AudioBackendLeg::Capture, mute, d));
        media.push(self.leg_media_now(id, AudioBackendLeg::Playback, mute, d));
        media.push(self.leg_media_now(id, AudioBackendLeg::ClientMicrophoneCapture, mute, d));
        media.push(self.leg_media_now(id, AudioBackendLeg::ServerMicrophoneInjection, mute, d));
        let ghost mb = media_by_position(media@);
        assert(forall|i: int| 0 <= i < 4 ==> mb(crate::audio_backend::native_legs()[i]) == mo(
            crate::audio_backend::native_legs()[i],
        )) by {
            assert(mb(AudioBackendLeg::Capture) == mo(AudioBackendLeg::Capture));
            assert(mb(AudioBackendLeg::Playback) == mo(AudioBackendLeg::Playback));
            assert(mb(AudioBackendLeg::ClientMicrophoneCapture) == mo(
                AudioBackendLeg::ClientMicrophoneCapture,
            ));
            assert(mb(AudioBackendLeg::ServerMicrophoneInjection) == mo(
                AudioBackendLeg::ServerMicrophoneInjection,
            ));
        }
        let mut c = self.backend.contract_with_media(&media);
        proof {
            self.backend.lemma_contract_parts(c, mb, no_failures());
        }
        let legs = [
            AudioBackendLeg::Capture,
            AudioBackendLeg::Playback,
            AudioBackendLeg::ClientMicrophoneCapture,
            AudioBackendLeg::ServerMicrophoneInjection,
        ];
        assert(legs@ == crate::audio_backend::native_legs());
        let mut i: usize = 0;
        while i < 4
            invariant
                i <= 4,
                legs@ == crate::audio_backend::native_legs(),
                c.statuses@.len() == 4,
                self.backend().header_ok(c),
                forall|j: int| 0 <= j < 4 ==> mb(crate::audio_backend::native_legs()[j]) == mo(
                    crate::audio_backend::native_legs()[j],
                ),
                mo == stream_media(self.media(), id@, mute, *d, self.unavailable()),
                fo == stream_failures(self.failures(), id@),
                forall|j: int| 0 <= j < i ==> #[trigger] self.backend().status_ok(c.statuses@[j], j, mo, fo),
                forall|j: int|
                    i <= j < 4 ==> #[trigger] self.backend().status_ok(
                        c.statuses@[j],
                        j,
                        mb,
                        no_failures(),
                    ),
            decreases 4 - i,
        {
            let leg = legs[i];
            assert(self.backend().status_ok(c.statuses@[i as int], i as int, mb, no_failures()));
            assert(mb(leg) == mo(leg));
            match self.failures.get(id, leg) {
                Some(f) => {
                    let kind = c.statuses[i].backend;
                    let st = AudioBackendStatus {
                        leg,
                        backend: kind,
                        available: false,
                        readiness: AudioBackendReadiness::PlannedNative,
                        media: AudioBackendMediaStats::default(),
                        failure: Some(f.clone()),
                    };
                    c.statuses.set(i, st);
                    assert(fo(leg) == Some(*f));
                    assert(self.backend().status_ok(c.statuses@[i as int], i as int, mo, fo));
                },
                None => {
                    assert(fo(leg) is None);
                    assert(self.backend().status_ok(c.statuses@[i as int], i as int, mo, fo));
                },
            }
            i = i + 1;
        }
        proof {
            self.backend().lemma_contract_parts(c, mo, fo);
            assert forall|j: int| 0 <= j < c.statuses@.len() implies media_bounded(
                #[trigger] c.statuses@[j].media,
            ) by {
                assert(self.backend().status_ok(c.statuses@[j], j, mo, fo));
                self.backend().lemma_status_media(c.statuses@[j], j, mo, fo);
                let leg = crate::audio_backend::native_legs()[j];
                if self.media().contains_key((id@, leg)) {
                    assert(media_bounded(self.media()[(id@, leg)]));
                }
            }
        }
        c
    }

    /// The health of a stream with devices `d`.
    fn device_health(&self, d: &AudioDeviceSelection, healthy_message: &str) -> (h: AudioStreamHealth)
        ensures
            device_health_ok(h, *d, self.unavailable(), healthy_message@),
    {
        match &d.output_device_id {
            Some(o) => if contains_text(&self.unavailable_device_ids, o) {
                return AudioStreamHealth {
                    healthy: false,
                    message: Some(text3("selected output device ", o.as_str(), " is unavailable")),
                };
            },
            None => {},
        }
        match &d.input_device_id {
            Some(i) => if contains_text(&self.unavailable_device_ids, i) {
                return AudioStreamHealth {
                    healthy: false,
                    message: Some(text3("selected input device ", i.as_str(), " is unavailable")),
                };
            },
            None => {},
        }
        AudioStreamHealth { healthy: true, message: Some(String::from_str(healthy_message)) }
    }
}

/// Maps that agree outside key `k` agree outside any key set that holds `k`.
proof fn lemma_same_outside<V>(a: Map<LegKey, V>, b: Map<LegKey, V>, k: LegKey, keys: Set<LegKey>)
    requires
        b.remove(k) == a.remove(k),
        keys.contains(k),
    ensures
        b.remove_keys(keys) == a.remove_keys(keys),
{
    assert forall|x: LegKey| #[trigger] b.remove_keys(keys).contains_key(x) <==> a.remove_keys(keys).contains_key(x) by {
        if x != k {
            assert(b.remove(k).contains_key(x) == b.contains_key(x));
            assert(a.remove(k).contains_key(x) == a.contains_key(x));
        }
    }
    assert forall|x: LegKey| #[trigger] b.remove_keys(keys).contains_key(x) implies b.remove_keys(keys)[x] == a.remove_keys(keys)[x] by {
        assert(b.remove(k)[x] == b[x]);
        assert(a.remove(k)[x] == a[x]);
    }
    assert(b.remove_keys(keys) =~= a.remove_keys(keys));
}

/// Maps that agree outside key `k` agree at any other key.
proof fn lemma_kept<V>(a: Map<LegKey, V>, b: Map<LegKey, V>, k: LegKey, j: LegKey)
    requires
        b.remove(k) == a.remove(k),
        j != k,
    ensures
        b.index_opt(j) == a.index_opt(j),
{
    assert(b.remove(k).contains_key(j) == b.contains_key(j));
    assert(a.remove(k).contains_key(j) == a.contains_key(j));
    if b.contains_key(j) {
        assert(b.remove(k)[j] == b[j]);
        assert(a.remove(k)[j] == a[j]);
    }
}

/// Whether `leg_started_ok` holds depends only on the records of key `k`.
proof fn lemma_leg_started_frame(
    b: AudioBackendService,
    mode: MicrophoneMode,
    k: LegKey,
    m0: Map<LegKey, AudioBackendMediaStats>,
    f0: Map<LegKey, AudioBackendFailure>,
    m1: Map<LegKey, AudioBackendMediaStats>,
    f1: Map<LegKey, AudioBackendFailure>,
    n0: Map<LegKey, AudioBackendMediaStats>,
    g0: Map<LegKey, AudioBackendFailure>,
    n1: Map<LegKey, AudioBackendMediaStats>,
    g1: Map<LegKey, AudioBackendFailure>,
)
    requires
        leg_started_ok(b, mode, k, m0, f0, m1, f1),
        m0.index_opt(k) == n0.index_opt(k),
        f0.index_opt(k) == g0.index_opt(k),
        m1.index_opt(k) == n1.index_opt(k),
        f1.index_opt(k) == g1.index_opt(k),
    ensures
        leg_started_ok(b, mode, k, n0, g0, n1, g1),
{
    if f1.contains_key(k) {
        assert(g1.contains_key(k));
        assert(f1[k] == g1[k]);
    } else {
        assert(!g1.contains_key(k));
    }
    if m1.contains_key(k) {
        assert(n1.contains_key(k));
    } else {
        assert(!n1.contains_key(k));
    }
}

impl InMemoryAudioStreamService {
    fn runtime_media_now(&self, leg: AudioBackendLeg, mode: MicrophoneMode) -> (r: Option<
        AudioBackendMediaStats,
    >)
        requires
            self.wf(),
        ensures
            r == runtime_media(self.backend(), leg, mode),
            r matches Some(m) ==> media_bounded(m),
    {
        let enabled = match mode {
            MicrophoneMode::Enabled => true,
            MicrophoneMode::Disabled => false,
        };
        let configured = match &self.backend {
            AudioBackendService::DesktopControl { platform, native_readiness } => match leg {
                AudioBackendLeg::Capture => match platform {
                    crate::protocol::Platform::Linux => match native_readiness.pipewire_adapter() {
                        Some(PipeWireCaptureAdapterState::FakeCapture { media }) => Some(media),
                        _ => None,
                    },
                    _ => None,
                },
                AudioBackendLeg::Playback => native_readiness.playback(),
                AudioBackendLeg::ClientMicrophoneCapture => if enabled {
                    native_readiness.microphone_capture()
                } else {
                    None
                },
                AudioBackendLeg::ServerMicrophoneInjection => if enabled {
                    native_readiness.microphone_injection()
                } else {
                    None
                },
            },
            AudioBackendService::Unsupported { .. } => None,
        };
        match configured {
            Some(m) => Some(AudioBackendMediaStats { available: true, ..m }),
            None => None,
        }
    }

    fn runtime_fails_now(&self, leg: AudioBackendLeg) -> (b: bool)
        ensures
            b == runtime_fails(self.backend(), leg),
    {
        match (&self.backend, leg) {
            (
                AudioBackendService::DesktopControl { platform, native_readiness },
                AudioBackendLeg::Capture,
            ) => match platform {
                crate::protocol::Platform::Linux => match native_readiness.pipewire_adapter() {
                    Some(PipeWireCaptureAdapterState::FakeStartFailure) => true,
                    _ => false,
                },
                _ => false,
            },
            _ => false,
        }
    }

    /// Starts the runtime of `leg` of stream `id`, if one is configured.
    fn start_runtime_leg(&mut self, id: &str, leg: AudioBackendLeg, mode: MicrophoneMode)
        requires
            old(self).wf(),
        ensures
            final(self).wf(),
            final(self).backend() == old(self).backend(),
            final(self).streams() == old(self).streams(),
            final(self).unavailable() == old(self).unavailable(),
            final(self).next_number() == old(self).next_number(),
            final(self).numbers() == old(self).numbers(),
            leg_started_ok(
                old(self).backend(),
                mode,
                (id@, leg),
                old(self).media(),
                old(self).failures(),
                final(self).media(),
                final(self).failures(),
            ),
            final(self).media().remove((id@, leg)) == old(self).media().remove((id@, leg)),
            final(self).failures().remove((id@, leg)) == old(self).failures().remove((id@, leg)),
    {
        let ghost k = (id@, leg);
        match self.runtime_media_now(leg, mode) {
            Some(m) => {
                self.media.insert(id, leg, m);
                self.failures.remove(id, leg);
                assert(self.media().remove(k) =~= old(self).media().remove(k));
                assert(self.failures().remove(k) =~= old(self).failures().remove(k));
            },
            None => {
                if self.runtime_fails_now(leg) {
                    self.media.remove(id, leg);
                    self.failures.insert(id, leg, pipewire_capture_start_failure());
                    assert(self.media().remove(k) =~= old(self).media().remove(k));
                    assert(self.failures().remove(k) =~= old(self).failures().remove(k));
                }
            },
        }
    }

    /// Starts every configured runtime of stream `id`.
    fn start_runtimes(&mut self, id: &str, mode: MicrophoneMode)
        requires
            old(self).wf(),
        ensures
            final(self).wf(),
            final(self).backend() == old(self).backend(),
            final(self).streams() == old(self).streams(),
            final(self).unavailable() == old(self).unavailable(),
            final(self).next_number() == old(self).next_number(),
            final(self).numbers() == old(self).numbers(),
            runtime_started_ok(
                old(self).backend(),
                id@,
                mode,
                old(self).media(),
                old(self).failures(),
                final(self).media(),
                final(self).failures(),
            ),
    {
        let ghost b = self.backend();
        let ghost m0 = self.media();
        let ghost f0 = self.failures();
        let ghost k0 = (id@, AudioBackendLeg::Capture);
        let ghost k1 = (id@, AudioBackendLeg::Playback);
        let ghost k2 = (id@, AudioBackendLeg::ClientMicrophoneCapture);
        let ghost k3 = (id@, AudioBackendLeg::ServerMicrophoneInjection);
        self.start_runtime_leg(id, AudioBackendLeg::Capture, mode);
        let ghost m1 = self.media();
        let ghost f1 = self.failures();
        self.start_runtime_leg(id, AudioBackendLeg::Playback, mode);
        let ghost m2 = self.media();
        let ghost f2 = self.failures();
        self.start_runtime_leg(id, AudioBackendLeg::ClientMicrophoneCapture, mode);
        let ghost m3 = self.media();
        let ghost f3 = self.failures();
        self.start_runtime_leg(id, AudioBackendLeg::ServerMicrophoneInjection, mode);
        let ghost m4 = self.media();
        let ghost f4 = self.failures();
        proof {
            let keys = stream_keys(id@);
            assert(keys.contains(k0) && keys.contains(k1) && keys.contains(k2) && keys.contains(k3));
            lemma_same_outside(m0, m1, k0, keys);
            lemma_same_outside(m1, m2, k1, keys);
            lemma_same_outside(m2, m3, k2, keys);
            lemma_same_outside(m3, m4, k3, keys);
            lemma_same_outside(f0, f1, k0, keys);
            lemma_same_outside(f1, f2, k1, keys);
            lemma_same_outside(f2, f3, k2, keys);
            lemma_same_outside(f3, f4, k3, keys);
            // Each leg's records are set by its own step and kept by the others.
            lemma_kept(m1, m2, k1, k0);
            lemma_kept(m2, m3, k2, k0);
            lemma_kept(m3, m4, k3, k0);
            lemma_kept(f1, f2, k1, k0);
            lemma_kept(f2, f3, k2, k0);
            lemma_kept(f3, f4, k3, k0);
            lemma_leg_started_frame(b, mode, k0, m0, f0, m1, f1, m0, f0, m4, f4);
            lemma_kept(m0, m1, k0, k1);
            lemma_kept(f0, f1, k0, k1);
            lemma_kept(m2, m3, k2, k1);
            lemma_kept(m3, m4, k3, k1);
            lemma_kept(f2, f3, k2, k1);
            lemma_kept(f3, f4, k3, k1);
            lemma_leg_started_frame(b, mode, k1, m1, f1, m2, f2, m0, f0, m4, f4);
            lemma_kept(m0, m1, k0, k2);
            lemma_kept(m1, m2, k1, k2);
            lemma_kept(f0, f1, k0, k2);
            lemma_kept(f1, f2, k1, k2);
            lemma_kept(m3, m4, k3, k2);
            lemma_kept(f3, f4, k3, k2);
            lemma_leg_started_frame(b, mode, k2, m2, f2, m3, f3, m0, f0, m4, f4);
            lemma_kept(m0, m1, k0, k3);
            lemma_kept(m1, m2, k1, k3);
            lemma_kept(m2, m3, k2, k3);
            lemma_kept(f0, f1, k0, k3);
            lemma_kept(f1, f2, k1, k3);
            lemma_kept(f2, f3, k2, k3);
            lemma_leg_started_frame(b, mode, k3, m3, f3, m4, f4, m0, f0, m4, f4);
        }
    }
}

impl InMemoryAudioStreamService {
    /// The next stream id, `audio-stream-<n>`; the number moves on.
    #[verifier::spinoff_prover]
    fn next_stream_id(&mut self) -> (id: String)
        requires
            old(self).has_room(),
            old(self).wf(),
        ensures
            id@ == audio_stream_id(old(self).next_number()),
            final(self).next_number() == old(self).next_number() + 1,
            final(self).backend() == old(self).backend(),
            final(self).media() == old(self).media(),
            final(self).failures() == old(self).failures(),
            final(self).streams() == old(self).streams(),
            final(self).unavailable() == old(self).unavailable(),
            final(self).numbers() == old(self).numbers(),
            final(self).wf(),
    {
        let id = stream_id_text(self.next_stream_number);
        self.next_stream_number = self.next_stream_number + 1;
        assert forall|i: int| 0 <= i < self.streams().len() implies (#[trigger] self.streams()[i]).id@
            == audio_stream_id(self.numbers()[i]) && self.numbers()[i] < self.next_number() by {
            assert(old(self).streams()[i].id@ == audio_stream_id(old(self).numbers()[i]));
        }
        id
    }

}

/// The stream `before` once stopped: the contract reports no media and the health says why.
pub open spec fn stopped_stream_ok(
    s: AudioStreamSession,
    before: AudioStreamSession,
    b: AudioBackendService,
    message: Seq<char>,
) -> bool {
    &&& s.id == before.id
    &&& s.session_id == before.session_id
    &&& s.selected_window_id == before.selected_window_id
    &&& s.source == before.source
    &&& s.devices == before.devices
    &&& s.microphone == before.microphone
    &&& s.microphone_injection == before.microphone_injection
    &&& s.mute == before.mute
    &&& s.capabilities == before.capabilities
    &&& s.stats == before.stats
    &&& s.state == AudioStreamState::Stopped
    &&& s.backend matches Some(c) && b.contract_ok(c, quiet_media(), no_failures())
    &&& health_is(s.health, false, message)
}

/// The stream `before` with the mute state and devices of `request`, its contract and
/// counters rebuilt.
pub open spec fn updated_stream_ok(
    s: AudioStreamSession,
    before: AudioStreamSession,
    request: UpdateAudioStreamRequest,
    b: AudioBackendService,
    media: Map<LegKey, AudioBackendMediaStats>,
    failures: Map<LegKey, AudioBackendFailure>,
    unavailable: Seq<Seq<char>>,
) -> bool {
    &&& s.id == before.id
    &&& s.session_id == before.session_id
    &&& s.selected_window_id == before.selected_window_id
    &&& s.source == before.source
    &&& s.microphone == before.microphone
    &&& s.microphone_injection == before.microphone_injection
    &&& s.capabilities == before.capabilities
    &&& s.state == before.state
    &&& s.mute == (AudioMuteState {
        system_audio_muted: request.system_audio_muted,
        microphone_muted: request.microphone_muted,
    })
    &&& s.devices.output_device_id == request.output_device_id
    &&& s.devices.input_device_id == request.input_device_id
    &&& backend_of_stream_ok(b, s, media, failures, unavailable)
    &&& device_health_ok(s.health, s.devices, unavailable, "audio stream controls updated"@)
}

/// The stream `before` as reported now: contract, counters, capabilities and microphone
/// injection rebuilt from the backend and the runtime records.
pub open spec fn refreshed_stream_ok(
    s: AudioStreamSession,
    before: AudioStreamSession,
    b: AudioBackendService,
    media: Map<LegKey, AudioBackendMediaStats>,
    failures: Map<LegKey, AudioBackendFailure>,
    unavailable: Seq<Seq<char>>,
) -> bool {
    &&& s.id == before.id
    &&& s.session_id == before.session_id
    &&& s.selected_window_id == before.selected_window_id
    &&& s.source == before.source
    &&& s.devices == before.devices
    &&& s.microphone == before.microphone
    &&& s.mute == before.mute
    &&& s.health == before.health
    &&& s.state == before.state
    &&& backend_of_stream_ok(b, s, media, failures, unavailable)
    &&& b.capabilities_ok(s.capabilities)
    &&& b.injection_state_ok(s.microphone_injection, s.microphone)
}

/// Whether closing session `sid` stops stream `s`.
pub open spec fn closes(s: AudioStreamSession, sid: Seq<char>) -> bool {
    s.session_id@ == sid && s.state != AudioStreamState::Stopped
}

/// The runtime keys of the streams that closing session `sid` stops.
pub open spec fn closed_keys(s: Seq<AudioStreamSession>, sid: Seq<char>) -> Set<LegKey> {
    Set::new(|k: LegKey| exists|i: int| 0 <= i < s.len() && closes(#[trigger] s[i], sid) && k.0 == s[i].id@)
}

pub open spec fn closed_message(sid: Seq<char>) -> Seq<char> {
    "application session "@ + sid + " closed"@
}

/// Removing two key sets one after the other removes their union.
proof fn lemma_remove_keys_twice<V>(m: Map<LegKey, V>, a: Set<LegKey>, b: Set<LegKey>)
    ensures
        m.remove_keys(a).remove_keys(b) == m.remove_keys(a.union(b)),
{
    assert(m.remove_keys(a).remove_keys(b) =~= m.remove_keys(a.union(b)));
}

/// Removing keys keeps the values of the other keys.
proof fn lemma_remove_keys_sub<V>(m: Map<LegKey, V>, a: Set<LegKey>, k: LegKey)
    requires
        m.remove_keys(a).contains_key(k),
    ensures
        m.contains_key(k),
        m.remove_keys(a)[k] == m[k],
{
}

impl InMemoryAudioStreamService {
    /// The position of the first stream with id `id`.
    fn find_stream(&self, id: &str) -> (r: Option<usize>)
        ensures
            r matches Some(k) ==> first_with_id(self.streams(), id@, k as int),
            r is None ==> !has_id(self.streams(), id@),
    {
        let target = String::from_str(id);
        let mut i: usize = 0;
        while i < self.streams.len()
            invariant
                i <= self.streams@.len(),
                target@ == id@,
                forall|j: int| 0 <= j < i ==> (#[trigger] self.streams@[j]).id@ != id@,
            decreases self.streams@.len() - i,
        {
            if self.streams[i].id == target {
                return Some(i);
            }
            i = i + 1;
        }
        None
    }

    /// The position of the first stream with id `id` that is not stopped.
    fn find_active(&self, id: &str) -> (r: Option<usize>)
        ensures
            r matches Some(k) ==> first_active_with_id(self.streams(), id@, k as int),
            r is None ==> !has_active_id(self.streams(), id@),
    {
        let target = String::from_str(id);
        let mut i: usize = 0;
        while i < self.streams.len()
            invariant
                i <= self.streams@.len(),
                target@ == id@,
                forall|j: int|
                    0 <= j < i ==> !((#[trigger] self.streams@[j]).id@ == id@ && self.streams@[j].state
                        != AudioStreamState::Stopped),
            decreases self.streams@.len() - i,
        {
            if self.streams[i].id == target && self.streams[i].state != AudioStreamState::Stopped {
                return Some(i);
            }
            i = i + 1;
        }
        None
    }

}

/// The operations of an audio stream service.
pub trait AudioStreamService {
    /// The service's internal invariant.
    spec fn well_formed(&self) -> bool;

    /// Whether one more stream can still be started.
    spec fn can_start(&self) -> bool;

    fn start_stream(&mut self, request: StartAudioStreamRequest, session: &ApplicationSession) -> (r:
        Result<AudioStreamSession, AppRelayError>)
        requires
            old(self).well_formed(),
            old(self).can_start(),
        ensures
            final(self).well_formed(),
    ;

    fn stop_stream(&mut self, request: StopAudioStreamRequest) -> (r: Result<
        AudioStreamSession,
        AppRelayError,
    >)
        requires
            old(self).well_formed(),
        ensures
            final(self).well_formed(),
    ;

    fn update_stream(&mut self, request: UpdateAudioStreamRequest) -> (r: Result<
        AudioStreamSession,
        AppRelayError,
    >)
        requires
            old(self).well_formed(),
        ensures
            final(self).well_formed(),
    ;

    fn stream_status(&self, stream_id: &str) -> (r: Result<AudioStreamSession, AppRelayError>)
        requires
            self.well_formed(),
    ;

    fn record_session_closed(&mut self, session_id: &str)
        requires
            old(self).well_formed(),
        ensures
            final(self).well_formed(),
    ;
}

impl AudioStreamService for InMemoryAudioStreamService {
    open spec fn well_formed(&self) -> bool {
        self.wf()
    }

    open spec fn can_start(&self) -> bool {
        self.has_room()
    }

    /// Starts an audio stream for `session`: the backend must support audio and the
    /// session must be the requested, open one. The stream gets the next id, the runtimes
    /// configured for its legs are started, and its contract reports what they carry.
    fn start_stream(&mut self, request: StartAudioStreamRequest, session: &ApplicationSession) -> (r:
        Result<AudioStreamSession, AppRelayError>)
        ensures
            final(self).wf(),
            !old(self).backend().supported() ==> r == Err::<AudioStreamSession, AppRelayError>(
                AppRelayError::Unsupported {
                    platform: old(self).backend().platform(),
                    feature: crate::protocol::Feature::SystemAudioStream,
                },
            ) && *final(self) == *old(self),
            old(self).backend().supported() && (session.id@ != request.session_id@ || session.state
                == SessionState::Closed) ==> (r matches Err(AppRelayError::NotFound(m)) && m@
                == session_not_found(request.session_id@)) && *final(self) == *old(self),
            old(self).backend().supported() && session.id@ == request.session_id@ && session.state
                != SessionState::Closed ==> (r matches Ok(s) && {
                &&& final(self).streams().len() == old(self).streams().len() + 1
                &&& final(self).streams().drop_last() == old(self).streams()
                &&& same_stream(final(self).streams().last(), s)
                &&& started_stream_ok(
                    s,
                    old(self).backend(),
                    request,
                    *session,
                    old(self).next_number(),
                    final(self).media(),
                    final(self).failures(),
                    old(self).unavailable(),
                )
                &&& runtime_started_ok(
                    old(self).backend(),
                    s.id@,
                    request.microphone,
                    old(self).media(),
                    old(self).failures(),
                    final(self).media(),
                    final(self).failures(),
                )
                &&& final(self).next_number() == old(self).next_number() + 1
                &&& final(self).backend() == old(self).backend()
                &&& final(self).unavailable() == old(self).unavailable()
            }),
            numbering_step(*old(self), r, *final(self)),
    {
        match self.backend.ensure_supported() {
            Ok(()) => {},
            Err(e) => {
                return Err(e);
            },
        }
        if session.id != request.session_id || session.state == SessionState::Closed {
            return Err(
                AppRelayError::NotFound(
                    text3("session ", request.session_id.as_str(), " was not found"),
                ),
            );
        }
        let capabilities = self.backend.capabilities();
        if request.microphone == MicrophoneMode::Enabled && !capabilities.microphone_capture.supported {
            return Err(
                AppRelayError::PermissionDenied(
                    text3(
                        "microphone input is not available for session ",
                        request.session_id.as_str(),
                        "",
                    ),
                ),
            );
        }
        let microphone_injection = self.backend.microphone_injection_state(request.microphone);
        let stream_id = self.next_stream_id();
        self.start_runtimes(stream_id.as_str(), request.microphone);
        let source = AudioSource {
            scope: AudioCaptureScope::SelectedApplication,
            selected_window_id: session.selected_window.id.clone(),
            application_id: session.application_id.clone(),
            title: session.selected_window.title.clone(),
        };
        let mute = AudioMuteState {
            system_audio_muted: request.system_audio_muted,
            microphone_muted: request.microphone_muted,
        };
        let devices = AudioDeviceSelection {
            output_device_id: request.output_device_id,
            input_device_id: request.input_device_id,
        };
        let backend = self.contract_for(stream_id.as_str(), mute, &devices);
        let stats = stats_of(&backend);
        let stream = AudioStreamSession {
            id: stream_id,
            session_id: session.id.clone(),
            selected_window_id: session.selected_window.id.clone(),
            source,
            devices,
            microphone: request.microphone,
            microphone_injection,
            mute,
            capabilities,
            stats,
            health: AudioStreamHealth {
                healthy: true,
                message: Some(String::from_str("audio stream started")),
            },
            state: AudioStreamState::Streaming,
            backend: Some(backend),
        };
        let ghost n = old(self).next_number();
        self.streams.push(stream.clone());
        proof {
            self.numbers@ = self.numbers@.push(n);
            let k = self.streams@.len() - 1;
            assert(self.streams@[k].id@ == audio_stream_id(n));
            assert forall|i: int|
                0 <= i < self.streams().len() implies (#[trigger] self.streams()[i]).id@
                == audio_stream_id(self.numbers()[i]) && self.numbers()[i] < self.next_number() by {
                if i < k {
                    assert(self.streams()[i] == old(self).streams()[i]);
                }
            }
            assert forall|i: int, j: int|
                0 <= i < j < self.numbers().len() implies #[trigger] self.numbers()[i]
                < #[trigger] self.numbers()[j] by {
                assert(self.numbers()[i] == old(self).numbers()[i]);
                assert(old(self).streams()[i].id@ == audio_stream_id(old(self).numbers()[i]));
                if j < k {
                    assert(self.numbers()[j] == old(self).numbers()[j]);
                }
            }
        }
        Ok(stream)
    }

    /// Stops the first active stream with the requested id: its runtime records are
    /// cleared and its contract reports no media.
    fn stop_stream(&mut self, request: StopAudioStreamRequest) -> (r: Result<
        AudioStreamSession,
        AppRelayError,
    >)
        ensures
            final(self).wf(),
            !has_active_id(old(self).streams(), request.stream_id@) ==> (r matches Err(
                AppRelayError::NotFound(m),
            ) && m@ == stream_not_found(request.stream_id@)) && *final(self) == *old(self),
            has_active_id(old(self).streams(), request.stream_id@) ==> r is Ok,
            forall|k: int|
                first_active_with_id(old(self).streams(), request.stream_id@, k) ==> (r matches Ok(s) && {
                    &&& final(self).streams().len() == old(self).streams().len()
                    &&& forall|j: int|
                        0 <= j < old(self).streams().len() && j != k ==> final(self).streams()[j]
                            == old(self).streams()[j]
                    &&& stopped_stream_ok(
                        final(self).streams()[k],
                        old(self).streams()[k],
                        old(self).backend(),
                        "audio stream stopped by client"@,
                    )
                    &&& same_stream(s, final(self).streams()[k])
                    &&& final(self).media() == old(self).media().remove_keys(
                        stream_keys(request.stream_id@),
                    )
                    &&& final(self).failures() == old(self).failures().remove_keys(
                        stream_keys(request.stream_id@),
                    )
                    &&& final(self).backend() == old(self).backend()
                    &&& final(self).unavailable() == old(self).unavailable()
                    &&& final(self).next_number() == old(self).next_number()
                }),
    {
        let k = match self.find_active(request.stream_id.as_str()) {
            Some(k) => k,
            None => {
                return Err(
                    AppRelayError::NotFound(
                        text3("audio stream ", request.stream_id.as_str(), " was not found"),
                    ),
                );
            },
        };
        let mut stream = self.streams[k].clone();
        stream.state = AudioStreamState::Stopped;
        self.media.remove_stream(stream.id.as_str());
        self.failures.remove_stream(stream.id.as_str());
        stream.backend = Some(self.backend.backend_contract());
        stream.health = AudioStreamHealth {
            healthy: false,
            message: Some(String::from_str("audio stream stopped by client")),
        };
        let out = stream.clone();
        self.streams.set(k, stream);
        proof {
            assert forall|x: LegKey| #[trigger] self.media().contains_key(x) implies media_bounded(
                self.media()[x],
            ) by {
                lemma_remove_keys_sub(old(self).media(), stream_keys(request.stream_id@), x);
            }
            assert forall|j: int| first_active_with_id(old(self).streams(), request.stream_id@, j) implies j
                == k by {
                if j < k {
                    assert(old(self).streams()[j].id@ == request.stream_id@);
                } else if j > k {
                    assert(old(self).streams()[k as int].id@ == request.stream_id@);
                }
            }
        }
        Ok(out)
    }

    /// Changes the mute state and devices of the first stream with the requested id and
    /// rebuilds its contract; a stopped stream is refused.
    fn update_stream(&mut self, request: UpdateAudioStreamRequest) -> (r: Result<
        AudioStreamSession,
        AppRelayError,
    >)
        ensures
            final(self).wf(),
            !has_id(old(self).streams(), request.stream_id@) ==> (r matches Err(
                AppRelayError::NotFound(m),
            ) && m@ == stream_not_found(request.stream_id@)) && *final(self) == *old(self),
            forall|k: int|
                first_with_id(old(self).streams(), request.stream_id@, k) && old(self).streams()[k].state
                    == AudioStreamState::Stopped ==> (r matches Err(AppRelayError::InvalidRequest(m))
                    && m@ == "audio stream "@ + request.stream_id@ + " has been stopped"@) && *final(self)
                    == *old(self),
            forall|k: int|
                first_with_id(old(self).streams(), request.stream_id@, k) && old(self).streams()[k].state
                    != AudioStreamState::Stopped ==> (r matches Ok(s) && {
                    &&& final(self).streams().len() == old(self).streams().len()
                    &&& forall|j: int|
                        0 <= j < old(self).streams().len() && j != k ==> final(self).streams()[j]
                            == old(self).streams()[j]
                    &&& updated_stream_ok(
                        final(self).streams()[k],
                        old(self).streams()[k],
                        request,
                        old(self).backend(),
                        old(self).media(),
                        old(self).failures(),
                        old(self).unavailable(),
                    )
                    &&& same_stream(s, final(self).streams()[k])
                    &&& final(self).media() == old(self).media()
                    &&& final(self).failures() == old(self).failures()
                    &&& final(self).backend() == old(self).backend()
                    &&& final(self).unavailable() == old(self).unavailable()
                    &&& final(self).next_number() == old(self).next_number()
                }),
    {
        let k = match self.find_stream(request.stream_id.as_str()) {
            Some(k) => k,
            None => {
                return Err(
                    AppRelayError::NotFound(
                        text3("audio stream ", request.stream_id.as_str(), " was not found"),
                    ),
                );
            },
        };
        proof {
            assert forall|j: int| first_with_id(old(self).streams(), request.stream_id@, j) implies j
                == k by {
                if j < k {
                    assert(old(self).streams()[j].id@ == request.stream_id@);
                } else if j > k {
                    assert(old(self).streams()[k as int].id@ == request.stream_id@);
                }
            }
        }
        if self.streams[k].state == AudioStreamState::Stopped {
            return Err(
                AppRelayError::InvalidRequest(
                    text3("audio stream ", request.stream_id.as_str(), " has been stopped"),
                ),
            );
        }
        let mut stream = self.streams[k].clone();
        stream.mute = AudioMuteState {
            system_audio_muted: request.system_audio_muted,
            microphone_muted: request.microphone_muted,
        };
        stream.devices = AudioDeviceSelection {
            output_device_id: request.output_device_id,
            input_device_id: request.input_device_id,
        };
        let backend = self.contract_for(stream.id.as_str(), stream.mute, &stream.devices);
        stream.stats = stats_of(&backend);
        stream.backend = Some(backend);
        stream.health = self.device_health(&stream.devices, "audio stream controls updated");
        let out = stream.clone();
        self.streams.set(k, stream);
        Ok(out)
    }

    /// The first stream with the given id, as reported now: a stopped stream as it was
    /// left, an active one with its contract, counters, capabilities and microphone
    /// injection rebuilt.
    fn stream_status(&self, stream_id: &str) -> (r: Result<AudioStreamSession, AppRelayError>)
        ensures
            !has_id(self.streams(), stream_id@) ==> (r matches Err(AppRelayError::NotFound(m)) && m@
                == stream_not_found(stream_id@)),
            forall|k: int|
                first_with_id(self.streams(), stream_id@, k) ==> (r matches Ok(s) && (if self.streams()[k].state
                    == AudioStreamState::Stopped {
                    same_stream(s, self.streams()[k])
                } else {
                    refreshed_stream_ok(
                        s,
                        self.streams()[k],
                        self.backend(),
                        self.media(),
                        self.failures(),
                        self.unavailable(),
                    )
                })),
    {
        let k = match self.find_stream(stream_id) {
            Some(k) => k,
            None => {
                return Err(
                    AppRelayError::NotFound(text3("audio stream ", stream_id, " was not found")),
                );
            },
        };
        proof {
            assert forall|j: int| first_with_id(self.streams(), stream_id@, j) implies j == k by {
                if j < k {
                    assert(self.streams()[j].id@ == stream_id@);
                } else if j > k {
                    assert(self.streams()[k as int].id@ == stream_id@);
                }
            }
        }
        let stream = &self.streams[k];
        if stream.state == AudioStreamState::Stopped {
            return Ok(stream.clone());
        }
        let mut refreshed = stream.clone();
        let backend = self.contract_for(stream.id.as_str(), stream.mute, &stream.devices);
        refreshed.stats = stats_of(&backend);
        refreshed.backend = Some(backend);
        refreshed.capabilities = self.backend.capabilities();
        refreshed.microphone_injection = self.backend.microphone_injection_state(stream.microphone);
        Ok(refreshed)
    }

    /// Stops every active stream of session `session_id`: their runtime records are
    /// cleared, their contracts report no media and their health names the closed session.
    fn record_session_closed(&mut self, session_id: &str)
        ensures
            final(self).wf(),
            final(self).streams().len() == old(self).streams().len(),
            forall|i: int|
                0 <= i < old(self).streams().len() && closes(old(self).streams()[i], session_id@)
                    ==> stopped_stream_ok(
                    #[trigger] final(self).streams()[i],
                    old(self).streams()[i],
                    old(self).backend(),
                    closed_message(session_id@),
                ),
            forall|i: int|
                0 <= i < old(self).streams().len() && !closes(old(self).streams()[i], session_id@)
                    ==> #[trigger] final(self).streams()[i] == old(self).streams()[i],
            final(self).media() == old(self).media().remove_keys(
                closed_keys(old(self).streams(), session_id@),
            ),
            final(self).failures() == old(self).failures().remove_keys(
                closed_keys(old(self).streams(), session_id@),
            ),
            final(self).backend() == old(self).backend(),
            final(self).unavailable() == old(self).unavailable(),
            final(self).next_number() == old(self).next_number(),
    {
        let target = String::from_str(session_id);
        let ghost start = self.streams@;
        let ghost m0 = self.media();
        let ghost f0 = self.failures();
        let mut i: usize = 0;
        assert(closed_keys(start.take(0), session_id@) =~= Set::<LegKey>::empty());
        assert(m0.remove_keys(Set::<LegKey>::empty()) =~= m0);
        assert(f0.remove_keys(Set::<LegKey>::empty()) =~= f0);
        while i < self.streams.len()
            invariant
                i <= self.streams@.len(),
                self.streams@.len() == start.len(),
                target@ == session_id@,
                self.wf(),
                self.backend() == old(self).backend(),
                self.unavailable() == old(self).unavailable(),
                self.next_number() == old(self).next_number(),
                start == old(self).streams(),
                m0 == old(self).media(),
                f0 == old(self).failures(),
                forall|j: int|
                    0 <= j < i && closes(start[j], session_id@) ==> stopped_stream_ok(
                        #[trigger] self.streams@[j],
                        start[j],
                        self.backend(),
                        closed_message(session_id@),
                    ),
                forall|j: int|
                    0 <= j < i && !closes(start[j], session_id@) ==> #[trigger] self.streams@[j] == start[j],
                forall|j: int| i <= j < start.len() ==> #[trigger] self.streams@[j] == start[j],
                self.media() == m0.remove_keys(closed_keys(start.take(i as int), session_id@)),
                self.failures() == f0.remove_keys(closed_keys(start.take(i as int), session_id@)),
            decreases start.len() - i,
        {
            let ghost before_keys = closed_keys(start.take(i as int), session_id@);
            let ghost after_keys = closed_keys(start.take(i + 1), session_id@);
            assert(start.take(i + 1)[i as int] == start[i as int]);
            if self.streams[i].session_id == target && self.streams[i].state != AudioStreamState::Stopped {
                let mut stream = self.streams[i].clone();
                stream.state = AudioStreamState::Stopped;
                let ghost mid_media = self.media();
                self.media.remove_stream(stream.id.as_str());
                self.failures.remove_stream(stream.id.as_str());
                stream.backend = Some(self.backend.backend_contract());
                stream.health = AudioStreamHealth {
                    healthy: false,
                    message: Some(text3("application session ", session_id, " closed")),
                };
                self.streams.set(i, stream);
                proof {
                    assert(after_keys =~= before_keys.union(stream_keys(start[i as int].id@))) by {
                        assert forall|x: LegKey| after_keys.contains(x) implies before_keys.union(
                            stream_keys(start[i as int].id@),
                        ).contains(x) by {
                            let w = choose|w: int|
                                0 <= w < start.take(i + 1).len() && closes(
                                    #[trigger] start.take(i + 1)[w],
                                    session_id@,
                                ) && x.0 == start.take(i + 1)[w].id@;
                            if w < i {
                                assert(start.take(i as int)[w] == start.take(i + 1)[w]);
                            }
                        }
                        assert forall|x: LegKey| before_keys.union(stream_keys(start[i as int].id@)).contains(
                            x,
                        ) implies after_keys.contains(x) by {
                            if before_keys.contains(x) {
                                let w = choose|w: int|
                                    0 <= w < start.take(i as int).len() && closes(
                                        #[trigger] start.take(i as int)[w],
                                        session_id@,
                                    ) && x.0 == start.take(i as int)[w].id@;
                                assert(start.take(i + 1)[w] == start.take(i as int)[w]);
                            }
                        }
                    }
                    lemma_remove_keys_twice(m0, before_keys, stream_keys(start[i as int].id@));
                    lemma_remove_keys_twice(f0, before_keys, stream_keys(start[i as int].id@));
                    assert forall|x: LegKey| #[trigger] self.media().contains_key(x) implies media_bounded(
                        self.media()[x],
                    ) by {
                        lemma_remove_keys_sub(mid_media, stream_keys(start[i as int].id@), x);
                    }
                }
            } else {
                proof {
                    assert(after_keys =~= before_keys) by {
                        assert forall|x: LegKey| after_keys.contains(x) implies before_keys.contains(x) by {
                            let w = choose|w: int|
                                0 <= w < start.take(i + 1).len() && closes(
                                    #[trigger] start.take(i + 1)[w],
                                    session_id@,
                                ) && x.0 == start.take(i + 1)[w].id@;
                            assert(w < i);
                            assert(start.take(i as int)[w] == start.take(i + 1)[w]);
                        }
                        assert forall|x: LegKey| before_keys.contains(x) implies after_keys.contains(x) by {
                            let w = choose|w: int|
                                0 <= w < start.take(i as int).len() && closes(
                                    #[trigger] start.take(i as int)[w],
                                    session_id@,
                                ) && x.0 == start.take(i as int)[w].id@;
                            assert(start.take(i + 1)[w] == start.take(i as int)[w]);
                        }
                    }
                }
            }
            i = i + 1;
        }
        assert(start.take(start.len() as int) =~= start);
    }
}

/// The stream `before` after the backend readiness or the device availability changed: its
/// contract, counters, capabilities, microphone injection and health rebuilt.
pub open spec fn readiness_refreshed_ok(
    s: AudioStreamSession,
    before: AudioStreamSession,
    b: AudioBackendService,
    media: Map<LegKey, AudioBackendMediaStats>,
    failures: Map<LegKey, AudioBackendFailure>,
    unavailable: Seq<Seq<char>>,
) -> bool {
    &&& s.id == before.id
    &&& s.session_id == before.session_id
    &&& s.selected_window_id == before.selected_window_id
    &&& s.source == before.source
    &&& s.devices == before.devices
    &&& s.microphone == before.microphone
    &&& s.mute == before.mute
    &&& s.state == before.state
    &&& backend_of_stream_ok(b, s, media, failures, unavailable)
    &&& b.capabilities_ok(s.capabilities)
    &&& b.injection_state_ok(s.microphone_injection, s.microphone)
    &&& device_health_ok(s.health, s.devices, unavailable, "audio backend readiness updated"@)
}

/// Every active stream of `before` refreshed in `after`; stopped streams kept.
pub open spec fn streams_refreshed_ok(
    after: Seq<AudioStreamSession>,
    before: Seq<AudioStreamSession>,
    b: AudioBackendService,
    media: Map<LegKey, AudioBackendMediaStats>,
    failures: Map<LegKey, AudioBackendFailure>,
    unavailable: Seq<Seq<char>>,
) -> bool {
    &&& after.len() == before.len()
    &&& forall|i: int|
        0 <= i < before.len() && before[i].state != AudioStreamState::Stopped ==> readiness_refreshed_ok(
            #[trigger] after[i],
            before[i],
            b,
            media,
            failures,
            unavailable,
        )
    &&& forall|i: int|
        0 <= i < before.len() && before[i].state == AudioStreamState::Stopped ==> #[trigger] after[i]
            == before[i]
}

/// The media records after a test session for stream `id` reported `legs`: the stream's
/// earlier records are dropped, and each leg whose media is available is recorded (the
/// first entry of a leg wins).
pub open spec fn session_media(
    m: Map<LegKey, AudioBackendMediaStats>,
    id: Seq<char>,
    legs: Seq<(AudioBackendLeg, AudioBackendMediaStats)>,
) -> Map<LegKey, AudioBackendMediaStats>
    decreases legs.len(),
{
    if legs.len() == 0 {
        m
    } else {
        let rest = session_media(m, id, legs.drop_first());
        if legs[0].1.available {
            rest.insert((id, legs[0].0), legs[0].1)
        } else {
            rest
        }
    }
}

proof fn lemma_session_media_bounded(
    m: Map<LegKey, AudioBackendMediaStats>,
    id: Seq<char>,
    legs: Seq<(AudioBackendLeg, AudioBackendMediaStats)>,
)
    requires
        forall|k: LegKey| #[trigger] m.contains_key(k) ==> media_bounded(m[k]),
        forall|i: int| 0 <= i < legs.len() ==> media_bounded((#[trigger] legs[i]).1),
    ensures
        forall|k: LegKey| #[trigger] session_media(m, id, legs).contains_key(k) ==> media_bounded(
            session_media(m, id, legs)[k],
        ),
    decreases legs.len(),
{
    if legs.len() > 0 {
        let t = legs.drop_first();
        assert forall|i: int| 0 <= i < t.len() implies media_bounded((#[trigger] t[i]).1) by {
            assert(t[i] == legs[i + 1]);
        }
        lemma_session_media_bounded(m, id, t);
        assert(media_bounded(legs[0].1));
        let rest = session_media(m, id, t);
        assert forall|k: LegKey| #[trigger] session_media(m, id, legs).contains_key(k) implies media_bounded(
            session_media(m, id, legs)[k],
        ) by {
            if legs[0].1.available && k == (id, legs[0].0) {
            } else {
                assert(rest.contains_key(k));
            }
        }
    }
}

/// The records of key `k` once its leg was reconciled with the backend's runtimes: started
/// media, a start failure, or nothing.
pub open spec fn leg_reconciled_ok(
    b: AudioBackendService,
    mode: MicrophoneMode,
    k: LegKey,
    m: Map<LegKey, AudioBackendMediaStats>,
    f: Map<LegKey, AudioBackendFailure>,
) -> bool {
    match runtime_media(b, k.1, mode) {
        Some(x) => m.index_opt(k) == Some(x) && !f.contains_key(k),
        None => if runtime_fails(b, k.1) {
            !m.contains_key(k) && f.contains_key(k) && start_failure_ok(f[k])
        } else {
            !m.contains_key(k) && !f.contains_key(k)
        },
    }
}

/// The runtime keys of the streams that are not stopped.
pub open spec fn active_keys(s: Seq<AudioStreamSession>) -> Set<LegKey> {
    Set::new(
        |k: LegKey|
            exists|i: int|
                0 <= i < s.len() && (#[trigger] s[i]).state != AudioStreamState::Stopped && k.0
                    == s[i].id@,
    )
}

/// The runtime records after every leg of every active stream was reconciled; the records
/// of other streams are kept.
pub open spec fn reconciled_ok(
    b: AudioBackendService,
    s: Seq<AudioStreamSession>,
    m0: Map<LegKey, AudioBackendMediaStats>,
    f0: Map<LegKey, AudioBackendFailure>,
    m1: Map<LegKey, AudioBackendMediaStats>,
    f1: Map<LegKey, AudioBackendFailure>,
) -> bool {
    &&& m1.remove_keys(active_keys(s)) == m0.remove_keys(active_keys(s))
    &&& f1.remove_keys(active_keys(s)) == f0.remove_keys(active_keys(s))
    &&& forall|i: int, leg: AudioBackendLeg|
        0 <= i < s.len() && s[i].state != AudioStreamState::Stopped ==> #[trigger] leg_reconciled_ok(
            b,
            s[i].microphone,
            (#[trigger] s[i].id@, leg),
            m1,
            f1,
        )
}

proof fn lemma_reconciled_frame(
    b: AudioBackendService,
    mode: MicrophoneMode,
    k: LegKey,
    m1: Map<LegKey, AudioBackendMediaStats>,
    f1: Map<LegKey, AudioBackendFailure>,
    m2: Map<LegKey, AudioBackendMediaStats>,
    f2: Map<LegKey, AudioBackendFailure>,
)
    requires
        leg_reconciled_ok(b, mode, k, m1, f1),
        m1.index_opt(k) == m2.index_opt(k),
        f1.index_opt(k) == f2.index_opt(k),
    ensures
        leg_reconciled_ok(b, mode, k, m2, f2),
{
    if f1.contains_key(k) {
        assert(f2.contains_key(k));
    } else {
        assert(!f2.contains_key(k));
    }
    if m1.contains_key(k) {
        assert(m2.contains_key(k));
    } else {
        assert(!m2.contains_key(k));
    }
}

impl Default for InMemoryAudioStreamService {
    /// A Linux desktop service with no native leg available.
    fn default() -> (s: Self)
        ensures
            s.wf(),
            s.backend().platform() == crate::protocol::Platform::Linux,
            s.backend().native() == Some(crate::audio_backend::empty_readiness()),
            s.media() == Map::<LegKey, AudioBackendMediaStats>::empty(),
            s.failures() == Map::<LegKey, AudioBackendFailure>::empty(),
            s.unavailable() == Seq::<Seq<char>>::empty(),
            s.streams() == Seq::<AudioStreamSession>::empty(),
            s.next_number() == 1,
    {
        Self::new(
            AudioBackendService::DesktopControl {
                platform: crate::protocol::Platform::Linux,
                native_readiness: AudioBackendNativeReadiness::default(),
            },
        )
    }
}

impl InMemoryAudioStreamService {
    /// Rebuilds every active stream from the backend and the runtime records.
    pub fn refresh_active_stream_backend_state(&mut self)
        requires
            old(self).wf(),
        ensures
            final(self).wf(),
            streams_refreshed_ok(
                final(self).streams(),
                old(self).streams(),
                old(self).backend(),
                old(self).media(),
                old(self).failures(),
                old(self).unavailable(),
            ),
            final(self).media() == old(self).media(),
            final(self).failures() == old(self).failures(),
            final(self).backend() == old(self).backend(),
            final(self).unavailable() == old(self).unavailable(),
            final(self).next_number() == old(self).next_number(),
            final(self).numbers() == old(self).numbers(),
    {
        let ghost start = self.streams@;
        let mut i: usize = 0;
        while i < self.streams.len()
            invariant
                i <= self.streams@.len(),
                self.streams@.len() == start.len(),
                start == old(self).streams(),
                self.wf(),
                self.media() == old(self).media(),
                self.failures() == old(self).failures(),
                self.backend() == old(self).backend(),
                self.unavailable() == old(self).unavailable(),
                self.next_number() == old(self).next_number(),
                self.numbers() == old(self).numbers(),
                forall|j: int|
                    0 <= j < i && start[j].state != AudioStreamState::Stopped ==> readiness_refreshed_ok(
                        #[trigger] self.streams@[j],
                        start[j],
                        self.backend(),
                        self.media(),
                        self.failures(),
                        self.unavailable(),
                    ),
                forall|j: int|
                    0 <= j < i && start[j].state == AudioStreamState::Stopped ==> #[trigger] self.streams@[j]
                        == start[j],
                forall|j: int| i <= j < start.len() ==> #[trigger] self.streams@[j] == start[j],
            decreases start.len() - i,
        {
            if self.streams[i].state != AudioStreamState::Stopped {
                let mut stream = self.streams[i].clone();
                let backend = self.contract_for(stream.id.as_str(), stream.mute, &stream.devices);
                stream.stats = stats_of(&backend);
                stream.backend = Some(backend);
                stream.capabilities = self.backend.capabilities();
                stream.microphone_injection = self.backend.microphone_injection_state(stream.microphone);
                stream.health = self.device_health(&stream.devices, "audio backend readiness updated");
                self.streams.set(i, stream);
            }
            i = i + 1;
        }
    }

    /// Records the media of a native test session for stream `stream_id` (legs whose media
    /// is unavailable are skipped) and rebuilds the active streams.
    pub fn start_native_media_session_for_test(
        &mut self,
        stream_id: &str,
        legs: Vec<(AudioBackendLeg, AudioBackendMediaStats)>,
    )
        requires
            old(self).wf(),
            forall|i: int| 0 <= i < legs@.len() ==> media_bounded((#[trigger] legs@[i]).1),
        ensures
            final(self).wf(),
            final(self).media() == session_media(
                old(self).media().remove_keys(stream_keys(stream_id@)),
                stream_id@,
                legs@,
            ),
            streams_refreshed_ok(
                final(self).streams(),
                old(self).streams(),
                old(self).backend(),
                final(self).media(),
                old(self).failures(),
                old(self).unavailable(),
            ),
            final(self).failures() == old(self).failures(),
            final(self).backend() == old(self).backend(),
            final(self).unavailable() == old(self).unavailable(),
            final(self).next_number() == old(self).next_number(),
    {
        self.start_native_media_session_without_refresh_for_test(stream_id, legs);
        self.refresh_active_stream_backend_state();
    }

    /// Records the media of a native test session for stream `stream_id` without rebuilding
    /// the streams.
    pub fn start_native_media_session_without_refresh_for_test(
        &mut self,
        stream_id: &str,
        legs: Vec<(AudioBackendLeg, AudioBackendMediaStats)>,
    )
        requires
            old(self).wf(),
            forall|i: int| 0 <= i < legs@.len() ==> media_bounded((#[trigger] legs@[i]).1),
        ensures
            final(self).wf(),
            final(self).media() == session_media(
                old(self).media().remove_keys(stream_keys(stream_id@)),
                stream_id@,
                legs@,
            ),
            final(self).streams() == old(self).streams(),
            final(self).numbers() == old(self).numbers(),
            final(self).failures() == old(self).failures(),
            final(self).backend() == old(self).backend(),
            final(self).unavailable() == old(self).unavailable(),
            final(self).next_number() == old(self).next_number(),
    {
        let ghost m1 = old(self).media().remove_keys(stream_keys(stream_id@));
        self.media.remove_stream(stream_id);
        let n = legs.len();
        let mut i: usize = n;
        assert(legs@.subrange(n as int, n as int) =~= Seq::<(AudioBackendLeg, AudioBackendMediaStats)>::empty());
        while i > 0
            invariant
                i <= n,
                n == legs@.len(),
                forall|j: int| 0 <= j < legs@.len() ==> media_bounded((#[trigger] legs@[j]).1),
                m1 == old(self).media().remove_keys(stream_keys(stream_id@)),
                self.media() == session_media(m1, stream_id@, legs@.subrange(i as int, n as int)),
                self.streams() == old(self).streams(),
                self.numbers() == old(self).numbers(),
                self.failures() == old(self).failures(),
                self.backend() == old(self).backend(),
                self.unavailable() == old(self).unavailable(),
                self.next_number() == old(self).next_number(),
            decreases i,
        {
            i = i - 1;
            let (leg, m) = legs[i];
            assert(legs@.subrange(i as int, n as int).drop_first() =~= legs@.subrange(
                i + 1,
                n as int,
            ));
            assert(legs@.subrange(i as int, n as int)[0] == legs@[i as int]);
            if m.available {
                self.media.insert(stream_id, leg, m);
            }
        }
        assert(legs@.subrange(0, n as int) =~= legs@);
        proof {
            assert forall|k: LegKey| #[trigger] m1.contains_key(k) implies media_bounded(m1[k]) by {
                lemma_remove_keys_sub(old(self).media(), stream_keys(stream_id@), k);
            }
            lemma_session_media_bounded(m1, stream_id@, legs@);
        }
    }

    /// Marks device `device_id` unavailable and rebuilds the active streams.
    pub fn disconnect_audio_device_for_test(&mut self, device_id: &str)
        requires
            old(self).wf(),
        ensures
            final(self).wf(),
            final(self).unavailable() == (if old(self).unavailable().contains(device_id@) {
                old(self).unavailable()
            } else {
                old(self).unavailable().push(device_id@)
            }),
            streams_refreshed_ok(
                final(self).streams(),
                old(self).streams(),
                old(self).backend(),
                old(self).media(),
                old(self).failures(),
                final(self).unavailable(),
            ),
            final(self).media() == old(self).media(),
            final(self).failures() == old(self).failures(),
            final(self).backend() == old(self).backend(),
            final(self).next_number() == old(self).next_number(),
    {
        let device = String::from_str(device_id);
        if !contains_text(&self.unavailable_device_ids, &device) {
            let ghost before = self.unavailable_device_ids@;
            self.unavailable_device_ids.push(device);
            assert(string_views(self.unavailable_device_ids@) =~= string_views(before).push(
                self.unavailable_device_ids@.last()@,
            ));
        }
        assert(self.streams() == old(self).streams());
        assert(self.numbers() == old(self).numbers());
        assert(self.media() == old(self).media());
        assert(self.wf());
        self.refresh_active_stream_backend_state();
    }

    /// Marks device `device_id` available again and rebuilds the active streams.
    pub fn reconnect_audio_device_for_test(&mut self, device_id: &str)
        requires
            old(self).wf(),
        ensures
            final(self).wf(),
            final(self).unavailable() == old(self).unavailable().filter(|x: Seq<char>| x != device_id@),
            streams_refreshed_ok(
                final(self).streams(),
                old(self).streams(),
                old(self).backend(),
                old(self).media(),
                old(self).failures(),
                final(self).unavailable(),
            ),
            final(self).media() == old(self).media(),
            final(self).failures() == old(self).failures(),
            final(self).backend() == old(self).backend(),
            final(self).next_number() == old(self).next_number(),
    {
        let target = String::from_str(device_id);
        let ghost f = |x: Seq<char>| x != device_id@;
        let ghost src = string_views(self.unavailable_device_ids@);
        let mut kept: Vec<String> = Vec::new();
        let mut i: usize = 0;
        assert(src.take(0) =~= Seq::<Seq<char>>::empty());
        while i < self.unavailable_device_ids.len()
            invariant
                i <= self.unavailable_device_ids@.len(),
                target@ == device_id@,
                src == string_views(self.unavailable_device_ids@),
                f == (|x: Seq<char>| x != device_id@),
                string_views(kept@) == src.take(i as int).filter(f),
            decreases self.unavailable_device_ids@.len() - i,
        {
            proof {
                assert(src.take(i + 1) =~= src.take(i as int).push(src[i as int]));
                src.take(i as int).lemma_filter_push(src[i as int], f);
                assert(src[i as int] == self.unavailable_device_ids@[i as int]@);
            }
            if self.unavailable_device_ids[i] != target {
                let ghost before = kept@;
                kept.push(self.unavailable_device_ids[i].clone());
                assert(string_views(kept@) =~= string_views(before).push(src[i as int]));
            }
            i = i + 1;
        }
        assert(src.take(src.len() as int) =~= src);
        self.unavailable_device_ids = kept;
        assert(self.streams() == old(self).streams());
        assert(self.numbers() == old(self).numbers());
        assert(self.media() == old(self).media());
        assert(self.wf());
        self.refresh_active_stream_backend_state();
    }
}

/// Maps that agree outside a key set agree at any key outside it.
proof fn lemma_kept_outside<V>(a: Map<LegKey, V>, b: Map<LegKey, V>, keys: Set<LegKey>, k: LegKey)
    requires
        b.remove_keys(keys) == a.remove_keys(keys),
        !keys.contains(k),
    ensures
        b.index_opt(k) == a.index_opt(k),
{
    assert(b.remove_keys(keys).contains_key(k) == b.contains_key(k));
    assert(a.remove_keys(keys).contains_key(k) == a.contains_key(k));
    if b.contains_key(k) {
        assert(b.remove_keys(keys)[k] == b[k]);
        assert(a.remove_keys(keys)[k] == a[k]);
    }
}

/// Agreement outside `a` and, after a change confined to `b`, agreement outside `a ∪ b`.
proof fn lemma_agree_union<V>(m0: Map<LegKey, V>, m1: Map<LegKey, V>, m2: Map<LegKey, V>, a: Set<LegKey>, b: Set<LegKey>)
    requires
        m1.remove_keys(a) == m0.remove_keys(a),
        m2.remove_keys(b) == m1.remove_keys(b),
    ensures
        m2.remove_keys(a.union(b)) == m0.remove_keys(a.union(b)),
{
    lemma_remove_keys_twice(m2, b, a);
    lemma_remove_keys_twice(m1, b, a);
    lemma_remove_keys_twice(m1, a, b);
    lemma_remove_keys_twice(m0, a, b);
    assert(b.union(a) =~= a.union(b));
}

impl InMemoryAudioStreamService {
    /// Reconciles `leg` of stream `id` with the backend's runtimes: a runtime that starts
    /// records its media, one that fails records the failure, and without a runtime both
    /// records are cleared.
    fn reconcile_leg(&mut self, id: &str, leg: AudioBackendLeg, mode: MicrophoneMode)
        requires
            old(self).wf(),
        ensures
            final(self).wf(),
            leg_reconciled_ok(old(self).backend(), mode, (id@, leg), final(self).media(), final(self).failures()),
            final(self).media().remove((id@, leg)) == old(self).media().remove((id@, leg)),
            final(self).failures().remove((id@, leg)) == old(self).failures().remove((id@, leg)),
            final(self).backend() == old(self).backend(),
            final(self).streams() == old(self).streams(),
            final(self).numbers() == old(self).numbers(),
            final(self).unavailable() == old(self).unavailable(),
            final(self).next_number() == old(self).next_number(),
    {
        let ghost k = (id@, leg);
        match self.runtime_media_now(leg, mode) {
            Some(m) => {
                self.media.insert(id, leg, m);
                self.failures.remove(id, leg);
            },
            None => {
                if self.runtime_fails_now(leg) {
                    self.media.remove(id, leg);
                    self.failures.insert(id, leg, pipewire_capture_start_failure());
                } else {
                    self.media.remove(id, leg);
                    self.failures.remove(id, leg);
                }
            },
        }
        assert(self.media().remove(k) =~= old(self).media().remove(k));
        assert(self.failures().remove(k) =~= old(self).failures().remove(k));
    }

    /// Reconciles the four legs of stream `id`.
    fn reconcile_stream(&mut self, id: &str, mode: MicrophoneMode)
        requires
            old(self).wf(),
        ensures
            final(self).wf(),
            forall|leg: AudioBackendLeg|
                #[trigger] leg_reconciled_ok(
                    old(self).backend(),
                    mode,
                    (id@, leg),
                    final(self).media(),
                    final(self).failures(),
                ),
            final(self).media().remove_keys(stream_keys(id@)) == old(self).media().remove_keys(
                stream_keys(id@),
            ),
            final(self).failures().remove_keys(stream_keys(id@)) == old(self).failures().remove_keys(
                stream_keys(id@),
            ),
            final(self).backend() == old(self).backend(),
            final(self).streams() == old(self).streams(),
            final(self).numbers() == old(self).numbers(),
            final(self).unavailable() == old(self).unavailable(),
            final(self).next_number() == old(self).next_number(),
    {
        let ghost b = self.backend();
        let ghost m0 = self.media();
        let ghost f0 = self.failures();
        let ghost k0 = (id@, AudioBackendLeg::Capture);
        let ghost k1 = (id@, AudioBackendLeg::Playback);
        let ghost k2 = (id@, AudioBackendLeg::ClientMicrophoneCapture);
        let ghost k3 = (id@, AudioBackendLeg::ServerMicrophoneInjection);
        self.reconcile_leg(id, AudioBackendLeg::Capture, mode);
        let ghost m1 = self.media();
        let ghost f1 = self.failures();
        self.reconcile_leg(id, AudioBackendLeg::Playback, mode);
        let ghost m2 = self.media();
        let ghost f2 = self.failures();
        self.reconcile_leg(id, AudioBackendLeg::ClientMicrophoneCapture, mode);
        let ghost m3 = self.media();
        let ghost f3 = self.failures();
        self.reconcile_leg(id, AudioBackendLeg::ServerMicrophoneInjection, mode);
        let ghost m4 = self.media();
        let ghost f4 = self.failures();
        proof {
            let keys = stream_keys(id@);
            assert(keys.contains(k0) && keys.contains(k1) && keys.contains(k2) && keys.contains(k3));
            lemma_same_outside(m0, m1, k0, keys);
            lemma_same_outside(m1, m2, k1, keys);
            lemma_same_outside(m2, m3, k2, keys);
            lemma_same_outside(m3, m4, k3, keys);
            lemma_same_outside(f0, f1, k0, keys);
            lemma_same_outside(f1, f2, k1, keys);
            lemma_same_outside(f2, f3, k2, keys);
            lemma_same_outside(f3, f4, k3, keys);
            lemma_kept(m1, m2, k1, k0);
            lemma_kept(m2, m3, k2, k0);
            lemma_kept(m3, m4, k3, k0);
            lemma_kept(f1, f2, k1, k0);
            lemma_kept(f2, f3, k2, k0);
            lemma_kept(f3, f4, k3, k0);
            lemma_reconciled_frame(b, mode, k0, m1, f1, m4, f4);
            lemma_kept(m2, m3, k2, k1);
            lemma_kept(m3, m4, k3, k1);
            lemma_kept(f2, f3, k2, k1);
            lemma_kept(f3, f4, k3, k1);
            lemma_reconciled_frame(b, mode, k1, m2, f2, m4, f4);
            lemma_kept(m3, m4, k3, k2);
            lemma_kept(f3, f4, k3, k2);
            lemma_reconciled_frame(b, mode, k2, m3, f3, m4, f4);
            assert forall|leg: AudioBackendLeg|
                #[trigger] leg_reconciled_ok(b, mode, (id@, leg), m4, f4) by {
                match leg {
                    AudioBackendLeg::Capture => {},
                    AudioBackendLeg::Playback => {},
                    AudioBackendLeg::ClientMicrophoneCapture => {},
                    AudioBackendLeg::ServerMicrophoneInjection => {},
                }
            }
        }
    }

    /// Replaces the native readiness of a desktop backend, reconciles the legs of every
    /// active stream with the new runtimes, and rebuilds the active streams.
    pub fn configure_native_readiness(&mut self, native_readiness: AudioBackendNativeReadiness)
        requires
            old(self).wf(),
            crate::audio_backend::readiness_bounded(native_readiness@),
        ensures
            final(self).wf(),
            final(self).backend().platform() == old(self).backend().platform(),
            old(self).backend() is DesktopControl ==> final(self).backend() is DesktopControl
                && final(self).backend().readiness() == Some(native_readiness@),
            old(self).backend() is Unsupported ==> final(self).backend() == old(self).backend(),
            reconciled_ok(
                final(self).backend(),
                old(self).streams(),
                old(self).media(),
                old(self).failures(),
                final(self).media(),
                final(self).failures(),
            ),
            streams_refreshed_ok(
                final(self).streams(),
                old(self).streams(),
                final(self).backend(),
                final(self).media(),
                final(self).failures(),
                old(self).unavailable(),
            ),
            final(self).unavailable() == old(self).unavailable(),
            final(self).next_number() == old(self).next_number(),
    {
        let desktop = match &self.backend {
            AudioBackendService::DesktopControl { platform, .. } => Some(*platform),
            AudioBackendService::Unsupported { .. } => None,
        };
        match desktop {
            Some(platform) => {
                self.backend = AudioBackendService::DesktopControl { platform, native_readiness };
            },
            None => {},
        }
        assert(self.streams() == old(self).streams());
        assert(self.numbers() == old(self).numbers());
        assert(self.media() == old(self).media());
        assert(self.next_number() == old(self).next_number());
        assert(self.backend().bounded());
        assert(self.wf());
        let ghost b = self.backend();
        let ghost s = self.streams@;
        let ghost m0 = self.media();
        let ghost f0 = self.failures();
        let mut i: usize = 0;
        assert(active_keys(s.take(0)) =~= Set::<LegKey>::empty());
        assert(m0.remove_keys(Set::<LegKey>::empty()) =~= m0);
        assert(f0.remove_keys(Set::<LegKey>::empty()) =~= f0);
        while i < self.streams.len()
            invariant
                i <= s.len(),
                self.streams@ == s,
                s == old(self).streams(),
                self.wf(),
                self.backend() == b,
                self.numbers() == old(self).numbers(),
                self.unavailable() == old(self).unavailable(),
                self.next_number() == old(self).next_number(),
                m0 == old(self).media(),
                f0 == old(self).failures(),
                self.media().remove_keys(active_keys(s.take(i as int))) == m0.remove_keys(
                    active_keys(s.take(i as int)),
                ),
                self.failures().remove_keys(active_keys(s.take(i as int))) == f0.remove_keys(
                    active_keys(s.take(i as int)),
                ),
                forall|j: int, leg: AudioBackendLeg|
                    0 <= j < i && s[j].state != AudioStreamState::Stopped ==> #[trigger] leg_reconciled_ok(
                        b,
                        s[j].microphone,
                        (#[trigger] s[j].id@, leg),
                        self.media(),
                        self.failures(),
                    ),
            decreases s.len() - i,
        {
            let ghost before_keys = active_keys(s.take(i as int));
            let ghost after_keys = active_keys(s.take(i + 1));
            assert(s.take(i + 1)[i as int] == s[i as int]);
            if self.streams[i].state != AudioStreamState::Stopped {
                let id = self.streams[i].id.clone();
                let mode = self.streams[i].microphone;
                let ghost m_before = self.media();
                let ghost f_before = self.failures();
                proof {
                    self.lemma_ids_unique();
                }
                self.reconcile_stream(id.as_str(), mode);
                proof {
                    let sk = stream_keys(s[i as int].id@);
                    assert(after_keys =~= before_keys.union(sk)) by {
                        assert forall|x: LegKey| after_keys.contains(x) implies before_keys.union(sk).contains(x) by {
                            let w = choose|w: int|
                                0 <= w < s.take(i + 1).len() && (#[trigger] s.take(i + 1)[w]).state
                                    != AudioStreamState::Stopped && x.0 == s.take(i + 1)[w].id@;
                            if w < i {
                                assert(s.take(i as int)[w] == s.take(i + 1)[w]);
                            }
                        }
                        assert forall|x: LegKey| before_keys.union(sk).contains(x) implies after_keys.contains(x) by {
                            if before_keys.contains(x) {
                                let w = choose|w: int|
                                    0 <= w < s.take(i as int).len() && (#[trigger] s.take(
                                        i as int,
                                    )[w]).state != AudioStreamState::Stopped && x.0 == s.take(
                                        i as int,
                                    )[w].id@;
                                assert(s.take(i + 1)[w] == s.take(i as int)[w]);
                            }
                        }
                    }
                    lemma_agree_union(m0, m_before, self.media(), before_keys, sk);
                    lemma_agree_union(f0, f_before, self.failures(), before_keys, sk);
                    assert forall|j: int, leg: AudioBackendLeg|
                        0 <= j < i + 1 && s[j].state != AudioStreamState::Stopped implies #[trigger] leg_reconciled_ok(
                        b,
                        s[j].microphone,
                        (#[trigger] s[j].id@, leg),
                        self.media(),
                        self.failures(),
                    ) by {
                        if j < i {
                            assert(s[j].id@ != s[i as int].id@);
                            assert(!sk.contains((s[j].id@, leg)));
                            lemma_kept_outside(m_before, self.media(), sk, (s[j].id@, leg));
                            lemma_kept_outside(f_before, self.failures(), sk, (s[j].id@, leg));
                            lemma_reconciled_frame(
                                b,
                                s[j].microphone,
                                (s[j].id@, leg),
                                m_before,
                                f_before,
                                self.media(),
                                self.failures(),
                            );
                        }
                    }
                }
            } else {
                proof {
                    assert(after_keys =~= before_keys) by {
                        assert forall|x: LegKey| after_keys.contains(x) implies before_keys.contains(x) by {
                            let w = choose|w: int|
                                0 <= w < s.take(i + 1).len() && (#[trigger] s.take(i + 1)[w]).state
                                    != AudioStreamState::Stopped && x.0 == s.take(i + 1)[w].id@;
                            assert(w < i);
                            assert(s.take(i as int)[w] == s.take(i + 1)[w]);
                        }
                        assert forall|x: LegKey| before_keys.contains(x) implies after_keys.contains(x) by {
                            let w = choose|w: int|
                                0 <= w < s.take(i as int).len() && (#[trigger] s.take(i as int)[w]).state
                                    != AudioStreamState::Stopped && x.0 == s.take(i as int)[w].id@;
                            assert(s.take(i + 1)[w] == s.take(i as int)[w]);
                        }
                    }
                }
            }
            i = i + 1;
        }
        assert(s.take(s.len() as int) =~= s);
        self.refresh_active_stream_backend_state();
    }
}


/// One call of `start_stream` as far as numbering goes: a start that succeeds gets the id
/// of the next number and moves the number on by one; a refused one leaves the service as
/// it was.
pub open spec fn numbering_step(
    before: InMemoryAudioStreamService,
    r: Result<AudioStreamSession, AppRelayError>,
    after: InMemoryAudioStreamService,
) -> bool {
    match r {
        Ok(s) => s.id@ == audio_stream_id(before.next_number()) && after.next_number()
            == before.next_number() + 1,
        Err(_) => after == before,
    }
}

/// How many of the results `rs` are started streams.
pub open spec fn started(rs: Seq<Result<AudioStreamSession, AppRelayError>>) -> nat
    decreases rs.len(),
{
    if rs.len() == 0 {
        0
    } else {
        started(rs.drop_last()) + if rs.last() is Ok {
            1nat
        } else {
            0nat
        }
    }
}

/// Streams are numbered by the starts that succeeded: across states `trace` of a service,
/// starting new (next number one), where step `i` is a call of `start_stream` that returned
/// `rs[i]` (the step it states), the `k`-th start that succeeds gets `audio-stream-<k>`, and
/// the next one would get the number after all that succeeded.
pub proof fn lemma_streams_numbered_by_successes(
    trace: Seq<InMemoryAudioStreamService>,
    rs: Seq<Result<AudioStreamSession, AppRelayError>>,
)
    requires
        trace.len() == rs.len() + 1,
        trace[0].next_number() == 1,
        forall|i: int| 0 <= i < rs.len() ==> numbering_step(#[trigger] trace[i], rs[i], trace[i + 1]),
    ensures
        forall|i: int|
            0 <= i < rs.len() && #[trigger] rs[i] is Ok ==> rs[i]->Ok_0.id@ == audio_stream_id(
                started(rs.take(i + 1)),
            ),
        trace.last().next_number() == started(rs) + 1,
{
    assert forall|i: int| 0 <= i < rs.len() && #[trigger] rs[i] is Ok implies rs[i]->Ok_0.id@
        == audio_stream_id(started(rs.take(i + 1))) by {
        lemma_next_number_counts(trace, rs, i);
        assert(rs.take(i + 1).drop_last() =~= rs.take(i));
        assert(rs.take(i + 1).last() == rs[i]);
        assert(numbering_step(trace[i], rs[i], trace[i + 1]));
    }
    lemma_next_number_counts(trace, rs, rs.len() as int);
    assert(rs.take(rs.len() as int) =~= rs);
}

/// Before step `n`, the next number is one more than the starts that succeeded.
proof fn lemma_next_number_counts(
    trace: Seq<InMemoryAudioStreamService>,
    rs: Seq<Result<AudioStreamSession, AppRelayError>>,
    n: int,
)
    requires
        trace.len() == rs.len() + 1,
        trace[0].next_number() == 1,
        forall|i: int| 0 <= i < rs.len() ==> numbering_step(#[trigger] trace[i], rs[i], trace[i + 1]),
        0 <= n <= rs.len(),
    ensures
        trace[n].next_number() == started(rs.take(n)) + 1,
    decreases n,
{
    if n > 0 {
        lemma_next_number_counts(trace, rs, n - 1);
        assert(rs.take(n).drop_last() =~= rs.take(n - 1));
        assert(rs.take(n).last() == rs[n - 1]);
        assert(numbering_step(trace[n - 1], rs[n - 1], trace[n]));
    } else {
        assert(rs.take(0) =~= Seq::<Result<AudioStreamSession, AppRelayError>>::empty());
    }
}

} // verus!
