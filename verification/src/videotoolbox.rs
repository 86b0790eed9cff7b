//! The decisions of the VideoToolbox H.264 encoder and of the bridge that feeds it the
//! frames ScreenCaptureKit delivers: when an encoder may encode, how an encoded sample
//! becomes an Annex-B frame, which encoder serves which stream, and what a stream
//! reports once its encoder failed. The framework calls are made by the host between
//! these steps, which take their outcomes.

use vstd::prelude::*;
use crate::decimal::{dec, write_dec};
use crate::macos::{annex_b_units, avcc_to_annex_b, malformed_avcc_message, start_code};
use crate::protocol::{AppRelayError, ViewportSize, opt_text};
use crate::text::{chars_of, extend_chars, string_from_chars};
use crate::text_table::TextTable;
use crate::video_encoder::{encoder_config_problem, EncodedH264Frame, H264EncoderConfig};
use crate::video_protocol::{VideoCaptureRuntimeState, VideoCaptureRuntimeStatus};
use crate::video_stream::{capture_error_message, error_message};

verus! {

/// A sample is a keyframe unless its first attachment marks it as not a sync sample:
/// `not_sync` is that mark, `None` when there is no attachment or no such key.
pub fn is_sync_sample(not_sync: Option<bool>) -> (b: bool)
    ensures
        b == !(not_sync == Some(true)),
{
    match not_sync {
        Some(flag) => !flag,
        None => true,
    }
}

/// The message for parameter sets whose NAL units do not carry 4-byte length prefixes.
pub open spec fn nal_header_message(length: int) -> Seq<char> {
    "VideoToolbox H.264 NAL header length is "@ + (if length < 0 {
        "-"@ + dec((-length) as nat)
    } else {
        dec(length as nat)
    }) + "; expected 4"@
}

/// The parameter sets in Annex-B framing: each after a start code, in order.
pub open spec fn framed_sets(sets: Seq<Seq<u8>>) -> Seq<u8>
    decreases sets.len(),
{
    if sets.len() == 0 {
        Seq::empty()
    } else {
        framed_sets(sets.drop_last()) + start_code() + sets.last()
    }
}

/// The SPS/PPS of a format description in Annex-B framing; refused unless the NAL units
/// carry 4-byte length prefixes.
pub fn frame_parameter_sets(sets: &Vec<Vec<u8>>, nal_header_length: i32) -> (r: Result<
    Vec<u8>,
    AppRelayError,
>)
    ensures
        nal_header_length != 4 ==> (r matches Err(AppRelayError::ServiceUnavailable(m)) && m@
            == nal_header_message(nal_header_length as int)),
        nal_header_length == 4 ==> (r matches Ok(v) && v@ == framed_sets(
            sets@.map_values(|s: Vec<u8>| s@),
        )),
{
    if nal_header_length != 4 {
        let mut out = chars_of("VideoToolbox H.264 NAL header length is ");
        if nal_header_length < 0 {
            out.push('-');
            let magnitude: i64 = -(nal_header_length as i64);
            write_dec(magnitude as u64, &mut out);
        } else {
            write_dec(nal_header_length as u64, &mut out);
        }
        extend_chars(&mut out, chars_of("; expected 4").as_slice());
        proof {
            reveal_strlit("-");
        }
        assert(out@ =~= nal_header_message(nal_header_length as int));
        return Err(AppRelayError::ServiceUnavailable(string_from_chars(out.as_slice())));
    }
    let ghost views = sets@.map_values(|s: Vec<u8>| s@);
    let mut out: Vec<u8> = Vec::new();
    let mut i: usize = 0;
    while i < sets.len()
        invariant
            i <= sets@.len(),
            views == sets@.map_values(|s: Vec<u8>| s@),
            out@ == framed_sets(views.take(i as int)),
        decreases sets@.len() - i,
    {
        let ghost before = out@;
        out.push(0);
        out.push(0);
        out.push(0);
        out.push(1);
        let set = &sets[i];
        let mut j: usize = 0;
        while j < set.len()
            invariant
                j <= set@.len(),
                out@ == before + start_code() + set@.take(j as int),
            decreases set@.len() - j,
        {
            out.push(set[j]);
            j = j + 1;
            assert(out@ =~= before + start_code() + set@.take(j as int));
        }
        proof {
            assert(set@.take(set@.len() as int) =~= set@);
            assert(views.take(i + 1).drop_last() =~= views.take(i as int));
            assert(views.take(i + 1).last() == set@);
        }
        i = i + 1;
    }
    assert(views.take(sets@.len() as int) =~= views);
    Ok(out)
}

/// The frame an encoded sample becomes: nothing for an empty sample; otherwise its AVCC
/// NAL units rewritten to Annex-B after `parameter_sets` (those of a keyframe, empty
/// otherwise), stamped at zero as the encoder emits frames in submission order.
pub fn annex_b_frame(data: &[u8], keyframe: bool, parameter_sets: &[u8]) -> (r: Result<
    Option<EncodedH264Frame>,
    AppRelayError,
>)
    ensures
        data@.len() == 0 ==> r == Ok::<Option<EncodedH264Frame>, AppRelayError>(None),
        data@.len() > 0 ==> match annex_b_units(data@, 0) {
            Ok(units) => r matches Ok(Some(f)) && f.payload@ == parameter_sets@ + units
                && f.keyframe == keyframe && f.timestamp_ms == 0,
            Err(e) => r matches Err(AppRelayError::ServiceUnavailable(m)) && m@
                == malformed_avcc_message(e.0, e.1 as nat, data@.len()),
        },
{
    if data.len() == 0 {
        return Ok(None);
    }
    match avcc_to_annex_b(parameter_sets, data) {
        Ok(payload) => Ok(Some(EncodedH264Frame { payload, keyframe, timestamp_ms: 0 })),
        Err(e) => Err(e),
    }
}

/// The message for a frame handed to the encoder without a pixel buffer.
pub open spec fn null_pixel_buffer_message() -> Seq<char> {
    "VideoToolbox encoder received a null pixel buffer"@
}

/// The message for a frame handed to the encoder before it was configured.
pub open spec fn encoder_unconfigured_message() -> Seq<char> {
    "VideoToolbox encoder must be configured before encode_pixel_buffer"@
}

/// What the VideoToolbox encoder knows of its compression session: the configuration of
/// the session in place, if any, and the parameter sets last inlined.
#[derive(Debug)]
pub struct VideoToolboxEncoderState {
    config: Option<H264EncoderConfig>,
    last_sps_pps: Vec<u8>,
}

impl VideoToolboxEncoderState {
    /// The configuration of the session in place.
    pub closed spec fn session(&self) -> Option<H264EncoderConfig> {
        self.config
    }

    /// The parameter sets last inlined into a keyframe.
    pub closed spec fn parameter_sets(&self) -> Seq<u8> {
        self.last_sps_pps@
    }

    /// An encoder with no session.
    pub fn new() -> (s: Self)
        ensures
            s.session() is None,
            s.parameter_sets().len() == 0,
    {
        VideoToolboxEncoderState { config: None, last_sps_pps: Vec::new() }
    }

    /// The first step of a configuration: an invalid configuration is refused and nothing
    /// changes; otherwise the session in place is torn down (the host invalidates it) and
    /// the host creates one for `config`, handing the outcome to `finish_configure`.
    pub fn begin_configure(&mut self, config: &H264EncoderConfig) -> (r: Result<(), AppRelayError>)
        ensures
            r is Ok <==> encoder_config_problem(*config) is None,
            r matches Err(e) ==> (e matches AppRelayError::InvalidRequest(m) && encoder_config_problem(
                *config,
            ) == Some(m@)) && *final(self) == *old(self),
            r is Ok ==> final(self).session() is None && final(self).parameter_sets().len() == 0,
    {
        match config.validate() {
            Err(e) => Err(e),
            Ok(()) => {
                self.tear_down();
                Ok(())
            },
        }
    }

    /// The last step of a configuration: a created session is in place with `config`; a
    /// failure leaves none.
    pub fn finish_configure(&mut self, config: H264EncoderConfig, created: Result<(), AppRelayError>) -> (r:
        Result<(), AppRelayError>)
        ensures
            r == created,
            created is Ok ==> final(self).session() == Some(config),
            created is Err ==> final(self).session() == old(self).session(),
            final(self).parameter_sets() == old(self).parameter_sets(),
    {
        match created {
            Ok(u) => {
                self.config = Some(config);
                Ok(u)
            },
            Err(e) => Err(e),
        }
    }

    /// Whether a frame may be encoded: it needs a pixel buffer, then a session.
    pub fn check_encode(&self, has_pixel_buffer: bool) -> (r: Result<(), AppRelayError>)
        ensures
            !has_pixel_buffer ==> (r matches Err(AppRelayError::InvalidRequest(m)) && m@
                == null_pixel_buffer_message()),
            has_pixel_buffer && self.session() is None ==> (r matches Err(
                AppRelayError::ServiceUnavailable(m),
            ) && m@ == encoder_unconfigured_message()),
            has_pixel_buffer && self.session() is Some ==> r is Ok,
    {
        if !has_pixel_buffer {
            return Err(
                AppRelayError::InvalidRequest(
                    String::from_str("VideoToolbox encoder received a null pixel buffer"),
                ),
            );
        }
        if self.config.is_none() {
            return Err(
                AppRelayError::ServiceUnavailable(
                    String::from_str("VideoToolbox encoder must be configured before encode_pixel_buffer"),
                ),
            );
        }
        Ok(())
    }

    /// Whether a session is in place (the host flushes it only then).
    pub fn has_session(&self) -> (b: bool)
        ensures
            b == self.session() is Some,
    {
        self.config.is_some()
    }

    /// Keeps the parameter sets just inlined into a keyframe.
    pub fn record_parameter_sets(&mut self, sets: Vec<u8>)
        ensures
            final(self).parameter_sets() == sets@,
            final(self).session() == old(self).session(),
    {
        self.last_sps_pps = sets;
    }

    /// Forgets the session and the parameter sets; the host invalidates the session it
    /// held, if any.
    pub fn tear_down(&mut self)
        ensures
            final(self).session() is None,
            final(self).parameter_sets().len() == 0,
    {
        self.config = None;
        self.last_sps_pps = Vec::new();
    }
}

/// The configuration of the encoder a stream gets: its target size, at the in-memory
/// pipeline's defaults.
pub open spec fn bridge_encoder_config(target: ViewportSize) -> H264EncoderConfig {
    H264EncoderConfig {
        width: target.width,
        height: target.height,
        target_bitrate_kbps: 2500,
        max_fps: 30,
        keyframe_interval_frames: 60,
    }
}

/// The configuration of the encoder a stream capturing at `target` gets.
pub fn encoder_config_for(target: ViewportSize) -> (c: H264EncoderConfig)
    ensures
        c == bridge_encoder_config(target),
{
    H264EncoderConfig {
        width: target.width,
        height: target.height,
        target_bitrate_kbps: 2500,
        max_fps: 30,
        keyframe_interval_frames: 60,
    }
}

/// The encoder of one stream, as the bridge records it: the size it encodes and the last
/// payload it produced.
#[derive(Debug)]
pub struct BridgeEncoderEntry {
    pub target_viewport: ViewportSize,
    pub last_payload: Vec<u8>,
}

/// The status reported for a stream whose encoder failed with `e`, over what capture
/// reported (`base`): the failure's state and message, capture's counters kept.
pub open spec fn encoder_failure_status_ok(
    s: VideoCaptureRuntimeStatus,
    base: Option<VideoCaptureRuntimeStatus>,
    e: AppRelayError,
) -> bool {
    &&& s.state == if e is PermissionDenied {
        VideoCaptureRuntimeState::PermissionDenied
    } else {
        VideoCaptureRuntimeState::Failed
    }
    &&& s.frames_delivered == (match base {
        Some(b) => b.frames_delivered,
        None => 0,
    })
    &&& s.last_frame == (match base {
        Some(b) => b.last_frame,
        None => None,
    })
    &&& opt_text(s.message) == Some(error_message(e))
}

/// The encoders that the bridge runs, by stream, and the last failure of each.
#[derive(Debug)]
pub struct VideoToolboxBridgeState {
    encoders: TextTable<BridgeEncoderEntry>,
    encoder_errors: TextTable<AppRelayError>,
}

impl VideoToolboxBridgeState {
    /// The encoder of each stream.
    pub closed spec fn encoders(&self) -> Map<Seq<char>, BridgeEncoderEntry> {
        self.encoders@
    }

    /// The last encoder failure of each stream.
    pub closed spec fn errors(&self) -> Map<Seq<char>, AppRelayError> {
        self.encoder_errors@
    }

    /// A bridge with no encoder.
    pub fn new() -> (s: Self)
        ensures
            s.encoders() == Map::<Seq<char>, BridgeEncoderEntry>::empty(),
            s.errors() == Map::<Seq<char>, AppRelayError>::empty(),
    {
        VideoToolboxBridgeState { encoders: TextTable::new(), encoder_errors: TextTable::new() }
    }

    /// Records the outcome of building stream `stream_id`'s encoder for `target`: a
    /// configured encoder replaces any earlier one, with no payload yet and its stream's
    /// failure cleared; a failure is handed back and changes nothing.
    pub fn install_encoder(&mut self, stream_id: &str, target: ViewportSize, configured: Result<(), AppRelayError>) -> (r:
        Result<(), AppRelayError>)
        ensures
            r == configured,
            configured is Err ==> *final(self) == *old(self),
            configured is Ok ==> {
                &&& final(self).errors() == old(self).errors().remove(stream_id@)
                &&& final(self).encoders() == old(self).encoders().insert(
                    stream_id@,
                    final(self).encoders()[stream_id@],
                )
                &&& final(self).encoders()[stream_id@].target_viewport == target
                &&& final(self).encoders()[stream_id@].last_payload@.len() == 0
            },
    {
        match configured {
            Err(e) => Err(e),
            Ok(u) => {
                self.encoder_errors.remove(stream_id);
                self.encoders.insert(
                    stream_id,
                    BridgeEncoderEntry { target_viewport: target, last_payload: Vec::new() },
                );
                proof {
                    assert(self.encoders@ =~= old(self).encoders@.insert(stream_id@, self.encoders@[stream_id@]));
                }
                Ok(u)
            },
        }
    }

    /// Drops stream `stream_id`'s encoder and failure (on stop, a failed start, or when
    /// capture reports the stream stopped).
    pub fn remove_encoder(&mut self, stream_id: &str)
        ensures
            final(self).encoders() == old(self).encoders().remove(stream_id@),
            final(self).errors() == old(self).errors().remove(stream_id@),
    {
        self.encoders.remove(stream_id);
        self.encoder_errors.remove(stream_id);
    }

    /// Whether stream `stream_id` has an encoder (a delivered frame is dropped otherwise).
    pub fn has_encoder(&self, stream_id: &str) -> (b: bool)
        ensures
            b == self.encoders().contains_key(stream_id@),
    {
        self.encoders.get(stream_id).is_some()
    }

    /// Records that encoding a frame of stream `stream_id` failed with `error`.
    pub fn record_encode_error(&mut self, stream_id: &str, error: AppRelayError)
        ensures
            final(self).errors() == old(self).errors().insert(stream_id@, error),
            final(self).encoders() == old(self).encoders(),
    {
        self.encoder_errors.insert(stream_id, error);
    }

    /// Keeps the payload of a frame stream `stream_id`'s encoder produced: an empty
    /// payload, or one for a stream without an encoder, is dropped.
    pub fn record_payload(&mut self, stream_id: &str, payload: Vec<u8>)
        ensures
            final(self).errors() == old(self).errors(),
            payload@.len() == 0 || !old(self).encoders().contains_key(stream_id@) ==> final(self).encoders()
                == old(self).encoders(),
            payload@.len() > 0 && old(self).encoders().contains_key(stream_id@) ==> {
                &&& final(self).encoders() == old(self).encoders().insert(
                    stream_id@,
                    final(self).encoders()[stream_id@],
                )
                &&& final(self).encoders()[stream_id@].target_viewport == old(
                    self,
                ).encoders()[stream_id@].target_viewport
                &&& final(self).encoders()[stream_id@].last_payload@ == payload@
            },
    {
        if payload.len() == 0 {
            return;
        }
        let target = match self.encoders.get(stream_id) {
            Some(entry) => entry.target_viewport,
            None => {
                return;
            },
        };
        self.encoders.insert(stream_id, BridgeEncoderEntry { target_viewport: target, last_payload: payload });
        proof {
            assert(self.encoders@ =~= old(self).encoders@.insert(stream_id@, self.encoders@[stream_id@]));
        }
    }

    /// The last payload stream `stream_id`'s encoder produced; none before the first.
    pub fn latest_encoded_payload(&self, stream_id: &str) -> (r: Option<Vec<u8>>)
        ensures
            !self.encoders().contains_key(stream_id@) ==> r is None,
            self.encoders().contains_key(stream_id@) ==> if self.encoders()[stream_id@].last_payload@.len()
                == 0 {
                r is None
            } else {
                r matches Some(p) && p@ == self.encoders()[stream_id@].last_payload@
            },
    {
        match self.encoders.get(stream_id) {
            None => None,
            Some(entry) => {
                if entry.last_payload.len() == 0 {
                    None
                } else {
                    Some(entry.last_payload.clone())
                }
            },
        }
    }

    /// What stream `stream_id` reports, given what capture reports (`capture`): an
    /// encoder failure takes precedence, keeping capture's counters; otherwise capture's
    /// report.
    pub fn snapshot(&self, stream_id: &str, capture: Option<VideoCaptureRuntimeStatus>) -> (r: Option<
        VideoCaptureRuntimeStatus,
    >)
        ensures
            !self.errors().contains_key(stream_id@) ==> r == capture,
            self.errors().contains_key(stream_id@) ==> (r matches Some(s) && encoder_failure_status_ok(
                s,
                capture,
                self.errors()[stream_id@],
            )),
    {
        match self.encoder_errors.get(stream_id) {
            None => capture,
            Some(error) => {
                let state = match error {
                    AppRelayError::PermissionDenied(_) => VideoCaptureRuntimeState::PermissionDenied,
                    _ => VideoCaptureRuntimeState::Failed,
                };
                let (frames_delivered, last_frame) = match &capture {
                    Some(b) => (b.frames_delivered, b.last_frame),
                    None => (0, None),
                };
                Some(
                    VideoCaptureRuntimeStatus {
                        state,
                        frames_delivered,
                        last_frame,
                        message: Some(capture_error_message(error)),
                    },
                )
            },
        }
    }
}

} // verus!
