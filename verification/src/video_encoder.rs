//! The H.264 encoder boundary: configuration checks and the in-memory encoder.

use vstd::prelude::*;

use crate::decimal::{dec, write_dec};
use crate::protocol::AppRelayError;
use crate::text::{chars_of, extend_chars, string_from_chars};

verus! {

/// How an encoder is set up.
#[derive(Clone, Copy, Debug, PartialEq, Eq, Structural)]
pub struct H264EncoderConfig {
    pub width: u32,
    pub height: u32,
    pub target_bitrate_kbps: u32,
    pub max_fps: u32,
    pub keyframe_interval_frames: u32,
}

/// `<width>x<height>` as written in the messages.
pub open spec fn dimensions_text(c: H264EncoderConfig) -> Seq<char> {
    dec(c.width as nat) + "x"@ + dec(c.height as nat)
}

/// The message of the first rule that a configuration breaks, if any: dimensions that
/// are zero or odd, then a zero frame rate, bitrate or keyframe interval.
pub open spec fn encoder_config_problem(c: H264EncoderConfig) -> Option<Seq<char>> {
    if c.width == 0 || c.height == 0 {
        Some("H.264 encoder dimensions must be non-zero (got "@ + dimensions_text(c) + ")"@)
    } else if c.width % 2 != 0 || c.height % 2 != 0 {
        Some(
            "H.264 encoder dimensions must be even (got "@ + dimensions_text(c)
                + "); H.264 macroblocks require it"@,
        )
    } else if c.max_fps == 0 {
        Some("H.264 encoder max_fps must be greater than zero"@)
    } else if c.target_bitrate_kbps == 0 {
        Some("H.264 encoder target_bitrate_kbps must be greater than zero"@)
    } else if c.keyframe_interval_frames == 0 {
        Some("H.264 encoder keyframe_interval_frames must be greater than zero"@)
    } else {
        None
    }
}

fn dimensions_message(prefix: &str, c: &H264EncoderConfig, suffix: &str) -> (r: String)
    ensures
        r@ == prefix@ + dimensions_text(*c) + suffix@,
{
    let mut out = chars_of(prefix);
    write_dec(c.width as u64, &mut out);
    let x = chars_of("x");
    extend_chars(&mut out, x.as_slice());
    write_dec(c.height as u64, &mut out);
    let tail = chars_of(suffix);
    extend_chars(&mut out, tail.as_slice());
    assert(out@ =~= prefix@ + dimensions_text(*c) + suffix@);
    string_from_chars(out.as_slice())
}

impl H264EncoderConfig {
    /// Refuses configurations that an encoder could not honour, with `InvalidRequest`
    /// naming the first broken rule.
    pub fn validate(&self) -> (r: Result<(), AppRelayError>)
        ensures
            r is Ok <==> encoder_config_problem(*self) is None,
            r matches Err(e) ==> (e matches AppRelayError::InvalidRequest(m)
                && encoder_config_problem(*self) == Some(m@)),
    {
        if self.width == 0 || self.height == 0 {
            return Err(
                AppRelayError::InvalidRequest(
                    dimensions_message(
                        "H.264 encoder dimensions must be non-zero (got ",
                        self,
                        ")",
                    ),
                ),
            );
        }
        if self.width % 2 != 0 || self.height % 2 != 0 {
            return Err(
                AppRelayError::InvalidRequest(
                    dimensions_message(
                        "H.264 encoder dimensions must be even (got ",
                        self,
                        "); H.264 macroblocks require it",
                    ),
                ),
            );
        }
        if self.max_fps == 0 {
            return Err(
                AppRelayError::InvalidRequest(
                    String::from_str("H.264 encoder max_fps must be greater than zero"),
                ),
            );
        }
        if self.target_bitrate_kbps == 0 {
            return Err(
                AppRelayError::InvalidRequest(
                    String::from_str("H.264 encoder target_bitrate_kbps must be greater than zero"),
                ),
            );
        }
        if self.keyframe_interval_frames == 0 {
            return Err(
                AppRelayError::InvalidRequest(
                    String::from_str(
                        "H.264 encoder keyframe_interval_frames must be greater than zero",
                    ),
                ),
            );
        }
        Ok(())
    }
}

/// One encoded H.264 access unit in Annex-B framing.
#[derive(Clone, Debug, PartialEq, Eq)]
pub struct EncodedH264Frame {
    pub payload: Vec<u8>,
    pub keyframe: bool,
    pub timestamp_ms: u64,
}

/// The encoder surface that the video pipeline drives.
pub trait H264VideoEncoder {
    fn configure(&mut self, config: H264EncoderConfig) -> Result<(), AppRelayError>;

    fn shutdown(&mut self);
}

/// The message given when frames are pushed before `configure`.
pub open spec fn not_configured_message() -> Seq<char> {
    "H.264 encoder must be configured before pushing frames"@
}

/// Whether the `n`-th frame since configuration (counting from one) is a keyframe: the
/// first frame and then every `interval` frames.
pub open spec fn is_keyframe_index(n: nat, interval: nat) -> bool {
    n >= 1 && (n - 1) % (interval as int) == 0
}

/// A call on an encoder, and whether it succeeded.
pub enum EncoderCall {
    Configure { ok: bool },
    Encode { ok: bool },
    Shutdown,
}

/// What one call does to the frame count: a successful `configure`, and `shutdown`, restart
/// it; a successful encode adds one; a refused call leaves it (a refused `configure` leaves
/// the whole encoder) as it was.
pub open spec fn encoder_step(
    before: InMemoryH264VideoEncoder,
    call: EncoderCall,
    after: InMemoryH264VideoEncoder,
) -> bool {
    match call {
        EncoderCall::Configure { ok } => if ok {
            after.pushed() == 0
        } else {
            after == before
        },
        EncoderCall::Encode { ok } => after.pushed() == before.pushed() + if ok {
            1nat
        } else {
            0nat
        },
        EncoderCall::Shutdown => after.pushed() == 0,
    }
}

/// The successful encodes among `calls` since the last successful `configure` or `shutdown`.
pub open spec fn encodes_since_reset(calls: Seq<EncoderCall>) -> nat
    decreases calls.len(),
{
    if calls.len() == 0 {
        0
    } else {
        let rest = encodes_since_reset(calls.drop_last());
        match calls.last() {
            EncoderCall::Configure { ok } => if ok {
                0
            } else {
                rest
            },
            EncoderCall::Encode { ok } => if ok {
                rest + 1
            } else {
                rest
            },
            EncoderCall::Shutdown => 0,
        }
    }
}

/// An encoder that checks its configuration and the keyframe cadence but produces no
/// payload bytes.
#[derive(Clone, Debug)]
pub struct InMemoryH264VideoEncoder {
    config: Option<H264EncoderConfig>,
    frames_pushed: u64,
}

impl InMemoryH264VideoEncoder {
    /// The configuration in force, if `configure` was called since the last shutdown.
    pub closed spec fn current_config(&self) -> Option<H264EncoderConfig> {
        self.config
    }

    /// The frames encoded since the last `configure` or `shutdown`.
    pub closed spec fn pushed(&self) -> nat {
        self.frames_pushed as nat
    }

    /// A configuration in force is a valid one.
    pub closed spec fn wf(&self) -> bool {
        self.config matches Some(c) ==> encoder_config_problem(c) is None
    }

    /// An unconfigured encoder.
    pub fn new() -> (e: Self)
        ensures
            e.wf(),
            e.current_config() is None,
            e.pushed() == 0,
    {
        InMemoryH264VideoEncoder { config: None, frames_pushed: 0 }
    }

    /// The frames encoded since the last `configure` or `shutdown`.
    pub fn frames_pushed(&self) -> (n: u64)
        ensures
            n == self.pushed(),
    {
        self.frames_pushed
    }

    /// Encodes a synthetic frame stamped `timestamp_ms`: an empty payload, a keyframe on
    /// the first frame and every `keyframe_interval_frames` frames after it. Refused with
    /// `ServiceUnavailable` before `configure`.
    pub fn encode_synthetic_frame(&mut self, timestamp_ms: u64) -> (r: Result<
        EncodedH264Frame,
        AppRelayError,
    >)
        requires
            old(self).wf(),
            old(self).pushed() < u64::MAX,
        ensures
            final(self).wf(),
            final(self).current_config() == old(self).current_config(),
            old(self).current_config() is None ==> (r matches Err(e) && (e
                matches AppRelayError::ServiceUnavailable(m) && m@ == not_configured_message())),
            old(self).current_config() is None ==> final(self).pushed() == old(self).pushed(),
            old(self).current_config() matches Some(c) ==> (r matches Ok(f) && f.payload@.len()
                == 0 && f.timestamp_ms == timestamp_ms && f.keyframe == is_keyframe_index(
                final(self).pushed(),
                c.keyframe_interval_frames as nat,
            )),
            old(self).current_config() is Some ==> final(self).pushed() == old(self).pushed() + 1,
            encoder_step(*old(self), EncoderCall::Encode { ok: r is Ok }, *final(self)),
    {
        let interval = match &self.config {
            None => {
                return Err(
                    AppRelayError::ServiceUnavailable(
                        String::from_str("H.264 encoder must be configured before pushing frames"),
                    ),
                );
            },
            Some(c) => c.keyframe_interval_frames as u64,
        };
        self.frames_pushed = self.frames_pushed + 1;
        let keyframe = self.frames_pushed == 1 || (self.frames_pushed - 1) % interval == 0;
        Ok(EncodedH264Frame { payload: Vec::new(), keyframe, timestamp_ms })
    }
}

impl Default for InMemoryH264VideoEncoder {
    fn default() -> (e: Self)
        ensures
            e.wf(),
            e.current_config() is None,
            e.pushed() == 0,
    {
        InMemoryH264VideoEncoder::new()
    }
}

impl H264VideoEncoder for InMemoryH264VideoEncoder {
    /// Takes a valid configuration and restarts the frame count; an invalid one is
    /// refused and changes nothing.
    fn configure(&mut self, config: H264EncoderConfig) -> (r: Result<(), AppRelayError>)
        ensures
            r is Ok <==> encoder_config_problem(config) is None,
            r matches Err(e) ==> (e matches AppRelayError::InvalidRequest(m)
                && encoder_config_problem(config) == Some(m@)),
            r is Ok ==> final(self).current_config() == Some(config) && final(self).pushed()
                == 0,
            r is Err ==> *final(self) == *old(self),
            old(self).wf() ==> final(self).wf(),
            encoder_step(*old(self), EncoderCall::Configure { ok: r is Ok }, *final(self)),
    {
        match config.validate() {
            Err(e) => Err(e),
            Ok(()) => {
                self.config = Some(config);
                self.frames_pushed = 0;
                Ok(())
            },
        }
    }

    /// Forgets the configuration and the frame count.
    fn shutdown(&mut self)
        ensures
            final(self).wf(),
            final(self).current_config() is None,
            final(self).pushed() == 0,
            encoder_step(*old(self), EncoderCall::Shutdown, *final(self)),
    {
        self.config = None;
        self.frames_pushed = 0;
    }
}

} // verus!

verus! {

/// Keyframes recur with the configured period: frame `n` is a keyframe exactly when frame
/// `n + interval` is.
pub proof fn lemma_keyframe_period(n: nat, interval: nat)
    requires
        n >= 1,
        interval > 0,
    ensures
        is_keyframe_index(n + interval, interval) == is_keyframe_index(n, interval),
{
    let a = (n - 1) as int;
    let i = interval as int;
    assert((a + i) % i == a % i) by (nonlinear_arith)
        requires
            i > 0,
            a >= 0,
    {
        vstd::arithmetic::div_mod::lemma_mod_add_multiples_vanish(a, i);
    }
    assert((n + interval - 1) as int == a + i);
}


/// The frame count counts encodes: across states `trace` of an encoder, starting freshly
/// configured with `config` and where each step is a synthetic encode (the step
/// `encode_synthetic_frame` states), the count is the number of steps, and the frame of
/// each step is a keyframe exactly at the first frame and every `keyframe_interval_frames`
/// frames after it.
pub proof fn lemma_pushed_counts_encodes(trace: Seq<InMemoryH264VideoEncoder>, config: H264EncoderConfig)
    requires
        trace.len() >= 1,
        trace[0].current_config() == Some(config),
        trace[0].pushed() == 0,
        forall|i: int|
            0 <= i < trace.len() - 1 ==> (#[trigger] trace[i + 1]).current_config() == trace[i].current_config()
                && trace[i + 1].pushed() == trace[i].pushed() + 1,
    ensures
        forall|i: int| 0 <= i < trace.len() ==> (#[trigger] trace[i]).pushed() == i,
        forall|i: int| 0 <= i < trace.len() ==> (#[trigger] trace[i]).current_config() == Some(config),
        config.keyframe_interval_frames > 0 ==> forall|i: int|
            1 <= i < trace.len() ==> is_keyframe_index((#[trigger] trace[i]).pushed(), config.keyframe_interval_frames as nat)
                == ((i - 1) % (config.keyframe_interval_frames as int) == 0),
    decreases trace.len(),
{
    if trace.len() > 1 {
        let t = trace.drop_last();
        assert forall|i: int| 0 <= i < t.len() - 1 implies (#[trigger] t[i + 1]).current_config()
            == t[i].current_config() && t[i + 1].pushed() == t[i].pushed() + 1 by {
            assert(t[i + 1] == trace[i + 1]);
            assert(t[i] == trace[i]);
        }
        lemma_pushed_counts_encodes(t, config);
        let j = trace.len() - 2;
        assert(trace[j] == t[j]);
        assert(trace[j + 1].pushed() == trace[j].pushed() + 1);
        assert forall|i: int| 0 <= i < trace.len() implies (#[trigger] trace[i]).pushed() == i && trace[i].current_config()
            == Some(config) by {
            if i < trace.len() - 1 {
                assert(trace[i] == t[i]);
            }
        }
    }
}

/// The frame count counts the successful encodes since the last successful `configure` or
/// `shutdown`: across states `trace` of an encoder, starting with no frame counted (as `new`
/// leaves it), where step `i` is the call `calls[i]` (the step each call states), the count
/// after any prefix of calls is `encodes_since_reset` of that prefix.
pub proof fn lemma_frames_pushed_counts_encodes_since_reset(
    trace: Seq<InMemoryH264VideoEncoder>,
    calls: Seq<EncoderCall>,
)
    requires
        trace.len() == calls.len() + 1,
        trace[0].pushed() == 0,
        forall|i: int| 0 <= i < calls.len() ==> encoder_step(#[trigger] trace[i], calls[i], trace[i + 1]),
    ensures
        forall|n: int| 0 <= n < trace.len() ==> (#[trigger] trace[n]).pushed() == encodes_since_reset(
            calls.take(n),
        ),
{
    assert forall|n: int| 0 <= n < trace.len() implies (#[trigger] trace[n]).pushed()
        == encodes_since_reset(calls.take(n)) by {
        lemma_pushed_after(trace, calls, n);
    }
}

proof fn lemma_pushed_after(trace: Seq<InMemoryH264VideoEncoder>, calls: Seq<EncoderCall>, n: int)
    requires
        trace.len() == calls.len() + 1,
        trace[0].pushed() == 0,
        forall|i: int| 0 <= i < calls.len() ==> encoder_step(#[trigger] trace[i], calls[i], trace[i + 1]),
        0 <= n <= calls.len(),
    ensures
        trace[n].pushed() == encodes_since_reset(calls.take(n)),
    decreases n,
{
    if n > 0 {
        lemma_pushed_after(trace, calls, n - 1);
        assert(calls.take(n).drop_last() =~= calls.take(n - 1));
        assert(calls.take(n).last() == calls[n - 1]);
        assert(encoder_step(trace[n - 1], calls[n - 1], trace[n]));
    } else {
        assert(calls.take(0) =~= Seq::<EncoderCall>::empty());
    }
}

} // verus!
