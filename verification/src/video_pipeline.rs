//! The in-memory video encoding pipeline: its encoding contract, the frame budget, and the
//! counters it keeps while frames are encoded.

use vstd::prelude::*;

use crate::media::EncodedVideoFrame;
use crate::protocol::ViewportSize;

verus! {

#[derive(Clone, Copy, Debug, PartialEq, Eq, Structural)]
pub enum VideoCodec {
    H264,
}

#[derive(Clone, Copy, Debug, PartialEq, Eq, Structural)]
pub enum VideoPixelFormat {
    Rgba,
}

#[derive(Clone, Copy, Debug, PartialEq, Eq, Structural)]
pub enum VideoHardwareAcceleration {
    Unaccelerated,
}

/// Where a pipeline stands.
#[derive(Clone, Copy, Debug, PartialEq, Eq, Structural)]
pub enum VideoEncodingPipelineState {
    Configured,
    Encoding,
    Drained,
}

/// Why the encoded resolution is what it is.
#[derive(Clone, Copy, Debug, PartialEq, Eq, Structural)]
pub enum VideoResolutionAdaptationReason {
    MatchesViewport,
    CappedToLimits,
}

/// The largest resolution encoded.
#[derive(Clone, Copy, Debug, PartialEq, Eq, Structural)]
pub struct VideoResolutionLimits {
    pub max_width: u32,
    pub max_height: u32,
    pub max_pixels: u32,
}

/// The viewport asked for and the resolution encoded.
#[derive(Clone, Copy, Debug, PartialEq, Eq, Structural)]
pub struct VideoResolutionAdaptation {
    pub requested_viewport: ViewportSize,
    pub current_target: ViewportSize,
    pub limits: VideoResolutionLimits,
    pub reason: VideoResolutionAdaptationReason,
}

/// What the encoder aims for.
#[derive(Clone, Copy, Debug, PartialEq, Eq, Structural)]
pub struct VideoEncodingTarget {
    pub target_bitrate_kbps: u32,
    pub resolution: ViewportSize,
    pub max_fps: u32,
    pub keyframe_interval_frames: u32,
}

/// The encoding that a stream uses.
#[derive(Clone, Copy, Debug, PartialEq, Eq, Structural)]
pub struct VideoEncodingContract {
    pub codec: VideoCodec,
    pub pixel_format: VideoPixelFormat,
    pub hardware_acceleration: VideoHardwareAcceleration,
    pub target: VideoEncodingTarget,
    pub adaptation: VideoResolutionAdaptation,
}

/// What the pipeline has produced.
#[derive(Debug, PartialEq, Eq)]
pub struct VideoEncodingOutput {
    pub frames_submitted: u64,
    pub frames_encoded: u64,
    pub keyframes_encoded: u64,
    pub bytes_produced: u64,
    pub last_frame: Option<EncodedVideoFrame>,
}

/// An encoding pipeline.
#[derive(Debug, PartialEq, Eq)]
pub struct VideoEncodingPipeline {
    pub contract: VideoEncodingContract,
    pub state: VideoEncodingPipelineState,
    pub output: VideoEncodingOutput,
}

/// Whether two outputs hold the same values.
pub open spec fn same_output(a: VideoEncodingOutput, b: VideoEncodingOutput) -> bool {
    &&& a.frames_submitted == b.frames_submitted
    &&& a.frames_encoded == b.frames_encoded
    &&& a.keyframes_encoded == b.keyframes_encoded
    &&& a.bytes_produced == b.bytes_produced
    &&& match (a.last_frame, b.last_frame) {
        (Some(x), Some(y)) => crate::media::same_frame(x, y),
        (None, None) => true,
        _ => false,
    }
}

/// Whether two pipelines hold the same values.
pub open spec fn same_pipeline(a: VideoEncodingPipeline, b: VideoEncodingPipeline) -> bool {
    &&& a.contract == b.contract
    &&& a.state == b.state
    &&& same_output(a.output, b.output)
}

impl Clone for VideoEncodingOutput {
    fn clone(&self) -> (r: Self)
        ensures
            same_output(r, *self),
    {
        VideoEncodingOutput {
            frames_submitted: self.frames_submitted,
            frames_encoded: self.frames_encoded,
            keyframes_encoded: self.keyframes_encoded,
            bytes_produced: self.bytes_produced,
            last_frame: match &self.last_frame {
                Some(f) => Some(f.clone()),
                None => None,
            },
        }
    }
}

impl Clone for VideoEncodingPipeline {
    fn clone(&self) -> (r: Self)
        ensures
            same_pipeline(r, *self),
    {
        VideoEncodingPipeline {
            contract: self.contract,
            state: self.state,
            output: self.output.clone(),
        }
    }
}

pub const MAX_FPS: u32 = 30;

pub const KEYFRAME_INTERVAL_FRAMES: u32 = 60;

pub const MIN_DIMENSION: u32 = 2;

pub const MAX_WIDTH: u32 = 1920;

pub const MAX_HEIGHT: u32 = 1080;

pub const MAX_PIXELS: u32 = 2073600;

/// `a.is_multiple_of(b)`: zero is the only multiple of zero.
pub open spec fn multiple_of(a: nat, b: nat) -> bool {
    if b == 0 {
        a == 0
    } else {
        a % b == 0
    }
}

/// A dimension rounded down to an even number, at least `MIN_DIMENSION`, at most `u32::MAX`.
pub open spec fn floor_to_even_spec(value: nat) -> nat {
    let even = if value > MIN_DIMENSION {
        (value - value % 2) as nat
    } else {
        MIN_DIMENSION as nat
    };
    if even > u32::MAX {
        u32::MAX as nat
    } else {
        even
    }
}

/// The resolution limits of the pipeline.
pub open spec fn limits() -> VideoResolutionLimits {
    VideoResolutionLimits { max_width: MAX_WIDTH, max_height: MAX_HEIGHT, max_pixels: MAX_PIXELS }
}

/// A viewport within the limits is encoded as it is; a viewport with a zero side is
/// encoded at the smallest size. Any other viewport has to be scaled down.
pub open spec fn unscaled_target(v: ViewportSize) -> Option<ViewportSize> {
    if v.width == 0 || v.height == 0 {
        Some(ViewportSize { width: MIN_DIMENSION, height: MIN_DIMENSION })
    } else if v.width <= MAX_WIDTH && v.height <= MAX_HEIGHT && v.width * v.height <= MAX_PIXELS {
        Some(v)
    } else {
        None
    }
}

/// The bitrate for a resolution: a tenth of a kilobit per pixel per second at the frame
/// rate, at least 250 kbps, at most `u32::MAX`.
pub open spec fn bitrate_for(v: ViewportSize) -> nat {
    let per_second = (v.width as nat) * (v.height as nat) * (MAX_FPS as nat);
    let b = if per_second / 10000 < 250 {
        250
    } else {
        per_second / 10000
    };
    if b > u32::MAX {
        u32::MAX as nat
    } else {
        b
    }
}

/// The bytes an encoded frame takes: the per-frame share of the bitrate, but no less than a
/// byte per 200 pixels; twice that for a keyframe; at most `u32::MAX`.
pub open spec fn frame_bytes(v: ViewportSize, kbps: u32, keyframe: bool) -> nat {
    let budget = (kbps as nat) * 1000 / 8 / (MAX_FPS as nat);
    let floor = (v.width as nat) * (v.height as nat) / 200;
    let base = if budget < floor {
        floor
    } else {
        budget
    };
    let total = if keyframe {
        base * 2
    } else {
        base
    };
    if total > u32::MAX {
        u32::MAX as nat
    } else {
        total
    }
}

/// The adaptation from a requested viewport to the resolution encoded.
pub open spec fn adaptation_for(
    requested: ViewportSize,
    current_target: ViewportSize,
) -> VideoResolutionAdaptation {
    VideoResolutionAdaptation {
        requested_viewport: requested,
        current_target,
        limits: limits(),
        reason: if current_target == requested {
            VideoResolutionAdaptationReason::MatchesViewport
        } else {
            VideoResolutionAdaptationReason::CappedToLimits
        },
    }
}

/// Output before any frame.
pub open spec fn empty_output() -> VideoEncodingOutput {
    VideoEncodingOutput {
        frames_submitted: 0,
        frames_encoded: 0,
        keyframes_encoded: 0,
        bytes_produced: 0,
        last_frame: None,
    }
}

/// Whether the bitrate of a resolution can be worked out without overflow.
pub open spec fn bitrate_computable(v: ViewportSize) -> bool {
    (v.width as nat) * (v.height as nat) * (MAX_FPS as nat) <= u64::MAX
}

/// Whether the next frame of a pipeline is a keyframe: the first frame, then every
/// `keyframe_interval_frames` frames.
pub open spec fn next_is_keyframe(p: VideoEncodingPipeline) -> bool {
    multiple_of(p.output.frames_encoded as nat, p.contract.target.keyframe_interval_frames as nat)
}

/// The bytes the next frame of a pipeline takes.
pub open spec fn next_frame_bytes(p: VideoEncodingPipeline) -> nat {
    frame_bytes(p.contract.target.resolution, p.contract.target.target_bitrate_kbps, next_is_keyframe(p))
}

/// Whether the counters of a pipeline leave room for one more frame.
pub open spec fn can_encode_next(p: VideoEncodingPipeline) -> bool {
    &&& p.output.frames_encoded < u64::MAX
    &&& p.output.frames_submitted < u64::MAX
    &&& p.output.keyframes_encoded < u64::MAX
    &&& p.output.frames_encoded * 1000 <= u64::MAX
    &&& p.output.bytes_produced + u32::MAX <= u64::MAX
}

/// Pipeline `p` after encoding its next frame: its sequence number follows the last, it is
/// a keyframe on the first frame and every `keyframe_interval_frames` frames after it, and
/// it is stamped at the frame rate.
pub open spec fn next_frame_encoded(q: VideoEncodingPipeline, p: VideoEncodingPipeline) -> bool {
    &&& q.contract == p.contract
    &&& q.state == VideoEncodingPipelineState::Encoding
    &&& q.output.frames_submitted == p.output.frames_submitted + 1
    &&& q.output.frames_encoded == p.output.frames_encoded + 1
    &&& q.output.keyframes_encoded == p.output.keyframes_encoded + if next_is_keyframe(p) {
        1int
    } else {
        0int
    }
    &&& q.output.bytes_produced == p.output.bytes_produced + next_frame_bytes(p)
    &&& q.output.last_frame matches Some(f) && f.sequence == p.output.frames_encoded + 1
        && f.timestamp_ms == p.output.frames_encoded * 1000 / (MAX_FPS as int) && f.byte_length
        == next_frame_bytes(p) && f.keyframe == next_is_keyframe(p) && f.payload@.len() == 0
}

/// Whether working out the bitrate of a resolution would overflow.
pub fn bitrate_overflows(v: ViewportSize) -> (b: bool)
    ensures
        b == !bitrate_computable(v),
{
    let w = v.width as u64;
    let h = v.height as u64;
    assert(w * h <= 0xffff_ffffu64 * 0xffff_ffffu64) by (nonlinear_arith)
        requires
            w <= 0xffff_ffffu64,
            h <= 0xffff_ffffu64,
    ;
    let pixels = w * h;
    pixels > 0xffff_ffff_ffff_ffffu64 / 30
}

/// The contract of a pipeline configured for viewport `requested`, encoding at
/// `current_target`.
pub open spec fn configured_contract(requested: ViewportSize, current_target: ViewportSize) -> VideoEncodingContract {
    VideoEncodingContract {
        codec: VideoCodec::H264,
        pixel_format: VideoPixelFormat::Rgba,
        hardware_acceleration: VideoHardwareAcceleration::Unaccelerated,
        target: VideoEncodingTarget {
            target_bitrate_kbps: bitrate_for(current_target) as u32,
            resolution: current_target,
            max_fps: MAX_FPS,
            keyframe_interval_frames: KEYFRAME_INTERVAL_FRAMES,
        },
        adaptation: adaptation_for(requested, current_target),
    }
}

/// The rules of the in-memory encoding pipeline.
pub struct InMemoryVideoEncodingPipeline;

impl InMemoryVideoEncodingPipeline {
    /// A dimension rounded down to an even number, clamped to `MIN_DIMENSION..=u32::MAX`.
    pub fn floor_to_even(value: u64) -> (r: u32)
        ensures
            r == floor_to_even_spec(value as nat),
    {
        let even: u64 = if value > MIN_DIMENSION as u64 {
            value - (value % 2)
        } else {
            MIN_DIMENSION as u64
        };
        if even > 0xffff_ffffu64 {
            0xffff_ffffu32
        } else {
            even as u32
        }
    }

    /// The encoded resolution for a viewport that needs no scaling: the viewport itself
    /// when within the limits, the smallest size when a side is zero; `None` when the
    /// viewport has to be scaled down to the limits.
    pub fn unscaled_target(viewport: ViewportSize) -> (r: Option<ViewportSize>)
        ensures
            r == unscaled_target(viewport),
    {
        if viewport.width == 0 || viewport.height == 0 {
            return Some(ViewportSize { width: MIN_DIMENSION, height: MIN_DIMENSION });
        }
        let w = viewport.width as u64;
        let h = viewport.height as u64;
        assert(w * h <= 0xffff_ffffu64 * 0xffff_ffffu64) by (nonlinear_arith)
            requires
                w <= 0xffff_ffffu64,
                h <= 0xffff_ffffu64,
        ;
        let pixels: u64 = w * h;
        if viewport.width <= MAX_WIDTH && viewport.height <= MAX_HEIGHT && pixels
            <= MAX_PIXELS as u64 {
            Some(viewport)
        } else {
            None
        }
    }

    /// The bitrate for a resolution.
    pub fn target_bitrate_kbps(viewport: &ViewportSize) -> (r: u32)
        requires
            bitrate_computable(*viewport),
        ensures
            r == bitrate_for(*viewport),
    {
        let per_second: u64 = viewport.width as u64 * viewport.height as u64 * MAX_FPS as u64;
        let b = per_second / 10000;
        let b = if b < 250 {
            250
        } else {
            b
        };
        if b > 0xffff_ffffu64 {
            0xffff_ffffu32
        } else {
            b as u32
        }
    }

    /// The bytes an encoded frame takes.
    pub fn encoded_frame_bytes(viewport: &ViewportSize, target_bitrate_kbps: u32, keyframe: bool) -> (r:
        u32)
        ensures
            r == frame_bytes(*viewport, target_bitrate_kbps, keyframe),
    {
        let budget: u64 = (target_bitrate_kbps as u64 * 1000 / 8) / MAX_FPS as u64;
        let w = viewport.width as u64;
        let h = viewport.height as u64;
        assert(w * h <= 0xffff_ffffu64 * 0xffff_ffffu64) by (nonlinear_arith)
            requires
                w <= 0xffff_ffffu64,
                h <= 0xffff_ffffu64,
        ;
        let floor: u64 = w * h / 200;
        let base = if budget < floor {
            floor
        } else {
            budget
        };
        let total: u64 = if keyframe {
            base * 2
        } else {
            base
        };
        if total > 0xffff_ffffu64 {
            0xffff_ffffu32
        } else {
            total as u32
        }
    }

    /// A pipeline configured for `requested`, encoding at `current_target` (the requested
    /// viewport brought within the limits).
    pub fn configured(requested: ViewportSize, current_target: ViewportSize) -> (p:
        VideoEncodingPipeline)
        requires
            bitrate_computable(current_target),
        ensures
            p.contract == configured_contract(requested, current_target),
            p.state == VideoEncodingPipelineState::Configured,
            p.output == empty_output(),
    {
        let reason = if current_target == requested {
            VideoResolutionAdaptationReason::MatchesViewport
        } else {
            VideoResolutionAdaptationReason::CappedToLimits
        };
        VideoEncodingPipeline {
            contract: VideoEncodingContract {
                codec: VideoCodec::H264,
                pixel_format: VideoPixelFormat::Rgba,
                hardware_acceleration: VideoHardwareAcceleration::Unaccelerated,
                target: VideoEncodingTarget {
                    target_bitrate_kbps: Self::target_bitrate_kbps(&current_target),
                    resolution: current_target,
                    max_fps: MAX_FPS,
                    keyframe_interval_frames: KEYFRAME_INTERVAL_FRAMES,
                },
                adaptation: VideoResolutionAdaptation {
                    requested_viewport: requested,
                    current_target,
                    limits: VideoResolutionLimits {
                        max_width: MAX_WIDTH,
                        max_height: MAX_HEIGHT,
                        max_pixels: MAX_PIXELS,
                    },
                    reason,
                },
            },
            state: VideoEncodingPipelineState::Configured,
            output: VideoEncodingOutput {
                frames_submitted: 0,
                frames_encoded: 0,
                keyframes_encoded: 0,
                bytes_produced: 0,
                last_frame: None,
            },
        }
    }

    /// Encodes the next frame: its sequence number follows the last, it is a keyframe on
    /// the first frame and every `keyframe_interval_frames` frames after it, and it is
    /// stamped at the frame rate.
    pub fn encode_next_frame(pipeline: &mut VideoEncodingPipeline)
        requires
            can_encode_next(*old(pipeline)),
        ensures
            next_frame_encoded(*final(pipeline), *old(pipeline)),
    {
        let next_sequence = pipeline.output.frames_encoded + 1;
        let interval = pipeline.contract.target.keyframe_interval_frames as u64;
        let keyframe = next_sequence == 1 || if interval == 0 {
            next_sequence - 1 == 0
        } else {
            (next_sequence - 1) % interval == 0
        };
        proof {
            if interval > 0 {
                assert(0nat % (interval as nat) == 0) by (nonlinear_arith)
                    requires
                        interval > 0,
                ;
            }
        }
        assert(keyframe == next_is_keyframe(*old(pipeline)));
        let byte_length = Self::encoded_frame_bytes(
            &pipeline.contract.target.resolution,
            pipeline.contract.target.target_bitrate_kbps,
            keyframe,
        );
        pipeline.state = VideoEncodingPipelineState::Encoding;
        pipeline.output.frames_submitted = pipeline.output.frames_submitted + 1;
        pipeline.output.frames_encoded = next_sequence;
        pipeline.output.keyframes_encoded = pipeline.output.keyframes_encoded + if keyframe {
            1
        } else {
            0
        };
        pipeline.output.bytes_produced = pipeline.output.bytes_produced + byte_length as u64;
        pipeline.output.last_frame = Some(
            EncodedVideoFrame {
                sequence: next_sequence,
                timestamp_ms: (next_sequence - 1) * 1000 / MAX_FPS as u64,
                byte_length,
                keyframe,
                payload: Vec::new(),
            },
        );
    }

    /// Moves the pipeline to a new viewport (encoded at `current_target`), recomputing the
    /// bitrate; it keeps encoding only when asked to and it was encoding.
    pub fn reconfigure(
        pipeline: &mut VideoEncodingPipeline,
        requested: ViewportSize,
        current_target: ViewportSize,
        preserve_encoding_state: bool,
    )
        requires
            bitrate_computable(current_target),
        ensures
            final(pipeline).state == if preserve_encoding_state && old(pipeline).state
                == VideoEncodingPipelineState::Encoding {
                VideoEncodingPipelineState::Encoding
            } else {
                VideoEncodingPipelineState::Configured
            },
            final(pipeline).contract == (VideoEncodingContract {
                target: VideoEncodingTarget {
                    resolution: current_target,
                    target_bitrate_kbps: bitrate_for(current_target) as u32,
                    ..old(pipeline).contract.target
                },
                adaptation: adaptation_for(requested, current_target),
                ..old(pipeline).contract
            }),
            final(pipeline).output == old(pipeline).output,
    {
        let state = if preserve_encoding_state && pipeline.state
            == VideoEncodingPipelineState::Encoding {
            VideoEncodingPipelineState::Encoding
        } else {
            VideoEncodingPipelineState::Configured
        };
        let reason = if current_target == requested {
            VideoResolutionAdaptationReason::MatchesViewport
        } else {
            VideoResolutionAdaptationReason::CappedToLimits
        };
        pipeline.contract.target.resolution = current_target;
        pipeline.contract.target.target_bitrate_kbps = Self::target_bitrate_kbps(&current_target);
        pipeline.contract.adaptation = VideoResolutionAdaptation {
            requested_viewport: requested,
            current_target,
            limits: VideoResolutionLimits {
                max_width: MAX_WIDTH,
                max_height: MAX_HEIGHT,
                max_pixels: MAX_PIXELS,
            },
            reason,
        };
        pipeline.state = state;
    }

    /// Starts the pipeline over after a reconnect: configured, with nothing produced.
    pub fn reset_for_reconnect(pipeline: &mut VideoEncodingPipeline)
        ensures
            final(pipeline).contract == old(pipeline).contract,
            final(pipeline).state == VideoEncodingPipelineState::Configured,
            final(pipeline).output == empty_output(),
    {
        pipeline.state = VideoEncodingPipelineState::Configured;
        pipeline.output = VideoEncodingOutput {
            frames_submitted: 0,
            frames_encoded: 0,
            keyframes_encoded: 0,
            bytes_produced: 0,
            last_frame: None,
        };
    }

    /// Stops the pipeline; what it produced stays.
    pub fn drain(pipeline: &mut VideoEncodingPipeline)
        ensures
            final(pipeline).contract == old(pipeline).contract,
            final(pipeline).state == VideoEncodingPipelineState::Drained,
            final(pipeline).output == old(pipeline).output,
    {
        pipeline.state = VideoEncodingPipelineState::Drained;
    }
}

} // verus!
