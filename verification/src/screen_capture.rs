//! The bookkeeping of the ScreenCaptureKit selected-window capture runtime: which streams
//! are running, on which window, and what each reports. The framework calls that start,
//! stop and feed a stream are made by the host between the steps below, which take their
//! outcomes.

use vstd::prelude::*;
use crate::macos::{native_window_id_of, parse_native_window_id};
use crate::protocol::{AppRelayError, ViewportSize, opt_text};
use crate::text::{chars_of, extend_chars, string_from_chars};
use crate::text_table::TextTable;
use crate::video_capture::{
    starting_status, MacosWindowCaptureResizeRequest, MacosWindowCaptureStartRequest,
};
use crate::video_protocol::{CapturedVideoFrame, VideoCaptureRuntimeState, VideoCaptureRuntimeStatus};
use crate::video_stream::{capture_error_message, error_message};

verus! {

/// A capture that ScreenCaptureKit runs, as the runtime records it.
#[derive(Debug, PartialEq, Eq)]
pub struct ScreenCaptureKitActiveCapture {
    pub selected_window_id: String,
    pub application_id: String,
    pub title: String,
    pub target_viewport: ViewportSize,
    /// The CGWindowID parsed from the selected-window id, kept so a resize need not parse
    /// it again.
    pub native_window_id: u32,
}

/// The status reported for a capture that failed with `e`: denied when permission was
/// refused, failed otherwise, with nothing delivered and the error's message.
pub open spec fn failure_snapshot_ok(s: VideoCaptureRuntimeStatus, e: AppRelayError) -> bool {
    &&& s.state == if e is PermissionDenied {
        VideoCaptureRuntimeState::PermissionDenied
    } else {
        VideoCaptureRuntimeState::Failed
    }
    &&& s.frames_delivered == 0
    &&& s.last_frame is None
    &&& opt_text(s.message) == Some(error_message(e))
}

/// The status reported for a capture that failed with `error`.
pub fn failure_snapshot_for(error: &AppRelayError) -> (s: VideoCaptureRuntimeStatus)
    ensures
        failure_snapshot_ok(s, *error),
{
    let state = match error {
        AppRelayError::PermissionDenied(_) => VideoCaptureRuntimeState::PermissionDenied,
        _ => VideoCaptureRuntimeState::Failed,
    };
    VideoCaptureRuntimeStatus {
        state,
        frames_delivered: 0,
        last_frame: None,
        message: Some(capture_error_message(error)),
    }
}

/// The status after one more frame: delivering, the count moved on (staying at its
/// maximum), the frame of `size` stamped at `timestamp_ms`.
pub open spec fn next_frame_status(
    previous: Option<VideoCaptureRuntimeStatus>,
    size: ViewportSize,
    timestamp_ms: u64,
) -> VideoCaptureRuntimeStatus {
    let before = match previous {
        Some(s) => s.frames_delivered,
        None => 0,
    };
    let sequence: u64 = if before == u64::MAX {
        u64::MAX
    } else {
        (before + 1) as u64
    };
    VideoCaptureRuntimeStatus {
        state: VideoCaptureRuntimeState::Delivering,
        frames_delivered: sequence,
        last_frame: Some(CapturedVideoFrame { sequence, timestamp_ms, size }),
        message: None,
    }
}

pub open spec fn already_running_message(id: Seq<char>) -> Seq<char> {
    "ScreenCaptureKit stream "@ + id + " is already running"@
}

pub open spec fn not_running_message(id: Seq<char>) -> Seq<char> {
    "ScreenCaptureKit stream "@ + id + " is not running"@
}

pub open spec fn window_mismatch_message(id: Seq<char>, running: Seq<char>, requested: Seq<char>) -> Seq<char> {
    "stream "@ + id + " captures window "@ + running + " but resize was requested for "@ + requested
}

fn text3(a: &str, b: &str, c: &str) -> (r: String)
    ensures
        r@ == a@ + b@ + c@,
{
    let mut v = chars_of(a);
    extend_chars(&mut v, chars_of(b).as_slice());
    extend_chars(&mut v, chars_of(c).as_slice());
    string_from_chars(v.as_slice())
}

fn text6(a: &str, b: &str, c: &str, d: &str, e: &str, f: &str) -> (r: String)
    ensures
        r@ == a@ + b@ + c@ + d@ + e@ + f@,
{
    let mut v = chars_of(a);
    extend_chars(&mut v, chars_of(b).as_slice());
    extend_chars(&mut v, chars_of(c).as_slice());
    extend_chars(&mut v, chars_of(d).as_slice());
    extend_chars(&mut v, chars_of(e).as_slice());
    extend_chars(&mut v, chars_of(f).as_slice());
    string_from_chars(v.as_slice())
}

/// The streams ScreenCaptureKit captures and the status each reports.
#[derive(Debug)]
pub struct ScreenCaptureKitWindowRuntime {
    snapshots: TextTable<VideoCaptureRuntimeStatus>,
    streams: TextTable<ScreenCaptureKitActiveCapture>,
}

impl ScreenCaptureKitWindowRuntime {
    /// The status reported for each stream.
    pub closed spec fn snapshots(&self) -> Map<Seq<char>, VideoCaptureRuntimeStatus> {
        self.snapshots@
    }

    /// The running captures, by stream.
    pub closed spec fn captures(&self) -> Map<Seq<char>, ScreenCaptureKitActiveCapture> {
        self.streams@
    }

    /// A runtime with no stream.
    pub fn new() -> (r: Self)
        ensures
            r.snapshots() == Map::<Seq<char>, VideoCaptureRuntimeStatus>::empty(),
            r.captures() == Map::<Seq<char>, ScreenCaptureKitActiveCapture>::empty(),
    {
        ScreenCaptureKitWindowRuntime { snapshots: TextTable::new(), streams: TextTable::new() }
    }

    /// The status reported for stream `stream_id`.
    pub fn snapshot(&self, stream_id: &str) -> (r: Option<VideoCaptureRuntimeStatus>)
        ensures
            r == self.snapshots().index_opt(stream_id@),
    {
        match self.snapshots.get(stream_id) {
            Some(s) => Some(s.clone()),
            None => None,
        }
    }

    /// The first step of a start: a stream already running is refused; otherwise the
    /// stream reports starting and the window's CGWindowID is parsed (an unusable id is
    /// reported as the failure). On `Ok(id)` the host starts capturing window `id` and
    /// hands the outcome to `finish_start`.
    pub fn begin_start(&mut self, request: &MacosWindowCaptureStartRequest) -> (r: Result<u32, AppRelayError>)
        ensures
            final(self).captures() == old(self).captures(),
            old(self).captures().contains_key(request.stream_id@) ==> (r matches Err(
                AppRelayError::InvalidRequest(m),
            ) && m@ == already_running_message(request.stream_id@)) && final(self).snapshots() == old(
                self,
            ).snapshots(),
            !old(self).captures().contains_key(request.stream_id@) ==> match native_window_id_of(
                request.selected_window_id@,
            ) {
                Ok(n) => r == Ok::<u32, AppRelayError>(n) && final(self).snapshots() == old(
                    self,
                ).snapshots().insert(request.stream_id@, starting_status()),
                Err(m) => {
                    &&& r matches Err(AppRelayError::InvalidRequest(x)) && x@ == m
                    &&& final(self).snapshots() == old(self).snapshots().insert(
                        request.stream_id@,
                        final(self).snapshots()[request.stream_id@],
                    )
                    &&& r matches Err(e) && failure_snapshot_ok(final(self).snapshots()[request.stream_id@], e)
                },
            },
    {
        let id = request.stream_id.as_str();
        if self.streams.get(id).is_some() {
            return Err(
                AppRelayError::InvalidRequest(
                    text3("ScreenCaptureKit stream ", id, " is already running"),
                ),
            );
        }
        self.snapshots.insert(
            id,
            VideoCaptureRuntimeStatus {
                state: VideoCaptureRuntimeState::Starting,
                frames_delivered: 0,
                last_frame: None,
                message: None,
            },
        );
        match parse_native_window_id(request.selected_window_id.as_str()) {
            Ok(n) => Ok(n),
            Err(e) => {
                self.snapshots.insert(id, failure_snapshot_for(&e));
                proof {
                    assert(self.snapshots@ =~= old(self).snapshots@.insert(
                        request.stream_id@,
                        self.snapshots@[request.stream_id@],
                    ));
                }
                Err(e)
            },
        }
    }

    /// The last step of a start, with the host's outcome: a started capture is recorded;
    /// a failed one reports the failure.
    pub fn finish_start(
        &mut self,
        request: MacosWindowCaptureStartRequest,
        native_window_id: u32,
        started: Result<(), AppRelayError>,
    ) -> (r: Result<(), AppRelayError>)
        ensures
            r == started,
            started is Ok ==> final(self).snapshots() == old(self).snapshots() && final(self).captures()
                == old(self).captures().insert(
                request.stream_id@,
                ScreenCaptureKitActiveCapture {
                    selected_window_id: request.selected_window_id,
                    application_id: request.application_id,
                    title: request.title,
                    target_viewport: request.target_viewport,
                    native_window_id,
                },
            ),
            started matches Err(e) ==> {
                &&& final(self).captures() == old(self).captures()
                &&& final(self).snapshots() == old(self).snapshots().insert(
                    request.stream_id@,
                    final(self).snapshots()[request.stream_id@],
                )
                &&& failure_snapshot_ok(final(self).snapshots()[request.stream_id@], e)
            },
    {
        match started {
            Ok(u) => {
                let id = request.stream_id;
                self.streams.insert(
                    id.as_str(),
                    ScreenCaptureKitActiveCapture {
                        selected_window_id: request.selected_window_id,
                        application_id: request.application_id,
                        title: request.title,
                        target_viewport: request.target_viewport,
                        native_window_id,
                    },
                );
                Ok(u)
            },
            Err(e) => {
                self.snapshots.insert(request.stream_id.as_str(), failure_snapshot_for(&e));
                proof {
                    assert(self.snapshots@ =~= old(self).snapshots@.insert(
                        request.stream_id@,
                        self.snapshots@[request.stream_id@],
                    ));
                }
                Err(e)
            },
        }
    }

    /// The first step of a resize: a stream that is not running, or that captures another
    /// window, is refused and left as it is; otherwise its capture is taken out and handed
    /// back, for the host to stop it and start it again at the new size (see
    /// `restart_request`).
    pub fn begin_resize(&mut self, request: &MacosWindowCaptureResizeRequest) -> (r: Result<
        ScreenCaptureKitActiveCapture,
        AppRelayError,
    >)
        ensures
            final(self).snapshots() == old(self).snapshots(),
            !old(self).captures().contains_key(request.stream_id@) ==> (r matches Err(
                AppRelayError::NotFound(m),
            ) && m@ == not_running_message(request.stream_id@)) && final(self).captures() == old(
                self,
            ).captures(),
            old(self).captures().contains_key(request.stream_id@) ==> {
                let a = old(self).captures()[request.stream_id@];
                if a.selected_window_id@ != request.selected_window_id@ {
                    &&& r matches Err(AppRelayError::InvalidRequest(m)) && m@ == window_mismatch_message(
                        request.stream_id@,
                        a.selected_window_id@,
                        request.selected_window_id@,
                    )
                    &&& final(self).captures() == old(self).captures()
                } else {
                    r == Ok::<ScreenCaptureKitActiveCapture, AppRelayError>(a) && final(self).captures()
                        == old(self).captures().remove(request.stream_id@)
                }
            },
    {
        let id = request.stream_id.as_str();
        let found = match self.streams.get(id) {
            Some(a) => Some(
                ScreenCaptureKitActiveCapture {
                    selected_window_id: a.selected_window_id.clone(),
                    application_id: a.application_id.clone(),
                    title: a.title.clone(),
                    target_viewport: a.target_viewport,
                    native_window_id: a.native_window_id,
                },
            ),
            None => None,
        };
        let active = match found {
            Some(a) => a,
            None => {
                return Err(
                    AppRelayError::NotFound(
                        text3("ScreenCaptureKit stream ", id, " is not running"),
                    ),
                );
            },
        };
        if active.selected_window_id != request.selected_window_id {
            return Err(
                AppRelayError::InvalidRequest(
                    text6(
                        "stream ",
                        id,
                        " captures window ",
                        active.selected_window_id.as_str(),
                        " but resize was requested for ",
                        request.selected_window_id.as_str(),
                    ),
                ),
            );
        }
        self.streams.remove(id);
        Ok(active)
    }

    /// The start request for restarting capture `active` at the size `request` asks for.
    pub fn restart_request(
        request: &MacosWindowCaptureResizeRequest,
        active: &ScreenCaptureKitActiveCapture,
    ) -> (s: MacosWindowCaptureStartRequest)
        ensures
            s == (MacosWindowCaptureStartRequest {
                stream_id: request.stream_id,
                selected_window_id: request.selected_window_id,
                application_id: active.application_id,
                title: active.title,
                target_viewport: request.target_viewport,
            }),
    {
        MacosWindowCaptureStartRequest {
            stream_id: request.stream_id.clone(),
            selected_window_id: request.selected_window_id.clone(),
            application_id: active.application_id.clone(),
            title: active.title.clone(),
            target_viewport: request.target_viewport,
        }
    }

    /// Reports that stream `stream_id` failed with `error` (its old capture would not stop
    /// during a resize), and gives the error back.
    pub fn fail_resize(&mut self, stream_id: &str, error: AppRelayError) -> (r: AppRelayError)
        ensures
            r == error,
            final(self).captures() == old(self).captures(),
            final(self).snapshots() == old(self).snapshots().insert(
                stream_id@,
                final(self).snapshots()[stream_id@],
            ),
            failure_snapshot_ok(final(self).snapshots()[stream_id@], error),
    {
        self.snapshots.insert(stream_id, failure_snapshot_for(&error));
        proof {
            assert(self.snapshots@ =~= old(self).snapshots@.insert(stream_id@, self.snapshots@[stream_id@]));
        }
        error
    }

    /// The last step of a resize, with the outcome of restarting capture `active`: the
    /// restarted capture is recorded at its new size; a failed restart reports the failure
    /// and the stream is no longer running.
    pub fn finish_resize(
        &mut self,
        request: MacosWindowCaptureResizeRequest,
        active: ScreenCaptureKitActiveCapture,
        restarted: Result<(), AppRelayError>,
    ) -> (r: Result<(), AppRelayError>)
        ensures
            r == restarted,
            restarted is Ok ==> final(self).snapshots() == old(self).snapshots() && final(self).captures()
                == old(self).captures().insert(
                request.stream_id@,
                ScreenCaptureKitActiveCapture {
                    selected_window_id: request.selected_window_id,
                    application_id: active.application_id,
                    title: active.title,
                    target_viewport: request.target_viewport,
                    native_window_id: active.native_window_id,
                },
            ),
            restarted matches Err(e) ==> {
                &&& final(self).captures() == old(self).captures()
                &&& final(self).snapshots() == old(self).snapshots().insert(
                    request.stream_id@,
                    final(self).snapshots()[request.stream_id@],
                )
                &&& failure_snapshot_ok(final(self).snapshots()[request.stream_id@], e)
            },
    {
        match restarted {
            Ok(u) => {
                self.streams.insert(
                    request.stream_id.as_str(),
                    ScreenCaptureKitActiveCapture {
                        selected_window_id: request.selected_window_id,
                        application_id: active.application_id,
                        title: active.title,
                        target_viewport: request.target_viewport,
                        native_window_id: active.native_window_id,
                    },
                );
                Ok(u)
            },
            Err(e) => {
                self.snapshots.insert(request.stream_id.as_str(), failure_snapshot_for(&e));
                proof {
                    assert(self.snapshots@ =~= old(self).snapshots@.insert(
                        request.stream_id@,
                        self.snapshots@[request.stream_id@],
                    ));
                }
                Err(e)
            },
        }
    }

    /// Stops stream `stream_id`: its capture and status are forgotten; the answer says
    /// whether a capture was running (for the host to stop it). Stopping an unknown stream
    /// changes nothing.
    pub fn stop(&mut self, stream_id: &str) -> (was_running: bool)
        ensures
            was_running == old(self).captures().contains_key(stream_id@),
            final(self).captures() == old(self).captures().remove(stream_id@),
            final(self).snapshots() == old(self).snapshots().remove(stream_id@),
    {
        let was_running = self.streams.get(stream_id).is_some();
        self.streams.remove(stream_id);
        self.snapshots.remove(stream_id);
        was_running
    }

    /// Records one more frame of stream `stream_id`: of the pixel buffer's size when known,
    /// else of `target_viewport`, stamped at `timestamp_ms`.
    pub fn record_frame(
        &mut self,
        stream_id: &str,
        pixel_size: Option<ViewportSize>,
        target_viewport: ViewportSize,
        timestamp_ms: u64,
    ) -> (s: VideoCaptureRuntimeStatus)
        ensures
            s == next_frame_status(
                old(self).snapshots().index_opt(stream_id@),
                match pixel_size {
                    Some(p) => p,
                    None => target_viewport,
                },
                timestamp_ms,
            ),
            final(self).snapshots() == old(self).snapshots().insert(stream_id@, s),
            final(self).captures() == old(self).captures(),
    {
        let size = match pixel_size {
            Some(p) => p,
            None => target_viewport,
        };
        let before = match self.snapshots.get(stream_id) {
            Some(p) => p.frames_delivered,
            None => 0,
        };
        let sequence = before.saturating_add(1);
        let status = VideoCaptureRuntimeStatus {
            state: VideoCaptureRuntimeState::Delivering,
            frames_delivered: sequence,
            last_frame: Some(CapturedVideoFrame { sequence, timestamp_ms, size }),
            message: None,
        };
        self.snapshots.insert(stream_id, status.clone());
        status
    }
}

impl Default for ScreenCaptureKitWindowRuntime {
    fn default() -> (r: Self)
        ensures
            r.snapshots() == Map::<Seq<char>, VideoCaptureRuntimeStatus>::empty(),
            r.captures() == Map::<Seq<char>, ScreenCaptureKitActiveCapture>::empty(),
    {
        Self::new()
    }
}

} // verus!
