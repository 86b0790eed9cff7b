//! The decisions of PipeWire command capture: how the recording command is started, when
//! a starting capture counts as started, and what its byte counter reports as media. The
//! host runs the command and counts the bytes it writes.

use vstd::prelude::*;
use crate::audio_protocol::AudioBackendMediaStats;
use crate::input::texts;

verus! {

/// The arguments the recording command is started with: 48 kHz stereo signed 16-bit
/// samples, from `target` when given, written to standard output.
pub open spec fn capture_args(target: Option<Seq<char>>) -> Seq<Seq<char>> {
    seq!["--rate"@, "48000"@, "--channels"@, "2"@, "--format"@, "s16"@] + match target {
        Some(t) => seq!["--target"@, t],
        None => Seq::<Seq<char>>::empty(),
    } + seq!["-"@]
}

/// The arguments the recording command is started with.
pub fn pipewire_capture_args(target: Option<&str>) -> (r: Vec<String>)
    ensures
        texts(r@) == capture_args(
            match target {
                Some(t) => Some(t@),
                None => None,
            },
        ),
{
    let mut r: Vec<String> = Vec::new();
    r.push(String::from_str("--rate"));
    r.push(String::from_str("48000"));
    r.push(String::from_str("--channels"));
    r.push(String::from_str("2"));
    r.push(String::from_str("--format"));
    r.push(String::from_str("s16"));
    match target {
        Some(t) => {
            r.push(String::from_str("--target"));
            r.push(String::from_str(t));
        },
        None => {},
    }
    r.push(String::from_str("-"));
    assert(texts(r@) =~= capture_args(
        match target {
            Some(t) => Some(t@),
            None => None,
        },
    ));
    r
}

/// Where a starting capture stands.
#[derive(Clone, Copy, Debug, PartialEq, Eq, Structural)]
pub enum CaptureStartStep {
    /// The capture runs: it wrote audio, or ran until the start deadline.
    Started,
    /// The capture ended before it started.
    Failed,
    /// Keep waiting.
    Wait,
}

/// The next step while a capture starts: a reader that stopped, or a command that
/// exited (or whose state could not be read), fails it; bytes written, or the deadline
/// reached with the command still running, start it; otherwise wait.
pub fn capture_start_step(reader_running: bool, command_exited: bool, bytes: u64, deadline_passed: bool) -> (s:
    CaptureStartStep)
    ensures
        !reader_running || command_exited ==> s == CaptureStartStep::Failed,
        reader_running && !command_exited && (bytes > 0 || deadline_passed) ==> s
            == CaptureStartStep::Started,
        reader_running && !command_exited && bytes == 0 && !deadline_passed ==> s
            == CaptureStartStep::Wait,
{
    if !reader_running || command_exited {
        CaptureStartStep::Failed
    } else if bytes > 0 || deadline_passed {
        CaptureStartStep::Started
    } else {
        CaptureStartStep::Wait
    }
}

/// The media a capture reports from the bytes it read: one packet per 4096 bytes, sent
/// and received alike, at 100 ms of latency, available while the reader runs.
pub open spec fn capture_media(bytes: u64, running: bool) -> AudioBackendMediaStats {
    AudioBackendMediaStats {
        available: running,
        packets_sent: bytes / 4096,
        packets_received: bytes / 4096,
        bytes_sent: bytes,
        bytes_received: bytes,
        latency_ms: 100,
    }
}

/// The media a capture reports from the bytes it read.
pub fn media_from_capture_counters(bytes: u64, running: bool) -> (m: AudioBackendMediaStats)
    ensures
        m == capture_media(bytes, running),
{
    let packets = bytes / 4096;
    AudioBackendMediaStats {
        available: running,
        packets_sent: packets,
        packets_received: packets,
        bytes_sent: bytes,
        bytes_received: bytes,
        latency_ms: 100,
    }
}

} // verus!
