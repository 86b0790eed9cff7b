use apprelay_core::audio_protocol::AudioBackendMediaStats;
use apprelay_core::pipewire::{
    capture_start_step, media_from_capture_counters, pipewire_capture_args, CaptureStartStep,
};

#[test]
fn pipewire_capture_args_name_the_format_and_target() {
    assert_eq!(
        pipewire_capture_args(None),
        vec!["--rate", "48000", "--channels", "2", "--format", "s16", "-"]
    );
    assert_eq!(
        pipewire_capture_args(Some("alsa_output.monitor")),
        vec![
            "--rate",
            "48000",
            "--channels",
            "2",
            "--format",
            "s16",
            "--target",
            "alsa_output.monitor",
            "-"
        ]
    );
}

#[test]
fn pipewire_capture_start_waits_for_audio_or_the_deadline() {
    assert_eq!(capture_start_step(true, false, 0, false), CaptureStartStep::Wait);
    assert_eq!(capture_start_step(true, false, 4096, false), CaptureStartStep::Started);
    assert_eq!(capture_start_step(true, false, 0, true), CaptureStartStep::Started);
    assert_eq!(capture_start_step(true, true, 4096, false), CaptureStartStep::Failed);
    assert_eq!(capture_start_step(false, false, 4096, true), CaptureStartStep::Failed);
}

#[test]
fn pipewire_capture_media_counts_packets_of_4096_bytes() {
    assert_eq!(
        media_from_capture_counters(10_000, true),
        AudioBackendMediaStats {
            available: true,
            packets_sent: 2,
            packets_received: 2,
            bytes_sent: 10_000,
            bytes_received: 10_000,
            latency_ms: 100,
        }
    );
    assert!(!media_from_capture_counters(0, false).available);
}
