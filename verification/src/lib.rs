use vstd::prelude::*;

pub mod audio_backend;
pub mod audio_protocol;
pub mod audio_runtime;
pub mod audio_stream;
pub mod client;
pub mod codec;
pub mod config;
pub mod decimal;
pub mod discovery;
pub mod errors;
pub mod events;
pub mod fields;
pub mod icons;
pub mod input;
pub mod input_forwarding;
pub mod macos;
pub mod media;
pub mod permissions;
pub mod pipewire;
pub mod policy;
pub mod profiles;
pub mod protocol;
pub mod repositories;
pub mod services;
pub mod signaling;
pub mod screen_capture;
pub mod sessions;
pub mod sorting;
pub mod text;
pub mod text_table;
pub mod tunnel;
pub mod video_capture;
pub mod video_encoder;
pub mod video_pipeline;
pub mod video_protocol;
pub mod video_stream;
pub mod videotoolbox;
pub mod webrtc_peer;

verus! {

} // verus!
