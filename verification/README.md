# apprelay_core

The core of AppRelay, a server that relays selected desktop applications to a mobile or
desktop client, written in Verus: every function defined in `src/` is proved against its
contract. The traits that users implement (tunnel processes and their spawner, the stores,
the encoder surface, the service interfaces) declare methods without contracts; what the
library does around their calls is stated over what they return (the tunnel supervisor,
for one, states each call it makes in a log of calls).

## Collections

- Maps keyed by text (streams, capture sessions, encoders by stream id) are `TextTable`s:
  a `Vec` of entries read as a `Map`, a later entry of a key winning. Verus proves next
  to nothing about a `HashMap` keyed by `String`, whose hashing and equality it does not
  model; the order of entries is never exposed.
- Signaling sessions are a `Vec` of entries whose ids are unique (part of the service's
  invariant), read as a `Map` from id to queues.
- Signaling queues are `VecDeque`s read as sequences: envelopes are pushed at the back
  and acknowledged ones popped from the front. The service's invariant keeps each queue
  in sequence order, which is what lets a poll promise that everything at or before the
  acknowledged number is gone and that what it hands out ascends.

## Layout

- `src/` — the verified library.
  - `protocol`, `errors`, `events`: the shared types, errors and server events.
  - `config`, `profiles`, `permissions`, `codec`, `fields`, `decimal`, `text`: the
    configuration, connection profiles and application permissions, and the line formats
    they are stored in.
  - `discovery`, `icons`, `sorting`, `policy`, `services`, `repositories`: application
    discovery (desktop entries, app bundles, icons), capability reporting and the store
    interfaces.
  - `sessions`, `signaling`, `client`, `tunnel`: application sessions, the WebRTC
    signaling queues, the client's rules and SSH tunnel supervision.
  - `input`, `input_forwarding`: keyboard and pointer forwarding, including the macOS
    keyboard scripts.
  - `audio_protocol`, `audio_backend`, `audio_runtime`, `audio_stream`: audio streams and
    their native backend legs.
  - `video_protocol`, `video_pipeline`, `video_capture`, `video_stream`, `video_encoder`,
    `media`, `webrtc_peer`: selected-window video streams, their encoding pipeline, capture
    runtimes and media framing.
  - `macos`, `screen_capture`, `videotoolbox`: the parts of macOS capture and encoding that
    are decisions rather than framework calls.
- `tests/` — tests run against the compiled library.
- `app/` — what the library leaves to its host: files, processes, floating-point viewport
  mapping, the serialized client objects, and the service traits as the server calls them.
