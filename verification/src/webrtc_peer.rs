//! The server-side WebRTC peer surface, its in-memory implementation and the placeholder
//! for the real peer.

use vstd::prelude::*;

use crate::media::{EncodedVideoFrame, RtpPacketBatch, SignalingEnvelope, WebRtcPeerRole};
use crate::protocol::AppRelayError;
use crate::text::{chars_of, extend_chars, string_from_chars};

verus! {

broadcast use {vstd::seq_lib::group_seq_properties, vstd::set::group_set_axioms};

/// A server-side WebRTC peer, driven by its caller: it neither owns sockets nor runs tasks.
pub trait WebRtcPeer {
    /// Begins a peer session for a stream.
    fn start(&mut self, session_id: &str, stream_id: &str, role: WebRtcPeerRole) -> Result<
        (),
        AppRelayError,
    >;

    /// Ends the peer session of a stream; stopping an unknown stream is not an error.
    fn stop(&mut self, session_id: &str, stream_id: &str) -> Result<(), AppRelayError>;

    /// Hands a remote signaling envelope to the peer.
    fn consume_signaling(&mut self, session_id: &str, envelope: SignalingEnvelope) -> Result<
        (),
        AppRelayError,
    >;

    /// Drains the envelopes the peer wants to send for a session.
    fn take_outbound_signaling(&mut self, session_id: &str) -> Vec<SignalingEnvelope>;

    /// Hands an encoded frame to the peer for packetization.
    fn push_encoded_frame(&mut self, stream_id: &str, frame: &EncodedVideoFrame) -> Result<
        (),
        AppRelayError,
    >;

    /// Drains the RTP/RTCP batches waiting to be sent.
    fn take_outbound_rtp(&mut self) -> Vec<RtpPacketBatch>;
}

/// The key under which a stream of a session is tracked: `<session>::<stream>`.
pub open spec fn stream_key_spec(session_id: Seq<char>, stream_id: Seq<char>) -> Seq<char> {
    session_id + "::"@ + stream_id
}

/// The key under which a stream of a session is tracked.
pub fn stream_key(session_id: &str, stream_id: &str) -> (r: String)
    ensures
        r@ == stream_key_spec(session_id@, stream_id@),
{
    let mut out = chars_of(session_id);
    let sep = chars_of("::");
    extend_chars(&mut out, sep.as_slice());
    let tail = chars_of(stream_id);
    extend_chars(&mut out, tail.as_slice());
    string_from_chars(out.as_slice())
}

/// A peer that only keeps track of what it was asked to do: the started streams and how
/// many envelopes and frames it accepted. It never produces outbound traffic.
#[derive(Debug)]
pub struct InMemoryWebRtcPeer {
    streams: Vec<(String, WebRtcPeerRole)>,
    consumed_envelopes: u64,
    pushed_frames: u64,
}

impl InMemoryWebRtcPeer {
    spec fn keys(&self) -> Seq<Seq<char>> {
        self.streams@.map_values(|p: (String, WebRtcPeerRole)| p.0@)
    }

    /// Each stream is tracked once.
    pub closed spec fn wf(&self) -> bool {
        self.keys().no_duplicates()
    }

    /// The keys of the started streams.
    pub closed spec fn started(&self) -> Set<Seq<char>> {
        self.keys().to_set()
    }

    /// The envelopes accepted so far (the count stops at `u64::MAX`).
    pub closed spec fn consumed(&self) -> u64 {
        self.consumed_envelopes
    }

    /// The frames accepted so far (the count stops at `u64::MAX`).
    pub closed spec fn pushed(&self) -> u64 {
        self.pushed_frames
    }

    /// A peer with nothing started.
    pub fn new() -> (p: Self)
        ensures
            p.wf(),
            p.started() == Set::<Seq<char>>::empty(),
            p.consumed() == 0,
            p.pushed() == 0,
    {
        let p = InMemoryWebRtcPeer { streams: Vec::new(), consumed_envelopes: 0, pushed_frames: 0 };
        assert(p.keys() =~= Seq::<Seq<char>>::empty());
        assert(p.started() =~= Set::<Seq<char>>::empty());
        p
    }

    /// How many streams are started.
    pub fn started_stream_count(&self) -> (n: usize)
        requires
            self.wf(),
        ensures
            n == self.started().len(),
    {
        proof {
            self.keys().unique_seq_to_set();
        }
        self.streams.len()
    }

    /// How many envelopes were accepted.
    pub fn consumed_envelope_count(&self) -> (n: u64)
        ensures
            n == self.consumed(),
    {
        self.consumed_envelopes
    }

    /// How many frames were accepted.
    pub fn pushed_frame_count(&self) -> (n: u64)
        ensures
            n == self.pushed(),
    {
        self.pushed_frames
    }

    fn position(&self, key: &String) -> (r: Option<usize>)
        ensures
            r matches Some(i) ==> i < self.streams@.len() && self.keys()[i as int] == key@,
            r is None ==> !self.keys().contains(key@),
    {
        let mut i: usize = 0;
        while i < self.streams.len()
            invariant
                i <= self.streams@.len(),
                forall|j: int| 0 <= j < i ==> self.keys()[j] != key@,
            decreases self.streams@.len() - i,
        {
            if self.streams[i].0 == *key {
                return Some(i);
            }
            i = i + 1;
        }
        None
    }
}

impl Default for InMemoryWebRtcPeer {
    fn default() -> (p: Self)
        ensures
            p.wf(),
            p.started() == Set::<Seq<char>>::empty(),
            p.consumed() == 0,
            p.pushed() == 0,
    {
        InMemoryWebRtcPeer::new()
    }
}

impl WebRtcPeer for InMemoryWebRtcPeer {
    /// Records the stream as started (again, if it already was).
    fn start(&mut self, session_id: &str, stream_id: &str, role: WebRtcPeerRole) -> (r: Result<
        (),
        AppRelayError,
    >)
        ensures
            r is Ok,
            old(self).wf() ==> final(self).wf(),
            final(self).started() == old(self).started().insert(
                stream_key_spec(session_id@, stream_id@),
            ),
            final(self).consumed() == old(self).consumed(),
            final(self).pushed() == old(self).pushed(),
    {
        let key = stream_key(session_id, stream_id);
        let ghost k = key@;
        let ghost before = self.keys();
        match self.position(&key) {
            Some(i) => {
                self.streams.set(i, (key, role));
                proof {
                    assert(self.keys() =~= before);
                    assert(self.started() =~= before.to_set().insert(k));
                }
            },
            None => {
                self.streams.push((key, role));
                proof {
                    assert(self.keys() =~= before.push(k));
                    assert(self.started() =~= before.to_set().insert(k));
                    if before.no_duplicates() {
                        assert(self.keys().no_duplicates());
                    }
                }
            },
        }
        Ok(())
    }

    /// Forgets the stream; an unknown stream is left as it is.
    fn stop(&mut self, session_id: &str, stream_id: &str) -> (r: Result<(), AppRelayError>)
        ensures
            r is Ok,
            old(self).wf() ==> final(self).wf(),
            old(self).wf() ==> final(self).started() == old(self).started().remove(
                stream_key_spec(session_id@, stream_id@),
            ),
            final(self).consumed() == old(self).consumed(),
            final(self).pushed() == old(self).pushed(),
    {
        let key = stream_key(session_id, stream_id);
        let ghost k = key@;
        let ghost before = self.keys();
        match self.position(&key) {
            Some(i) => {
                self.streams.remove(i);
                proof {
                    assert(self.keys() =~= before.remove(i as int));
                    if before.no_duplicates() {
                        assert(self.keys().no_duplicates());
                        assert forall|x: Seq<char>| #[trigger]
                            self.started().contains(x) <==> before.to_set().remove(k).contains(
                                x,
                            ) by {
                            if self.keys().contains(x) {
                                let j = choose|j: int|
                                    0 <= j < self.keys().len() && self.keys()[j] == x;
                                if j < i {
                                    assert(before[j] == x);
                                } else {
                                    assert(before[j + 1] == x);
                                }
                            }
                            if before.contains(x) && x != k {
                                let j = choose|j: int| 0 <= j < before.len() && before[j] == x;
                                if j < i {
                                    assert(self.keys()[j] == x);
                                } else {
                                    assert(self.keys()[j - 1] == x);
                                }
                            }
                        }
                        assert(self.started() =~= before.to_set().remove(k));
                    }
                }
            },
            None => {
                assert(self.started() =~= before.to_set().remove(k));
            },
        }
        Ok(())
    }

    /// Counts the envelope.
    fn consume_signaling(&mut self, session_id: &str, envelope: SignalingEnvelope) -> (r: Result<
        (),
        AppRelayError,
    >)
        ensures
            r is Ok,
            final(self).started() == old(self).started(),
            old(self).wf() ==> final(self).wf(),
            final(self).consumed() == if old(self).consumed() == u64::MAX {
                u64::MAX
            } else {
                (old(self).consumed() + 1) as u64
            },
            final(self).pushed() == old(self).pushed(),
    {
        self.consumed_envelopes = self.consumed_envelopes.saturating_add(1);
        Ok(())
    }

    /// Nothing is ever waiting.
    fn take_outbound_signaling(&mut self, session_id: &str) -> (r: Vec<SignalingEnvelope>)
        ensures
            r@.len() == 0,
            *final(self) == *old(self),
    {
        Vec::new()
    }

    /// Counts the frame.
    fn push_encoded_frame(&mut self, stream_id: &str, frame: &EncodedVideoFrame) -> (r: Result<
        (),
        AppRelayError,
    >)
        ensures
            r is Ok,
            final(self).started() == old(self).started(),
            old(self).wf() ==> final(self).wf(),
            final(self).consumed() == old(self).consumed(),
            final(self).pushed() == if old(self).pushed() == u64::MAX {
                u64::MAX
            } else {
                (old(self).pushed() + 1) as u64
            },
    {
        self.pushed_frames = self.pushed_frames.saturating_add(1);
        Ok(())
    }

    /// Nothing is ever waiting.
    fn take_outbound_rtp(&mut self) -> (r: Vec<RtpPacketBatch>)
        ensures
            r@.len() == 0,
            *final(self) == *old(self),
    {
        Vec::new()
    }
}

/// The message of every operation that the real peer does not offer yet.
pub open spec fn peer_pending_message() -> Seq<char> {
    "Phase D.1 pending: str0m WebRTC peer integration is not yet wired (feature `webrtc-peer` only registers the runtime)"@
}

fn pending() -> (e: AppRelayError)
    ensures
        e matches AppRelayError::ServiceUnavailable(m) && m@ == peer_pending_message(),
{
    AppRelayError::ServiceUnavailable(
        String::from_str(
            "Phase D.1 pending: str0m WebRTC peer integration is not yet wired (feature `webrtc-peer` only registers the runtime)",
        ),
    )
}

/// The placeholder of the str0m-backed peer: every state-changing call is refused with
/// `ServiceUnavailable`, except stopping, and nothing is ever waiting.
#[derive(Debug, Default)]
pub struct Str0mWebRtcPeer;

impl Str0mWebRtcPeer {
    pub fn new() -> (p: Self) {
        Str0mWebRtcPeer
    }
}

impl WebRtcPeer for Str0mWebRtcPeer {
    fn start(&mut self, session_id: &str, stream_id: &str, role: WebRtcPeerRole) -> (r: Result<
        (),
        AppRelayError,
    >)
        ensures
            r matches Err(e) && e matches AppRelayError::ServiceUnavailable(m) && m@
                == peer_pending_message(),
    {
        Err(pending())
    }

    /// Stopping is idempotent: it succeeds for any stream.
    fn stop(&mut self, session_id: &str, stream_id: &str) -> (r: Result<(), AppRelayError>)
        ensures
            r is Ok,
    {
        Ok(())
    }

    fn consume_signaling(&mut self, session_id: &str, envelope: SignalingEnvelope) -> (r: Result<
        (),
        AppRelayError,
    >)
        ensures
            r matches Err(e) && e matches AppRelayError::ServiceUnavailable(m) && m@
                == peer_pending_message(),
    {
        Err(pending())
    }

    fn take_outbound_signaling(&mut self, session_id: &str) -> (r: Vec<SignalingEnvelope>)
        ensures
            r@.len() == 0,
    {
        Vec::new()
    }

    fn push_encoded_frame(&mut self, stream_id: &str, frame: &EncodedVideoFrame) -> (r: Result<
        (),
        AppRelayError,
    >)
        ensures
            r matches Err(e) && e matches AppRelayError::ServiceUnavailable(m) && m@
                == peer_pending_message(),
    {
        Err(pending())
    }

    fn take_outbound_rtp(&mut self) -> (r: Vec<RtpPacketBatch>)
        ensures
            r@.len() == 0,
    {
        Vec::new()
    }
}

} // verus!
