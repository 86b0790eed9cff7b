//! A store-and-forward queue of SDP/ICE signaling envelopes, per session and direction.

use std::collections::VecDeque;
use vstd::prelude::*;
use vstd::utf8::encode_utf8;

use crate::media::{
    envelope_kind,
    envelope_payload_bytes,
    PollSignalingRequest,
    SignalingDirection,
    SignalingMessage,
    SignalingPoll,
    SignalingSubmitAck,
    SubmitSignalingRequest,
};
use crate::protocol::AppRelayError;
use crate::text::{chars_of, extend_chars, is_blank, str_is_blank, string_from_chars};

verus! {

broadcast use vstd::seq_lib::group_seq_properties;

/// The most envelopes a session may hold, both directions together.
pub const MAX_ENVELOPES_PER_SESSION: usize = 256;

/// How the message of a refused submission to a full session begins.
pub const SIGNALING_BACKLOG_FULL_MESSAGE_PREFIX: &'static str = "signaling backlog full for session ";

/// The queue service for signaling envelopes.
pub trait SignalingService {
    fn submit(&mut self, request: SubmitSignalingRequest) -> Result<
        SignalingSubmitAck,
        AppRelayError,
    >;

    fn poll(&mut self, request: PollSignalingRequest) -> Result<SignalingPoll, AppRelayError>;

    fn close_session(&mut self, session_id: &str);
}

/// What a session holds: the last sequence number given out and the envelopes waiting
/// in each direction.
pub struct SessionQueues {
    pub next_sequence: u64,
    pub offer_to_answerer: Seq<SignalingMessage>,
    pub answerer_to_offerer: Seq<SignalingMessage>,
}

pub open spec fn empty_queues() -> SessionQueues {
    SessionQueues {
        next_sequence: 0,
        offer_to_answerer: Seq::empty(),
        answerer_to_offerer: Seq::empty(),
    }
}

pub open spec fn queue_of(q: SessionQueues, d: SignalingDirection) -> Seq<SignalingMessage> {
    match d {
        SignalingDirection::OfferToAnswerer => q.offer_to_answerer,
        SignalingDirection::AnswererToOfferer => q.answerer_to_offerer,
    }
}

pub open spec fn with_queue(
    q: SessionQueues,
    d: SignalingDirection,
    s: Seq<SignalingMessage>,
) -> SessionQueues {
    match d {
        SignalingDirection::OfferToAnswerer => SessionQueues { offer_to_answerer: s, ..q },
        SignalingDirection::AnswererToOfferer => SessionQueues { answerer_to_offerer: s, ..q },
    }
}

/// The envelopes a session holds, both directions together.
pub open spec fn depth(q: SessionQueues) -> nat {
    q.offer_to_answerer.len() + q.answerer_to_offerer.len()
}

/// The next sequence number: one more than the last, stopping at `u64::MAX`.
pub open spec fn bumped(n: u64) -> u64 {
    if n == u64::MAX {
        u64::MAX
    } else {
        (n + 1) as u64
    }
}

/// A queue once the envelopes the caller has seen (sequence at most `since`) are dropped
/// from its front.
pub open spec fn drop_acked(s: Seq<SignalingMessage>, since: u64) -> Seq<SignalingMessage>
    decreases s.len(),
{
    if s.len() > 0 && s[0].sequence <= since {
        drop_acked(s.drop_first(), since)
    } else {
        s
    }
}

pub open spec fn newer_than(since: u64) -> spec_fn(SignalingMessage) -> bool {
    |m: SignalingMessage| m.sequence > since
}

/// Sequence numbers along `s` never go down.
pub open spec fn ascending(s: Seq<SignalingMessage>) -> bool {
    forall|i: int, j: int| #![trigger s[i], s[j]] 0 <= i <= j < s.len() ==> s[i].sequence <= s[j].sequence
}

/// No envelope of `s` carries a number past `last`.
pub open spec fn numbered_up_to(s: Seq<SignalingMessage>, last: u64) -> bool {
    forall|i: int| 0 <= i < s.len() ==> #[trigger] s[i].sequence <= last
}

/// Each queue of a session runs in sequence order and holds only numbers already given out.
pub open spec fn queues_ordered(q: SessionQueues) -> bool {
    &&& ascending(q.offer_to_answerer)
    &&& numbered_up_to(q.offer_to_answerer, q.next_sequence)
    &&& ascending(q.answerer_to_offerer)
    &&& numbered_up_to(q.answerer_to_offerer, q.next_sequence)
}

/// What the service keeps of every session: the backlog bound and the sequence order.
pub open spec fn queues_ok(q: SessionQueues) -> bool {
    &&& depth(q) <= MAX_ENVELOPES_PER_SESSION
    &&& queues_ordered(q)
}

/// The message of a refused submission to a full session.
pub open spec fn backlog_full_message(session_id: Seq<char>) -> Seq<char> {
    "signaling backlog full for session "@ + session_id
}

pub open spec fn session_required_message() -> Seq<char> {
    "session id is required"@
}

/// The payload size reported in an acknowledgement, capped at `u32::MAX`.
pub open spec fn reported_bytes(n: usize) -> u32 {
    if n <= u32::MAX {
        n as u32
    } else {
        u32::MAX
    }
}

#[derive(Debug)]
struct SessionEntry {
    session_id: String,
    next_sequence: u64,
    offer_to_answerer: VecDeque<SignalingMessage>,
    answerer_to_offerer: VecDeque<SignalingMessage>,
}

spec fn entry_queues(e: SessionEntry) -> SessionQueues {
    SessionQueues {
        next_sequence: e.next_sequence,
        offer_to_answerer: e.offer_to_answerer@,
        answerer_to_offerer: e.answerer_to_offerer@,
    }
}

/// The in-memory signaling queue.
#[derive(Debug)]
pub struct InMemorySignalingService {
    sessions: Vec<SessionEntry>,
}

impl InMemorySignalingService {
    spec fn keys(&self) -> Seq<Seq<char>> {
        self.sessions@.map_values(|e: SessionEntry| e.session_id@)
    }

    /// Each session is held once, none holds more than the backlog allows, and its queues
    /// run in sequence order.
    pub closed spec fn wf(&self) -> bool {
        &&& self.keys().no_duplicates()
        &&& forall|i: int|
            0 <= i < self.sessions@.len() ==> queues_ok(entry_queues(#[trigger] self.sessions@[i]))
    }

    /// What the session `id` holds, if it has signaling state.
    pub closed spec fn session(&self, id: Seq<char>) -> Option<SessionQueues> {
        if self.keys().contains(id) {
            Some(entry_queues(self.sessions@[self.keys().index_of(id)]))
        } else {
            None
        }
    }

    proof fn lemma_session_at(&self, i: int)
        requires
            self.wf(),
            0 <= i < self.sessions@.len(),
        ensures
            self.session(self.sessions@[i].session_id@) == Some(entry_queues(self.sessions@[i])),
    {
        let k = self.sessions@[i].session_id@;
        assert(self.keys()[i] == k);
        let j = self.keys().index_of(k);
        assert(self.keys()[j] == k);
        assert(i == j);
    }

    /// Every session a well-formed service holds keeps its backlog bound, and each of its
    /// queues runs in sequence order with no number past the last one given out.
    pub proof fn lemma_sessions_in_order(&self, id: Seq<char>)
        requires
            self.wf(),
        ensures
            self.session(id) matches Some(q) ==> queues_ok(q),
    {
        if self.keys().contains(id) {
            let j = self.keys().index_of(id);
            assert(queues_ok(entry_queues(self.sessions@[j])));
        }
    }

    /// A service with no session.
    pub fn new() -> (s: Self)
        ensures
            s.wf(),
            forall|id: Seq<char>| s.session(id) is None,
    {
        let s = InMemorySignalingService { sessions: Vec::new() };
        assert(s.keys() =~= Seq::<Seq<char>>::empty());
        s
    }

    fn position(&self, id: &str) -> (r: Option<usize>)
        ensures
            r matches Some(i) ==> i < self.sessions@.len() && self.keys()[i as int] == id@,
            r is None ==> !self.keys().contains(id@),
    {
        let target = String::from_str(id);
        let mut i: usize = 0;
        while i < self.sessions.len()
            invariant
                i <= self.sessions@.len(),
                target@ == id@,
                forall|j: int| 0 <= j < i ==> self.keys()[j] != id@,
            decreases self.sessions@.len() - i,
        {
            if self.sessions[i].session_id == target {
                return Some(i);
            }
            i = i + 1;
        }
        None
    }

    /// How many envelopes the session holds, both directions together (0 for an unknown
    /// session).
    pub fn current_depth(&self, session_id: &str) -> (n: usize)
        requires
            self.wf(),
        ensures
            n == match self.session(session_id@) {
                Some(q) => depth(q),
                None => 0,
            },
    {
        match self.position(session_id) {
            None => 0,
            Some(i) => {
                proof {
                    self.lemma_session_at(i as int);
                }
                self.sessions[i].offer_to_answerer.len() + self.sessions[i].answerer_to_offerer.len()
            },
        }
    }

    /// Puts back an entry taken out at `i`; the other sessions are untouched.
    proof fn lemma_replaced(
        before: InMemorySignalingService,
        after: InMemorySignalingService,
        i: int,
        e: SessionEntry,
    )
        requires
            before.wf(),
            0 <= i < before.sessions@.len(),
            after.sessions@ == before.sessions@.update(i, e),
            e.session_id@ == before.sessions@[i].session_id@,
            queues_ok(entry_queues(e)),
        ensures
            after.wf(),
            after.session(e.session_id@) == Some(entry_queues(e)),
            forall|id: Seq<char>|
                id != e.session_id@ ==> #[trigger] after.session(id) == before.session(id),
    {
        assert(after.keys() =~= before.keys());
        after.lemma_session_at(i);
        assert forall|id: Seq<char>| id != e.session_id@ implies #[trigger] after.session(id)
            == before.session(id) by {
            if before.keys().contains(id) {
                let j = before.keys().index_of(id);
                assert(before.keys()[j] == id);
                assert(j != i);
                assert(after.sessions@[j] == before.sessions@[j]);
            }
        }
    }
}

impl Default for InMemorySignalingService {
    fn default() -> (s: Self)
        ensures
            s.wf(),
            forall|id: Seq<char>| s.session(id) is None,
    {
        InMemorySignalingService::new()
    }
}

fn backlog_full(session_id: &String) -> (e: AppRelayError)
    ensures
        e matches AppRelayError::ServiceUnavailable(m) && m@ == backlog_full_message(session_id@),
{
    let mut out = chars_of(SIGNALING_BACKLOG_FULL_MESSAGE_PREFIX);
    let id = chars_of(session_id.as_str());
    extend_chars(&mut out, id.as_slice());
    AppRelayError::ServiceUnavailable(string_from_chars(out.as_slice()))
}

fn session_required() -> (e: AppRelayError)
    ensures
        e matches AppRelayError::InvalidRequest(m) && m@ == session_required_message(),
{
    AppRelayError::InvalidRequest(String::from_str("session id is required"))
}

fn drain_acked(queue: &mut VecDeque<SignalingMessage>, since: u64)
    ensures
        final(queue)@ == drop_acked(old(queue)@, since),
{
    while queue.len() > 0 && queue[0].sequence <= since
        invariant
            drop_acked(old(queue)@, since) == drop_acked(queue@, since),
        decreases queue@.len(),
    {
        let ghost before = queue@;
        queue.pop_front();
        assert(queue@ =~= before.drop_first());
    }
}

fn newer_messages(queue: &VecDeque<SignalingMessage>, since: u64) -> (r: Vec<SignalingMessage>)
    ensures
        r@ == queue@.filter(newer_than(since)),
{
    let mut out: Vec<SignalingMessage> = Vec::new();
    let mut i: usize = 0;
    assert(queue@.take(0) =~= Seq::<SignalingMessage>::empty());
    while i < queue.len()
        invariant
            i <= queue@.len(),
            out@ == queue@.take(i as int).filter(newer_than(since)),
        decreases queue@.len() - i,
    {
        proof {
            assert(queue@.take(i + 1) =~= queue@.take(i as int).push(queue@[i as int]));
            queue@.take(i as int).lemma_filter_push(queue@[i as int], newer_than(since));
        }
        if queue[i].sequence > since {
            out.push(queue[i].clone());
        }
        i = i + 1;
    }
    assert(queue@.take(queue@.len() as int) =~= queue@);
    out
}

impl SignalingService for InMemorySignalingService {
    /// Queues an envelope for the session and direction, under the session's next sequence
    /// number. A blank session id is refused, and so is a session that holds
    /// `MAX_ENVELOPES_PER_SESSION` envelopes.
    fn submit(&mut self, request: SubmitSignalingRequest) -> (r: Result<
        SignalingSubmitAck,
        AppRelayError,
    >)
        ensures
            old(self).wf() ==> final(self).wf(),
            is_blank(request.session_id@) ==> (r matches Err(e) && (e
                matches AppRelayError::InvalidRequest(m) && m@ == session_required_message())),
            r is Err ==> *final(self) == *old(self),
            old(self).wf() && !is_blank(request.session_id@) ==> ({
                let q = match old(self).session(request.session_id@) {
                    Some(q) => q,
                    None => empty_queues(),
                };
                &&& depth(q) >= MAX_ENVELOPES_PER_SESSION ==> (r matches Err(e) && (e
                    matches AppRelayError::ServiceUnavailable(m) && m@ == backlog_full_message(
                    request.session_id@,
                )))
                &&& depth(q) < MAX_ENVELOPES_PER_SESSION ==> (r matches Ok(ack) && {
                    let n = bumped(q.next_sequence);
                    let message = SignalingMessage {
                        sequence: n,
                        direction: request.direction,
                        envelope: request.envelope,
                    };
                    &&& ack.session_id == request.session_id
                    &&& ack.direction == request.direction
                    &&& ack.sequence == n
                    &&& ack.envelope_kind@ == envelope_kind(request.envelope)
                    &&& ack.payload_byte_length == reported_bytes(
                        envelope_payload_bytes(request.envelope) as usize,
                    )
                    &&& final(self).session(request.session_id@) == Some(
                        with_queue(
                            SessionQueues { next_sequence: n, ..q },
                            request.direction,
                            queue_of(q, request.direction).push(message),
                        ),
                    )
                })
            }),
            r is Ok && old(self).wf() ==> forall|id: Seq<char>|
                id != request.session_id@ ==> #[trigger] final(self).session(id) == old(
                    self,
                ).session(id),
            r is Ok && old(self).wf() ==> last_sequence(*final(self), request.session_id@) == bumped(
                last_sequence(*old(self), request.session_id@),
            ),
            old(self).wf() ==> submit_step(*old(self), request.session_id@, r, *final(self)),
    {
        if str_is_blank(request.session_id.as_str()) {
            return Err(session_required());
        }
        let kind = String::from_str(request.envelope.kind_label());
        let bytes = request.envelope.payload_byte_length();
        let payload_byte_length: u32 = if bytes <= 0xffff_ffffusize {
            bytes as u32
        } else {
            0xffff_ffffu32
        };
        let ghost before = *self;
        let pos = self.position(request.session_id.as_str());
        let mut entry = match pos {
            Some(i) => {
                let a = self.sessions[i].offer_to_answerer.len();
                let b = self.sessions[i].answerer_to_offerer.len();
                if a >= MAX_ENVELOPES_PER_SESSION || b >= MAX_ENVELOPES_PER_SESSION - a {
                    return Err(backlog_full(&request.session_id));
                }
                proof {
                    if before.wf() {
                        before.lemma_session_at(i as int);
                    }
                }
                self.sessions.remove(i)
            },
            None => SessionEntry {
                session_id: request.session_id.clone(),
                next_sequence: 0,
                offer_to_answerer: VecDeque::new(),
                answerer_to_offerer: VecDeque::new(),
            },
        };
        let ghost q = entry_queues(entry);
        let sequence = entry.next_sequence.saturating_add(1);
        entry.next_sequence = sequence;
        let message = SignalingMessage {
            sequence,
            direction: request.direction,
            envelope: request.envelope,
        };
        let ghost m = message;
        match request.direction {
            SignalingDirection::OfferToAnswerer => entry.offer_to_answerer.push_back(message),
            SignalingDirection::AnswererToOfferer => entry.answerer_to_offerer.push_back(message),
        }
        assert(entry_queues(entry) == with_queue(
            SessionQueues { next_sequence: sequence, ..q },
            request.direction,
            queue_of(q, request.direction).push(m),
        ));
        proof {
            if before.wf() {
                if let Some(i) = pos {
                    assert(queues_ok(entry_queues(before.sessions@[i as int])));
                }
                lemma_submit_in_order(q, request.direction, m);
            }
        }
        match pos {
            Some(i) => {
                let ghost mid = self.sessions@;
                self.sessions.insert(i, entry);
                proof {
                    assert(self.sessions@ =~= before.sessions@.update(i as int, entry));
                    if before.wf() {
                        InMemorySignalingService::lemma_replaced(before, *self, i as int, entry);
                    }
                }
            },
            None => {
                self.sessions.push(entry);
                proof {
                    let k = request.session_id@;
                    assert(self.keys() =~= before.keys().push(k));
                    if before.wf() {
                        assert(self.keys().no_duplicates());
                        assert forall|i: int| 0 <= i < self.sessions@.len() implies queues_ok(
                            entry_queues(#[trigger] self.sessions@[i]),
                        ) by {
                            if i < before.sessions@.len() {
                                assert(self.sessions@[i] == before.sessions@[i]);
                            }
                        }
                        self.lemma_session_at(before.sessions@.len() as int);
                        assert forall|id: Seq<char>| id != k implies #[trigger] self.session(id)
                            == before.session(id) by {
                            if before.keys().contains(id) {
                                let j = before.keys().index_of(id);
                                assert(before.keys()[j] == id);
                                assert(self.keys()[j] == id);
                                self.lemma_session_at(j);
                                before.lemma_session_at(j);
                            }
                            if self.keys().contains(id) {
                                let j = self.keys().index_of(id);
                                assert(self.keys()[j] == id);
                                assert(j < before.keys().len());
                                assert(before.keys()[j] == id);
                            }
                        }
                    }
                }
            },
        }
        Ok(
            SignalingSubmitAck {
                session_id: request.session_id,
                direction: request.direction,
                sequence,
                envelope_kind: kind,
                payload_byte_length,
            },
        )
    }

    /// Hands out the envelopes of one direction newer than `since_sequence`, in ascending
    /// order. Envelopes at or before it are dropped from that queue for good: polling
    /// acknowledges. The queue runs in sequence order, so they all sit at its front.
    fn poll(&mut self, request: PollSignalingRequest) -> (r: Result<SignalingPoll, AppRelayError>)
        ensures
            old(self).wf() ==> final(self).wf(),
            is_blank(request.session_id@) ==> (r matches Err(e) && (e
                matches AppRelayError::InvalidRequest(m) && m@ == session_required_message())),
            is_blank(request.session_id@) ==> *final(self) == *old(self),
            !is_blank(request.session_id@) && old(self).wf() ==> (r matches Ok(p) && {
                let queued = match old(self).session(request.session_id@) {
                    Some(q) => queue_of(q, request.direction),
                    None => Seq::<SignalingMessage>::empty(),
                };
                &&& p.session_id == request.session_id
                &&& p.direction == request.direction
                &&& p.messages@ == queued.filter(newer_than(request.since_sequence))
                &&& ascending(p.messages@)
                &&& forall|i: int|
                    0 <= i < p.messages@.len() ==> #[trigger] p.messages@[i].sequence
                        > request.since_sequence
                &&& p.last_sequence == if p.messages@.len() == 0 {
                    request.since_sequence
                } else {
                    p.messages@.last().sequence
                }
                &&& final(self).session(request.session_id@) == match old(self).session(
                    request.session_id@,
                ) {
                    Some(q) => Some(with_queue(q, request.direction, p.messages@)),
                    None => None,
                }
            }),
            old(self).wf() ==> forall|id: Seq<char>|
                id != request.session_id@ ==> #[trigger] final(self).session(id) == old(
                    self,
                ).session(id),
    {
        if str_is_blank(request.session_id.as_str()) {
            return Err(session_required());
        }
        let ghost before = *self;
        let since = request.since_sequence;
        let messages = match self.position(request.session_id.as_str()) {
            None => Vec::new(),
            Some(i) => {
                proof {
                    if before.wf() {
                        before.lemma_session_at(i as int);
                    }
                }
                let mut entry = self.sessions.remove(i);
                let ghost q = entry_queues(entry);
                let messages = match request.direction {
                    SignalingDirection::OfferToAnswerer => {
                        drain_acked(&mut entry.offer_to_answerer, since);
                        newer_messages(&entry.offer_to_answerer, since)
                    },
                    SignalingDirection::AnswererToOfferer => {
                        drain_acked(&mut entry.answerer_to_offerer, since);
                        newer_messages(&entry.answerer_to_offerer, since)
                    },
                };
                proof {
                    let kept = drop_acked(queue_of(q, request.direction), since);
                    assert(entry_queues(entry) == with_queue(q, request.direction, kept));
                    lemma_drop_acked_shorter(queue_of(q, request.direction), since);
                    if before.wf() {
                        assert(queues_ok(entry_queues(before.sessions@[i as int])));
                        lemma_drop_acked_in_order(
                            queue_of(q, request.direction),
                            since,
                            q.next_sequence,
                        );
                        lemma_all_newer_kept(kept, since);
                        assert(queues_ok(entry_queues(entry)));
                    }
                }
                self.sessions.insert(i, entry);
                proof {
                    assert(self.sessions@ =~= before.sessions@.update(i as int, entry));
                    if before.wf() {
                        InMemorySignalingService::lemma_replaced(before, *self, i as int, entry);
                    }
                }
                messages
            },
        };
        let n = messages.len();
        let last_sequence = if n == 0 {
            since
        } else {
            messages[n - 1].sequence
        };
        Ok(
            SignalingPoll {
                session_id: request.session_id,
                direction: request.direction,
                last_sequence,
                messages,
            },
        )
    }

    /// Forgets everything the session held; its sequence numbers start over.
    fn close_session(&mut self, session_id: &str)
        ensures
            old(self).wf() ==> final(self).wf(),
            old(self).wf() ==> final(self).session(session_id@) is None,
            old(self).wf() ==> forall|id: Seq<char>|
                id != session_id@ ==> #[trigger] final(self).session(id) == old(self).session(id),
    {
        let ghost before = *self;
        match self.position(session_id) {
            None => {},
            Some(i) => {
                self.sessions.remove(i);
                proof {
                    assert(self.keys() =~= before.keys().remove(i as int));
                    if before.wf() {
                        assert(self.keys().no_duplicates());
                        assert forall|j: int| 0 <= j < self.sessions@.len() implies queues_ok(
                            entry_queues(#[trigger] self.sessions@[j]),
                        ) by {
                            if j < i {
                                assert(self.sessions@[j] == before.sessions@[j]);
                            } else {
                                assert(self.sessions@[j] == before.sessions@[j + 1]);
                            }
                        }
                        assert(!self.keys().contains(session_id@)) by {
                            if self.keys().contains(session_id@) {
                                let j = choose|j: int|
                                    0 <= j < self.keys().len() && self.keys()[j] == session_id@;
                                if j < i {
                                    assert(before.keys()[j] == session_id@);
                                } else {
                                    assert(before.keys()[j + 1] == session_id@);
                                }
                            }
                        }
                        assert forall|id: Seq<char>| id != session_id@ implies #[trigger] self.session(
                            id,
                        ) == before.session(id) by {
                            if before.keys().contains(id) {
                                let j = before.keys().index_of(id);
                                assert(before.keys()[j] == id);
                                assert(j != i);
                                let j2 = if j < i {
                                    j
                                } else {
                                    j - 1
                                };
                                assert(self.keys()[j2] == id);
                                self.lemma_session_at(j2);
                                before.lemma_session_at(j);
                            }
                            if self.keys().contains(id) {
                                let j = self.keys().index_of(id);
                                assert(self.keys()[j] == id);
                                if j < i {
                                    assert(before.keys()[j] == id);
                                } else {
                                    assert(before.keys()[j + 1] == id);
                                }
                            }
                        }
                    }
                }
            },
        }
    }
}

/// Appending an envelope numbered at least `last` keeps a queue in order.
proof fn lemma_push_in_order(s: Seq<SignalingMessage>, last: u64, m: SignalingMessage)
    requires
        ascending(s),
        numbered_up_to(s, last),
        last <= m.sequence,
    ensures
        ascending(s.push(m)),
        numbered_up_to(s.push(m), m.sequence),
{
    let t = s.push(m);
    assert forall|i: int, j: int| #![trigger t[i], t[j]] 0 <= i <= j < t.len() implies t[i].sequence
        <= t[j].sequence by {
        if j < s.len() {
            assert(t[i] == s[i] && t[j] == s[j]);
        } else if i < s.len() {
            assert(t[i] == s[i]);
        }
    }
    assert forall|i: int| 0 <= i < t.len() implies #[trigger] t[i].sequence <= m.sequence by {
        if i < s.len() {
            assert(t[i] == s[i]);
        }
    }
}

/// A submission keeps the queues of its session in order.
proof fn lemma_submit_in_order(q: SessionQueues, d: SignalingDirection, m: SignalingMessage)
    requires
        queues_ordered(q),
        m.sequence == bumped(q.next_sequence),
    ensures
        queues_ordered(
            with_queue(
                SessionQueues { next_sequence: m.sequence, ..q },
                d,
                queue_of(q, d).push(m),
            ),
        ),
{
    lemma_push_in_order(queue_of(q, d), q.next_sequence, m);
}

/// A queue whose envelopes are all newer than `since` is left whole by the filter.
proof fn lemma_all_newer_kept(s: Seq<SignalingMessage>, since: u64)
    requires
        forall|i: int| 0 <= i < s.len() ==> #[trigger] s[i].sequence > since,
    ensures
        s.filter(newer_than(since)) == s,
    decreases s.len(),
{
    reveal(Seq::filter);
    if s.len() > 0 {
        let t = s.drop_last();
        assert forall|i: int| 0 <= i < t.len() implies #[trigger] t[i].sequence > since by {
            assert(t[i] == s[i]);
        }
        lemma_all_newer_kept(t, since);
        assert(s[s.len() - 1].sequence > since);
        assert(t.push(s.last()) =~= s);
    }
}

/// On a queue in sequence order, dropping the acknowledged front leaves exactly the
/// envelopes newer than `since`, still in order.
proof fn lemma_drop_acked_in_order(s: Seq<SignalingMessage>, since: u64, last: u64)
    requires
        ascending(s),
        numbered_up_to(s, last),
    ensures
        drop_acked(s, since) == s.filter(newer_than(since)),
        ascending(drop_acked(s, since)),
        numbered_up_to(drop_acked(s, since), last),
        forall|i: int|
            0 <= i < drop_acked(s, since).len() ==> #[trigger] drop_acked(s, since)[i].sequence
                > since,
    decreases s.len(),
{
    if s.len() > 0 && s[0].sequence <= since {
        let t = s.drop_first();
        assert forall|i: int, j: int| #![trigger t[i], t[j]] 0 <= i <= j < t.len() implies t[i].sequence
            <= t[j].sequence by {
            assert(s[i + 1].sequence <= s[j + 1].sequence);
        }
        assert forall|i: int| 0 <= i < t.len() implies #[trigger] t[i].sequence <= last by {
            assert(s[i + 1].sequence <= last);
        }
        lemma_drop_acked_in_order(t, since, last);
        assert(s =~= seq![s[0]] + t);
        t.lemma_filter_prepend(s[0], newer_than(since));
        assert(Seq::<SignalingMessage>::empty() + t.filter(newer_than(since)) =~= t.filter(
            newer_than(since),
        ));
    } else {
        assert forall|i: int| 0 <= i < s.len() implies #[trigger] s[i].sequence > since by {
            assert(s[0].sequence <= s[i].sequence);
        }
        lemma_all_newer_kept(s, since);
    }
}

proof fn lemma_drop_acked_shorter(s: Seq<SignalingMessage>, since: u64)
    ensures
        drop_acked(s, since).len() <= s.len(),
    decreases s.len(),
{
    if s.len() > 0 && s[0].sequence <= since {
        lemma_drop_acked_shorter(s.drop_first(), since);
    }
}

} // verus!

verus! {


/// A session without signaling state (never used, or closed) hands out 1 next.
pub proof fn lemma_fresh_session_starts_at_one(s: InMemorySignalingService, id: Seq<char>)
    requires
        s.session(id) is None,
    ensures
        bumped(
            match s.session(id) {
                Some(q) => q.next_sequence,
                None => empty_queues().next_sequence,
            },
        ) == 1,
{
}

/// Sequence numbers of a session only grow, strictly until `u64::MAX`.
pub proof fn lemma_sequences_increase(n: u64)
    ensures
        bumped(n) >= n,
        n < u64::MAX ==> bumped(n) > n,
{
}

/// The sequence number of the last envelope after `n` submissions to a fresh session:
/// one more per submission, stopping at `u64::MAX`.
pub open spec fn sequence_after(n: nat) -> u64
    decreases n,
{
    if n == 0 {
        0
    } else {
        bumped(sequence_after((n - 1) as nat))
    }
}

/// The last sequence number a service gave out in session `id`; none in a session without
/// signaling state.
pub open spec fn last_sequence(s: InMemorySignalingService, id: Seq<char>) -> u64 {
    match s.session(id) {
        Some(q) => q.next_sequence,
        None => 0,
    }
}

/// One submission to session `id` as far as numbering goes: an accepted one is acknowledged
/// with the number after the session's last one, which becomes its last; a refused one
/// leaves the service as it was.
pub open spec fn submit_step(
    before: InMemorySignalingService,
    id: Seq<char>,
    r: Result<SignalingSubmitAck, AppRelayError>,
    after: InMemorySignalingService,
) -> bool {
    match r {
        Ok(ack) => ack.sequence == bumped(last_sequence(before, id)) && last_sequence(after, id)
            == ack.sequence,
        Err(_) => after == before,
    }
}

/// How many of the results `rs` are acknowledgements.
pub open spec fn accepted(rs: Seq<Result<SignalingSubmitAck, AppRelayError>>) -> nat
    decreases rs.len(),
{
    if rs.len() == 0 {
        0
    } else {
        accepted(rs.drop_last()) + if rs.last() is Ok {
            1nat
        } else {
            0nat
        }
    }
}

/// Sequence numbers count accepted submissions: across states `trace` of a service, starting
/// with session `id` fresh (never used, or closed), where step `i` is a submission to `id`
/// that returned `rs[i]` (the step `submit` states), each accepted submission is acknowledged
/// with the number of submissions accepted so far, itself included, stopping at `u64::MAX`.
pub proof fn lemma_acks_count_accepted_submissions(
    trace: Seq<InMemorySignalingService>,
    id: Seq<char>,
    rs: Seq<Result<SignalingSubmitAck, AppRelayError>>,
)
    requires
        trace.len() == rs.len() + 1,
        trace[0].session(id) is None,
        forall|i: int|
            0 <= i < rs.len() ==> submit_step(#[trigger] trace[i], id, rs[i], trace[i + 1]),
    ensures
        forall|i: int|
            0 <= i < rs.len() && #[trigger] rs[i] is Ok ==> rs[i]->Ok_0.sequence == sequence_after(
                accepted(rs.take(i + 1)),
            ),
        forall|i: int|
            0 <= i < rs.len() && #[trigger] rs[i] is Ok && accepted(rs.take(i + 1)) <= u64::MAX
                ==> rs[i]->Ok_0.sequence == accepted(rs.take(i + 1)),
        last_sequence(trace.last(), id) == sequence_after(accepted(rs)),
{
    assert forall|i: int| 0 <= i < rs.len() && #[trigger] rs[i] is Ok implies rs[i]->Ok_0.sequence
        == sequence_after(accepted(rs.take(i + 1))) by {
        lemma_last_sequence_counts(trace, id, rs, i);
        assert(rs.take(i + 1).drop_last() =~= rs.take(i));
        assert(rs.take(i + 1).last() == rs[i]);
        assert(submit_step(trace[i], id, rs[i], trace[i + 1]));
    }
    assert forall|i: int|
        0 <= i < rs.len() && #[trigger] rs[i] is Ok && accepted(rs.take(i + 1)) <= u64::MAX
            implies rs[i]->Ok_0.sequence == accepted(rs.take(i + 1)) by {
        lemma_sequence_after_counts(accepted(rs.take(i + 1)));
    }
    lemma_last_sequence_counts(trace, id, rs, rs.len() as int);
    assert(rs.take(rs.len() as int) =~= rs);
}

/// Before step `n`, the last number session `id` gave out counts the accepted submissions.
proof fn lemma_last_sequence_counts(
    trace: Seq<InMemorySignalingService>,
    id: Seq<char>,
    rs: Seq<Result<SignalingSubmitAck, AppRelayError>>,
    n: int,
)
    requires
        trace.len() == rs.len() + 1,
        trace[0].session(id) is None,
        forall|i: int|
            0 <= i < rs.len() ==> submit_step(#[trigger] trace[i], id, rs[i], trace[i + 1]),
        0 <= n <= rs.len(),
    ensures
        last_sequence(trace[n], id) == sequence_after(accepted(rs.take(n))),
    decreases n,
{
    if n > 0 {
        lemma_last_sequence_counts(trace, id, rs, n - 1);
        assert(rs.take(n).drop_last() =~= rs.take(n - 1));
        assert(rs.take(n).last() == rs[n - 1]);
        assert(submit_step(trace[n - 1], id, rs[n - 1], trace[n]));
    } else {
        assert(rs.take(0) =~= Seq::<Result<SignalingSubmitAck, AppRelayError>>::empty());
    }
}

/// `sequence_after(n)` is `n` while `n` fits in a `u64`.
pub proof fn lemma_sequence_after_counts(n: nat)
    ensures
        n <= u64::MAX ==> sequence_after(n) == n,
    decreases n,
{
    if n > 0 {
        lemma_sequence_after_counts((n - 1) as nat);
    }
}

/// Acknowledging is idempotent: a second poll with the same `since` finds the queue as the
/// first left it and hands out the same envelopes.
pub proof fn lemma_poll_again_same_since(queue: Seq<SignalingMessage>, since: u64)
    ensures
        queue.filter(newer_than(since)).filter(newer_than(since)) == queue.filter(
            newer_than(since),
        ),
{
    let kept = queue.filter(newer_than(since));
    assert forall|i: int| 0 <= i < kept.len() implies #[trigger] kept[i].sequence > since by {
        queue.lemma_filter_pred(newer_than(since), i);
    }
    lemma_all_newer_kept(kept, since);
}

} // verus!
