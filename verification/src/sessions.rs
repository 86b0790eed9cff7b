//! Application sessions: the launch and resize backends and the in-memory session service.

use vstd::prelude::*;

use crate::decimal::{dec, write_dec};
use crate::policy::{policy_allows, viewport_error_message, SessionPolicy, SessionPolicyView};
use crate::protocol::{
    AppRelayError,
    ApplicationLaunch,
    ApplicationLaunchIntent,
    ApplicationSession,
    ApplicationSummary,
    CreateSessionRequest,
    Feature,
    LaunchIntentStatus,
    Platform,
    ResizeIntentStatus,
    ResizeSessionRequest,
    SelectedWindow,
    SessionState,
    WindowResizeIntent,
    WindowSelectionMethod,
};
use crate::text::{chars_equal, chars_of, extend_chars, is_blank, string_from_chars};

verus! {

broadcast use {vstd::string::group_string_axioms, vstd::seq_lib::group_seq_properties};

/// Prepares what happens to an application when a session for it starts.
pub trait ApplicationLaunchBackend {
    fn prepare_launch(&self, application: &ApplicationSummary, session_id: &str) -> Result<
        ApplicationLaunchIntent,
        AppRelayError,
    >;
}

/// The launch backends that the server ships.
#[derive(Clone, Copy, Debug, PartialEq, Eq, Structural)]
pub enum ApplicationLaunchBackendService {
    RecordOnly,
    Unsupported { platform: Platform },
}

/// The status a recorded launch gets: `Recorded` with launch metadata, `Attached` without.
pub open spec fn launch_status_for(launch: Option<ApplicationLaunch>) -> LaunchIntentStatus {
    if launch is Some {
        LaunchIntentStatus::Recorded
    } else {
        LaunchIntentStatus::Attached
    }
}

impl ApplicationLaunchBackend for ApplicationLaunchBackendService {
    /// Records the launch (or attach) intent; an unsupported backend reports the gap.
    fn prepare_launch(&self, application: &ApplicationSummary, session_id: &str) -> (r: Result<
        ApplicationLaunchIntent,
        AppRelayError,
    >)
        ensures
            *self is Unsupported ==> r == Err::<ApplicationLaunchIntent, AppRelayError>(
                AppRelayError::Unsupported {
                    platform: self->platform,
                    feature: Feature::ApplicationLaunch,
                },
            ),
            *self == ApplicationLaunchBackendService::RecordOnly ==> (r matches Ok(i) && i.session_id@
                == session_id@ && i.application_id == application.id && i.launch
                == application.launch && i.status == launch_status_for(application.launch)),
    {
        match self {
            ApplicationLaunchBackendService::RecordOnly => {
                let launch = match &application.launch {
                    Some(l) => Some(l.clone()),
                    None => None,
                };
                let status = if application.launch.is_some() {
                    LaunchIntentStatus::Recorded
                } else {
                    LaunchIntentStatus::Attached
                };
                Ok(
                    ApplicationLaunchIntent {
                        session_id: String::from_str(session_id),
                        application_id: application.id.clone(),
                        launch,
                        status,
                    },
                )
            },
            ApplicationLaunchBackendService::Unsupported { platform } => Err(
                AppRelayError::unsupported(*platform, Feature::ApplicationLaunch),
            ),
        }
    }
}

/// Applies a viewport to the selected window.
pub trait WindowResizeBackend {
    fn resize_window(
        &self,
        selected_window: &SelectedWindow,
        viewport: &crate::protocol::ViewportSize,
    ) -> Result<ResizeIntentStatus, AppRelayError>;
}

/// The resize backends that the server ships.
#[derive(Clone, Copy, Debug, PartialEq, Eq, Structural)]
pub enum WindowResizeBackendService {
    RecordOnly,
    Unsupported { platform: Platform },
}

/// What a resize backend answers.
pub open spec fn resize_outcome(b: WindowResizeBackendService) -> Result<
    ResizeIntentStatus,
    AppRelayError,
> {
    match b {
        WindowResizeBackendService::RecordOnly => Ok(ResizeIntentStatus::Recorded),
        WindowResizeBackendService::Unsupported { platform } => Err(
            AppRelayError::Unsupported { platform, feature: Feature::WindowResize },
        ),
    }
}

impl WindowResizeBackend for WindowResizeBackendService {
    /// Records the resize; an unsupported backend reports the gap.
    fn resize_window(
        &self,
        _selected_window: &SelectedWindow,
        _viewport: &crate::protocol::ViewportSize,
    ) -> (r: Result<ResizeIntentStatus, AppRelayError>)
        ensures
            r == resize_outcome(*self),
    {
        match self {
            WindowResizeBackendService::RecordOnly => Ok(ResizeIntentStatus::Recorded),
            WindowResizeBackendService::Unsupported { platform } => Err(
                AppRelayError::unsupported(*platform, Feature::WindowResize),
            ),
        }
    }
}

/// The operations of a session service.
pub trait ApplicationSessionService {
    /// The service's internal invariant.
    spec fn well_formed(&self) -> bool;

    /// Whether one more session id can still be issued.
    spec fn has_room(&self) -> bool;

    fn create_session(&mut self, request: CreateSessionRequest) -> (r: Result<
        ApplicationSession,
        AppRelayError,
    >)
        requires
            old(self).well_formed(),
            old(self).has_room(),
        ensures
            final(self).well_formed(),
    ;

    fn resize_session(&mut self, request: ResizeSessionRequest) -> (r: Result<
        ApplicationSession,
        AppRelayError,
    >)
        requires
            old(self).well_formed(),
        ensures
            final(self).well_formed(),
    ;

    fn close_session(&mut self, session_id: &str) -> (r: Result<ApplicationSession, AppRelayError>)
        requires
            old(self).well_formed(),
        ensures
            final(self).well_formed(),
    ;

    fn active_sessions(&self) -> Vec<ApplicationSession>;
}

/// The id of the `n`-th session.
pub open spec fn session_id_spec(n: nat) -> Seq<char> {
    "session-"@ + dec(n)
}

/// The id of the window selected for a session.
pub open spec fn window_id_spec(session_id: Seq<char>) -> Seq<char> {
    "window-"@ + session_id
}

pub open spec fn selection_for(status: LaunchIntentStatus) -> WindowSelectionMethod {
    match status {
        LaunchIntentStatus::Recorded => WindowSelectionMethod::LaunchIntent,
        LaunchIntentStatus::Attached => WindowSelectionMethod::ExistingWindow,
        LaunchIntentStatus::Unsupported => WindowSelectionMethod::Synthetic,
    }
}

pub open spec fn is_open(s: ApplicationSession) -> bool {
    s.state != SessionState::Closed
}

pub open spec fn open_sessions(s: Seq<ApplicationSession>) -> Seq<ApplicationSession> {
    s.filter(|x: ApplicationSession| is_open(x))
}

/// The session with this id that is not closed comes first at index `k`.
pub open spec fn first_open_with_id(s: Seq<ApplicationSession>, id: Seq<char>, k: int) -> bool {
    &&& 0 <= k < s.len()
    &&& s[k].id@ == id
    &&& is_open(s[k])
    &&& forall|j: int| 0 <= j < k ==> !(#[trigger] s[j].id@ == id && is_open(s[j]))
}

pub open spec fn has_open_with_id(s: Seq<ApplicationSession>, id: Seq<char>) -> bool {
    exists|k: int| 0 <= k < s.len() && #[trigger] s[k].id@ == id && is_open(s[k])
}

pub open spec fn not_found_message(id: Seq<char>) -> Seq<char> {
    "session "@ + id + " was not found"@
}

/// Sessions kept in memory, checked against a policy and backed by launch and resize
/// backends.
pub struct InMemoryApplicationSessionService {
    policy: SessionPolicy,
    launch_backend: ApplicationLaunchBackendService,
    resize_backend: WindowResizeBackendService,
    sessions: Vec<ApplicationSession>,
    next_session_sequence: u64,
    numbers: Ghost<Seq<nat>>,
}

impl InMemoryApplicationSessionService {
    pub closed spec fn sessions(&self) -> Seq<ApplicationSession> {
        self.sessions@
    }

    pub closed spec fn next_sequence(&self) -> u64 {
        self.next_session_sequence
    }

    pub closed spec fn policy(&self) -> SessionPolicyView {
        self.policy@
    }

    pub closed spec fn launch_backend(&self) -> ApplicationLaunchBackendService {
        self.launch_backend
    }

    pub closed spec fn resize_backend(&self) -> WindowResizeBackendService {
        self.resize_backend
    }

    /// Every session has the id `session-<n>` for a distinct `n` below the next sequence
    /// number, and numbers grow with the position.
    pub closed spec fn wf(&self) -> bool {
        &&& self.numbers@.len() == self.sessions@.len()
        &&& self.next_session_sequence >= 1
        &&& forall|i: int|
            0 <= i < self.sessions@.len() ==> #[trigger] self.sessions@[i].id@ == session_id_spec(
                self.numbers@[i],
            ) && self.numbers@[i] < self.next_session_sequence
        &&& forall|i: int, j: int|
            0 <= i < j < self.sessions@.len() ==> #[trigger] self.numbers@[i]
                < #[trigger] self.numbers@[j]
    }

    /// No two sessions share an id.
    pub proof fn lemma_ids_unique(&self)
        requires
            self.wf(),
        ensures
            forall|i: int, j: int|
                0 <= i < self.sessions().len() && 0 <= j < self.sessions().len() && i != j
                    ==> #[trigger] self.sessions()[i].id@ != #[trigger] self.sessions()[j].id@,
    {
        assert forall|i: int, j: int|
            0 <= i < self.sessions().len() && 0 <= j < self.sessions().len() && i
                != j implies #[trigger] self.sessions()[i].id@ != #[trigger] self.sessions()[j].id@ by {
            if self.sessions()[i].id@ == self.sessions()[j].id@ {
                lemma_session_id_injective(self.numbers@[i], self.numbers@[j]);
            }
        }
    }

    /// A service with the given policy and backends and no sessions.
    pub fn with_backends(
        policy: SessionPolicy,
        launch_backend: ApplicationLaunchBackendService,
        resize_backend: WindowResizeBackendService,
    ) -> (s: Self)
        ensures
            s.wf(),
            s.sessions() == Seq::<ApplicationSession>::empty(),
            s.next_sequence() == 1,
            s.policy() == policy@,
            s.launch_backend() == launch_backend,
            s.resize_backend() == resize_backend,
    {
        InMemoryApplicationSessionService {
            policy,
            launch_backend,
            resize_backend,
            sessions: Vec::new(),
            next_session_sequence: 1,
            numbers: Ghost(Seq::empty()),
        }
    }

    /// A service that records launches and resizes.
    pub fn new(policy: SessionPolicy) -> (s: Self)
        ensures
            s.wf(),
            s.sessions() == Seq::<ApplicationSession>::empty(),
            s.next_sequence() == 1,
            s.policy() == policy@,
            s.launch_backend() == ApplicationLaunchBackendService::RecordOnly,
            s.resize_backend() == WindowResizeBackendService::RecordOnly,
    {
        Self::with_backends(
            policy,
            ApplicationLaunchBackendService::RecordOnly,
            WindowResizeBackendService::RecordOnly,
        )
    }

    pub fn with_resize_backend(policy: SessionPolicy, resize_backend: WindowResizeBackendService) -> (s:
        Self)
        ensures
            s.wf(),
            s.sessions() == Seq::<ApplicationSession>::empty(),
            s.next_sequence() == 1,
            s.policy() == policy@,
            s.launch_backend() == ApplicationLaunchBackendService::RecordOnly,
            s.resize_backend() == resize_backend,
    {
        Self::with_backends(policy, ApplicationLaunchBackendService::RecordOnly, resize_backend)
    }

    pub fn with_launch_backend(policy: SessionPolicy, launch_backend: ApplicationLaunchBackendService) -> (s:
        Self)
        ensures
            s.wf(),
            s.sessions() == Seq::<ApplicationSession>::empty(),
            s.next_sequence() == 1,
            s.policy() == policy@,
            s.launch_backend() == launch_backend,
            s.resize_backend() == WindowResizeBackendService::RecordOnly,
    {
        Self::with_backends(policy, launch_backend, WindowResizeBackendService::RecordOnly)
    }

    /// The next session id, `session-<n>`; the sequence number moves on.
    fn next_session_id(&mut self) -> (id: String)
        requires
            old(self).next_session_sequence < u64::MAX,
        ensures
            id@ == session_id_spec(old(self).next_session_sequence as nat),
            final(self).next_session_sequence == old(self).next_session_sequence + 1,
            final(self).sessions == old(self).sessions,
            final(self).numbers == old(self).numbers,
            final(self).policy == old(self).policy,
            final(self).launch_backend == old(self).launch_backend,
            final(self).resize_backend == old(self).resize_backend,
    {
        let mut v = chars_of("session-");
        write_dec(self.next_session_sequence, &mut v);
        self.next_session_sequence = self.next_session_sequence + 1;
        string_from_chars(&v)
    }
}

/// Different sequence numbers give different session ids.
pub proof fn lemma_session_id_injective(a: nat, b: nat)
    requires
        session_id_spec(a) == session_id_spec(b),
    ensures
        a == b,
{
    let p = "session-"@;
    assert(session_id_spec(a).subrange(p.len() as int, session_id_spec(a).len() as int) =~= dec(
        a,
    ));
    assert(session_id_spec(b).subrange(p.len() as int, session_id_spec(b).len() as int) =~= dec(
        b,
    ));
    crate::decimal::lemma_dec(a);
    crate::decimal::lemma_dec(b);
}


/// Whether a create request passes the policy (application and viewport).
pub open spec fn create_accepted(p: SessionPolicyView, application_id: Seq<char>, viewport: crate::protocol::ViewportSize) -> bool {
    &&& !is_blank(application_id)
    &&& policy_allows(p, application_id)
    &&& viewport_error_message(p, viewport) is None
}

/// What the policy answers to a refused create request.
pub open spec fn create_rejection_matches(
    p: SessionPolicyView,
    application_id: Seq<char>,
    viewport: crate::protocol::ViewportSize,
    e: AppRelayError,
) -> bool {
    if is_blank(application_id) {
        e matches AppRelayError::InvalidRequest(m) && m@ == "application id is required"@
    } else if !policy_allows(p, application_id) {
        e matches AppRelayError::PermissionDenied(m) && m@ == "application "@ + application_id
            + " is not allowed"@
    } else {
        viewport_error_message(p, viewport) matches Some(msg) && e matches AppRelayError::InvalidRequest(
            m,
        ) && m@ == msg
    }
}

/// The session created for `app` with sequence number `n`.
pub open spec fn is_new_session(
    s: ApplicationSession,
    n: nat,
    viewport: crate::protocol::ViewportSize,
    app: ApplicationSummary,
) -> bool {
    &&& s.id@ == session_id_spec(n)
    &&& s.application_id@ == app.id@
    &&& s.selected_window.id@ == window_id_spec(s.id@)
    &&& s.selected_window.application_id@ == app.id@
    &&& s.selected_window.title@ == app.name@
    &&& s.selected_window.selection_method == selection_for(launch_status_for(app.launch))
    &&& s.launch_intent matches Some(i) && i.session_id@ == s.id@ && i.application_id@ == app.id@
        && i.launch == app.launch && i.status == launch_status_for(app.launch)
    &&& s.viewport == viewport
    &&& s.resize_intent is None
    &&& s.state == SessionState::Ready
}

impl InMemoryApplicationSessionService {
    /// Checks the request against the policy, issues the next session id, asks the launch
    /// backend, and records the new session.
    fn create_validated_session(
        &mut self,
        request: CreateSessionRequest,
        application: ApplicationSummary,
    ) -> (r: Result<ApplicationSession, AppRelayError>)
        requires
            old(self).wf(),
            old(self).next_sequence() < u64::MAX,
        ensures
            final(self).wf(),
            final(self).policy() == old(self).policy(),
            final(self).launch_backend() == old(self).launch_backend(),
            final(self).resize_backend() == old(self).resize_backend(),
            !create_accepted(old(self).policy(), request.application_id@, request.viewport) ==> (r
                matches Err(e) && create_rejection_matches(
                old(self).policy(),
                request.application_id@,
                request.viewport,
                e,
            ) && final(self).sessions() == old(self).sessions() && final(self).next_sequence()
                == old(self).next_sequence()),
            create_accepted(old(self).policy(), request.application_id@, request.viewport) ==> final(self).next_sequence() == old(self).next_sequence() + 1,
            create_accepted(old(self).policy(), request.application_id@, request.viewport) && old(self).launch_backend() is Unsupported ==> r == Err::<ApplicationSession, AppRelayError>(
                AppRelayError::Unsupported {
                    platform: old(self).launch_backend()->platform,
                    feature: Feature::ApplicationLaunch,
                },
            ) && final(self).sessions() == old(self).sessions(),
            create_accepted(old(self).policy(), request.application_id@, request.viewport) && old(self).launch_backend() == ApplicationLaunchBackendService::RecordOnly ==> (r matches Ok(s)
                && is_new_session(s, old(self).next_sequence() as nat, request.viewport, application)
                && final(self).sessions() == old(self).sessions().push(s)),
    {
        match self.policy.validate_application(request.application_id.as_str()) {
            Err(e) => {
                return Err(e);
            },
            Ok(()) => {},
        }
        match self.policy.validate_viewport(&request.viewport) {
            Err(e) => {
                return Err(e);
            },
            Ok(()) => {},
        }
        let ghost n = self.next_session_sequence as nat;
        let session_id = self.next_session_id();
        let launch_intent = match self.launch_backend.prepare_launch(&application, session_id.as_str()) {
            Err(e) => {
                return Err(e);
            },
            Ok(i) => i,
        };
        let selection_method = match launch_intent.status {
            LaunchIntentStatus::Recorded => WindowSelectionMethod::LaunchIntent,
            LaunchIntentStatus::Attached => WindowSelectionMethod::ExistingWindow,
            LaunchIntentStatus::Unsupported => WindowSelectionMethod::Synthetic,
        };
        let mut window_id = chars_of("window-");
        let sid_chars = chars_of(session_id.as_str());
        extend_chars(&mut window_id, sid_chars.as_slice());
        let application_id = application.id.clone();
        let session = ApplicationSession {
            id: session_id,
            application_id,
            selected_window: SelectedWindow {
                id: string_from_chars(&window_id),
                application_id: application.id,
                title: application.name,
                selection_method,
            },
            launch_intent: Some(launch_intent),
            viewport: request.viewport,
            resize_intent: None,
            state: SessionState::Ready,
        };
        let ghost old_numbers = self.numbers@;
        let ghost old_sessions = self.sessions@;
        self.sessions.push(session.clone());
        self.numbers = Ghost(old_numbers.push(n));
        proof {
            assert forall|i: int| 0 <= i < self.sessions@.len() implies #[trigger] self.sessions@[i].id@
                == session_id_spec(self.numbers@[i]) && self.numbers@[i]
                < self.next_session_sequence by {
                if i < old_sessions.len() {
                    assert(self.sessions@[i] == old_sessions[i]);
                    assert(self.numbers@[i] == old_numbers[i]);
                }
            }
            assert forall|i: int, j: int| 0 <= i < j < self.sessions@.len() implies #[trigger] self.numbers@[i]
                < #[trigger] self.numbers@[j] by {
                assert(self.numbers@[i] == old_numbers[i]);
                if j < old_sessions.len() {
                    assert(self.numbers@[j] == old_numbers[j]);
                } else {
                    assert(old_sessions[i].id@ == session_id_spec(old_numbers[i]));
                }
            }
        }
        Ok(session)
    }

    /// Creates a session for a discovered application, which must be the requested one.
    pub fn create_session_for_application(
        &mut self,
        request: CreateSessionRequest,
        application: ApplicationSummary,
    ) -> (r: Result<ApplicationSession, AppRelayError>)
        requires
            old(self).wf(),
            old(self).next_sequence() < u64::MAX,
        ensures
            final(self).wf(),
            final(self).policy() == old(self).policy(),
            request.application_id@ != application.id@ ==> (r matches Err(
                AppRelayError::InvalidRequest(m),
            ) && m@ == "application "@ + application.id@ + " does not match request "@
                + request.application_id@ && final(self).sessions() == old(self).sessions()
                && final(self).next_sequence() == old(self).next_sequence()),
            request.application_id@ == application.id@ && !create_accepted(
                old(self).policy(),
                request.application_id@,
                request.viewport,
            ) ==> (r matches Err(e) && create_rejection_matches(
                old(self).policy(),
                request.application_id@,
                request.viewport,
                e,
            ) && final(self).sessions() == old(self).sessions()),
            request.application_id@ == application.id@ && create_accepted(
                old(self).policy(),
                request.application_id@,
                request.viewport,
            ) && old(self).launch_backend() is Unsupported ==> r == Err::<
                ApplicationSession,
                AppRelayError,
            >(
                AppRelayError::Unsupported {
                    platform: old(self).launch_backend()->platform,
                    feature: Feature::ApplicationLaunch,
                },
            ) && final(self).sessions() == old(self).sessions(),
            request.application_id@ == application.id@ && create_accepted(
                old(self).policy(),
                request.application_id@,
                request.viewport,
            ) && old(self).launch_backend() == ApplicationLaunchBackendService::RecordOnly ==> (r
                matches Ok(s) && is_new_session(
                s,
                old(self).next_sequence() as nat,
                request.viewport,
                application,
            ) && final(self).sessions() == old(self).sessions().push(s)),
    {
        let wanted = chars_of(request.application_id.as_str());
        let have = chars_of(application.id.as_str());
        if !chars_equal(wanted.as_slice(), have.as_slice()) {
            let mut message = chars_of("application ");
            extend_chars(&mut message, have.as_slice());
            let middle = chars_of(" does not match request ");
            extend_chars(&mut message, middle.as_slice());
            extend_chars(&mut message, wanted.as_slice());
            return Err(AppRelayError::InvalidRequest(string_from_chars(&message)));
        }
        self.create_validated_session(request, application)
    }

    /// The first session with this id that is not closed.
    fn find_open(&self, session_id: &str) -> (r: Option<usize>)
        ensures
            r matches Some(k) ==> first_open_with_id(self.sessions(), session_id@, k as int),
            r is None ==> !has_open_with_id(self.sessions(), session_id@),
    {
        let wanted = chars_of(session_id);
        let mut i: usize = 0;
        while i < self.sessions.len()
            invariant
                i <= self.sessions@.len(),
                wanted@ == session_id@,
                forall|j: int| 0 <= j < i ==> !(#[trigger] self.sessions@[j].id@ == session_id@
                    && is_open(self.sessions@[j])),
            decreases self.sessions@.len() - i,
        {
            let candidate = chars_of(self.sessions[i].id.as_str());
            if chars_equal(candidate.as_slice(), wanted.as_slice()) && self.sessions[i].state
                != SessionState::Closed {
                return Some(i);
            }
            i = i + 1;
        }
        None
    }
}


/// The session after a resize: the new viewport and the recorded resize intent.
pub open spec fn is_resized(
    s: ApplicationSession,
    before: ApplicationSession,
    viewport: crate::protocol::ViewportSize,
    status: ResizeIntentStatus,
) -> bool {
    &&& s.id == before.id
    &&& s.application_id == before.application_id
    &&& s.selected_window == before.selected_window
    &&& s.launch_intent == before.launch_intent
    &&& s.state == before.state
    &&& s.viewport == viewport
    &&& s.resize_intent matches Some(i) && i.session_id@ == before.id@ && i.selected_window_id@
        == before.selected_window.id@ && i.viewport == viewport && i.status == status
}

/// The session after closing: the same session, marked closed.
pub open spec fn is_closed_copy(s: ApplicationSession, before: ApplicationSession) -> bool {
    &&& s.id == before.id
    &&& s.application_id == before.application_id
    &&& s.selected_window == before.selected_window
    &&& s.launch_intent == before.launch_intent
    &&& s.viewport == before.viewport
    &&& s.resize_intent == before.resize_intent
    &&& s.state == SessionState::Closed
}

impl ApplicationSessionService for InMemoryApplicationSessionService {
    open spec fn well_formed(&self) -> bool {
        self.wf()
    }

    open spec fn has_room(&self) -> bool {
        self.next_sequence() < u64::MAX
    }

    /// Creates a session for an application known only by its id: it is named after
    /// the id and has no icon and no launch metadata.
    fn create_session(&mut self, request: CreateSessionRequest) -> (r: Result<
        ApplicationSession,
        AppRelayError,
    >)
        ensures
            final(self).policy() == old(self).policy(),
            final(self).launch_backend() == old(self).launch_backend(),
            final(self).resize_backend() == old(self).resize_backend(),
            !create_accepted(old(self).policy(), request.application_id@, request.viewport) ==> (r
                matches Err(e) && create_rejection_matches(
                old(self).policy(),
                request.application_id@,
                request.viewport,
                e,
            ) && final(self).sessions() == old(self).sessions() && final(self).next_sequence()
                == old(self).next_sequence()),
            create_accepted(old(self).policy(), request.application_id@, request.viewport) ==> final(self).next_sequence() == old(self).next_sequence() + 1,
            create_accepted(old(self).policy(), request.application_id@, request.viewport) && old(self).launch_backend() is Unsupported ==> r == Err::<ApplicationSession, AppRelayError>(
                AppRelayError::Unsupported {
                    platform: old(self).launch_backend()->platform,
                    feature: Feature::ApplicationLaunch,
                },
            ) && final(self).sessions() == old(self).sessions(),
            create_accepted(old(self).policy(), request.application_id@, request.viewport) && old(self).launch_backend() == ApplicationLaunchBackendService::RecordOnly ==> (r matches Ok(s)
                && s.id@ == session_id_spec(old(self).next_sequence() as nat)
                && s.application_id@ == request.application_id@
                && s.selected_window.id@ == window_id_spec(s.id@)
                && s.selected_window.application_id@ == request.application_id@
                && s.selected_window.title@ == request.application_id@
                && s.selected_window.selection_method == WindowSelectionMethod::ExistingWindow
                && (s.launch_intent matches Some(i) && i.session_id@ == s.id@
                && i.application_id@ == request.application_id@ && i.launch is None
                && i.status == LaunchIntentStatus::Attached)
                && s.viewport == request.viewport
                && s.resize_intent is None
                && s.state == SessionState::Ready
                && final(self).sessions() == old(self).sessions().push(s)),
    {
        let application = ApplicationSummary {
            id: request.application_id.clone(),
            name: request.application_id.clone(),
            icon: None,
            launch: None,
        };
        self.create_validated_session(request, application)
    }

    /// Records a new viewport for an open session, after the policy and the resize backend
    /// accept it.
    fn resize_session(&mut self, request: ResizeSessionRequest) -> (r: Result<
        ApplicationSession,
        AppRelayError,
    >)
        ensures
            final(self).policy() == old(self).policy(),
            final(self).launch_backend() == old(self).launch_backend(),
            final(self).resize_backend() == old(self).resize_backend(),
            final(self).next_sequence() == old(self).next_sequence(),
            r is Err ==> final(self).sessions() == old(self).sessions(),
            viewport_error_message(old(self).policy(), request.viewport) matches Some(msg) ==> (r
                matches Err(AppRelayError::InvalidRequest(m)) && m@ == msg),
            viewport_error_message(old(self).policy(), request.viewport) is None && !has_open_with_id(
                old(self).sessions(),
                request.session_id@,
            ) ==> (r matches Err(AppRelayError::NotFound(m)) && m@ == not_found_message(
                request.session_id@,
            )),
            forall|k: int|
                viewport_error_message(old(self).policy(), request.viewport) is None
                    && #[trigger] first_open_with_id(old(self).sessions(), request.session_id@, k)
                    ==> match resize_outcome(old(self).resize_backend()) {
                    Err(e) => r == Err::<ApplicationSession, AppRelayError>(e),
                    Ok(status) => r matches Ok(s) && is_resized(
                        s,
                        old(self).sessions()[k],
                        request.viewport,
                        status,
                    ) && final(self).sessions() == old(self).sessions().update(k, s),
                },
    {
        proof {
            assert(self.wf());
        }
        match self.policy.validate_viewport(&request.viewport) {
            Err(e) => {
                return Err(e);
            },
            Ok(()) => {},
        }
        let k = match self.find_open(request.session_id.as_str()) {
            Some(k) => k,
            None => {
                let mut message = chars_of("session ");
                let id = chars_of(request.session_id.as_str());
                extend_chars(&mut message, id.as_slice());
                let tail = chars_of(" was not found");
                extend_chars(&mut message, tail.as_slice());
                return Err(AppRelayError::NotFound(string_from_chars(&message)));
            },
        };
        let status = match self.resize_backend.resize_window(
            &self.sessions[k].selected_window,
            &request.viewport,
        ) {
            Err(e) => {
                return Err(e);
            },
            Ok(status) => status,
        };
        let mut session = self.sessions[k].clone();
        let intent = WindowResizeIntent {
            session_id: session.id.clone(),
            selected_window_id: session.selected_window.id.clone(),
            viewport: request.viewport,
            status,
        };
        session.viewport = request.viewport;
        session.resize_intent = Some(intent);
        let ghost before = self.sessions@;
        proof {
            assert(self.wf());
        }
        self.sessions.set(k, session.clone());
        proof {
            assert forall|i: int| 0 <= i < self.sessions@.len() implies #[trigger] self.sessions@[i].id@
                == session_id_spec(self.numbers@[i]) && self.numbers@[i]
                < self.next_session_sequence by {
                if i != k {
                    assert(self.sessions@[i] == before[i]);
                } else {
                    assert(self.sessions@[i].id == before[i].id);
                }
            }
            assert forall|kk: int| #[trigger] first_open_with_id(before, request.session_id@, kk)
                implies kk == k by {
                if kk < k {
                    assert(!(before[kk].id@ == request.session_id@ && is_open(before[kk])));
                } else if kk > k {
                    assert(!(before[k as int].id@ == request.session_id@ && is_open(before[k as int])));
                }
            }
            assert(self.numbers@.len() == self.sessions@.len());
            assert(self.wf());
        }
        Ok(session)
    }

    /// Marks the first open session with this id as closed.
    fn close_session(&mut self, session_id: &str) -> (r: Result<ApplicationSession, AppRelayError>)
        ensures
            final(self).policy() == old(self).policy(),
            final(self).launch_backend() == old(self).launch_backend(),
            final(self).resize_backend() == old(self).resize_backend(),
            final(self).next_sequence() == old(self).next_sequence(),
            !has_open_with_id(old(self).sessions(), session_id@) ==> (r matches Err(
                AppRelayError::NotFound(m),
            ) && m@ == not_found_message(session_id@) && final(self).sessions() == old(
                self).sessions()),
            forall|k: int| #[trigger]
                first_open_with_id(old(self).sessions(), session_id@, k) ==> (r matches Ok(s)
                    && is_closed_copy(s, old(self).sessions()[k]) && final(self).sessions() == old(
                    self).sessions().update(k, s)),
    {
        let k = match self.find_open(session_id) {
            Some(k) => k,
            None => {
                let mut message = chars_of("session ");
                let id = chars_of(session_id);
                extend_chars(&mut message, id.as_slice());
                let tail = chars_of(" was not found");
                extend_chars(&mut message, tail.as_slice());
                return Err(AppRelayError::NotFound(string_from_chars(&message)));
            },
        };
        let mut session = self.sessions[k].clone();
        session.state = SessionState::Closed;
        let ghost before = self.sessions@;
        self.sessions.set(k, session.clone());
        proof {
            assert forall|i: int| 0 <= i < self.sessions@.len() implies #[trigger] self.sessions@[i].id@
                == session_id_spec(self.numbers@[i]) && self.numbers@[i]
                < self.next_session_sequence by {
                if i != k {
                    assert(self.sessions@[i] == before[i]);
                } else {
                    assert(self.sessions@[i].id == before[i].id);
                }
            }
            assert forall|kk: int| #[trigger] first_open_with_id(before, session_id@, kk)
                implies kk == k by {
                if kk < k {
                    assert(!(before[kk].id@ == session_id@ && is_open(before[kk])));
                } else if kk > k {
                    assert(!(before[k as int].id@ == session_id@ && is_open(before[k as int])));
                }
            }
        }
        Ok(session)
    }

    /// The sessions that are not closed, in creation order.
    fn active_sessions(&self) -> (r: Vec<ApplicationSession>)
        ensures
            r@ == open_sessions(self.sessions()),
    {
        let mut out: Vec<ApplicationSession> = Vec::new();
        let mut i: usize = 0;
        assert(self.sessions@.take(0) =~= Seq::<ApplicationSession>::empty());
        while i < self.sessions.len()
            invariant
                i <= self.sessions@.len(),
                out@ == open_sessions(self.sessions@.take(i as int)),
            decreases self.sessions@.len() - i,
        {
            proof {
                assert(self.sessions@.take(i + 1) =~= self.sessions@.take(i as int).push(
                    self.sessions@[i as int],
                ));
                self.sessions@.take(i as int).lemma_filter_push(
                    self.sessions@[i as int],
                    |x: ApplicationSession| is_open(x),
                );
            }
            if self.sessions[i].state != SessionState::Closed {
                out.push(self.sessions[i].clone());
            }
            i = i + 1;
        }
        assert(self.sessions@.take(self.sessions@.len() as int) =~= self.sessions@);
        out
    }
}

impl Default for InMemoryApplicationSessionService {
    /// A recording service that allows every application.
    fn default() -> (s: Self)
        ensures
            s.wf(),
            s.sessions() == Seq::<ApplicationSession>::empty(),
            s.next_sequence() == 1,
            s.policy().allowed.len() == 0,
            crate::policy::default_bounds(s.policy()),
            s.launch_backend() == ApplicationLaunchBackendService::RecordOnly,
            s.resize_backend() == WindowResizeBackendService::RecordOnly,
    {
        Self::new(SessionPolicy::allow_all())
    }
}


/// Once a session is closed, no active session carries its id any more (session ids are
/// never reused).
pub proof fn lemma_closed_session_is_not_active(
    service: &InMemoryApplicationSessionService,
    id: Seq<char>,
    k: int,
    closed: ApplicationSession,
)
    requires
        service.wf(),
        first_open_with_id(service.sessions(), id, k),
        is_closed_copy(closed, service.sessions()[k]),
    ensures
        forall|x: ApplicationSession| #[trigger]
            open_sessions(service.sessions().update(k, closed)).contains(x) ==> x.id@ != id,
{
    service.lemma_ids_unique();
    let after = service.sessions().update(k, closed);
    let pred = |x: ApplicationSession| is_open(x);
    assert forall|x: ApplicationSession| #[trigger]
        open_sessions(after).contains(x) implies x.id@ != id by {
        after.lemma_filter_contains_rev(pred, x);
        let j = choose|j: int| 0 <= j < after.len() && after[j] == x;
        let f = after.filter(pred);
        let m = choose|m: int| 0 <= m < f.len() && f[m] == x;
        after.lemma_filter_pred(pred, m);
        if j != k && x.id@ == id {
            assert(after[j] == service.sessions()[j]);
            assert(service.sessions()[j].id@ == service.sessions()[k].id@);
        }
    }
}

/// A session that was just created is among the active sessions.
pub proof fn lemma_created_session_is_active(sessions: Seq<ApplicationSession>, s: ApplicationSession)
    requires
        s.state == SessionState::Ready,
    ensures
        open_sessions(sessions.push(s)).contains(s),
{
    let pred = |x: ApplicationSession| is_open(x);
    sessions.push(s).lemma_filter_contains(pred, sessions.len() as int);
    assert(sessions.push(s)[sessions.len() as int] == s);
}


/// A session is created only for a non-blank application that the policy allows (any
/// application under an empty allow list, else one on it) with a viewport inside the
/// policy's bounds on both axes.
pub proof fn lemma_create_accepted_iff_allowed_and_within_bounds(
    p: SessionPolicyView,
    application_id: Seq<char>,
    viewport: crate::protocol::ViewportSize,
)
    ensures
        create_accepted(p, application_id, viewport) <==> (!is_blank(application_id) && (
        p.allowed.len() == 0 || p.allowed.contains(application_id)) && p.min_width
            <= viewport.width <= p.max_width && p.min_height <= viewport.height <= p.max_height),
{
}

} // verus!
