//! Forwarding client input to the selected window of a session: which session may take
//! input, focus and blur, the backend that delivers it, and the record of deliveries.

use vstd::prelude::*;
use crate::input::{
    key_code_script, key_code_of, keyboard_target, macos_keyboard_bundle_id,
    macos_keyboard_key_invocation, macos_keyboard_target_window_id,
    macos_keyboard_text_invocation, missing_bundle_message, modifier_clause, script_args, texts,
    two_argument_script, unsupported_key_message, KeyAction, KeyModifiers, OsascriptInvocation,
};
use crate::protocol::{
    AppRelayError, ApplicationSession, Feature, Platform, SessionState, ViewportSize, opt_text,
};
use crate::text::{chars_of, extend_chars, str_is_blank, string_from_chars, trim_spec, is_blank};

verus! {

/// The kind of device an event comes from.
#[derive(Clone, Copy, Debug, PartialEq, Eq, Structural)]
pub enum InputBackendKind {
    Pointer,
    Keyboard,
}

/// A pointer button.
#[derive(Clone, Copy, Debug, PartialEq, Eq, Structural)]
pub enum PointerButton {
    Primary,
    Secondary,
    Middle,
}

/// Whether a button goes down or comes up.
#[derive(Clone, Copy, Debug, PartialEq, Eq, Structural)]
pub enum ButtonAction {
    Press,
    Release,
}

/// A position in the server viewport, in pixels.
#[derive(Clone, Copy, Debug, PartialEq, Eq, Structural)]
pub struct ServerPoint {
    pub x: u32,
    pub y: u32,
}

impl ServerPoint {
    pub fn new(x: u32, y: u32) -> (p: Self)
        ensures
            p == (ServerPoint { x, y }),
    {
        ServerPoint { x, y }
    }
}

/// A client event with its positions mapped to the server viewport.
#[derive(Debug, PartialEq, Eq)]
pub enum MappedInputEvent {
    Focus,
    Blur,
    PointerMove { position: ServerPoint },
    PointerButton { position: ServerPoint, button: PointerButton, action: ButtonAction },
    PointerScroll { position: ServerPoint, delta_x: i32, delta_y: i32 },
    PointerDrag { from: ServerPoint, to: ServerPoint, button: PointerButton },
    KeyboardText { text: String },
    KeyboardKey { key: String, action: KeyAction, modifiers: KeyModifiers },
}

impl Clone for MappedInputEvent {
    fn clone(&self) -> (r: Self)
        ensures
            r == *self,
    {
        match self {
            MappedInputEvent::Focus => MappedInputEvent::Focus,
            MappedInputEvent::Blur => MappedInputEvent::Blur,
            MappedInputEvent::PointerMove { position } => MappedInputEvent::PointerMove {
                position: *position,
            },
            MappedInputEvent::PointerButton { position, button, action } => {
                MappedInputEvent::PointerButton {
                    position: *position,
                    button: *button,
                    action: *action,
                }
            },
            MappedInputEvent::PointerScroll { position, delta_x, delta_y } => {
                MappedInputEvent::PointerScroll {
                    position: *position,
                    delta_x: *delta_x,
                    delta_y: *delta_y,
                }
            },
            MappedInputEvent::PointerDrag { from, to, button } => MappedInputEvent::PointerDrag {
                from: *from,
                to: *to,
                button: *button,
            },
            MappedInputEvent::KeyboardText { text } => MappedInputEvent::KeyboardText {
                text: text.clone(),
            },
            MappedInputEvent::KeyboardKey { key, action, modifiers } => {
                MappedInputEvent::KeyboardKey {
                    key: key.clone(),
                    action: *action,
                    modifiers: *modifiers,
                }
            },
        }
    }
}

/// The device an event needs; focus and blur need none.
pub open spec fn event_kind(e: MappedInputEvent) -> Option<InputBackendKind> {
    match e {
        MappedInputEvent::Focus | MappedInputEvent::Blur => None,
        MappedInputEvent::KeyboardText { .. } | MappedInputEvent::KeyboardKey { .. } => Some(
            InputBackendKind::Keyboard,
        ),
        _ => Some(InputBackendKind::Pointer),
    }
}

impl MappedInputEvent {
    /// The device this event needs, if any.
    pub fn backend_kind(&self) -> (k: Option<InputBackendKind>)
        ensures
            k == event_kind(*self),
    {
        match self {
            MappedInputEvent::Focus | MappedInputEvent::Blur => None,
            MappedInputEvent::KeyboardText { .. } | MappedInputEvent::KeyboardKey { .. } => Some(
                InputBackendKind::Keyboard,
            ),
            _ => Some(InputBackendKind::Pointer),
        }
    }
}

/// What became of an input event.
#[derive(Clone, Copy, Debug, PartialEq, Eq, Structural)]
pub enum InputDeliveryStatus {
    Delivered,
    Focused,
    Blurred,
    IgnoredBlurred,
}

/// An input event delivered (or not) to the selected window of a session.
#[derive(Debug, PartialEq, Eq)]
pub struct InputDelivery {
    pub session_id: String,
    pub selected_window_id: String,
    pub mapped_event: MappedInputEvent,
    pub status: InputDeliveryStatus,
}

impl Clone for InputDelivery {
    fn clone(&self) -> (r: Self)
        ensures
            r == *self,
    {
        InputDelivery {
            session_id: self.session_id.clone(),
            selected_window_id: self.selected_window_id.clone(),
            mapped_event: self.mapped_event.clone(),
            status: self.status,
        }
    }
}

/// The session and window that currently take input.
#[derive(Debug, PartialEq, Eq)]
pub struct ActiveInputFocus {
    pub session_id: String,
    pub selected_window_id: String,
}

/// How input reaches the application.
#[derive(Debug, PartialEq, Eq)]
pub enum InputBackendService {
    /// Deliveries are recorded only.
    RecordOnly,
    /// Keyboard input is typed into macOS applications with `osascript`.
    MacosKeyboard { osascript_command: std::path::PathBuf },
    /// Input of `kind` is unsupported on `platform`; other input is recorded only.
    Unsupported { platform: Platform, kind: InputBackendKind },
}

impl Clone for InputBackendService {
    fn clone(&self) -> (r: Self)
        ensures
            r == *self,
    {
        match self {
            InputBackendService::RecordOnly => InputBackendService::RecordOnly,
            InputBackendService::MacosKeyboard { osascript_command } => {
                InputBackendService::MacosKeyboard { osascript_command: osascript_command.clone() }
            },
            InputBackendService::Unsupported { platform, kind } => InputBackendService::Unsupported {
                platform: *platform,
                kind: *kind,
            },
        }
    }
}

/// The feature an input kind belongs to.
pub open spec fn kind_feature(k: InputBackendKind) -> Feature {
    match k {
        InputBackendKind::Pointer => Feature::MouseInput,
        InputBackendKind::Keyboard => Feature::KeyboardInput,
    }
}

/// How many deliveries are kept; the oldest goes first.
pub const MAX_RECORDED_DELIVERIES: usize = 1024;

/// The deliveries once `d` is recorded.
pub open spec fn recorded(s: Seq<InputDelivery>, d: InputDelivery) -> Seq<InputDelivery> {
    if s.len() >= MAX_RECORDED_DELIVERIES {
        s.drop_first().push(d)
    } else {
        s.push(d)
    }
}

/// Whether a session may take input as session `id`: it is that session, not closed, and
/// its selected window belongs to its application.
pub open spec fn input_target(s: ApplicationSession, id: Seq<char>) -> bool {
    &&& s.id@ == id
    &&& s.state != SessionState::Closed
    &&& s.selected_window.application_id@ == s.application_id@
}

/// The first session that may take input as `id` is at `k`.
pub open spec fn first_input_target(s: Seq<ApplicationSession>, id: Seq<char>, k: int) -> bool {
    &&& 0 <= k < s.len()
    &&& input_target(s[k], id)
    &&& forall|j: int| 0 <= j < k ==> !input_target(#[trigger] s[j], id)
}

pub open spec fn has_input_target(s: Seq<ApplicationSession>, id: Seq<char>) -> bool {
    exists|k: int| 0 <= k < s.len() && input_target(#[trigger] s[k], id)
}

pub open spec fn unauthorized_message(id: Seq<char>) -> Seq<char> {
    "input is not authorized for session "@ + id
}

/// The delivery of `event` to the selected window of `session` with `status`.
pub open spec fn delivery_ok(
    d: InputDelivery,
    session: ApplicationSession,
    event: MappedInputEvent,
    status: InputDeliveryStatus,
) -> bool {
    &&& d.session_id@ == session.id@
    &&& d.selected_window_id@ == session.selected_window.id@
    &&& d.mapped_event == event
    &&& d.status == status
}

/// What is left to do for an input event.
#[derive(Debug)]
pub enum InputRoute {
    /// Nothing: this is the answer.
    Finished(Result<InputDelivery, AppRelayError>),
    /// The delivery waits for `invocation` to run with the backend's `osascript` command.
    RunOsascript { delivery: InputDelivery, invocation: OsascriptInvocation },
}

/// Input forwarded to sessions, with the focused session and the recorded deliveries.
#[derive(Debug)]
pub struct InMemoryInputForwardingService {
    backend: InputBackendService,
    focused_session_id: Option<String>,
    deliveries: Vec<InputDelivery>,
}

impl InMemoryInputForwardingService {
    pub closed spec fn backend_spec(&self) -> InputBackendService {
        self.backend
    }

    /// The id of the focused session.
    pub closed spec fn focused(&self) -> Option<Seq<char>> {
        opt_text(self.focused_session_id)
    }

    /// The recorded deliveries, oldest first.
    pub closed spec fn recorded_deliveries(&self) -> Seq<InputDelivery> {
        self.deliveries@
    }

    /// At most `MAX_RECORDED_DELIVERIES` deliveries are kept.
    pub open spec fn wf(&self) -> bool {
        self.recorded_deliveries().len() <= MAX_RECORDED_DELIVERIES
    }

    /// A service on `backend` with no focus and no delivery.
    pub fn new(backend: InputBackendService) -> (s: Self)
        ensures
            s.wf(),
            s.backend_spec() == backend,
            s.focused() is None,
            s.recorded_deliveries() == Seq::<InputDelivery>::empty(),
    {
        InMemoryInputForwardingService { backend, focused_session_id: None, deliveries: Vec::new() }
    }

    /// A service that records deliveries only.
    pub fn with_recording_backend() -> (s: Self)
        ensures
            s.wf(),
            s.backend_spec() == InputBackendService::RecordOnly,
            s.focused() is None,
            s.recorded_deliveries() == Seq::<InputDelivery>::empty(),
    {
        Self::new(InputBackendService::RecordOnly)
    }

    /// The backend that delivers input.
    pub fn backend(&self) -> (b: &InputBackendService)
        ensures
            *b == self.backend_spec(),
    {
        &self.backend
    }

    /// The recorded deliveries, oldest first.
    pub fn deliveries(&self) -> (d: &[InputDelivery])
        ensures
            d@ == self.recorded_deliveries(),
    {
        self.deliveries.as_slice()
    }

    /// The id of the focused session, if any.
    pub fn focused_session_id(&self) -> (r: Option<&str>)
        ensures
            match r {
                Some(s) => self.focused() == Some(s@),
                None => self.focused() is None,
            },
    {
        match &self.focused_session_id {
            Some(s) => Some(s.as_str()),
            None => None,
        }
    }

    /// The focused session and its window, if that session may still take input.
    pub fn active_input_focus(&self, active_sessions: &[ApplicationSession]) -> (r: Option<
        ActiveInputFocus,
    >)
        ensures
            self.focused() is None ==> r is None,
            self.focused() matches Some(id) ==> (if has_input_target(active_sessions@, id) {
                exists|k: int|
                    first_input_target(active_sessions@, id, k) && (r matches Some(f) && f.session_id@
                        == active_sessions@[k].id@ && f.selected_window_id@
                        == active_sessions@[k].selected_window.id@)
            } else {
                r is None
            }),
    {
        let focused = match &self.focused_session_id {
            Some(s) => s,
            None => {
                return None;
            },
        };
        let mut i: usize = 0;
        while i < active_sessions.len()
            invariant
                i <= active_sessions@.len(),
                self.focused() == Some(focused@),
                forall|j: int| 0 <= j < i ==> !input_target(#[trigger] active_sessions@[j], focused@),
            decreases active_sessions@.len() - i,
        {
            let s = &active_sessions[i];
            if s.id == *focused && s.state != SessionState::Closed
                && s.selected_window.application_id == s.application_id {
                assert(first_input_target(active_sessions@, focused@, i as int));
                return Some(
                    ActiveInputFocus {
                        session_id: s.id.clone(),
                        selected_window_id: s.selected_window.id.clone(),
                    },
                );
            }
            i = i + 1;
        }
        None
    }

    /// Forgets session `session_id`: its focus and its recorded deliveries.
    pub fn close_session(&mut self, session_id: &str)
        requires
            old(self).wf(),
        ensures
            final(self).wf(),
            final(self).backend_spec() == old(self).backend_spec(),
            final(self).focused() == (if old(self).focused() == Some(session_id@) {
                None
            } else {
                old(self).focused()
            }),
            final(self).recorded_deliveries() == old(self).recorded_deliveries().filter(
                |d: InputDelivery| d.session_id@ != session_id@,
            ),
    {
        let target = String::from_str(session_id);
        let clear = match &self.focused_session_id {
            Some(f) => *f == target,
            None => false,
        };
        if clear {
            self.focused_session_id = None;
        }
        let ghost f = |d: InputDelivery| d.session_id@ != session_id@;
        let ghost src = self.deliveries@;
        let mut kept: Vec<InputDelivery> = Vec::new();
        let mut i: usize = 0;
        assert(src.take(0) =~= Seq::<InputDelivery>::empty());
        while i < self.deliveries.len()
            invariant
                i <= self.deliveries@.len(),
                src == self.deliveries@,
                target@ == session_id@,
                f == (|d: InputDelivery| d.session_id@ != session_id@),
                kept@ == src.take(i as int).filter(f),
            decreases self.deliveries@.len() - i,
        {
            proof {
                assert(src.take(i + 1) =~= src.take(i as int).push(src[i as int]));
                src.take(i as int).lemma_filter_push(src[i as int], f);
            }
            if self.deliveries[i].session_id != target {
                kept.push(self.deliveries[i].clone());
            }
            i = i + 1;
        }
        assert(src.take(src.len() as int) =~= src);
        proof {
            src.lemma_filter_len(f);
        }
        self.deliveries = kept;
    }

    /// Records a delivery, dropping the oldest one when the record is full.
    fn record_delivery(&mut self, delivery: InputDelivery)
        requires
            old(self).wf(),
        ensures
            final(self).wf(),
            final(self).recorded_deliveries() == recorded(old(self).recorded_deliveries(), delivery),
            final(self).focused() == old(self).focused(),
            final(self).backend_spec() == old(self).backend_spec(),
    {
        if self.deliveries.len() >= MAX_RECORDED_DELIVERIES {
            self.deliveries.remove(0);
            assert(self.deliveries@ =~= old(self).deliveries@.drop_first());
        }
        self.deliveries.push(delivery);
    }

    /// A client viewport must be non-empty.
    pub fn validate_client_viewport(viewport: &ViewportSize) -> (r: Result<(), AppRelayError>)
        ensures
            (viewport.width == 0 || viewport.height == 0) ==> (r matches Err(
                AppRelayError::InvalidRequest(m),
            ) && m@ == "client viewport must be non-zero"@),
            !(viewport.width == 0 || viewport.height == 0) ==> r is Ok,
    {
        if viewport.width == 0 || viewport.height == 0 {
            return Err(AppRelayError::InvalidRequest(String::from_str("client viewport must be non-zero")));
        }
        Ok(())
    }

    /// The first session that may take input as `session_id`, or a refusal.
    pub fn selected_session<'a>(session_id: &str, active_sessions: &'a [ApplicationSession]) -> (r:
        Result<&'a ApplicationSession, AppRelayError>)
        ensures
            !has_input_target(active_sessions@, session_id@) ==> (r matches Err(
                AppRelayError::PermissionDenied(m),
            ) && m@ == unauthorized_message(session_id@)),
            has_input_target(active_sessions@, session_id@) ==> exists|k: int|
                first_input_target(active_sessions@, session_id@, k) && (r matches Ok(s) && *s
                    == active_sessions@[k]),
    {
        let target = String::from_str(session_id);
        let mut i: usize = 0;
        while i < active_sessions.len()
            invariant
                i <= active_sessions@.len(),
                target@ == session_id@,
                forall|j: int| 0 <= j < i ==> !input_target(#[trigger] active_sessions@[j], session_id@),
            decreases active_sessions@.len() - i,
        {
            let s = &active_sessions[i];
            if s.id == target && s.state != SessionState::Closed
                && s.selected_window.application_id == s.application_id {
                assert(first_input_target(active_sessions@, session_id@, i as int));
                return Ok(s);
            }
            i = i + 1;
        }
        let mut m = chars_of("input is not authorized for session ");
        extend_chars(&mut m, &chars_of(session_id));
        Err(AppRelayError::PermissionDenied(string_from_chars(&m)))
    }

    /// Keyboard events must carry text, or a key that is not blank.
    pub fn check_keyboard_payload(event: &MappedInputEvent) -> (r: Result<(), AppRelayError>)
        ensures
            match *event {
                MappedInputEvent::KeyboardText { text } => if text@.len() == 0 {
                    r matches Err(AppRelayError::InvalidRequest(m)) && m@ == "keyboard text is required"@
                } else {
                    r is Ok
                },
                MappedInputEvent::KeyboardKey { key, .. } => if trim_spec(key@).len() == 0 {
                    r matches Err(AppRelayError::InvalidRequest(m)) && m@ == "key is required"@
                } else {
                    r is Ok
                },
                _ => r is Ok,
            },
    {
        match event {
            MappedInputEvent::KeyboardText { text } => {
                if text.as_str().is_empty() {
                    return Err(AppRelayError::InvalidRequest(String::from_str("keyboard text is required")));
                }
                Ok(())
            },
            MappedInputEvent::KeyboardKey { key, .. } => {
                let chars = chars_of(key.as_str());
                let trimmed = crate::text::trim_chars(&chars);
                if trimmed.len() == 0 {
                    return Err(AppRelayError::InvalidRequest(String::from_str("key is required")));
                }
                Ok(())
            },
            _ => Ok(()),
        }
    }
}

/// How the macOS keyboard backend routes an event for `session`: the session must name a
/// bundle and a usable target window; text and keys become `osascript` runs (a key release
/// needs none), pointer input is unsupported.
pub open spec fn macos_routed_ok(session: ApplicationSession, event: MappedInputEvent, r: InputRoute) -> bool {
    let bundle = trim_spec(session.application_id@);
    if bundle.len() == 0 {
        r matches InputRoute::Finished(Err(AppRelayError::InvalidRequest(m))) && m@
            == missing_bundle_message()
    } else {
        match keyboard_target(session) {
            Err(m) => r matches InputRoute::Finished(Err(AppRelayError::InvalidRequest(mm))) && mm@ == m,
            Ok(w) => match event {
                MappedInputEvent::KeyboardText { text } => r matches InputRoute::RunOsascript {
                    delivery,
                    invocation,
                } && delivery_ok(delivery, session, event, InputDeliveryStatus::Delivered) && texts(
                    invocation.script_lines@,
                ) == two_argument_script("set inputText to item 2 of argv"@, "keystroke inputText"@)
                    && texts(invocation.args@) == script_args(bundle, seq![text@], w),
                MappedInputEvent::KeyboardKey { key, action, modifiers } => if action
                    == KeyAction::Release {
                    r matches InputRoute::Finished(Ok(d)) && delivery_ok(
                        d,
                        session,
                        event,
                        InputDeliveryStatus::Delivered,
                    )
                } else if key_code_of(key@) is Some {
                    r matches InputRoute::RunOsascript { delivery, invocation } && delivery_ok(
                        delivery,
                        session,
                        event,
                        InputDeliveryStatus::Delivered,
                    ) && texts(invocation.script_lines@) == key_code_script(
                        "key code "@ + crate::decimal::dec(key_code_of(key@)->0 as nat)
                            + modifier_clause(modifiers),
                    ) && texts(invocation.args@) == script_args(bundle, Seq::empty(), w)
                } else if key@.len() == 1 {
                    r matches InputRoute::RunOsascript { delivery, invocation } && delivery_ok(
                        delivery,
                        session,
                        event,
                        InputDeliveryStatus::Delivered,
                    ) && texts(invocation.script_lines@) == two_argument_script(
                        "set inputKey to item 2 of argv"@,
                        "keystroke inputKey"@ + modifier_clause(modifiers),
                    ) && texts(invocation.args@) == script_args(bundle, seq![key@], w)
                } else {
                    r matches InputRoute::Finished(Err(AppRelayError::InvalidRequest(m))) && m@
                        == unsupported_key_message(key@)
                },
                MappedInputEvent::Focus | MappedInputEvent::Blur => r matches InputRoute::Finished(
                    Ok(d),
                ) && delivery_ok(d, session, event, InputDeliveryStatus::Delivered),
                _ => r == InputRoute::Finished(
                    Err(AppRelayError::Unsupported { platform: Platform::Macos, feature: Feature::MouseInput }),
                ),
            },
        }
    }
}

/// How the backend routes an event for the focused session, and what is recorded
/// (`d0` before, `d1` after).
pub open spec fn backend_routed_ok(
    b: InputBackendService,
    d0: Seq<InputDelivery>,
    d1: Seq<InputDelivery>,
    session: ApplicationSession,
    event: MappedInputEvent,
    r: InputRoute,
) -> bool {
    let kind = event_kind(event)->0;
    match b {
        InputBackendService::RecordOnly => r matches InputRoute::Finished(Ok(d)) && delivery_ok(
            d,
            session,
            event,
            InputDeliveryStatus::Delivered,
        ) && d1 == recorded(d0, d),
        InputBackendService::Unsupported { platform, kind: unsupported } => if unsupported != kind {
            r matches InputRoute::Finished(Ok(d)) && delivery_ok(
                d,
                session,
                event,
                InputDeliveryStatus::Delivered,
            ) && d1 == recorded(d0, d)
        } else {
            r == InputRoute::Finished(
                Err(AppRelayError::Unsupported { platform, feature: kind_feature(kind) }),
            ) && d1 == d0
        },
        InputBackendService::MacosKeyboard { .. } => macos_routed_ok(session, event, r) && d1 == (
        match r {
            InputRoute::Finished(Ok(d)) => recorded(d0, d),
            _ => d0,
        }),
    }
}

/// How an event for `session` is routed: focus and blur move the focus and are recorded;
/// other input for a session without focus is ignored; the backend handles the rest.
pub open spec fn routed_ok(
    b: InputBackendService,
    f0: Option<Seq<char>>,
    d0: Seq<InputDelivery>,
    f1: Option<Seq<char>>,
    d1: Seq<InputDelivery>,
    session: ApplicationSession,
    event: MappedInputEvent,
    r: InputRoute,
) -> bool {
    match event {
        MappedInputEvent::Focus => r matches InputRoute::Finished(Ok(d)) && delivery_ok(
            d,
            session,
            event,
            InputDeliveryStatus::Focused,
        ) && f1 == Some(session.id@) && d1 == recorded(d0, d),
        MappedInputEvent::Blur => r matches InputRoute::Finished(Ok(d)) && delivery_ok(
            d,
            session,
            event,
            InputDeliveryStatus::Blurred,
        ) && f1 == (if f0 == Some(session.id@) {
            None
        } else {
            f0
        }) && d1 == recorded(d0, d),
        _ => if f0 != Some(session.id@) {
            r matches InputRoute::Finished(Ok(d)) && delivery_ok(
                d,
                session,
                event,
                InputDeliveryStatus::IgnoredBlurred,
            ) && f1 == f0 && d1 == d0
        } else {
            f1 == f0 && backend_routed_ok(b, d0, d1, session, event, r)
        },
    }
}

impl InMemoryInputForwardingService {
    /// Routes a mapped event for `session` (already selected as the session that takes the
    /// input): focus and blur, input ignored while the session lacks focus, and delivery
    /// through the backend. A macOS keyboard delivery comes back as an `osascript` run to
    /// make, whose outcome `complete_osascript_delivery` takes.
    pub fn route_mapped_input(&mut self, session: &ApplicationSession, event: MappedInputEvent) -> (r:
        InputRoute)
        requires
            old(self).wf(),
        ensures
            final(self).wf(),
            final(self).backend_spec() == old(self).backend_spec(),
            routed_ok(
                old(self).backend_spec(),
                old(self).focused(),
                old(self).recorded_deliveries(),
                final(self).focused(),
                final(self).recorded_deliveries(),
                *session,
                event,
                r,
            ),
    {
        let kind = event.backend_kind();
        let is_focus = match &event {
            MappedInputEvent::Focus => true,
            _ => false,
        };
        let is_blur = match &event {
            MappedInputEvent::Blur => true,
            _ => false,
        };
        let ghost ev = event;
        let mut delivery = InputDelivery {
            session_id: session.id.clone(),
            selected_window_id: session.selected_window.id.clone(),
            mapped_event: event,
            status: InputDeliveryStatus::Delivered,
        };
        if is_focus {
            self.focused_session_id = Some(session.id.clone());
            delivery.status = InputDeliveryStatus::Focused;
            self.record_delivery(delivery.clone());
            return InputRoute::Finished(Ok(delivery));
        }
        let focused_here = match &self.focused_session_id {
            Some(f) => *f == session.id,
            None => false,
        };
        if is_blur {
            if focused_here {
                self.focused_session_id = None;
            }
            delivery.status = InputDeliveryStatus::Blurred;
            self.record_delivery(delivery.clone());
            return InputRoute::Finished(Ok(delivery));
        }
        if !focused_here {
            delivery.status = InputDeliveryStatus::IgnoredBlurred;
            return InputRoute::Finished(Ok(delivery));
        }
        match (&self.backend, kind) {
            (InputBackendService::Unsupported { kind: unsupported, .. }, Some(k)) => {
                if *unsupported != k {
                    self.record_delivery(delivery.clone());
                    return InputRoute::Finished(Ok(delivery));
                }
            },
            _ => {},
        }
        match &self.backend {
            InputBackendService::RecordOnly => {
                self.record_delivery(delivery.clone());
                InputRoute::Finished(Ok(delivery))
            },
            InputBackendService::Unsupported { platform, kind } => {
                let feature = match kind {
                    InputBackendKind::Pointer => Feature::MouseInput,
                    InputBackendKind::Keyboard => Feature::KeyboardInput,
                };
                InputRoute::Finished(Err(AppRelayError::unsupported(*platform, feature)))
            },
            InputBackendService::MacosKeyboard { .. } => {
                let bundle = match macos_keyboard_bundle_id(session) {
                    Ok(b) => b,
                    Err(e) => {
                        return InputRoute::Finished(Err(e));
                    },
                };
                let window = match macos_keyboard_target_window_id(session) {
                    Ok(w) => w,
                    Err(e) => {
                        return InputRoute::Finished(Err(e));
                    },
                };
                let w = match &window {
                    Some(x) => Some(x.as_str()),
                    None => None,
                };
                assert(crate::input::opt_view(w) == opt_text(window));
                match &delivery.mapped_event {
                    MappedInputEvent::KeyboardText { text } => {
                        let invocation = macos_keyboard_text_invocation(bundle.as_str(), w, text.as_str());
                        InputRoute::RunOsascript { delivery, invocation }
                    },
                    MappedInputEvent::KeyboardKey { key, action, modifiers } => {
                        match macos_keyboard_key_invocation(
                            bundle.as_str(),
                            w,
                            key.as_str(),
                            *action,
                            *modifiers,
                        ) {
                            Ok(Some(invocation)) => InputRoute::RunOsascript { delivery, invocation },
                            Ok(None) => {
                                self.record_delivery(delivery.clone());
                                InputRoute::Finished(Ok(delivery))
                            },
                            Err(e) => InputRoute::Finished(Err(e)),
                        }
                    },
                    MappedInputEvent::Focus | MappedInputEvent::Blur => {
                        self.record_delivery(delivery.clone());
                        InputRoute::Finished(Ok(delivery))
                    },
                    _ => InputRoute::Finished(
                        Err(AppRelayError::unsupported(Platform::Macos, Feature::MouseInput)),
                    ),
                }
            },
        }
    }

    /// Finishes a delivery that waited for an `osascript` run: a successful run records
    /// and returns the delivery, a failed one returns its error.
    pub fn complete_osascript_delivery(
        &mut self,
        delivery: InputDelivery,
        outcome: Result<(), AppRelayError>,
    ) -> (r: Result<InputDelivery, AppRelayError>)
        requires
            old(self).wf(),
        ensures
            final(self).wf(),
            final(self).backend_spec() == old(self).backend_spec(),
            final(self).focused() == old(self).focused(),
            match outcome {
                Ok(()) => r == Ok::<InputDelivery, AppRelayError>(delivery)
                    && final(self).recorded_deliveries() == recorded(
                    old(self).recorded_deliveries(),
                    delivery,
                ),
                Err(e) => r == Err::<InputDelivery, AppRelayError>(e)
                    && final(self).recorded_deliveries() == old(self).recorded_deliveries(),
            },
    {
        match outcome {
            Ok(()) => {
                self.record_delivery(delivery.clone());
                Ok(delivery)
            },
            Err(e) => Err(e),
        }
    }
}

impl Default for InMemoryInputForwardingService {
    /// A service that records deliveries only.
    fn default() -> (s: Self)
        ensures
            s.wf(),
            s.backend_spec() == InputBackendService::RecordOnly,
            s.focused() is None,
            s.recorded_deliveries() == Seq::<InputDelivery>::empty(),
    {
        Self::with_recording_backend()
    }
}


/// Input goes only to an open session with the requested id whose selected window belongs
/// to its application: when every session with that id is closed, or shows a window of
/// another application, no session takes the input.
pub proof fn lemma_input_only_to_open_matching_sessions(s: Seq<ApplicationSession>, id: Seq<char>)
    ensures
        (forall|k: int|
            0 <= k < s.len() && (#[trigger] s[k]).id@ == id ==> s[k].state == SessionState::Closed
                || s[k].selected_window.application_id@ != s[k].application_id@) ==> !has_input_target(s, id),
        has_input_target(s, id) ==> exists|k: int|
            0 <= k < s.len() && (#[trigger] s[k]).id@ == id && s[k].state != SessionState::Closed
                && s[k].selected_window.application_id@ == s[k].application_id@,
{
}
} // verus!
