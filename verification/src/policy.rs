//! Which applications and viewport sizes a session may use.

use vstd::prelude::*;

use crate::decimal::{dec, write_dec};
use crate::permissions::ApplicationPermission;
use crate::protocol::{AppRelayError, ViewportSize};
use crate::text::{chars_equal, chars_of, extend_chars, is_blank, str_is_blank, string_from_chars};

verus! {

broadcast use vstd::string::group_string_axioms;

/// The applications and viewport bounds that sessions must respect.
#[derive(Debug, PartialEq, Eq)]
pub struct SessionPolicy {
    allowed_application_ids: Vec<String>,
    min_viewport_width: u32,
    min_viewport_height: u32,
    max_viewport_width: u32,
    max_viewport_height: u32,
}

pub struct SessionPolicyView {
    /// Allowed application ids; an empty list allows every application.
    pub allowed: Seq<Seq<char>>,
    pub min_width: u32,
    pub min_height: u32,
    pub max_width: u32,
    pub max_height: u32,
}

pub open spec fn string_views(v: Seq<String>) -> Seq<Seq<char>> {
    Seq::new(v.len(), |i: int| v[i]@)
}

impl View for SessionPolicy {
    type V = SessionPolicyView;

    closed spec fn view(&self) -> SessionPolicyView {
        SessionPolicyView {
            allowed: string_views(self.allowed_application_ids@),
            min_width: self.min_viewport_width,
            min_height: self.min_viewport_height,
            max_width: self.max_viewport_width,
            max_height: self.max_viewport_height,
        }
    }
}

/// The bounds of every policy: 320x240 up to 7680x4320.
pub open spec fn default_bounds(p: SessionPolicyView) -> bool {
    &&& p.min_width == 320
    &&& p.min_height == 240
    &&& p.max_width == 7680
    &&& p.max_height == 4320
}

/// Whether the policy lets `id` open a session (before the blank-id check).
pub open spec fn policy_allows(p: SessionPolicyView, id: Seq<char>) -> bool {
    p.allowed.len() == 0 || p.allowed.contains(id)
}

pub open spec fn viewport_too_small(p: SessionPolicyView, v: ViewportSize) -> bool {
    v.width < p.min_width || v.height < p.min_height
}

pub open spec fn viewport_too_large(p: SessionPolicyView, v: ViewportSize) -> bool {
    v.width > p.max_width || v.height > p.max_height
}

pub open spec fn size_text(w: u32, h: u32) -> Seq<char> {
    dec(w as nat) + seq!['x'] + dec(h as nat)
}

/// The error for a viewport outside the policy's bounds, if any.
pub open spec fn viewport_error_message(p: SessionPolicyView, v: ViewportSize) -> Option<
    Seq<char>,
> {
    if viewport_too_small(p, v) {
        Some("viewport must be at least "@ + size_text(p.min_width, p.min_height))
    } else if viewport_too_large(p, v) {
        Some("viewport must be at most "@ + size_text(p.max_width, p.max_height))
    } else {
        None
    }
}

pub open spec fn permission_ids(ps: Seq<ApplicationPermission>) -> Seq<Seq<char>> {
    Seq::new(ps.len(), |i: int| ps[i].application_id@)
}

impl Clone for SessionPolicy {
    fn clone(&self) -> (r: Self)
        ensures
            r@ == self@,
    {
        SessionPolicy {
            allowed_application_ids: self.allowed_application_ids.clone(),
            min_viewport_width: self.min_viewport_width,
            min_viewport_height: self.min_viewport_height,
            max_viewport_width: self.max_viewport_width,
            max_viewport_height: self.max_viewport_height,
        }
    }
}

impl SessionPolicy {
    /// Every application is allowed.
    pub fn allow_all() -> (p: Self)
        ensures
            p@.allowed.len() == 0,
            default_bounds(p@),
    {
        SessionPolicy {
            allowed_application_ids: Vec::new(),
            min_viewport_width: 320,
            min_viewport_height: 240,
            max_viewport_width: 7680,
            max_viewport_height: 4320,
        }
    }

    /// Only the listed applications are allowed (all of them when the list is empty).
    pub fn allow_applications(allowed_application_ids: Vec<String>) -> (p: Self)
        ensures
            p@.allowed == string_views(allowed_application_ids@),
            default_bounds(p@),
    {
        SessionPolicy {
            allowed_application_ids,
            min_viewport_width: 320,
            min_viewport_height: 240,
            max_viewport_width: 7680,
            max_viewport_height: 4320,
        }
    }

    /// Allows exactly the applications of the given permissions.
    pub fn from_permissions(permissions: &[ApplicationPermission]) -> (p: Self)
        ensures
            p@.allowed == permission_ids(permissions@),
            default_bounds(p@),
    {
        let mut ids: Vec<String> = Vec::new();
        let mut i: usize = 0;
        while i < permissions.len()
            invariant
                i <= permissions@.len(),
                string_views(ids@) == permission_ids(permissions@).take(i as int),
            decreases permissions@.len() - i,
        {
            let ghost prev = string_views(ids@);
            let id = permissions[i].application_id.clone();
            assert(id@ == permission_ids(permissions@)[i as int]);
            ids.push(id);
            assert(string_views(ids@) =~= prev.push(permission_ids(permissions@)[i as int]));
            assert(permission_ids(permissions@).take(i + 1) =~= permission_ids(permissions@).take(
                i as int,
            ).push(permission_ids(permissions@)[i as int]));
            i = i + 1;
            assert(string_views(ids@) =~= permission_ids(permissions@).take(i as int));
        }
        assert(permission_ids(permissions@).take(permissions@.len() as int) =~= permission_ids(
            permissions@,
        ));
        Self::allow_applications(ids)
    }

    /// A blank id is an invalid request; an id outside a non-empty allow list is denied.
    pub fn validate_application(&self, application_id: &str) -> (r: Result<(), AppRelayError>)
        ensures
            is_blank(application_id@) ==> (r matches Err(AppRelayError::InvalidRequest(m)) && m@
                == "application id is required"@),
            !is_blank(application_id@) && policy_allows(self@, application_id@) ==> r is Ok,
            !is_blank(application_id@) && !policy_allows(self@, application_id@) ==> (r matches Err(
                AppRelayError::PermissionDenied(m),
            ) && m@ == "application "@ + application_id@ + " is not allowed"@),
    {
        if str_is_blank(application_id) {
            return Err(AppRelayError::InvalidRequest(String::from_str("application id is required")));
        }
        if self.allowed_application_ids.len() == 0 {
            return Ok(());
        }
        let wanted = chars_of(application_id);
        let mut i: usize = 0;
        while i < self.allowed_application_ids.len()
            invariant
                i <= self@.allowed.len(),
                self@.allowed.len() == self.allowed_application_ids@.len(),
                wanted@ == application_id@,
                !is_blank(application_id@),
                forall|j: int| 0 <= j < i ==> self@.allowed[j] != application_id@,
            decreases self@.allowed.len() - i,
        {
            let candidate = chars_of(self.allowed_application_ids[i].as_str());
            assert(candidate@ == self@.allowed[i as int]);
            if chars_equal(candidate.as_slice(), wanted.as_slice()) {
                assert(self@.allowed[i as int] == application_id@);
                return Ok(());
            }
            i = i + 1;
        }
        let mut message: Vec<char> = chars_of("application ");
        extend_chars(&mut message, wanted.as_slice());
        let tail = chars_of(" is not allowed");
        extend_chars(&mut message, tail.as_slice());
        Err(AppRelayError::PermissionDenied(string_from_chars(&message)))
    }

    /// Rejects a viewport below the minimum or above the maximum size.
    pub fn validate_viewport(&self, viewport: &ViewportSize) -> (r: Result<(), AppRelayError>)
        ensures
            viewport_error_message(self@, *viewport) is None ==> r is Ok,
            viewport_error_message(self@, *viewport) matches Some(msg) ==> (r matches Err(
                AppRelayError::InvalidRequest(m),
            ) && m@ == msg),
    {
        if viewport.width < self.min_viewport_width || viewport.height < self.min_viewport_height {
            let mut message = chars_of("viewport must be at least ");
            write_size(&mut message, self.min_viewport_width, self.min_viewport_height);
            return Err(AppRelayError::InvalidRequest(string_from_chars(&message)));
        }
        if viewport.width > self.max_viewport_width || viewport.height > self.max_viewport_height {
            let mut message = chars_of("viewport must be at most ");
            write_size(&mut message, self.max_viewport_width, self.max_viewport_height);
            return Err(AppRelayError::InvalidRequest(string_from_chars(&message)));
        }
        Ok(())
    }
}

fn write_size(out: &mut Vec<char>, w: u32, h: u32)
    ensures
        final(out)@ == old(out)@ + size_text(w, h),
{
    write_dec(w as u64, out);
    out.push('x');
    write_dec(h as u64, out);
    assert(out@ =~= old(out)@ + size_text(w, h));
}


/// A viewport is accepted exactly when it lies within the policy's bounds on both axes:
/// wider or taller than the maximum, or narrower or shorter than the minimum, is refused.
pub proof fn lemma_viewport_accepted_iff_within_bounds(p: SessionPolicyView, v: ViewportSize)
    ensures
        viewport_error_message(p, v) is None <==> (p.min_width <= v.width <= p.max_width
            && p.min_height <= v.height <= p.max_height),
        v.width > p.max_width ==> viewport_error_message(p, v) is Some,
        v.height > p.max_height ==> viewport_error_message(p, v) is Some,
        v.width < p.min_width ==> viewport_error_message(p, v) is Some,
        v.height < p.min_height ==> viewport_error_message(p, v) is Some,
{
}

} // verus!
