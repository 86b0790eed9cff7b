//! Server events: what happened on the control plane, and its one-line log form.

use vstd::prelude::*;

use crate::codec::{encode_field_into, encode_field_spec};
use crate::decimal::{dec, write_dec};
use crate::text::{chars_of, extend_chars, string_from_chars};

verus! {

#[verifier::external_type_specification]
#[verifier::external_body]
pub struct ExPathBuf(std::path::PathBuf);

/// `PathBuf::clone` gives a copy of the path.
pub assume_specification[<std::path::PathBuf as std::clone::Clone>::clone](
    path: &std::path::PathBuf,
) -> (r: std::path::PathBuf)
    ensures
        r == *path,
;

/// The text that `Path::display` shows for a path.
pub uninterp spec fn path_display(path: std::path::PathBuf) -> Seq<char>;

/// `path.display().to_string()` (`std::path::Path::display`); the contract names the text,
/// which depends on the path alone.
#[verifier::external_body]
pub(crate) fn display_path(path: &std::path::PathBuf) -> (r: String)
    ensures
        r@ == path_display(*path),
{
    path.display().to_string()
}

/// Something that happened on the server.
#[derive(Clone, Debug, PartialEq, Eq)]
pub enum ServerEvent {
    ControlPlaneStarted { bind_address: String, port: u16 },
    ControlPlaneStopped,
    SshTunnelStarted { process_id: u32 },
    SshTunnelStopped,
    SshTunnelFailed { reason: String },
    RequestAuthorized { operation: String },
    RequestRejected { operation: String },
    ConfigLoaded { path: std::path::PathBuf },
    ConfigSaved { path: std::path::PathBuf },
}

/// Receives server events.
pub trait EventSink {
    fn record(&mut self, event: ServerEvent);
}

/// The log line of an event: `event=<name>` followed by its fields as `key=value`;
/// a failure reason is escaped so that the line stays one line.
pub open spec fn event_line(event: ServerEvent) -> Seq<char> {
    match event {
        ServerEvent::ControlPlaneStarted { bind_address, port } => "event=control_plane_started bind_address="@
            + bind_address@ + " port="@ + dec(port as nat),
        ServerEvent::ControlPlaneStopped => "event=control_plane_stopped"@,
        ServerEvent::SshTunnelStarted { process_id } => "event=ssh_tunnel_started process_id="@
            + dec(process_id as nat),
        ServerEvent::SshTunnelStopped => "event=ssh_tunnel_stopped"@,
        ServerEvent::SshTunnelFailed { reason } => "event=ssh_tunnel_failed reason="@
            + encode_field_spec(reason@),
        ServerEvent::RequestAuthorized { operation } => "event=request_authorized operation="@
            + operation@,
        ServerEvent::RequestRejected { operation } => "event=request_rejected operation="@
            + operation@,
        ServerEvent::ConfigLoaded { path } => "event=config_loaded path="@ + path_display(path),
        ServerEvent::ConfigSaved { path } => "event=config_saved path="@ + path_display(path),
    }
}

fn push_str(out: &mut Vec<char>, s: &str)
    ensures
        final(out)@ == old(out)@ + s@,
{
    let cs = chars_of(s);
    extend_chars(out, cs.as_slice());
}

/// Formats an event as its log line.
pub fn format_event(event: &ServerEvent) -> (r: String)
    ensures
        r@ == event_line(*event),
{
    let mut out: Vec<char> = Vec::new();
    match event {
        ServerEvent::ControlPlaneStarted { bind_address, port } => {
            push_str(&mut out, "event=control_plane_started bind_address=");
            push_str(&mut out, bind_address.as_str());
            push_str(&mut out, " port=");
            write_dec(*port as u64, &mut out);
        },
        ServerEvent::ControlPlaneStopped => {
            push_str(&mut out, "event=control_plane_stopped");
        },
        ServerEvent::SshTunnelStarted { process_id } => {
            push_str(&mut out, "event=ssh_tunnel_started process_id=");
            write_dec(*process_id as u64, &mut out);
        },
        ServerEvent::SshTunnelStopped => {
            push_str(&mut out, "event=ssh_tunnel_stopped");
        },
        ServerEvent::SshTunnelFailed { reason } => {
            push_str(&mut out, "event=ssh_tunnel_failed reason=");
            let cs = chars_of(reason.as_str());
            encode_field_into(cs.as_slice(), &mut out);
        },
        ServerEvent::RequestAuthorized { operation } => {
            push_str(&mut out, "event=request_authorized operation=");
            push_str(&mut out, operation.as_str());
        },
        ServerEvent::RequestRejected { operation } => {
            push_str(&mut out, "event=request_rejected operation=");
            push_str(&mut out, operation.as_str());
        },
        ServerEvent::ConfigLoaded { path } => {
            push_str(&mut out, "event=config_loaded path=");
            let shown = display_path(path);
            push_str(&mut out, shown.as_str());
        },
        ServerEvent::ConfigSaved { path } => {
            push_str(&mut out, "event=config_saved path=");
            let shown = display_path(path);
            push_str(&mut out, shown.as_str());
        },
    }
    proof {
        assert(out@ =~= event_line(*event));
    }
    string_from_chars(out.as_slice())
}

/// Keeps every recorded event in memory, in the order recorded.
#[derive(Clone, Debug, PartialEq, Eq)]
pub struct InMemoryEventSink {
    events: Vec<ServerEvent>,
}

impl InMemoryEventSink {
    /// The events recorded so far, oldest first.
    pub closed spec fn recorded(&self) -> Seq<ServerEvent> {
        self.events@
    }

    /// The events recorded so far, oldest first.
    pub fn events(&self) -> (r: &[ServerEvent])
        ensures
            r@ == self.recorded(),
    {
        self.events.as_slice()
    }
}

impl Default for InMemoryEventSink {
    fn default() -> (s: Self)
        ensures
            s.recorded() == Seq::<ServerEvent>::empty(),
    {
        InMemoryEventSink { events: Vec::new() }
    }
}

impl EventSink for InMemoryEventSink {
    fn record(&mut self, event: ServerEvent)
        ensures
            final(self).recorded() == old(self).recorded().push(event),
    {
        self.events.push(event);
    }
}

/// Appends event lines to a log file; the file is written by the application.
#[derive(Clone, Debug)]
pub struct FileEventSink {
    path: std::path::PathBuf,
}

impl FileEventSink {
    /// The log file's path.
    pub closed spec fn log_path(&self) -> std::path::PathBuf {
        self.path
    }

    /// A sink that appends to the file at `path`.
    pub fn new(path: std::path::PathBuf) -> (s: Self)
        ensures
            s.log_path() == path,
    {
        FileEventSink { path }
    }

    /// The log file's path.
    pub fn path(&self) -> (r: &std::path::PathBuf)
        ensures
            *r == self.log_path(),
    {
        &self.path
    }
}

} // verus!
