//! Server configuration: defaults, validation, the SSH tunnel command and the
//! `key=value` configuration file format.

use vstd::prelude::*;

use crate::codec::{decode_field_chars, decode_field_spec, encode_field_into, encode_field_spec};
use crate::decimal::{dec, parse_unsigned, parse_unsigned_chars, write_dec};
use crate::errors::{ConfigError, ConfigStoreError};
use crate::fields::{join_chars, join_fields, lines_of, lines_spec, views};
use crate::text::{
    chars_are,
    chars_of,
    extend_chars,
    find_char,
    find_char_index,
    is_blank,
    slice_chars,
    str_is_blank,
    string_from_chars,
    trim_chars,
    trim_spec,
};

verus! {

broadcast use vstd::string::group_string_axioms;

/// Where the SSH tunnel goes.
#[derive(Debug, PartialEq, Eq)]
pub struct SshTunnelConfig {
    pub user: String,
    pub host: String,
    pub local_port: u16,
    pub remote_port: u16,
}

pub struct SshTunnelConfigView {
    pub user: Seq<char>,
    pub host: Seq<char>,
    pub local_port: u16,
    pub remote_port: u16,
}

impl View for SshTunnelConfig {
    type V = SshTunnelConfigView;

    open spec fn view(&self) -> SshTunnelConfigView {
        SshTunnelConfigView {
            user: self.user@,
            host: self.host@,
            local_port: self.local_port,
            remote_port: self.remote_port,
        }
    }
}

impl Clone for SshTunnelConfig {
    fn clone(&self) -> (r: Self)
        ensures
            r == *self,
    {
        SshTunnelConfig {
            user: self.user.clone(),
            host: self.host.clone(),
            local_port: self.local_port,
            remote_port: self.remote_port,
        }
    }
}

/// The server's control-plane settings.
#[derive(Debug, PartialEq, Eq)]
pub struct ServerConfig {
    pub bind_address: String,
    pub control_port: u16,
    pub auth_token: String,
    pub heartbeat_interval_millis: u64,
    pub ssh_tunnel: SshTunnelConfig,
}

pub struct ServerConfigView {
    pub bind_address: Seq<char>,
    pub control_port: u16,
    pub auth_token: Seq<char>,
    pub heartbeat_interval_millis: u64,
    pub ssh_tunnel: SshTunnelConfigView,
}

impl View for ServerConfig {
    type V = ServerConfigView;

    open spec fn view(&self) -> ServerConfigView {
        ServerConfigView {
            bind_address: self.bind_address@,
            control_port: self.control_port,
            auth_token: self.auth_token@,
            heartbeat_interval_millis: self.heartbeat_interval_millis,
            ssh_tunnel: self.ssh_tunnel@,
        }
    }
}

impl Clone for ServerConfig {
    fn clone(&self) -> (r: Self)
        ensures
            r == *self,
    {
        ServerConfig {
            bind_address: self.bind_address.clone(),
            control_port: self.control_port,
            auth_token: self.auth_token.clone(),
            heartbeat_interval_millis: self.heartbeat_interval_millis,
            ssh_tunnel: self.ssh_tunnel.clone(),
        }
    }
}

/// The first rule that a tunnel configuration breaks, if any.
pub open spec fn tunnel_problem(c: SshTunnelConfigView) -> Option<ConfigError> {
    if is_blank(c.user) {
        Some(ConfigError::MissingSshUser)
    } else if is_blank(c.host) {
        Some(ConfigError::MissingSshHost)
    } else if c.local_port == 0 || c.remote_port == 0 {
        Some(ConfigError::InvalidSshPort)
    } else {
        None
    }
}

/// The first rule that a server configuration breaks, if any.
pub open spec fn config_problem(c: ServerConfigView) -> Option<ConfigError> {
    if is_blank(c.auth_token) {
        Some(ConfigError::MissingAuthToken)
    } else if c.control_port == 0 {
        Some(ConfigError::InvalidControlPort)
    } else if c.heartbeat_interval_millis == 0 {
        Some(ConfigError::InvalidHeartbeatInterval)
    } else {
        tunnel_problem(c.ssh_tunnel)
    }
}

impl SshTunnelConfig {
    /// A tunnel from `local@localhost`, port 7676 on both ends.
    pub fn localhost() -> (c: Self)
        ensures
            c@.user == "local"@,
            c@.host == "localhost"@,
            c.local_port == 7676,
            c.remote_port == 7676,
    {
        SshTunnelConfig {
            user: String::from_str("local"),
            host: String::from_str("localhost"),
            local_port: 7676,
            remote_port: 7676,
        }
    }

    /// Checks the user, the host and both ports, in that order.
    pub fn validate(&self) -> (r: Result<(), ConfigError>)
        ensures
            r is Ok <==> tunnel_problem(self@) is None,
            r matches Err(e) ==> tunnel_problem(self@) == Some(e),
    {
        if str_is_blank(self.user.as_str()) {
            return Err(ConfigError::MissingSshUser);
        }
        if str_is_blank(self.host.as_str()) {
            return Err(ConfigError::MissingSshHost);
        }
        if self.local_port == 0 || self.remote_port == 0 {
            return Err(ConfigError::InvalidSshPort);
        }
        Ok(())
    }
}

impl ServerConfig {
    /// The loopback defaults: `127.0.0.1:7676`, a 5 s heartbeat, a localhost tunnel.
    pub fn local(auth_token: &str) -> (c: Self)
        ensures
            c@.bind_address == "127.0.0.1"@,
            c.control_port == 7676,
            c@.auth_token == auth_token@,
            c.heartbeat_interval_millis == 5000,
            c@.ssh_tunnel.user == "local"@,
            c@.ssh_tunnel.host == "localhost"@,
            c.ssh_tunnel.local_port == 7676,
            c.ssh_tunnel.remote_port == 7676,
    {
        ServerConfig {
            bind_address: String::from_str("127.0.0.1"),
            control_port: 7676,
            auth_token: String::from_str(auth_token),
            heartbeat_interval_millis: 5_000,
            ssh_tunnel: SshTunnelConfig::localhost(),
        }
    }

    /// Checks the token, the control port, the heartbeat and then the tunnel.
    pub fn validate(&self) -> (r: Result<(), ConfigError>)
        ensures
            r is Ok <==> config_problem(self@) is None,
            r matches Err(e) ==> config_problem(self@) == Some(e),
    {
        if str_is_blank(self.auth_token.as_str()) {
            return Err(ConfigError::MissingAuthToken);
        }
        if self.control_port == 0 {
            return Err(ConfigError::InvalidControlPort);
        }
        if self.heartbeat_interval_millis == 0 {
            return Err(ConfigError::InvalidHeartbeatInterval);
        }
        self.ssh_tunnel.validate()
    }
}

/// The `ssh` invocation that opens a tunnel.
#[derive(Debug, PartialEq, Eq)]
pub struct SshTunnelCommand {
    pub program: String,
    pub args: Vec<String>,
}

pub open spec fn string_views(v: Seq<String>) -> Seq<Seq<char>> {
    Seq::new(v.len(), |i: int| v[i]@)
}

/// The arguments of `ssh -N -L <local>:127.0.0.1:<remote> <user>@<host>`.
pub open spec fn tunnel_args_spec(c: SshTunnelConfigView) -> Seq<Seq<char>> {
    seq![
        "-N"@,
        "-L"@,
        dec(c.local_port as nat) + ":127.0.0.1:"@ + dec(c.remote_port as nat),
        c.user + "@"@ + c.host,
    ]
}

impl SshTunnelCommand {
    /// The `ssh` command for a tunnel configuration, once the configuration is valid.
    pub fn from_config(config: &SshTunnelConfig) -> (r: Result<Self, ConfigError>)
        ensures
            r is Ok <==> tunnel_problem(config@) is None,
            r matches Err(e) ==> tunnel_problem(config@) == Some(e),
            r matches Ok(cmd) ==> cmd.program@ == "ssh"@ && string_views(cmd.args@)
                == tunnel_args_spec(config@),
    {
        match config.validate() {
            Err(e) => Err(e),
            Ok(()) => {
                let mut forward: Vec<char> = Vec::new();
                write_dec(config.local_port as u64, &mut forward);
                let middle = chars_of(":127.0.0.1:");
                extend_chars(&mut forward, middle.as_slice());
                write_dec(config.remote_port as u64, &mut forward);
                let mut target = chars_of(config.user.as_str());
                let at = chars_of("@");
                extend_chars(&mut target, at.as_slice());
                let host = chars_of(config.host.as_str());
                extend_chars(&mut target, host.as_slice());
                let mut args: Vec<String> = Vec::new();
                args.push(String::from_str("-N"));
                args.push(String::from_str("-L"));
                args.push(string_from_chars(&forward));
                args.push(string_from_chars(&target));
                assert(forward@ =~= dec(config.local_port as nat) + ":127.0.0.1:"@ + dec(
                    config.remote_port as nat,
                ));
                assert(string_views(args@) =~= tunnel_args_spec(config@));
                Ok(SshTunnelCommand { program: String::from_str("ssh"), args })
            },
        }
    }
}

} // verus!

verus! {

/// The lines of the configuration file, in order.
pub open spec fn config_lines(c: ServerConfigView) -> Seq<Seq<char>> {
    seq![
        "bind_address="@ + encode_field_spec(c.bind_address),
        "control_port="@ + dec(c.control_port as nat),
        "auth_token="@ + encode_field_spec(c.auth_token),
        "heartbeat_interval_millis="@ + dec(c.heartbeat_interval_millis as nat),
        "ssh_user="@ + encode_field_spec(c.ssh_tunnel.user),
        "ssh_host="@ + encode_field_spec(c.ssh_tunnel.host),
        "ssh_local_port="@ + dec(c.ssh_tunnel.local_port as nat),
        "ssh_remote_port="@ + dec(c.ssh_tunnel.remote_port as nat),
    ]
}

/// The configuration file: one `key=value` line per setting, each ended by `\n`.
pub open spec fn encode_server_config_spec(c: ServerConfigView) -> Seq<char> {
    join_fields(config_lines(c), '\n').push('\n')
}

/// The settings read so far from a configuration file.
pub struct ConfigDraft {
    pub bind_address: Option<Seq<char>>,
    pub control_port: Option<nat>,
    pub auth_token: Option<Seq<char>>,
    pub heartbeat_interval_millis: Option<nat>,
    pub ssh_user: Option<Seq<char>>,
    pub ssh_host: Option<Seq<char>>,
    pub ssh_local_port: Option<nat>,
    pub ssh_remote_port: Option<nat>,
}

pub open spec fn empty_draft() -> ConfigDraft {
    ConfigDraft {
        bind_address: None,
        control_port: None,
        auth_token: None,
        heartbeat_interval_millis: None,
        ssh_user: None,
        ssh_host: None,
        ssh_local_port: None,
        ssh_remote_port: None,
    }
}

/// Reads one line into the draft: blank lines are skipped; a line without `=`, an
/// unknown key, or a value that does not decode makes the file corrupted (`None`).
/// A key seen again replaces the earlier value.
pub open spec fn apply_config_line(d: ConfigDraft, line: Seq<char>) -> Option<ConfigDraft> {
    let t = trim_spec(line);
    let i = find_char(t, '=');
    if t.len() == 0 {
        Some(d)
    } else if i >= t.len() {
        None
    } else {
        let key = t.take(i);
        let value = t.subrange(i + 1, t.len() as int);
        if key == "bind_address"@ {
            match decode_field_spec(value) {
                Some(v) => Some(ConfigDraft { bind_address: Some(v), ..d }),
                None => None,
            }
        } else if key == "control_port"@ {
            match parse_unsigned(value, 65535) {
                Some(n) => Some(ConfigDraft { control_port: Some(n), ..d }),
                None => None,
            }
        } else if key == "auth_token"@ {
            match decode_field_spec(value) {
                Some(v) => Some(ConfigDraft { auth_token: Some(v), ..d }),
                None => None,
            }
        } else if key == "heartbeat_interval_millis"@ {
            match parse_unsigned(value, 0xffff_ffff_ffff_ffff) {
                Some(n) => Some(ConfigDraft { heartbeat_interval_millis: Some(n), ..d }),
                None => None,
            }
        } else if key == "ssh_user"@ {
            match decode_field_spec(value) {
                Some(v) => Some(ConfigDraft { ssh_user: Some(v), ..d }),
                None => None,
            }
        } else if key == "ssh_host"@ {
            match decode_field_spec(value) {
                Some(v) => Some(ConfigDraft { ssh_host: Some(v), ..d }),
                None => None,
            }
        } else if key == "ssh_local_port"@ {
            match parse_unsigned(value, 65535) {
                Some(n) => Some(ConfigDraft { ssh_local_port: Some(n), ..d }),
                None => None,
            }
        } else if key == "ssh_remote_port"@ {
            match parse_unsigned(value, 65535) {
                Some(n) => Some(ConfigDraft { ssh_remote_port: Some(n), ..d }),
                None => None,
            }
        } else {
            None
        }
    }
}

pub open spec fn apply_config_lines(d: ConfigDraft, ls: Seq<Seq<char>>) -> Option<ConfigDraft>
    decreases ls.len(),
{
    if ls.len() == 0 {
        Some(d)
    } else {
        match apply_config_line(d, ls[0]) {
            Some(d2) => apply_config_lines(d2, ls.drop_first()),
            None => None,
        }
    }
}

/// The configuration that a complete draft describes.
pub open spec fn finish_draft(d: ConfigDraft) -> Option<ServerConfigView> {
    match (
        d.bind_address,
        d.control_port,
        d.auth_token,
        d.heartbeat_interval_millis,
        d.ssh_user,
        d.ssh_host,
        d.ssh_local_port,
        d.ssh_remote_port,
    ) {
        (Some(b), Some(cp), Some(t), Some(h), Some(u), Some(ho), Some(lp), Some(rp)) => Some(
            ServerConfigView {
                bind_address: b,
                control_port: cp as u16,
                auth_token: t,
                heartbeat_interval_millis: h as u64,
                ssh_tunnel: SshTunnelConfigView {
                    user: u,
                    host: ho,
                    local_port: lp as u16,
                    remote_port: rp as u16,
                },
            },
        ),
        _ => None,
    }
}

/// What reading a configuration file gives: `None` stands for a corrupted file.
pub open spec fn decode_server_config_spec(contents: Seq<char>) -> Option<ServerConfigView> {
    match apply_config_lines(empty_draft(), lines_spec(contents)) {
        Some(d) => finish_draft(d),
        None => None,
    }
}

fn push_literal(out: &mut Vec<char>, lit: &str)
    ensures
        final(out)@ == old(out)@ + lit@,
{
    let l = chars_of(lit);
    extend_chars(out, l.as_slice());
}

fn encoded_line(key: &str, value: &String) -> (v: Vec<char>)
    ensures
        v@ == key@ + encode_field_spec(value@),
{
    let mut out: Vec<char> = Vec::new();
    push_literal(&mut out, key);
    let chars = chars_of(value.as_str());
    encode_field_into(&chars, &mut out);
    assert(out@ =~= key@ + encode_field_spec(value@));
    out
}

fn number_line(key: &str, value: u64) -> (v: Vec<char>)
    ensures
        v@ == key@ + dec(value as nat),
{
    let mut out: Vec<char> = Vec::new();
    push_literal(&mut out, key);
    write_dec(value, &mut out);
    assert(out@ =~= key@ + dec(value as nat));
    out
}

/// The configuration file for `config`.
pub fn encode_server_config(config: &ServerConfig) -> (r: String)
    ensures
        r@ == encode_server_config_spec(config@),
{
    let mut ls: Vec<Vec<char>> = Vec::new();
    ls.push(encoded_line("bind_address=", &config.bind_address));
    ls.push(number_line("control_port=", config.control_port as u64));
    ls.push(encoded_line("auth_token=", &config.auth_token));
    ls.push(number_line("heartbeat_interval_millis=", config.heartbeat_interval_millis));
    ls.push(encoded_line("ssh_user=", &config.ssh_tunnel.user));
    ls.push(encoded_line("ssh_host=", &config.ssh_tunnel.host));
    ls.push(number_line("ssh_local_port=", config.ssh_tunnel.local_port as u64));
    ls.push(number_line("ssh_remote_port=", config.ssh_tunnel.remote_port as u64));
    assert(views(ls@) =~= config_lines(config@));
    let mut body = join_chars(&ls, '\n');
    body.push('\n');
    string_from_chars(&body)
}

/// Decodes a configuration value; a bad escape marks the file as corrupted.
pub fn decode_config_field(value: &str) -> (r: Result<String, ConfigStoreError>)
    ensures
        r matches Ok(s) ==> decode_field_spec(value@) == Some(s@),
        r matches Err(e) ==> decode_field_spec(value@) is None && e
            == ConfigStoreError::CorruptedStore,
{
    let chars = chars_of(value);
    match decode_field_chars(&chars) {
        Some(v) => Ok(string_from_chars(&v)),
        None => Err(ConfigStoreError::CorruptedStore),
    }
}

/// Parses a decimal configuration number no larger than `max`; anything else marks
/// the file as corrupted.
pub fn parse_config_number(value: &str, max: u64) -> (r: Result<u64, ConfigStoreError>)
    ensures
        r matches Ok(n) ==> parse_unsigned(value@, max as nat) == Some(n as nat),
        r matches Err(e) ==> parse_unsigned(value@, max as nat) is None && e
            == ConfigStoreError::CorruptedStore,
{
    let chars = chars_of(value);
    match parse_unsigned_chars(&chars, max) {
        Some(n) => Ok(n),
        None => Err(ConfigStoreError::CorruptedStore),
    }
}

struct DraftExec {
    bind_address: Option<Vec<char>>,
    control_port: Option<u64>,
    auth_token: Option<Vec<char>>,
    heartbeat_interval_millis: Option<u64>,
    ssh_user: Option<Vec<char>>,
    ssh_host: Option<Vec<char>>,
    ssh_local_port: Option<u64>,
    ssh_remote_port: Option<u64>,
}

spec fn opt_chars(o: Option<Vec<char>>) -> Option<Seq<char>> {
    match o {
        Some(v) => Some(v@),
        None => None,
    }
}

spec fn opt_nat(o: Option<u64>) -> Option<nat> {
    match o {
        Some(v) => Some(v as nat),
        None => None,
    }
}

spec fn draft_view(d: DraftExec) -> ConfigDraft {
    ConfigDraft {
        bind_address: opt_chars(d.bind_address),
        control_port: opt_nat(d.control_port),
        auth_token: opt_chars(d.auth_token),
        heartbeat_interval_millis: opt_nat(d.heartbeat_interval_millis),
        ssh_user: opt_chars(d.ssh_user),
        ssh_host: opt_chars(d.ssh_host),
        ssh_local_port: opt_nat(d.ssh_local_port),
        ssh_remote_port: opt_nat(d.ssh_remote_port),
    }
}

/// Reads one line into the draft; `false` when the line makes the file corrupted.
fn apply_line_exec(d: &mut DraftExec, line: &[char]) -> (ok: bool)
    ensures
        ok ==> apply_config_line(draft_view(*old(d)), line@) == Some(draft_view(*final(d))),
        !ok ==> apply_config_line(draft_view(*old(d)), line@) is None,
{
    let t = trim_chars(line);
    let i = find_char_index(t.as_slice(), '=');
    proof {
        crate::text::lemma_find_char(t@, '=');
    }
    if t.len() == 0 {
        return true;
    }
    if i >= t.len() {
        return false;
    }
    let key = slice_chars(t.as_slice(), 0, i);
    let value = slice_chars(t.as_slice(), i + 1, t.len());
    assert(key@ =~= t@.take(i as int));
    if chars_are(key.as_slice(), "bind_address") {
        match decode_field_chars(value.as_slice()) {
            Some(v) => {
                d.bind_address = Some(v);
                true
            },
            None => false,
        }
    } else if chars_are(key.as_slice(), "control_port") {
        match parse_unsigned_chars(value.as_slice(), 65535) {
            Some(n) => {
                d.control_port = Some(n);
                true
            },
            None => false,
        }
    } else if chars_are(key.as_slice(), "auth_token") {
        match decode_field_chars(value.as_slice()) {
            Some(v) => {
                d.auth_token = Some(v);
                true
            },
            None => false,
        }
    } else if chars_are(key.as_slice(), "heartbeat_interval_millis") {
        match parse_unsigned_chars(value.as_slice(), 0xffff_ffff_ffff_ffff) {
            Some(n) => {
                d.heartbeat_interval_millis = Some(n);
                true
            },
            None => false,
        }
    } else if chars_are(key.as_slice(), "ssh_user") {
        match decode_field_chars(value.as_slice()) {
            Some(v) => {
                d.ssh_user = Some(v);
                true
            },
            None => false,
        }
    } else if chars_are(key.as_slice(), "ssh_host") {
        match decode_field_chars(value.as_slice()) {
            Some(v) => {
                d.ssh_host = Some(v);
                true
            },
            None => false,
        }
    } else if chars_are(key.as_slice(), "ssh_local_port") {
        match parse_unsigned_chars(value.as_slice(), 65535) {
            Some(n) => {
                d.ssh_local_port = Some(n);
                true
            },
            None => false,
        }
    } else if chars_are(key.as_slice(), "ssh_remote_port") {
        match parse_unsigned_chars(value.as_slice(), 65535) {
            Some(n) => {
                d.ssh_remote_port = Some(n);
                true
            },
            None => false,
        }
    } else {
        false
    }
}

/// Reads a configuration file; any malformed line, unknown key or missing setting
/// makes it `CorruptedStore`.
pub fn decode_server_config(contents: &str) -> (r: Result<ServerConfig, ConfigStoreError>)
    ensures
        r matches Ok(c) ==> decode_server_config_spec(contents@) == Some(c@),
        r matches Err(e) ==> decode_server_config_spec(contents@) is None && e
            == ConfigStoreError::CorruptedStore,
{
    let chars = chars_of(contents);
    let ls = lines_of(chars.as_slice());
    let ghost all = lines_spec(contents@);
    let mut d = DraftExec {
        bind_address: None,
        control_port: None,
        auth_token: None,
        heartbeat_interval_millis: None,
        ssh_user: None,
        ssh_host: None,
        ssh_local_port: None,
        ssh_remote_port: None,
    };
    let mut i: usize = 0;
    assert(all.skip(0) =~= all);
    assert(draft_view(d) == empty_draft());
    while i < ls.len()
        invariant
            views(ls@) == all,
            all == lines_spec(contents@),
            i <= ls@.len(),
            apply_config_lines(empty_draft(), all) == apply_config_lines(
                draft_view(d),
                all.skip(i as int),
            ),
        decreases ls@.len() - i,
    {
        assert(ls@[i as int]@ == all[i as int]) by {
            assert(views(ls@)[i as int] == ls@[i as int]@);
        }
        assert(all.skip(i as int).drop_first() =~= all.skip(i + 1));
        assert(all.skip(i as int)[0] == all[i as int]);
        let ghost d0 = draft_view(d);
        if !apply_line_exec(&mut d, ls[i].as_slice()) {
            assert(apply_config_lines(d0, all.skip(i as int)) is None);
            return Err(ConfigStoreError::CorruptedStore);
        }
        i = i + 1;
    }
    assert(all.skip(i as int) =~= Seq::<Seq<char>>::empty());
    match (
        d.bind_address,
        d.control_port,
        d.auth_token,
        d.heartbeat_interval_millis,
        d.ssh_user,
        d.ssh_host,
        d.ssh_local_port,
        d.ssh_remote_port,
    ) {
        (Some(b), Some(cp), Some(t), Some(h), Some(u), Some(ho), Some(lp), Some(rp)) => {
            Ok(
                ServerConfig {
                    bind_address: string_from_chars(&b),
                    control_port: cp as u16,
                    auth_token: string_from_chars(&t),
                    heartbeat_interval_millis: h,
                    ssh_tunnel: SshTunnelConfig {
                        user: string_from_chars(&u),
                        host: string_from_chars(&ho),
                        local_port: lp as u16,
                        remote_port: rp as u16,
                    },
                },
            )
        },
        _ => Err(ConfigStoreError::CorruptedStore),
    }
}

} // verus!

verus! {

/// An encoded value keeps its line intact under `trim` when it does not end in whitespace.
pub open spec fn encoded_end_is_kept(s: Seq<char>) -> bool {
    let e = encode_field_spec(s);
    e.len() == 0 || !crate::text::is_ws(e.last())
}

proof fn lemma_trim_keeps(s: Seq<char>)
    requires
        s.len() > 0,
        !crate::text::is_ws(s[0]),
        !crate::text::is_ws(s.last()),
    ensures
        trim_spec(s) == s,
{
    assert(crate::text::trim_start_spec(s) == s);
}

/// The facts about one `key=value` line that reading it relies on.
proof fn lemma_entry_line(key: Seq<char>, value: Seq<char>)
    requires
        key.len() > 0,
        !crate::text::is_ws(key[0]),
        crate::fields::free_of(key, '='),
        value.len() == 0 || !crate::text::is_ws(value.last()),
    ensures
        ({
            let line = key + seq!['='] + value;
            &&& trim_spec(line) == line
            &&& find_char(line, '=') == key.len()
            &&& line.take(key.len() as int) == key
            &&& line.subrange(key.len() as int + 1, line.len() as int) == value
        }),
{
    let line = key + seq!['='] + value;
    assert(line[0] == key[0]);
    if value.len() == 0 {
        assert(line.last() == '=');
    } else {
        assert(line.last() == value.last());
    }
    lemma_trim_keeps(line);
    assert(line[key.len() as int] == '=');
    assert forall|j: int| 0 <= j < key.len() implies line[j] != '=' by {
        assert(line[j] == key[j]);
    }
    crate::text::lemma_find_char_at(line, '=', key.len() as int);
    assert(line.take(key.len() as int) =~= key);
    assert(line.subrange(key.len() as int + 1, line.len() as int) =~= value);
}

proof fn lemma_digits_end(n: nat)
    ensures
        dec(n).len() > 0,
        !crate::text::is_ws(dec(n).last()),
        crate::fields::free_of(dec(n), '\n'),
{
    crate::decimal::lemma_dec(n);
    assert(crate::decimal::is_digit(dec(n)[dec(n).len() - 1]));
    assert forall|i: int| 0 <= i < dec(n).len() implies #[trigger] dec(n)[i] != '\n' by {
        assert(crate::decimal::is_digit(dec(n)[i]));
    }
}

/// Lines joined by `\n`, each ended by `\n`, read back as the same lines.
proof fn lemma_lines_of_joined(ls: Seq<Seq<char>>)
    requires
        ls.len() >= 1,
        crate::fields::all_free_of(ls, '\n'),
        forall|k: int| 0 <= k < ls.len() ==> #[trigger] ls[k].len() > 0 && ls[k].last() != '\r',
    ensures
        lines_spec(join_fields(ls, '\n').push('\n')) == ls,
{
    let e = Seq::<char>::empty();
    crate::fields::lemma_join_push(ls, e, '\n');
    assert(join_fields(ls, '\n').push('\n') =~= join_fields(ls, '\n') + seq!['\n'] + e);
    let l2 = ls.push(e);
    assert(crate::fields::all_free_of(l2, '\n')) by {
        assert forall|k: int| 0 <= k < l2.len() implies crate::fields::free_of(
            #[trigger] l2[k],
            '\n',
        ) by {
            if k < ls.len() {
                assert(l2[k] == ls[k]);
            }
        }
    }
    crate::fields::lemma_split_join(l2, '\n');
    let f = crate::fields::split_fields(join_fields(ls, '\n').push('\n'), '\n');
    assert(f == l2);
    assert(f.drop_last() =~= ls);
    assert(f.drop_last().map_values(|l: Seq<char>| crate::fields::strip_cr(l)) =~= ls);
}

proof fn lemma_encoded_free(s: Seq<char>)
    ensures
        crate::fields::free_of(encode_field_spec(s), '\n'),
        encode_field_spec(s).len() == 0 || encode_field_spec(s).last() != '\r',
{
    crate::codec::lemma_encode_no_separator(s);
    let e = encode_field_spec(s);
    if e.len() > 0 {
        assert(e[e.len() - 1] != '\r');
    }
}

/// A text setting line is read into its slot of the draft.
proof fn lemma_text_entry(key: Seq<char>, lit: Seq<char>, v: Seq<char>)
    requires
        lit == key + seq!['='],
        key.len() > 0,
        !crate::text::is_ws(key[0]),
        crate::fields::free_of(key, '='),
        encoded_end_is_kept(v),
    ensures
        ({
            let line = lit + encode_field_spec(v);
            let t = trim_spec(line);
            &&& t == line
            &&& find_char(t, '=') == key.len()
            &&& t.len() > key.len()
            &&& t.take(find_char(t, '=')) == key
            &&& decode_field_spec(t.subrange(find_char(t, '=') + 1, t.len() as int)) == Some(v)
        }),
{
    let e = encode_field_spec(v);
    assert(lit + e =~= key + seq!['='] + e);
    lemma_entry_line(key, e);
    crate::codec::lemma_decode_encode(v);
}

/// A numeric setting line is read into its slot of the draft.
proof fn lemma_number_entry(key: Seq<char>, lit: Seq<char>, n: nat, max: nat)
    requires
        lit == key + seq!['='],
        key.len() > 0,
        !crate::text::is_ws(key[0]),
        crate::fields::free_of(key, '='),
        n <= max,
    ensures
        ({
            let line = lit + dec(n);
            let t = trim_spec(line);
            &&& t == line
            &&& find_char(t, '=') == key.len()
            &&& t.len() > key.len()
            &&& t.take(find_char(t, '=')) == key
            &&& parse_unsigned(t.subrange(find_char(t, '=') + 1, t.len() as int), max) == Some(n)
        }),
{
    let e = dec(n);
    lemma_digits_end(n);
    assert(lit + e =~= key + seq!['='] + e);
    lemma_entry_line(key, e);
    crate::decimal::lemma_parse_dec(n, max);
}

proof fn lemma_apply_bind(d: ConfigDraft, v: Seq<char>)
    requires
        encoded_end_is_kept(v),
    ensures
        apply_config_line(d, "bind_address="@ + encode_field_spec(v)) == Some(
            ConfigDraft { bind_address: Some(v), ..d },
        ),
{
    reveal_strlit("bind_address=");
    reveal_strlit("bind_address");
    assert("bind_address="@ =~= "bind_address"@ + seq!['=']);
    lemma_text_entry("bind_address"@, "bind_address="@, v);
}

proof fn lemma_apply_control(d: ConfigDraft, n: u16)
    ensures
        apply_config_line(d, "control_port="@ + dec(n as nat)) == Some(
            ConfigDraft { control_port: Some(n as nat), ..d },
        ),
{
    reveal_strlit("control_port=");
    reveal_strlit("control_port");
    reveal_strlit("bind_address");
    assert("control_port="@ =~= "control_port"@ + seq!['=']);
    lemma_number_entry("control_port"@, "control_port="@, n as nat, 65535);
}

proof fn lemma_apply_token(d: ConfigDraft, v: Seq<char>)
    requires
        encoded_end_is_kept(v),
    ensures
        apply_config_line(d, "auth_token="@ + encode_field_spec(v)) == Some(
            ConfigDraft { auth_token: Some(v), ..d },
        ),
{
    reveal_strlit("auth_token=");
    reveal_strlit("auth_token");
    reveal_strlit("bind_address");
    reveal_strlit("control_port");
    assert("auth_token="@ =~= "auth_token"@ + seq!['=']);
    lemma_text_entry("auth_token"@, "auth_token="@, v);
}

proof fn lemma_apply_heartbeat(d: ConfigDraft, n: u64)
    ensures
        apply_config_line(d, "heartbeat_interval_millis="@ + dec(n as nat)) == Some(
            ConfigDraft { heartbeat_interval_millis: Some(n as nat), ..d },
        ),
{
    reveal_strlit("heartbeat_interval_millis=");
    reveal_strlit("heartbeat_interval_millis");
    reveal_strlit("bind_address");
    reveal_strlit("control_port");
    reveal_strlit("auth_token");
    assert("heartbeat_interval_millis="@ =~= "heartbeat_interval_millis"@ + seq!['=']);
    lemma_number_entry(
        "heartbeat_interval_millis"@,
        "heartbeat_interval_millis="@,
        n as nat,
        0xffff_ffff_ffff_ffff,
    );
}

proof fn lemma_apply_user(d: ConfigDraft, v: Seq<char>)
    requires
        encoded_end_is_kept(v),
    ensures
        apply_config_line(d, "ssh_user="@ + encode_field_spec(v)) == Some(
            ConfigDraft { ssh_user: Some(v), ..d },
        ),
{
    reveal_strlit("ssh_user=");
    reveal_strlit("ssh_user");
    reveal_strlit("bind_address");
    reveal_strlit("control_port");
    reveal_strlit("auth_token");
    reveal_strlit("heartbeat_interval_millis");
    assert("ssh_user="@ =~= "ssh_user"@ + seq!['=']);
    lemma_text_entry("ssh_user"@, "ssh_user="@, v);
}

proof fn lemma_apply_host(d: ConfigDraft, v: Seq<char>)
    requires
        encoded_end_is_kept(v),
    ensures
        apply_config_line(d, "ssh_host="@ + encode_field_spec(v)) == Some(
            ConfigDraft { ssh_host: Some(v), ..d },
        ),
{
    reveal_strlit("ssh_host=");
    reveal_strlit("ssh_host");
    reveal_strlit("bind_address");
    reveal_strlit("control_port");
    reveal_strlit("auth_token");
    reveal_strlit("heartbeat_interval_millis");
    reveal_strlit("ssh_user");
    assert("ssh_host="@ =~= "ssh_host"@ + seq!['=']);
    lemma_text_entry("ssh_host"@, "ssh_host="@, v);
    assert("ssh_host"@[4] != "ssh_user"@[4]);
}

proof fn lemma_apply_local_port(d: ConfigDraft, n: u16)
    ensures
        apply_config_line(d, "ssh_local_port="@ + dec(n as nat)) == Some(
            ConfigDraft { ssh_local_port: Some(n as nat), ..d },
        ),
{
    reveal_strlit("ssh_local_port=");
    reveal_strlit("ssh_local_port");
    reveal_strlit("bind_address");
    reveal_strlit("control_port");
    reveal_strlit("auth_token");
    reveal_strlit("heartbeat_interval_millis");
    reveal_strlit("ssh_user");
    reveal_strlit("ssh_host");
    assert("ssh_local_port="@ =~= "ssh_local_port"@ + seq!['=']);
    lemma_number_entry("ssh_local_port"@, "ssh_local_port="@, n as nat, 65535);
}

proof fn lemma_apply_remote_port(d: ConfigDraft, n: u16)
    ensures
        apply_config_line(d, "ssh_remote_port="@ + dec(n as nat)) == Some(
            ConfigDraft { ssh_remote_port: Some(n as nat), ..d },
        ),
{
    reveal_strlit("ssh_remote_port=");
    reveal_strlit("ssh_remote_port");
    reveal_strlit("bind_address");
    reveal_strlit("control_port");
    reveal_strlit("auth_token");
    reveal_strlit("heartbeat_interval_millis");
    reveal_strlit("ssh_user");
    reveal_strlit("ssh_host");
    reveal_strlit("ssh_local_port");
    assert("ssh_remote_port="@ =~= "ssh_remote_port"@ + seq!['=']);
    lemma_number_entry("ssh_remote_port"@, "ssh_remote_port="@, n as nat, 65535);
}

proof fn lemma_key_free(lit: Seq<char>, v: Seq<char>)
    requires
        crate::fields::free_of(lit, '\n'),
        crate::fields::free_of(v, '\n'),
        v.len() == 0 ==> lit.len() > 0 && lit.last() != '\r',
        v.len() > 0 ==> v.last() != '\r',
    ensures
        crate::fields::free_of(lit + v, '\n'),
        (lit + v).len() > 0,
        (lit + v).last() != '\r',
{
    assert forall|i: int| 0 <= i < (lit + v).len() implies #[trigger] (lit + v)[i] != '\n' by {
        if i >= lit.len() {
            assert((lit + v)[i] == v[i - lit.len()]);
        }
    }
}

proof fn lemma_config_lines_shape(c: ServerConfigView)
    ensures
        crate::fields::all_free_of(config_lines(c), '\n'),
        forall|k: int|
            0 <= k < config_lines(c).len() ==> #[trigger] config_lines(c)[k].len() > 0
                && config_lines(c)[k].last() != '\r',
{
    reveal_strlit("bind_address=");
    reveal_strlit("control_port=");
    reveal_strlit("auth_token=");
    reveal_strlit("heartbeat_interval_millis=");
    reveal_strlit("ssh_user=");
    reveal_strlit("ssh_host=");
    reveal_strlit("ssh_local_port=");
    reveal_strlit("ssh_remote_port=");
    lemma_encoded_free(c.bind_address);
    lemma_encoded_free(c.auth_token);
    lemma_encoded_free(c.ssh_tunnel.user);
    lemma_encoded_free(c.ssh_tunnel.host);
    lemma_digits_end(c.control_port as nat);
    lemma_digits_end(c.heartbeat_interval_millis as nat);
    lemma_digits_end(c.ssh_tunnel.local_port as nat);
    lemma_digits_end(c.ssh_tunnel.remote_port as nat);
    lemma_key_free("bind_address="@, encode_field_spec(c.bind_address));
    lemma_key_free("control_port="@, dec(c.control_port as nat));
    lemma_key_free("auth_token="@, encode_field_spec(c.auth_token));
    lemma_key_free("heartbeat_interval_millis="@, dec(c.heartbeat_interval_millis as nat));
    lemma_key_free("ssh_user="@, encode_field_spec(c.ssh_tunnel.user));
    lemma_key_free("ssh_host="@, encode_field_spec(c.ssh_tunnel.host));
    lemma_key_free("ssh_local_port="@, dec(c.ssh_tunnel.local_port as nat));
    lemma_key_free("ssh_remote_port="@, dec(c.ssh_tunnel.remote_port as nat));
}

/// Reading the file written for a configuration gives the configuration back, as long
/// as no written text value ends in whitespace (reading trims each line).
pub proof fn lemma_server_config_round_trip(c: ServerConfigView)
    requires
        encoded_end_is_kept(c.bind_address),
        encoded_end_is_kept(c.auth_token),
        encoded_end_is_kept(c.ssh_tunnel.user),
        encoded_end_is_kept(c.ssh_tunnel.host),
    ensures
        decode_server_config_spec(encode_server_config_spec(c)) == Some(c),
{
    let ls = config_lines(c);
    lemma_config_lines_shape(c);
    lemma_lines_of_joined(ls);
    let d0 = empty_draft();
    let d1 = ConfigDraft { bind_address: Some(c.bind_address), ..d0 };
    let d2 = ConfigDraft { control_port: Some(c.control_port as nat), ..d1 };
    let d3 = ConfigDraft { auth_token: Some(c.auth_token), ..d2 };
    let d4 = ConfigDraft { heartbeat_interval_millis: Some(c.heartbeat_interval_millis as nat), ..d3 };
    let d5 = ConfigDraft { ssh_user: Some(c.ssh_tunnel.user), ..d4 };
    let d6 = ConfigDraft { ssh_host: Some(c.ssh_tunnel.host), ..d5 };
    let d7 = ConfigDraft { ssh_local_port: Some(c.ssh_tunnel.local_port as nat), ..d6 };
    let d8 = ConfigDraft { ssh_remote_port: Some(c.ssh_tunnel.remote_port as nat), ..d7 };
    lemma_apply_bind(d0, c.bind_address);
    lemma_apply_control(d1, c.control_port);
    lemma_apply_token(d2, c.auth_token);
    lemma_apply_heartbeat(d3, c.heartbeat_interval_millis);
    lemma_apply_user(d4, c.ssh_tunnel.user);
    lemma_apply_host(d5, c.ssh_tunnel.host);
    lemma_apply_local_port(d6, c.ssh_tunnel.local_port);
    lemma_apply_remote_port(d7, c.ssh_tunnel.remote_port);
    assert(apply_config_lines(d8, ls.skip(8)) == Some(d8)) by {
        assert(ls.skip(8) =~= Seq::<Seq<char>>::empty());
    }
    assert forall|k: int| 0 <= k < 8 implies ls.skip(k).drop_first() =~= ls.skip(k + 1)
        && ls.skip(k)[0] == ls[k] by {}
    assert(apply_config_lines(d7, ls.skip(7)) == Some(d8));
    assert(apply_config_lines(d6, ls.skip(6)) == Some(d8));
    assert(apply_config_lines(d5, ls.skip(5)) == Some(d8));
    assert(apply_config_lines(d4, ls.skip(4)) == Some(d8));
    assert(apply_config_lines(d3, ls.skip(3)) == Some(d8));
    assert(apply_config_lines(d2, ls.skip(2)) == Some(d8));
    assert(apply_config_lines(d1, ls.skip(1)) == Some(d8));
    assert(apply_config_lines(d0, ls.skip(0)) == Some(d8));
    assert(ls.skip(0) =~= ls);
}

} // verus!

verus! {

/// The configuration read back from what reading its file gave: the text, or the read
/// error. A file that decodes but holds an invalid configuration is refused.
pub fn load_stored_config(stored: Result<String, std::io::Error>) -> (r: Result<
    ServerConfig,
    ConfigStoreError,
>)
    ensures
        stored matches Err(e) ==> r == Err::<ServerConfig, ConfigStoreError>(
            ConfigStoreError::Io(e),
        ),
        stored matches Ok(c) ==> (decode_server_config_spec(c@) is None ==> r == Err::<
            ServerConfig,
            ConfigStoreError,
        >(ConfigStoreError::CorruptedStore)),
        stored matches Ok(c) ==> (decode_server_config_spec(c@) matches Some(v) ==> (
        config_problem(v) matches Some(e) ==> r == Err::<ServerConfig, ConfigStoreError>(
            ConfigStoreError::InvalidConfig(e),
        ))),
        stored matches Ok(c) ==> (decode_server_config_spec(c@) matches Some(v) ==> (
        config_problem(v) is None ==> (r matches Ok(x) && x@ == v))),
{
    let contents = match stored {
        Err(e) => {
            return Err(ConfigStoreError::Io(e));
        },
        Ok(c) => c,
    };
    let config = match decode_server_config(contents.as_str()) {
        Err(e) => {
            return Err(e);
        },
        Ok(c) => c,
    };
    match config.validate() {
        Err(e) => Err(ConfigStoreError::InvalidConfig(e)),
        Ok(()) => Ok(config),
    }
}

/// The text to store for `config`; an invalid configuration is refused. Reading the text
/// back gives the configuration, as long as no text value ends in whitespace.
pub fn store_config_text(config: &ServerConfig) -> (r: Result<String, ConfigStoreError>)
    ensures
        config_problem(config@) matches Some(e) ==> r == Err::<String, ConfigStoreError>(
            ConfigStoreError::InvalidConfig(e),
        ),
        config_problem(config@) is None ==> (r matches Ok(s) && s@ == encode_server_config_spec(
            config@,
        )),
        r matches Ok(s) ==> (encoded_end_is_kept(config.bind_address@) && encoded_end_is_kept(
            config.auth_token@,
        ) && encoded_end_is_kept(config.ssh_tunnel.user@) && encoded_end_is_kept(
            config.ssh_tunnel.host@,
        ) ==> decode_server_config_spec(s@) == Some(config@)),
{
    match config.validate() {
        Err(e) => Err(ConfigStoreError::InvalidConfig(e)),
        Ok(()) => {
            proof {
                if encoded_end_is_kept(config.bind_address@) && encoded_end_is_kept(
                    config.auth_token@,
                ) && encoded_end_is_kept(config.ssh_tunnel.user@) && encoded_end_is_kept(
                    config.ssh_tunnel.host@,
                ) {
                    lemma_server_config_round_trip(config@);
                }
            }
            Ok(encode_server_config(config))
        },
    }
}


/// The key a configuration line sets.
pub open spec fn config_key(line: Seq<char>) -> Seq<char> {
    trim_spec(line).take(find_char(trim_spec(line), '='))
}

/// Whether a configuration line is corrupted whatever was read before it.
pub proof fn lemma_config_line_failure_independent(d1: ConfigDraft, d2: ConfigDraft, line: Seq<char>)
    ensures
        apply_config_line(d1, line) is None <==> apply_config_line(d2, line) is None,
{
}

/// One corrupted line, wherever it stands, makes the whole file corrupted.
pub proof fn lemma_config_corrupt_line(d: ConfigDraft, ls: Seq<Seq<char>>, i: int)
    requires
        0 <= i < ls.len(),
        apply_config_line(empty_draft(), ls[i]) is None,
    ensures
        apply_config_lines(d, ls) is None,
    decreases ls.len(),
{
    lemma_config_line_failure_independent(d, empty_draft(), ls[0]);
    if i > 0 {
        match apply_config_line(d, ls[0]) {
            Some(d2) => {
                assert(ls.drop_first()[i - 1] == ls[i]);
                lemma_config_corrupt_line(d2, ls.drop_first(), i - 1);
            },
            None => {},
        }
    }
}

/// A setting seen again replaces the earlier value: a line read after another line with
/// the same key gives what reading it alone would.
pub proof fn lemma_config_later_line_wins(d: ConfigDraft, first: Seq<char>, second: Seq<char>)
    requires
        trim_spec(first).len() > 0,
        trim_spec(second).len() > 0,
        config_key(first) == config_key(second),
        apply_config_line(d, first) is Some,
    ensures
        apply_config_line(apply_config_line(d, first)->0, second) == apply_config_line(d, second),
{
}

/// The order of lines with different keys does not matter.
pub proof fn lemma_config_lines_commute(d: ConfigDraft, a: Seq<char>, b: Seq<char>)
    requires
        config_key(a) != config_key(b),
    ensures
        match (apply_config_line(d, a), apply_config_line(d, b)) {
            (Some(da), Some(db)) => apply_config_line(da, b) == apply_config_line(db, a),
            _ => true,
        },
{
}

} // verus!
