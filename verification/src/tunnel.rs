//! Supervision of the SSH tunnel process.

use vstd::prelude::*;

use crate::config::{
    string_views, tunnel_args_spec, tunnel_problem, SshTunnelCommand, SshTunnelConfig,
    SshTunnelConfigView,
};
use crate::errors::SshTunnelProcessError;

verus! {

/// A running tunnel process, as the supervisor sees it.
pub trait ManagedSshTunnel {
    fn id(&self) -> u32;

    /// `Ok(Some(code))` once the process has exited, `Ok(None)` while it runs.
    fn try_wait(&mut self) -> std::io::Result<Option<i32>>;

    fn kill(&mut self) -> std::io::Result<()>;

    fn wait(&mut self) -> std::io::Result<i32>;
}

/// Starts tunnel processes.
pub trait SshTunnelSpawner {
    type Tunnel: ManagedSshTunnel;

    fn spawn(&self, command: &SshTunnelCommand) -> std::io::Result<Self::Tunnel>;
}

/// Starts tunnels with the system's `ssh` program, detached from standard input and
/// output; the application owns the processes it spawns.
#[derive(Clone, Copy, Debug, Default)]
pub struct SystemSshTunnelSpawner;

/// What probing a tunnel with `try_wait` found.
#[derive(Clone, Copy, Debug, PartialEq, Eq, Structural)]
pub enum ProbeOutcome {
    /// `Ok(None)`: the process runs.
    Running,
    /// `Ok(Some(_))`: the process exited.
    Exited,
    /// `Err(_)`: the probe failed.
    Failed,
}

/// What a probe result says.
pub fn probe_outcome(probe: &std::io::Result<Option<i32>>) -> (o: ProbeOutcome)
    ensures
        probe matches Ok(None) ==> o == ProbeOutcome::Running,
        probe matches Ok(Some(_)) ==> o == ProbeOutcome::Exited,
        probe is Err ==> o == ProbeOutcome::Failed,
{
    match probe {
        Ok(None) => ProbeOutcome::Running,
        Ok(Some(_)) => ProbeOutcome::Exited,
        Err(_) => ProbeOutcome::Failed,
    }
}

/// A call the supervisor made on its spawner or on a tunnel, in order. A tunnel is named
/// by the position of the call that spawned it.
pub enum TunnelCall {
    /// `spawn` handed the command `program` with `args`; `id` is the spawned tunnel's
    /// `id()`, `None` when the spawn failed.
    Spawn { program: Seq<char>, args: Seq<Seq<char>>, id: Option<u32> },
    /// `try_wait` on tunnel `tunnel`.
    Probe { tunnel: nat, outcome: ProbeOutcome },
    /// `kill` on tunnel `tunnel`, and whether it succeeded.
    Kill { tunnel: nat, succeeded: bool },
    /// `wait` on tunnel `tunnel`, and whether it succeeded.
    Reap { tunnel: nat, succeeded: bool },
}

/// `calls` extended by `c`.
pub open spec fn logged(old_calls: Seq<TunnelCall>, new_calls: Seq<TunnelCall>, c: TunnelCall) -> bool {
    new_calls == old_calls.push(c)
}

/// Checking on held tunnel `k`: one probe of it is logged (`new_calls` is `old_calls` and
/// that probe); a running tunnel stays held and the answer is `true`, an exited one is
/// dropped and the answer is `false`, a failed probe keeps it and gives the I/O error.
pub open spec fn probed_ok(
    old_calls: Seq<TunnelCall>,
    new_calls: Seq<TunnelCall>,
    k: nat,
    held_after: Option<nat>,
    r: Result<bool, SshTunnelProcessError>,
) -> bool {
    &&& new_calls.len() == old_calls.len() + 1
    &&& new_calls.drop_last() == old_calls
    &&& new_calls.last() matches TunnelCall::Probe { tunnel, outcome } && tunnel == k && match outcome {
        ProbeOutcome::Running => r == Ok::<bool, SshTunnelProcessError>(true) && held_after == Some(k),
        ProbeOutcome::Exited => r == Ok::<bool, SshTunnelProcessError>(false) && held_after is None,
        ProbeOutcome::Failed => (r matches Err(SshTunnelProcessError::Io(_))) && held_after == Some(k),
    }
}

/// Spawning the tunnel of `config` after the calls `base`: the command of `config` is
/// handed to the spawner; a spawned tunnel is held and its id is the answer, a failed
/// spawn gives the I/O error.
pub open spec fn spawned_ok(
    base: Seq<TunnelCall>,
    new_calls: Seq<TunnelCall>,
    config: SshTunnelConfigView,
    held_after: Option<nat>,
    r: Result<u32, SshTunnelProcessError>,
) -> bool {
    &&& new_calls.len() == base.len() + 1
    &&& new_calls.drop_last() == base
    &&& new_calls.last() matches TunnelCall::Spawn { program, args, id } && program == "ssh"@ && args
        == tunnel_args_spec(config) && match id {
        Some(i) => r == Ok::<u32, SshTunnelProcessError>(i) && held_after == Some(base.len()),
        None => (r matches Err(SshTunnelProcessError::Io(_))) && held_after is None,
    }
}

/// Starting the tunnel of `config` once the calls are `base` and no tunnel is held: an
/// invalid configuration is refused without a call; otherwise the tunnel is spawned.
pub open spec fn launch_ok(
    base: Seq<TunnelCall>,
    new_calls: Seq<TunnelCall>,
    config: SshTunnelConfigView,
    held_after: Option<nat>,
    r: Result<u32, SshTunnelProcessError>,
) -> bool {
    match tunnel_problem(config) {
        Some(e) => r == Err::<u32, SshTunnelProcessError>(SshTunnelProcessError::InvalidConfig(e))
            && new_calls == base && held_after is None,
        None => spawned_ok(base, new_calls, config, held_after, r),
    }
}

/// Stopping held tunnel `k`: it is probed; an exited tunnel gives `NotRunning`, a running
/// one is killed, then reaped, and the stop succeeds once both did; a failed call gives
/// its I/O error and ends the stop.
pub open spec fn stopped_ok(
    old_calls: Seq<TunnelCall>,
    new_calls: Seq<TunnelCall>,
    k: nat,
    r: Result<(), SshTunnelProcessError>,
) -> bool {
    &&& new_calls.len() > old_calls.len()
    &&& new_calls.subrange(0, old_calls.len() as int) == old_calls
    &&& new_calls[old_calls.len() as int] matches TunnelCall::Probe { tunnel, outcome } && tunnel == k
        && match outcome {
        ProbeOutcome::Failed => new_calls.len() == old_calls.len() + 1 && (r matches Err(
            SshTunnelProcessError::Io(_),
        )),
        ProbeOutcome::Exited => new_calls.len() == old_calls.len() + 1 && r == Err::<
            (),
            SshTunnelProcessError,
        >(SshTunnelProcessError::NotRunning),
        ProbeOutcome::Running => {
            &&& new_calls.len() > old_calls.len() + 1
            &&& new_calls[old_calls.len() + 1int] matches TunnelCall::Kill { tunnel: kt, succeeded } && kt == k
                && if !succeeded {
                new_calls.len() == old_calls.len() + 2 && (r matches Err(SshTunnelProcessError::Io(_)))
            } else {
                &&& new_calls.len() == old_calls.len() + 3
                &&& new_calls[old_calls.len() + 2int] matches TunnelCall::Reap { tunnel: rt, succeeded: reaped }
                    && rt == k && if reaped {
                    r == Ok::<(), SshTunnelProcessError>(())
                } else {
                    r matches Err(SshTunnelProcessError::Io(_))
                }
            }
        },
    }
}

/// Starts, watches and stops at most one SSH tunnel.
pub struct SshTunnelSupervisor<S: SshTunnelSpawner> {
    spawner: S,
    tunnel: Option<S::Tunnel>,
    calls: Ghost<Seq<TunnelCall>>,
    held: Ghost<nat>,
}

impl<S: SshTunnelSpawner> SshTunnelSupervisor<S> {
    /// The calls made on the spawner and the tunnels so far, in order.
    pub closed spec fn calls(&self) -> Seq<TunnelCall> {
        self.calls@
    }

    /// The held tunnel, named by the position of the call that spawned it.
    pub closed spec fn held_tunnel(&self) -> Option<nat> {
        if self.tunnel is Some {
            Some(self.held@)
        } else {
            None
        }
    }

    /// Whether the supervisor holds a tunnel process.
    pub open spec fn holds_tunnel(&self) -> bool {
        self.held_tunnel() is Some
    }

    /// A held tunnel is one that a logged spawn gave.
    pub open spec fn wf(&self) -> bool {
        self.held_tunnel() matches Some(k) ==> k < self.calls().len() && (self.calls()[k as int] matches TunnelCall::Spawn {
            id,
            ..
        } && id is Some)
    }

    /// A supervisor with no tunnel that made no call.
    pub fn new(spawner: S) -> (s: Self)
        ensures
            s.wf(),
            !s.holds_tunnel(),
            s.calls() == Seq::<TunnelCall>::empty(),
    {
        SshTunnelSupervisor { spawner, tunnel: None, calls: Ghost(Seq::empty()), held: Ghost(0) }
    }

    /// Whether the tunnel still runs: the held tunnel is probed, and a tunnel found exited
    /// is dropped. With no tunnel the answer is `false` and no call is made.
    pub fn is_running(&mut self) -> (r: Result<bool, SshTunnelProcessError>)
        requires
            old(self).wf(),
        ensures
            final(self).wf(),
            old(self).held_tunnel() is None ==> r == Ok::<bool, SshTunnelProcessError>(false)
                && final(self).held_tunnel() is None && final(self).calls() == old(self).calls(),
            old(self).held_tunnel() matches Some(k) ==> probed_ok(
                old(self).calls(),
                final(self).calls(),
                k,
                final(self).held_tunnel(),
                r,
            ),
    {
        let k = self.held;
        let probe = match &mut self.tunnel {
            None => {
                return Ok(false);
            },
            Some(tunnel) => tunnel.try_wait(),
        };
        let outcome = probe_outcome(&probe);
        proof {
            self.calls@ = self.calls@.push(TunnelCall::Probe { tunnel: k@, outcome });
            assert(self.calls@.drop_last() =~= old(self).calls@);
        }
        match probe {
            Err(e) => Err(SshTunnelProcessError::Io(e)),
            Ok(Some(_)) => {
                self.tunnel = None;
                Ok(false)
            },
            Ok(None) => Ok(true),
        }
    }

    /// Starts the tunnel described by `config`: a held tunnel is probed first, and one
    /// still running refuses the start (`AlreadyRunning`, nothing spawned, the tunnel
    /// kept); an invalid configuration is refused; otherwise the command of `config` is
    /// spawned and the spawned tunnel's id is returned.
    #[verifier::rlimit(30)]
    pub fn start(&mut self, config: &SshTunnelConfig) -> (r: Result<u32, SshTunnelProcessError>)
        requires
            old(self).wf(),
        ensures
            final(self).wf(),
            old(self).held_tunnel() is None ==> launch_ok(
                old(self).calls(),
                final(self).calls(),
                config@,
                final(self).held_tunnel(),
                r,
            ),
            old(self).held_tunnel() matches Some(k) ==> {
                &&& final(self).calls().len() > old(self).calls().len()
                &&& final(self).calls()[old(self).calls().len() as int] matches TunnelCall::Probe {
                    tunnel,
                    outcome,
                } && tunnel == k && {
                    let base = old(self).calls().push(final(self).calls()[old(self).calls().len() as int]);
                    match outcome {
                        ProbeOutcome::Running => r == Err::<u32, SshTunnelProcessError>(
                            SshTunnelProcessError::AlreadyRunning,
                        ) && final(self).calls() == base && final(self).held_tunnel() == Some(k),
                        ProbeOutcome::Failed => (r matches Err(SshTunnelProcessError::Io(_)))
                            && final(self).calls() == base && final(self).held_tunnel() == Some(k),
                        ProbeOutcome::Exited => launch_ok(
                            base,
                            final(self).calls(),
                            config@,
                            final(self).held_tunnel(),
                            r,
                        ),
                    }
                }
            },
    {
        match self.is_running() {
            Err(e) => {
                return Err(e);
            },
            Ok(true) => {
                return Err(SshTunnelProcessError::AlreadyRunning);
            },
            Ok(false) => {},
        }
        let ghost base = self.calls@;
        proof {
            if old(self).held_tunnel() is Some {
                assert(base =~= old(self).calls().push(base[old(self).calls().len() as int]));
            }
        }
        let command = match SshTunnelCommand::from_config(config) {
            Err(e) => {
                return Err(SshTunnelProcessError::InvalidConfig(e));
            },
            Ok(c) => c,
        };
        let spawned = self.spawner.spawn(&command);
        let tunnel = match spawned {
            Err(e) => {
                proof {
                    self.calls@ = self.calls@.push(
                        TunnelCall::Spawn { program: command.program@, args: string_views(command.args@), id: None },
                    );
                    assert(self.calls@.drop_last() =~= base);
                }
                return Err(SshTunnelProcessError::Io(e));
            },
            Ok(t) => t,
        };
        let process_id = tunnel.id();
        proof {
            self.calls@ = self.calls@.push(
                TunnelCall::Spawn {
                    program: command.program@,
                    args: string_views(command.args@),
                    id: Some(process_id),
                },
            );
            self.held@ = base.len();
            assert(self.calls@.drop_last() =~= base);
        }
        self.tunnel = Some(tunnel);
        Ok(process_id)
    }

    /// Stops the held tunnel: it is probed, and a running tunnel is killed, then reaped.
    /// The stop succeeds once both did; an exited tunnel gives `NotRunning`, a failed call
    /// its I/O error. With no tunnel the answer is `NotRunning` and no call is made. The
    /// supervisor holds no tunnel afterwards.
    pub fn stop(&mut self) -> (r: Result<(), SshTunnelProcessError>)
        requires
            old(self).wf(),
        ensures
            final(self).wf(),
            !final(self).holds_tunnel(),
            old(self).held_tunnel() is None ==> r == Err::<(), SshTunnelProcessError>(
                SshTunnelProcessError::NotRunning,
            ) && final(self).calls() == old(self).calls(),
            old(self).held_tunnel() matches Some(k) ==> stopped_ok(
                old(self).calls(),
                final(self).calls(),
                k,
                r,
            ),
    {
        let k = self.held;
        let ghost start = self.calls@;
        let mut tunnel = match self.tunnel.take() {
            None => {
                return Err(SshTunnelProcessError::NotRunning);
            },
            Some(t) => t,
        };
        let probe = tunnel.try_wait();
        let outcome = probe_outcome(&probe);
        proof {
            self.calls@ = self.calls@.push(TunnelCall::Probe { tunnel: k@, outcome });
        }
        match probe {
            Err(e) => {
                proof {
                    assert(self.calls@.subrange(0, start.len() as int) =~= start);
                }
                return Err(SshTunnelProcessError::Io(e));
            },
            Ok(Some(_)) => {
                proof {
                    assert(self.calls@.subrange(0, start.len() as int) =~= start);
                }
                return Err(SshTunnelProcessError::NotRunning);
            },
            Ok(None) => {},
        }
        let killed = tunnel.kill();
        proof {
            self.calls@ = self.calls@.push(TunnelCall::Kill { tunnel: k@, succeeded: killed is Ok });
        }
        match killed {
            Err(e) => {
                proof {
                    assert(self.calls@.subrange(0, start.len() as int) =~= start);
                }
                return Err(SshTunnelProcessError::Io(e));
            },
            Ok(()) => {},
        }
        let reaped = tunnel.wait();
        proof {
            self.calls@ = self.calls@.push(TunnelCall::Reap { tunnel: k@, succeeded: reaped is Ok });
            assert(self.calls@.subrange(0, start.len() as int) =~= start);
        }
        match reaped {
            Err(e) => Err(SshTunnelProcessError::Io(e)),
            Ok(_) => Ok(()),
        }
    }
}

} // verus!
