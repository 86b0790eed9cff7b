use std::cell::RefCell;
use std::rc::Rc;

use apprelay_core::config::{SshTunnelCommand, SshTunnelConfig};
use apprelay_core::errors::SshTunnelProcessError;
use apprelay_core::tunnel::{ManagedSshTunnel, SshTunnelSpawner, SshTunnelSupervisor};

type Log = Rc<RefCell<Vec<String>>>;

struct RecordingSpawner {
    log: Log,
    exited_on_spawn: bool,
}

struct RecordingTunnel {
    log: Log,
    running: bool,
}

impl SshTunnelSpawner for RecordingSpawner {
    type Tunnel = RecordingTunnel;

    fn spawn(&self, command: &SshTunnelCommand) -> std::io::Result<RecordingTunnel> {
        self.log
            .borrow_mut()
            .push(format!("spawn {} {}", command.program, command.args.join(" ")));
        Ok(RecordingTunnel { log: Rc::clone(&self.log), running: !self.exited_on_spawn })
    }
}

impl ManagedSshTunnel for RecordingTunnel {
    fn id(&self) -> u32 {
        42
    }

    fn try_wait(&mut self) -> std::io::Result<Option<i32>> {
        self.log.borrow_mut().push("try_wait".to_string());
        Ok(if self.running { None } else { Some(0) })
    }

    fn kill(&mut self) -> std::io::Result<()> {
        self.log.borrow_mut().push("kill".to_string());
        self.running = false;
        Ok(())
    }

    fn wait(&mut self) -> std::io::Result<i32> {
        self.log.borrow_mut().push("wait".to_string());
        self.running = false;
        Ok(0)
    }
}

fn tunnel_config() -> SshTunnelConfig {
    SshTunnelConfig {
        user: "biplab".to_string(),
        host: "workstation.local".to_string(),
        local_port: 7676,
        remote_port: 7677,
    }
}

#[test]
fn supervisor_spawns_the_configured_command_and_stops_by_kill_and_wait() {
    let log: Log = Rc::new(RefCell::new(Vec::new()));
    let mut supervisor =
        SshTunnelSupervisor::new(RecordingSpawner { log: Rc::clone(&log), exited_on_spawn: false });

    assert_eq!(supervisor.start(&tunnel_config()), Ok(42));
    assert_eq!(
        supervisor.start(&tunnel_config()),
        Err(SshTunnelProcessError::AlreadyRunning)
    );
    assert_eq!(supervisor.is_running(), Ok(true));
    assert_eq!(supervisor.stop(), Ok(()));
    assert_eq!(supervisor.stop(), Err(SshTunnelProcessError::NotRunning));

    assert_eq!(
        *log.borrow(),
        vec![
            "spawn ssh -N -L 7676:127.0.0.1:7677 biplab@workstation.local",
            "try_wait",
            "try_wait",
            "try_wait",
            "kill",
            "wait",
        ]
    );
}

#[test]
fn supervisor_drops_an_exited_tunnel_and_starts_a_new_one() {
    let log: Log = Rc::new(RefCell::new(Vec::new()));
    let mut supervisor =
        SshTunnelSupervisor::new(RecordingSpawner { log: Rc::clone(&log), exited_on_spawn: true });

    assert_eq!(supervisor.start(&tunnel_config()), Ok(42));
    assert_eq!(supervisor.is_running(), Ok(false));
    assert_eq!(supervisor.is_running(), Ok(false));
    assert_eq!(supervisor.stop(), Err(SshTunnelProcessError::NotRunning));
    assert_eq!(supervisor.start(&tunnel_config()), Ok(42));

    assert_eq!(
        *log.borrow(),
        vec![
            "spawn ssh -N -L 7676:127.0.0.1:7677 biplab@workstation.local",
            "try_wait",
            "spawn ssh -N -L 7676:127.0.0.1:7677 biplab@workstation.local",
        ]
    );
}
