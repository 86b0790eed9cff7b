use apprelay_core::config::{
    load_stored_config, store_config_text, ServerConfig, SshTunnelCommand, SshTunnelConfig,
};
use apprelay_core::errors::{
    ConfigError, ConfigStoreError, PermissionStoreError, PermissionValidationError,
    ProfileStoreError, ProfileValidationError, SshTunnelProcessError,
};
use apprelay_core::events::{format_event, EventSink, FileEventSink, InMemoryEventSink, ServerEvent};
use apprelay_core::permissions::{
    list_stored_permissions, remove_permission_from_store, save_permission_to_store,
    ApplicationPermission,
};
use apprelay_core::profiles::{
    list_stored_profiles, remove_profile_from_store, save_profile_to_store, ConnectionProfile,
};
use apprelay_core::repositories::{
    FileApplicationPermissionRepository, FileConnectionProfileRepository,
    FileServerConfigRepository,
};
use apprelay_core::tunnel::{ManagedSshTunnel, SshTunnelSpawner, SshTunnelSupervisor};
use std::path::PathBuf;

fn test_profile(id: &str, label: &str) -> ConnectionProfile {
    ConnectionProfile {
        id: id.to_string(),
        label: label.to_string(),
        ssh_user: "biplab".to_string(),
        ssh_host: "workstation.local".to_string(),
        local_port: 7676,
        remote_port: 7676,
        auth_token: "token".to_string(),
    }
}

fn test_permission(application_id: &str, label: &str) -> ApplicationPermission {
    ApplicationPermission {
        application_id: application_id.to_string(),
        label: label.to_string(),
    }
}

fn workstation_tunnel() -> SshTunnelConfig {
    SshTunnelConfig {
        user: "biplab".to_string(),
        host: "workstation.local".to_string(),
        local_port: 7676,
        remote_port: 7677,
    }
}

#[derive(Clone, Debug, Default)]
struct FakeSshTunnelSpawner {
    exited_on_spawn: bool,
}

impl SshTunnelSpawner for FakeSshTunnelSpawner {
    type Tunnel = FakeManagedSshTunnel;

    fn spawn(&self, _command: &SshTunnelCommand) -> std::io::Result<Self::Tunnel> {
        Ok(FakeManagedSshTunnel {
            running: !self.exited_on_spawn,
        })
    }
}

#[derive(Debug)]
struct FakeManagedSshTunnel {
    running: bool,
}

impl ManagedSshTunnel for FakeManagedSshTunnel {
    fn id(&self) -> u32 {
        42
    }

    fn try_wait(&mut self) -> std::io::Result<Option<i32>> {
        if self.running {
            Ok(None)
        } else {
            Ok(Some(0))
        }
    }

    fn kill(&mut self) -> std::io::Result<()> {
        self.running = false;
        Ok(())
    }

    fn wait(&mut self) -> std::io::Result<i32> {
        self.running = false;
        Ok(0)
    }
}

#[test]
fn ssh_tunnel_supervisor_starts_and_stops_tunnel() {
    let spawner = FakeSshTunnelSpawner::default();
    let mut supervisor = SshTunnelSupervisor::new(spawner);
    let config = workstation_tunnel();

    assert_eq!(supervisor.start(&config), Ok(42));
    assert_eq!(supervisor.is_running(), Ok(true));
    assert_eq!(supervisor.stop(), Ok(()));
    assert_eq!(supervisor.is_running(), Ok(false));
}

#[test]
fn ssh_tunnel_supervisor_rejects_double_start() {
    let spawner = FakeSshTunnelSpawner::default();
    let mut supervisor = SshTunnelSupervisor::new(spawner);
    let config = workstation_tunnel();

    assert_eq!(supervisor.start(&config), Ok(42));
    assert_eq!(
        supervisor.start(&config),
        Err(SshTunnelProcessError::AlreadyRunning)
    );
}

#[test]
fn ssh_tunnel_supervisor_rejects_invalid_config() {
    let spawner = FakeSshTunnelSpawner::default();
    let mut supervisor = SshTunnelSupervisor::new(spawner);
    let config = SshTunnelConfig {
        user: " ".to_string(),
        host: "workstation.local".to_string(),
        local_port: 7676,
        remote_port: 7677,
    };

    assert_eq!(
        supervisor.start(&config),
        Err(SshTunnelProcessError::InvalidConfig(
            ConfigError::MissingSshUser
        ))
    );
}

#[test]
fn ssh_tunnel_supervisor_clears_exited_tunnel() {
    let spawner = FakeSshTunnelSpawner {
        exited_on_spawn: true,
    };
    let mut supervisor = SshTunnelSupervisor::new(spawner);
    let config = workstation_tunnel();

    assert_eq!(supervisor.start(&config), Ok(42));
    assert_eq!(supervisor.is_running(), Ok(false));
    assert_eq!(supervisor.stop(), Err(SshTunnelProcessError::NotRunning));
}

#[test]
fn ssh_tunnel_supervisor_stop_without_tunnel_is_not_running() {
    let mut supervisor = SshTunnelSupervisor::new(FakeSshTunnelSpawner::default());

    assert_eq!(supervisor.is_running(), Ok(false));
    assert_eq!(supervisor.stop(), Err(SshTunnelProcessError::NotRunning));
}

#[test]
fn in_memory_event_sink_records_events() {
    let mut sink = InMemoryEventSink::default();

    sink.record(ServerEvent::ControlPlaneStarted {
        bind_address: "127.0.0.1".to_string(),
        port: 7676,
    });
    sink.record(ServerEvent::ControlPlaneStopped);

    assert_eq!(
        sink.events(),
        &[
            ServerEvent::ControlPlaneStarted {
                bind_address: "127.0.0.1".to_string(),
                port: 7676,
            },
            ServerEvent::ControlPlaneStopped,
        ]
    );
}

#[test]
fn format_event_writes_structured_lines() {
    assert_eq!(
        format_event(&ServerEvent::ControlPlaneStarted {
            bind_address: "127.0.0.1".to_string(),
            port: 7676,
        }),
        "event=control_plane_started bind_address=127.0.0.1 port=7676"
    );
    assert_eq!(
        format_event(&ServerEvent::RequestAuthorized {
            operation: "health".to_string(),
        }),
        "event=request_authorized operation=health"
    );
    assert_eq!(
        format_event(&ServerEvent::SshTunnelStarted { process_id: 4242 }),
        "event=ssh_tunnel_started process_id=4242"
    );
    assert_eq!(
        format_event(&ServerEvent::SshTunnelFailed {
            reason: "exit\tcode\n1".to_string(),
        }),
        "event=ssh_tunnel_failed reason=exit\\tcode\\n1"
    );
    assert_eq!(
        format_event(&ServerEvent::ConfigSaved {
            path: PathBuf::from("/tmp/server.conf"),
        }),
        "event=config_saved path=/tmp/server.conf"
    );
    assert_eq!(format_event(&ServerEvent::SshTunnelStopped), "event=ssh_tunnel_stopped");
}

#[test]
fn file_repositories_remember_their_paths() {
    let profiles = FileConnectionProfileRepository::new(PathBuf::from("/data/profiles.tsv"));
    let permissions =
        FileApplicationPermissionRepository::new(PathBuf::from("/data/permissions.tsv"));
    let config = FileServerConfigRepository::new(PathBuf::from("/data/server.conf"));
    let events = FileEventSink::new(PathBuf::from("/data/server.log"));

    assert_eq!(profiles.path(), &PathBuf::from("/data/profiles.tsv"));
    assert_eq!(permissions.path(), &PathBuf::from("/data/permissions.tsv"));
    assert_eq!(config.path(), &PathBuf::from("/data/server.conf"));
    assert_eq!(events.path(), &PathBuf::from("/data/server.log"));
}

#[test]
fn profile_store_persists_profiles_in_listing_order() {
    let first = save_profile_to_store(Ok(None), test_profile("work", "Work")).expect("save work");
    let second =
        save_profile_to_store(Ok(Some(first)), test_profile("home", "home")).expect("save home");

    let listed = list_stored_profiles(Ok(Some(second))).expect("list profiles");

    assert_eq!(
        listed,
        vec![test_profile("home", "home"), test_profile("work", "Work")]
    );
}

#[test]
fn profile_store_replaces_profiles_by_id() {
    let stored = save_profile_to_store(Ok(None), test_profile("local", "Local")).expect("save");
    let mut replacement = test_profile("local", "Replacement");
    replacement.ssh_host = "other.local".to_string();
    let stored = save_profile_to_store(Ok(Some(stored)), replacement.clone()).expect("replace");

    assert_eq!(
        list_stored_profiles(Ok(Some(stored))).expect("list"),
        vec![replacement]
    );
}

#[test]
fn profile_store_removes_profiles_by_id() {
    let stored = save_profile_to_store(Ok(None), test_profile("a", "A")).expect("save a");
    let stored = save_profile_to_store(Ok(Some(stored)), test_profile("b", "B")).expect("save b");
    let stored = remove_profile_from_store(Ok(Some(stored)), "a").expect("remove a");

    assert_eq!(
        list_stored_profiles(Ok(Some(stored))).expect("list"),
        vec![test_profile("b", "B")]
    );
}

#[test]
fn profile_store_reports_corruption_and_invalid_profiles() {
    assert_eq!(
        list_stored_profiles(Ok(Some("bad profile".to_string()))),
        Err(ProfileStoreError::CorruptedStore)
    );
    assert_eq!(
        list_stored_profiles(Ok(None)).expect("missing store lists nothing"),
        Vec::new()
    );
    let mut invalid = test_profile("local", "Local");
    invalid.auth_token = " ".to_string();
    assert_eq!(
        save_profile_to_store(Ok(None), invalid),
        Err(ProfileStoreError::InvalidProfile(
            ProfileValidationError::MissingAuthToken
        ))
    );
    let io_error = std::io::Error::new(std::io::ErrorKind::PermissionDenied, "denied");
    assert_eq!(
        list_stored_profiles(Err(io_error)),
        Err(ProfileStoreError::Io(std::io::Error::new(
            std::io::ErrorKind::PermissionDenied,
            "other"
        )))
    );
}

#[test]
fn permission_store_persists_replaces_and_removes() {
    let stored = save_permission_to_store(Ok(None), test_permission("terminal", "Terminal"))
        .expect("save terminal");
    let stored = save_permission_to_store(Ok(Some(stored)), test_permission("browser", "Browser"))
        .expect("save browser");
    let stored = save_permission_to_store(Ok(Some(stored)), test_permission("terminal", "Shell"))
        .expect("replace terminal");

    assert_eq!(
        list_stored_permissions(Ok(Some(stored.clone()))).expect("list"),
        vec![
            test_permission("browser", "Browser"),
            test_permission("terminal", "Shell"),
        ]
    );

    let stored = remove_permission_from_store(Ok(Some(stored)), "browser").expect("remove");
    assert_eq!(
        list_stored_permissions(Ok(Some(stored))).expect("list"),
        vec![test_permission("terminal", "Shell")]
    );
}

#[test]
fn permission_store_reports_corruption_and_invalid_permissions() {
    assert_eq!(
        list_stored_permissions(Ok(Some("only-one-field".to_string()))),
        Err(PermissionStoreError::CorruptedStore)
    );
    assert_eq!(
        save_permission_to_store(Ok(None), test_permission("terminal", " ")),
        Err(PermissionStoreError::InvalidPermission(
            PermissionValidationError::MissingLabel
        ))
    );
}

#[test]
fn server_config_store_round_trips_config() {
    let mut config = ServerConfig::local("test-token");
    config.bind_address = "127.0.0.2".to_string();
    config.control_port = 7878;
    config.heartbeat_interval_millis = 2_500;
    config.ssh_tunnel.user = "biplab".to_string();
    config.ssh_tunnel.host = "workstation.local".to_string();
    config.ssh_tunnel.local_port = 8787;
    config.ssh_tunnel.remote_port = 9797;

    let text = store_config_text(&config).expect("store config");

    assert_eq!(load_stored_config(Ok(text)).expect("load config"), config);
}

#[test]
fn server_config_store_rejects_invalid_config() {
    let config = ServerConfig::local(" ");

    assert_eq!(
        store_config_text(&config),
        Err(ConfigStoreError::InvalidConfig(ConfigError::MissingAuthToken))
    );
}

#[test]
fn server_config_store_reports_corruption() {
    assert_eq!(
        load_stored_config(Ok("bad config".to_string())),
        Err(ConfigStoreError::CorruptedStore)
    );
}

#[test]
fn saving_a_permission_twice_stores_one_copy_in_listing_order() {
    let stored = save_permission_to_store(Ok(None), test_permission("zed", "Zed")).expect("save zed");
    let stored = save_permission_to_store(Ok(Some(stored)), test_permission("terminal", "terminal"))
        .expect("save terminal");
    let stored = save_permission_to_store(Ok(Some(stored)), test_permission("zed", "Zed"))
        .expect("save zed again");

    assert_eq!(stored.lines().filter(|l| !l.trim().is_empty()).count(), 2);
    assert_eq!(
        list_stored_permissions(Ok(Some(stored))).expect("list"),
        vec![test_permission("terminal", "terminal"), test_permission("zed", "Zed")]
    );
}

#[test]
fn saving_a_profile_twice_stores_one_copy_in_listing_order() {
    let stored = save_profile_to_store(Ok(None), test_profile("work", "Work")).expect("save work");
    let stored = save_profile_to_store(Ok(Some(stored)), test_profile("home", "home")).expect("save home");
    let stored = save_profile_to_store(Ok(Some(stored)), test_profile("work", "Work")).expect("save work again");

    assert_eq!(stored.lines().filter(|l| !l.trim().is_empty()).count(), 2);
    assert_eq!(
        list_stored_profiles(Ok(Some(stored))).expect("list"),
        vec![test_profile("home", "home"), test_profile("work", "Work")]
    );
}
