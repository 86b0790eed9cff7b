use apprelay_core::config::{ServerConfig, SshTunnelCommand, SshTunnelConfig};
use apprelay_core::errors::{ConfigError, PermissionValidationError, ProfileValidationError};
use apprelay_core::permissions::ApplicationPermission;
use apprelay_core::profiles::ConnectionProfile;

fn test_profile(id: &str, label: &str) -> ConnectionProfile {
    ConnectionProfile {
        id: id.to_string(),
        label: label.to_string(),
        ssh_user: "biplab".to_string(),
        ssh_host: "workstation.local".to_string(),
        local_port: 7676,
        remote_port: 7676,
        auth_token: "token".to_string(),
    }
}

#[test]
fn server_config_requires_auth_token() {
    let config = ServerConfig::local(" ");

    assert_eq!(config.validate(), Err(ConfigError::MissingAuthToken));
}

#[test]
fn server_config_accepts_local_defaults() {
    let config = ServerConfig::local("test-token");

    assert_eq!(config.validate(), Ok(()));
}

#[test]
fn ssh_tunnel_command_uses_validated_config() {
    let config = SshTunnelConfig {
        user: "biplab".to_string(),
        host: "workstation.local".to_string(),
        local_port: 7676,
        remote_port: 7677,
    };

    assert_eq!(
        SshTunnelCommand::from_config(&config),
        Ok(SshTunnelCommand {
            program: "ssh".to_string(),
            args: vec![
                "-N".to_string(),
                "-L".to_string(),
                "7676:127.0.0.1:7677".to_string(),
                "biplab@workstation.local".to_string(),
            ],
        })
    );
}

#[test]
fn ssh_tunnel_command_rejects_invalid_config() {
    let config = SshTunnelConfig {
        user: " ".to_string(),
        host: "workstation.local".to_string(),
        local_port: 7676,
        remote_port: 7677,
    };

    assert_eq!(
        SshTunnelCommand::from_config(&config),
        Err(ConfigError::MissingSshUser)
    );
}

#[test]
fn connection_profile_validation_rejects_missing_token() {
    let mut profile = test_profile("local", "Local workstation");
    profile.auth_token = " ".to_string();

    assert_eq!(
        profile.validate(),
        Err(ProfileValidationError::MissingAuthToken)
    );
}

#[test]
fn application_permission_validation_rejects_missing_application_id() {
    let permission = ApplicationPermission {
        application_id: " ".to_string(),
        label: "Terminal".to_string(),
    };

    assert_eq!(
        permission.validate(),
        Err(PermissionValidationError::MissingApplicationId)
    );
}
