//! Validation and storage errors of the profile, permission and configuration stores.

use vstd::prelude::*;
use vstd::std_specs::cmp::PartialEqSpecImpl;
use vstd::std_specs::convert::FromSpecImpl;

verus! {

#[verifier::external_type_specification]
#[verifier::external_body]
pub struct ExIoError(std::io::Error);

/// Whether two I/O errors have the same `std::io::ErrorKind`.
pub uninterp spec fn io_same_kind(a: std::io::Error, b: std::io::Error) -> bool;

/// Compares `a.kind()` with `b.kind()` (`std::io::Error::kind`); the contract names the
/// outcome, which depends on the two errors alone.
#[verifier::external_body]
pub(crate) fn io_errors_same_kind(a: &std::io::Error, b: &std::io::Error) -> (r: bool)
    ensures
        r == io_same_kind(*a, *b),
{
    a.kind() == b.kind()
}

#[derive(Clone, Copy, Debug, PartialEq, Eq, Structural)]
pub enum PermissionValidationError {
    MissingApplicationId,
    MissingLabel,
}

#[derive(Debug)]
pub enum PermissionStoreError {
    InvalidPermission(PermissionValidationError),
    Io(std::io::Error),
    CorruptedStore,
}

impl PartialEq for PermissionStoreError {
    fn eq(&self, other: &Self) -> (r: bool) {
        match (self, other) {
            (PermissionStoreError::InvalidPermission(l), PermissionStoreError::InvalidPermission(
                r,
            )) => *l == *r,
            (PermissionStoreError::CorruptedStore, PermissionStoreError::CorruptedStore) => true,
            (PermissionStoreError::Io(l), PermissionStoreError::Io(r)) => io_errors_same_kind(l, r),
            _ => false,
        }
    }
}

impl PartialEqSpecImpl for PermissionStoreError {
    open spec fn obeys_eq_spec() -> bool {
        true
    }

    open spec fn eq_spec(&self, other: &Self) -> bool {
        match (self, other) {
            (PermissionStoreError::InvalidPermission(l), PermissionStoreError::InvalidPermission(
                r,
            )) => l == r,
            (PermissionStoreError::CorruptedStore, PermissionStoreError::CorruptedStore) => true,
            (PermissionStoreError::Io(l), PermissionStoreError::Io(r)) => io_same_kind(*l, *r),
            _ => false,
        }
    }
}

impl Eq for PermissionStoreError {

}

impl From<std::io::Error> for PermissionStoreError {
    fn from(error: std::io::Error) -> (r: Self) {
        PermissionStoreError::Io(error)
    }
}

impl FromSpecImpl<std::io::Error> for PermissionStoreError {
    open spec fn obeys_from_spec() -> bool {
        true
    }

    open spec fn from_spec(v: std::io::Error) -> Self {
        PermissionStoreError::Io(v)
    }
}

impl From<PermissionValidationError> for PermissionStoreError {
    fn from(error: PermissionValidationError) -> (r: Self) {
        PermissionStoreError::InvalidPermission(error)
    }
}

impl FromSpecImpl<PermissionValidationError> for PermissionStoreError {
    open spec fn obeys_from_spec() -> bool {
        true
    }

    open spec fn from_spec(v: PermissionValidationError) -> Self {
        PermissionStoreError::InvalidPermission(v)
    }
}

#[derive(Clone, Copy, Debug, PartialEq, Eq, Structural)]
pub enum ProfileValidationError {
    MissingId,
    MissingLabel,
    MissingSshUser,
    MissingSshHost,
    InvalidSshPort,
    MissingAuthToken,
}

#[derive(Debug)]
pub enum ProfileStoreError {
    InvalidProfile(ProfileValidationError),
    Io(std::io::Error),
    CorruptedStore,
}

impl PartialEq for ProfileStoreError {
    fn eq(&self, other: &Self) -> (r: bool) {
        match (self, other) {
            (ProfileStoreError::InvalidProfile(l), ProfileStoreError::InvalidProfile(r)) => *l
                == *r,
            (ProfileStoreError::CorruptedStore, ProfileStoreError::CorruptedStore) => true,
            (ProfileStoreError::Io(l), ProfileStoreError::Io(r)) => io_errors_same_kind(l, r),
            _ => false,
        }
    }
}

impl PartialEqSpecImpl for ProfileStoreError {
    open spec fn obeys_eq_spec() -> bool {
        true
    }

    open spec fn eq_spec(&self, other: &Self) -> bool {
        match (self, other) {
            (ProfileStoreError::InvalidProfile(l), ProfileStoreError::InvalidProfile(r)) => l == r,
            (ProfileStoreError::CorruptedStore, ProfileStoreError::CorruptedStore) => true,
            (ProfileStoreError::Io(l), ProfileStoreError::Io(r)) => io_same_kind(*l, *r),
            _ => false,
        }
    }
}

impl Eq for ProfileStoreError {

}

impl From<std::io::Error> for ProfileStoreError {
    fn from(error: std::io::Error) -> (r: Self) {
        ProfileStoreError::Io(error)
    }
}

impl FromSpecImpl<std::io::Error> for ProfileStoreError {
    open spec fn obeys_from_spec() -> bool {
        true
    }

    open spec fn from_spec(v: std::io::Error) -> Self {
        ProfileStoreError::Io(v)
    }
}

impl From<ProfileValidationError> for ProfileStoreError {
    fn from(error: ProfileValidationError) -> (r: Self) {
        ProfileStoreError::InvalidProfile(error)
    }
}

impl FromSpecImpl<ProfileValidationError> for ProfileStoreError {
    open spec fn obeys_from_spec() -> bool {
        true
    }

    open spec fn from_spec(v: ProfileValidationError) -> Self {
        ProfileStoreError::InvalidProfile(v)
    }
}

#[derive(Clone, Copy, Debug, PartialEq, Eq, Structural)]
pub enum ConfigError {
    MissingAuthToken,
    InvalidControlPort,
    InvalidHeartbeatInterval,
    MissingSshUser,
    MissingSshHost,
    InvalidSshPort,
}

#[derive(Debug)]
pub enum ConfigStoreError {
    InvalidConfig(ConfigError),
    Io(std::io::Error),
    CorruptedStore,
}

impl PartialEq for ConfigStoreError {
    fn eq(&self, other: &Self) -> (r: bool) {
        match (self, other) {
            (ConfigStoreError::InvalidConfig(l), ConfigStoreError::InvalidConfig(r)) => *l == *r,
            (ConfigStoreError::CorruptedStore, ConfigStoreError::CorruptedStore) => true,
            (ConfigStoreError::Io(l), ConfigStoreError::Io(r)) => io_errors_same_kind(l, r),
            _ => false,
        }
    }
}

impl PartialEqSpecImpl for ConfigStoreError {
    open spec fn obeys_eq_spec() -> bool {
        true
    }

    open spec fn eq_spec(&self, other: &Self) -> bool {
        match (self, other) {
            (ConfigStoreError::InvalidConfig(l), ConfigStoreError::InvalidConfig(r)) => l == r,
            (ConfigStoreError::CorruptedStore, ConfigStoreError::CorruptedStore) => true,
            (ConfigStoreError::Io(l), ConfigStoreError::Io(r)) => io_same_kind(*l, *r),
            _ => false,
        }
    }
}

impl Eq for ConfigStoreError {

}

impl From<std::io::Error> for ConfigStoreError {
    fn from(error: std::io::Error) -> (r: Self) {
        ConfigStoreError::Io(error)
    }
}

impl FromSpecImpl<std::io::Error> for ConfigStoreError {
    open spec fn obeys_from_spec() -> bool {
        true
    }

    open spec fn from_spec(v: std::io::Error) -> Self {
        ConfigStoreError::Io(v)
    }
}

impl From<ConfigError> for ConfigStoreError {
    fn from(error: ConfigError) -> (r: Self) {
        ConfigStoreError::InvalidConfig(error)
    }
}

impl FromSpecImpl<ConfigError> for ConfigStoreError {
    open spec fn obeys_from_spec() -> bool {
        true
    }

    open spec fn from_spec(v: ConfigError) -> Self {
        ConfigStoreError::InvalidConfig(v)
    }
}

/// Failures of the SSH tunnel supervisor.
#[derive(Debug)]
pub enum SshTunnelProcessError {
    InvalidConfig(ConfigError),
    Io(std::io::Error),
    AlreadyRunning,
    NotRunning,
}

impl PartialEq for SshTunnelProcessError {
    fn eq(&self, other: &Self) -> (r: bool) {
        match (self, other) {
            (SshTunnelProcessError::InvalidConfig(l), SshTunnelProcessError::InvalidConfig(r)) => *l
                == *r,
            (SshTunnelProcessError::AlreadyRunning, SshTunnelProcessError::AlreadyRunning) => true,
            (SshTunnelProcessError::NotRunning, SshTunnelProcessError::NotRunning) => true,
            (SshTunnelProcessError::Io(l), SshTunnelProcessError::Io(r)) => io_errors_same_kind(
                l,
                r,
            ),
            _ => false,
        }
    }
}

impl PartialEqSpecImpl for SshTunnelProcessError {
    open spec fn obeys_eq_spec() -> bool {
        true
    }

    open spec fn eq_spec(&self, other: &Self) -> bool {
        match (self, other) {
            (SshTunnelProcessError::InvalidConfig(l), SshTunnelProcessError::InvalidConfig(r)) => l
                == r,
            (SshTunnelProcessError::AlreadyRunning, SshTunnelProcessError::AlreadyRunning) => true,
            (SshTunnelProcessError::NotRunning, SshTunnelProcessError::NotRunning) => true,
            (SshTunnelProcessError::Io(l), SshTunnelProcessError::Io(r)) => io_same_kind(*l, *r),
            _ => false,
        }
    }
}

impl Eq for SshTunnelProcessError {

}

} // verus!
