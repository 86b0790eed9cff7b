//! Where profiles, permissions and the server configuration are kept.
//!
//! The file-backed repositories name their file; the application reads and writes it,
//! and the store steps (`list_stored_profiles`, `save_profile_to_store`, ...) decide what
//! is read back and what is written.

use vstd::prelude::*;

use crate::config::ServerConfig;
use crate::errors::{ConfigStoreError, PermissionStoreError, ProfileStoreError};
use crate::permissions::ApplicationPermission;
use crate::profiles::ConnectionProfile;

verus! {

/// Keeps connection profiles.
pub trait ConnectionProfileRepository {
    fn list(&self) -> Result<Vec<ConnectionProfile>, ProfileStoreError>;

    fn save(&self, profile: ConnectionProfile) -> Result<(), ProfileStoreError>;

    fn remove(&self, id: &str) -> Result<(), ProfileStoreError>;
}

/// Keeps application permissions.
pub trait ApplicationPermissionRepository {
    fn list(&self) -> Result<Vec<ApplicationPermission>, PermissionStoreError>;

    fn save(&self, permission: ApplicationPermission) -> Result<(), PermissionStoreError>;

    fn remove(&self, application_id: &str) -> Result<(), PermissionStoreError>;
}

/// Keeps the server configuration.
pub trait ServerConfigRepository {
    fn load(&self) -> Result<ServerConfig, ConfigStoreError>;

    fn save(&self, config: &ServerConfig) -> Result<(), ConfigStoreError>;
}

/// Application permissions kept in one file, one permission per line.
#[derive(Clone, Debug)]
pub struct FileApplicationPermissionRepository {
    path: std::path::PathBuf,
}

impl FileApplicationPermissionRepository {
    /// The store file's path.
    pub closed spec fn store_path(&self) -> std::path::PathBuf {
        self.path
    }

    /// A repository kept in the file at `path`.
    pub fn new(path: std::path::PathBuf) -> (r: Self)
        ensures
            r.store_path() == path,
    {
        FileApplicationPermissionRepository { path }
    }

    /// The store file's path.
    pub fn path(&self) -> (r: &std::path::PathBuf)
        ensures
            *r == self.store_path(),
    {
        &self.path
    }
}

/// Connection profiles kept in one file, one profile per line.
#[derive(Clone, Debug)]
pub struct FileConnectionProfileRepository {
    path: std::path::PathBuf,
}

impl FileConnectionProfileRepository {
    /// The store file's path.
    pub closed spec fn store_path(&self) -> std::path::PathBuf {
        self.path
    }

    /// A repository kept in the file at `path`.
    pub fn new(path: std::path::PathBuf) -> (r: Self)
        ensures
            r.store_path() == path,
    {
        FileConnectionProfileRepository { path }
    }

    /// The store file's path.
    pub fn path(&self) -> (r: &std::path::PathBuf)
        ensures
            *r == self.store_path(),
    {
        &self.path
    }
}

/// The server configuration kept in one `key=value` file.
#[derive(Clone, Debug)]
pub struct FileServerConfigRepository {
    path: std::path::PathBuf,
}

impl FileServerConfigRepository {
    /// The configuration file's path.
    pub closed spec fn store_path(&self) -> std::path::PathBuf {
        self.path
    }

    /// A repository kept in the file at `path`.
    pub fn new(path: std::path::PathBuf) -> (r: Self)
        ensures
            r.store_path() == path,
    {
        FileServerConfigRepository { path }
    }

    /// The configuration file's path.
    pub fn path(&self) -> (r: &std::path::PathBuf)
        ensures
            *r == self.store_path(),
    {
        &self.path
    }
}

} // verus!
