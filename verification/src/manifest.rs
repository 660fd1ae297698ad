//! The module descriptor: the parsed manifest of a module, supplied by the
//! host application. The supervisor treats it as immutable, read-only input.

use vstd::prelude::*;

verus! {

/// A module manifest as produced by the manifest loader.
#[derive(Clone, Debug)]
pub struct Manifest {
    /// Unique, stable module identifier.
    pub id: String,
    /// Human-readable display name.
    pub name: String,
    /// Version string.
    pub version: String,
    /// Optional description.
    pub description: Option<String>,
    /// Optional author.
    pub author: Option<String>,
    /// Optional icon file name or icon identifier.
    pub icon: Option<String>,
    /// Backend launch parameters.
    pub backend: BackendConfig,
    /// Frontend configuration.
    pub ui: UiConfig,
    /// Optional permission configuration.
    pub permissions: Option<PermissionsConfig>,
}

/// Backend launch parameters of a module.
#[derive(Clone, Debug)]
pub struct BackendConfig {
    /// Whether the backend is enabled at all.
    pub enabled: bool,
    /// Backend language (`python`, `node`, `java`, ...), matched
    /// case-insensitively.
    pub language: String,
    /// Entry point path, relative to the module root directory.
    pub entrypoint: String,
    /// Launch arguments; each may contain the `{PORT}` placeholder.
    pub args: Vec<String>,
    /// Default port.
    pub port: u16,
    /// Health check path (for example `/api/health`).
    pub health_check: Option<String>,
}

/// Frontend configuration of a module.
#[derive(Clone, Debug)]
pub struct UiConfig {
    /// UI mode: `declarative` or `custom`.
    pub mode: String,
    /// Layout file path or custom entry file path.
    pub layout: Option<String>,
}

/// Permission configuration of a module.
#[derive(Clone, Debug)]
pub struct PermissionsConfig {
    /// Whether network access is required.
    pub network: Option<bool>,
    /// File system access permissions.
    pub filesystem: Option<FilesystemPermissions>,
}

/// File system permissions of a module.
#[derive(Clone, Debug)]
pub struct FilesystemPermissions {
    /// Readable paths.
    pub read: Option<Vec<String>>,
    /// Writable paths.
    pub write: Option<Vec<String>>,
}

} // verus!
