//! Resolves the activation state of a directory-scoped environment loader
//! and selects the texts a shell prompt shows for it.
//!
//! A state says which configuration file governs a directory, which one is
//! loaded in the session, and whether each may be loaded. It is decoded from
//! the loader's status report, or resolved from a snapshot of the directory,
//! the environment and the permission store.

pub mod config;
pub mod context;
pub mod fingerprint;
pub mod formats;
pub mod json;
pub mod laws;
pub mod raw;
pub mod render;
pub mod resolve;
pub mod state;
pub mod status;
pub mod text;

pub use crate::config::DirenvConfig;
pub use crate::context::{Context, EnvVar, FileEntry};
pub use crate::raw::{RCStatus, RawDirenvState, State};
pub use crate::render::{module, Module};
pub use crate::resolve::ResolveError;
pub use crate::state::DirenvState;
pub use crate::status::{AllowStatus, ParseError};
