//! Discovery of an Azure Developer CLI project and its active environment, and
//! the policy for loading that environment's variables.
//!
//! Filesystem and process-environment access is left to the caller: discovery
//! and loading are state machines that issue [`Request`]s and advance on the
//! matching [`Reply`]s.

pub mod context;
pub mod error;
mod json;
pub mod loader;
pub mod path;

pub use context::{context_from_config, AzdContext, AzdContextBuilder, BuildStep, ContextResolver, Reply, Request};
pub use error::{Error, ErrorKind};
pub use loader::{load, loader, LoadStep, Loader, Loading};

