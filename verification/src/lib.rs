//! Packaging of compiled binaries into native installers: which packages a
//! run builds and in which order, how a build in a container is run, ended
//! and diagnosed, which shared libraries a macOS binary needs bundled, and
//! the content digest of what was built. Reading, writing, spawning and
//! waiting are left to the caller; what is decided is decided here.

pub mod checksum;
pub mod cli;
pub mod docker;
pub mod error;
pub mod macos;
pub mod metadata;
pub mod orchestrator;
pub mod package;
pub mod paths;
pub mod platform;
pub mod settings;
pub mod signing;
pub mod source;
pub mod text;
