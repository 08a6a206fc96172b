pub mod arch;
pub mod builder;
pub mod bundle;
pub mod config;
pub mod linux;
pub mod macos;
pub mod package;
pub mod windows;
