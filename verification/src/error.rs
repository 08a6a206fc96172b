//! Error types of the bundler, one variant per kind of failure.

use vstd::prelude::*;
use vstd::string::StringExecFns;
use crate::package::PackageType;
use crate::package::platform_type_to_string;
use crate::package::package_type_name;
use crate::text::join;
use crate::text::join_strings;

verus! {

/// Failures of the command line and of the tools it drives.
#[derive(Debug, Clone)]
pub enum CliError {
    /// Invalid command line arguments.
    InvalidArguments { reason: String },
    /// A required argument is missing.
    MissingArgument { argument: String },
    /// Arguments that exclude each other.
    ConflictingArguments { arguments: Vec<String> },
    /// An external command failed.
    ExecutionFailed { command: String, reason: String },
}

/// Failures of a platform producer and of the steps around it.
#[derive(Debug, Clone)]
pub enum ProducerError {
    /// A file system operation failed; the text names it.
    IoError(String),
    /// A failure described only by its text.
    GenericError(String),
    /// The target architecture cannot be packaged this way.
    ArchError(String),
    /// No icon paths are configured.
    IconPathError,
    /// An external tool could not be started.
    CommandFailed { command: String, error: String },
    /// The package type cannot be produced on this host.
    UnsupportedPackageType(PackageType),
    /// A producer reported success and returned no path: a bundler bug.
    NoOutputPaths(PackageType),
    /// A binary's load-command table could not be parsed.
    BinaryParse(String),
    /// A non-system library is missing or cannot be resolved.
    DependencyResolution(String),
    /// A path to be hashed is neither a regular file nor a directory.
    PathType(String),
}

/// Every failure the bundler reports.
#[derive(Debug, Clone)]
pub enum BundlerError {
    /// A command line or external command failure.
    Cli(CliError),
    /// An I/O failure, by its text.
    Io(String),
    /// A JSON failure, by its text.
    Json(String),
    /// A TOML failure, by its text.
    Toml(String),
    /// A producer failure.
    Bundler(ProducerError),
    /// Any other failure, by its text.
    Anyhow(String),
}

/// The text of a `CliError`.
pub open spec fn cli_error_text(e: CliError) -> Seq<char> {
    match e {
        CliError::InvalidArguments { reason } => "Invalid arguments: "@ + reason@,
        CliError::MissingArgument { argument } => "Missing required argument: "@ + argument@,
        CliError::ConflictingArguments { arguments } => "Conflicting arguments: "@ + join(
            arguments.deep_view(),
            ", "@,
        ),
        CliError::ExecutionFailed { command, reason } => "Command execution failed: "@ + command@
            + " - "@ + reason@,
    }
}

/// The text of a `ProducerError`.
pub open spec fn error_text(e: ProducerError) -> Seq<char> {
    match e {
        ProducerError::IoError(text) => "I/O error: "@ + text@,
        ProducerError::GenericError(text) => text@,
        ProducerError::ArchError(text) => "Architecture error: "@ + text@,
        ProducerError::IconPathError => "No icon paths configured"@,
        ProducerError::CommandFailed { command, error } => "Failed to run "@ + command@ + ": "@ + error@,
        ProducerError::UnsupportedPackageType(t) => "Package type "@ + package_type_name(t)
            + " not supported on this platform"@,
        ProducerError::NoOutputPaths(t) => "Platform bundler for "@ + package_type_name(t)
            + " returned no paths - this indicates a bundler bug"@,
        ProducerError::BinaryParse(text) => "failed to parse binary: "@ + text@,
        ProducerError::DependencyResolution(text) => text@,
        ProducerError::PathType(path) => "Path is neither file nor directory: "@ + path@,
    }
}

/// The text of a `BundlerError`.
pub open spec fn bundler_error_text(e: BundlerError) -> Seq<char> {
    match e {
        BundlerError::Cli(inner) => "CLI error: "@ + cli_error_text(inner),
        BundlerError::Io(text) => "IO error: "@ + text@,
        BundlerError::Json(text) => "JSON error: "@ + text@,
        BundlerError::Toml(text) => "TOML error: "@ + text@,
        BundlerError::Bundler(inner) => "Bundler error: "@ + error_text(inner),
        BundlerError::Anyhow(text) => text@,
    }
}

impl CliError {
    /// The text shown for this error.
    pub fn message(&self) -> (r: String)
        ensures
            r@ == cli_error_text(*self),
    {
        match self {
            CliError::InvalidArguments { reason } => {
                let mut r = String::from_str("Invalid arguments: ");
                r.append(reason.as_str());
                r
            },
            CliError::MissingArgument { argument } => {
                let mut r = String::from_str("Missing required argument: ");
                r.append(argument.as_str());
                r
            },
            CliError::ConflictingArguments { arguments } => {
                let mut r = String::from_str("Conflicting arguments: ");
                let list = join_strings(arguments, ", ");
                r.append(list.as_str());
                r
            },
            CliError::ExecutionFailed { command, reason } => {
                let mut r = String::from_str("Command execution failed: ");
                r.append(command.as_str());
                r.append(" - ");
                r.append(reason.as_str());
                r
            },
        }
    }
}

impl ProducerError {
    /// The text shown for this error.
    pub fn message(&self) -> (r: String)
        ensures
            r@ == error_text(*self),
    {
        match self {
            ProducerError::IoError(text) => {
                let mut r = String::from_str("I/O error: ");
                r.append(text.as_str());
                r
            },
            ProducerError::GenericError(text) => String::from_str(text.as_str()),
            ProducerError::ArchError(text) => {
                let mut r = String::from_str("Architecture error: ");
                r.append(text.as_str());
                r
            },
            ProducerError::IconPathError => String::from_str("No icon paths configured"),
            ProducerError::CommandFailed { command, error } => {
                let mut r = String::from_str("Failed to run ");
                r.append(command.as_str());
                r.append(": ");
                r.append(error.as_str());
                r
            },
            ProducerError::UnsupportedPackageType(t) => {
                let mut r = String::from_str("Package type ");
                r.append(platform_type_to_string(*t));
                r.append(" not supported on this platform");
                r
            },
            ProducerError::NoOutputPaths(t) => {
                let mut r = String::from_str("Platform bundler for ");
                r.append(platform_type_to_string(*t));
                r.append(" returned no paths - this indicates a bundler bug");
                r
            },
            ProducerError::BinaryParse(text) => {
                let mut r = String::from_str("failed to parse binary: ");
                r.append(text.as_str());
                r
            },
            ProducerError::DependencyResolution(text) => String::from_str(text.as_str()),
            ProducerError::PathType(path) => {
                let mut r = String::from_str("Path is neither file nor directory: ");
                r.append(path.as_str());
                r
            },
        }
    }
}

impl BundlerError {
    /// The text shown for this error.
    pub fn message(&self) -> (r: String)
        ensures
            r@ == bundler_error_text(*self),
    {
        match self {
            BundlerError::Cli(inner) => {
                let mut r = String::from_str("CLI error: ");
                let m = inner.message();
                r.append(m.as_str());
                r
            },
            BundlerError::Io(text) => {
                let mut r = String::from_str("IO error: ");
                r.append(text.as_str());
                r
            },
            BundlerError::Json(text) => {
                let mut r = String::from_str("JSON error: ");
                r.append(text.as_str());
                r
            },
            BundlerError::Toml(text) => {
                let mut r = String::from_str("TOML error: ");
                r.append(text.as_str());
                r
            },
            BundlerError::Bundler(inner) => {
                let mut r = String::from_str("Bundler error: ");
                let m = inner.message();
                r.append(m.as_str());
                r
            },
            BundlerError::Anyhow(text) => String::from_str(text.as_str()),
        }
    }

    /// What a user can do about this error: one general hint.
    pub fn recovery_suggestions(&self) -> (r: Vec<String>)
        ensures
            r.len() == 1,
            r[0]@ == "Check the error message above for specific details"@,
    {
        let mut r: Vec<String> = Vec::new();
        r.push(String::from_str("Check the error message above for specific details"));
        r
    }

    /// Every error is one the user can recover from.
    pub fn is_recoverable(&self) -> (r: bool)
        ensures
            r,
    {
        true
    }
}

} // verus!
