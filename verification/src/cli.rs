//! The command line: its arguments, and the decisions between reading them
//! and leaving the artifact at the path that was asked for.

use vstd::prelude::*;
use vstd::string::StringExecFns;
use crate::error::BundlerError;
use crate::error::CliError;
use crate::metadata::CargoManifest;
use crate::package::needs_docker;
use crate::package::package_type_of_name;
use crate::package::parse_platform_string;
use crate::package::required_os;
use crate::package::PackageType;
use crate::paths::join_path;
use crate::paths::path_join;
use crate::settings::package::PackageSettings;
use crate::text::join;
use crate::text::join_strings;
use crate::text::lower;
use crate::text::str_eq;

verus! {

/// The target that the Windows installer's binary is built for on another host.
pub const WINDOWS_GNU_TARGET: &'static str = "x86_64-pc-windows-gnu";

/// The arguments of the command line.
#[derive(Debug)]
pub struct Args {
    /// The source: a local path, `org/repo` on GitHub, or an address.
    pub source: String,
    /// The platform to bundle for.
    pub platform: String,
    /// The path at which the artifact is to lie in the end.
    pub output_binary: String,
}

/// How a package is built.
#[derive(Debug, Clone, Copy, PartialEq, Eq, Structural)]
pub enum BuildRoute {
    /// In a container, since the host cannot build it.
    Container(PackageType),
    /// On the host itself.
    Native(PackageType),
}

/// Where the command stands.
#[derive(Debug, Clone, Copy, PartialEq, Eq, Structural)]
pub enum CommandPhase {
    /// Nothing has been done.
    Start,
    /// The builder image is being made sure of.
    EnsuringImage,
    /// The container builds the package.
    RunningContainer,
    /// The sources are being fetched.
    ResolvingSource,
    /// The manifest is being read.
    LoadingManifest,
    /// The binary is being compiled.
    Compiling,
    /// The binary is being looked for.
    LocatingBinary,
    /// The package is being produced.
    Bundling,
    /// The artifact is being moved to the output path.
    Moving,
    /// The output path is being looked at.
    Verifying,
    /// The command has ended.
    Finished,
}

/// What the caller observed since the last command.
#[derive(Debug, Clone, Copy, PartialEq, Eq, Structural)]
pub enum CommandSignal {
    /// The arguments ask for a build in a container.
    RouteContainer,
    /// The arguments ask for a build on the host.
    RouteNative,
    /// The arguments were refused.
    Refused,
    /// The last step succeeded.
    StepSucceeded,
    /// The last step failed.
    StepFailed,
    /// The producers returned no artifact.
    NothingProduced,
    /// The output path exists.
    OutputPresent,
    /// The output path does not exist.
    OutputAbsent,
}

/// What the caller has to do next.
#[derive(Debug, Clone, Copy, PartialEq, Eq, Structural)]
pub enum CommandStep {
    /// Make sure that the builder image exists and is fresh.
    EnsureImage,
    /// Build the package in a container.
    RunContainer,
    /// Fetch the sources.
    ResolveSource,
    /// Read the manifest.
    LoadManifest,
    /// Compile the binary.
    Compile,
    /// Look for the binary.
    LocateBinary,
    /// Produce the package.
    Bundle,
    /// Create the parent of the output path, copy the artifact there and
    /// remove it from where it was produced.
    MoveArtifact,
    /// Look whether the output path exists.
    VerifyOutput,
    /// End with this exit code.
    Exit(i32),
    /// End with the error of the step that failed.
    Fail,
}

/// The platforms that the command line accepts.
pub open spec fn valid_platforms() -> Seq<Seq<char>> {
    seq!["deb"@, "rpm"@, "dmg"@, "macos-bundle"@, "nsis"@, "appimage"@]
}

/// What is wrong with the arguments, if anything.
pub open spec fn arguments_defect(source: Seq<char>, platform: Seq<char>) -> Option<Seq<char>> {
    if source.len() == 0 {
        Some("Source cannot be empty"@)
    } else if !valid_platforms().contains(platform) {
        Some(
            "Invalid platform: "@ + platform + ". Valid platforms: "@ + join(
                valid_platforms(),
                ", "@,
            ),
        )
    } else {
        None
    }
}

/// The phase and the step that follow a signal. The command ends with exit
/// code zero from the verifying phase alone, and only for an output path
/// that exists.
pub open spec fn command_transition(phase: CommandPhase, signal: CommandSignal) -> (
    CommandPhase,
    CommandStep,
) {
    match (phase, signal) {
        (CommandPhase::Start, CommandSignal::RouteContainer) => (
            CommandPhase::EnsuringImage,
            CommandStep::EnsureImage,
        ),
        (CommandPhase::Start, CommandSignal::RouteNative) => (
            CommandPhase::ResolvingSource,
            CommandStep::ResolveSource,
        ),
        (CommandPhase::EnsuringImage, CommandSignal::StepSucceeded) => (
            CommandPhase::RunningContainer,
            CommandStep::RunContainer,
        ),
        (CommandPhase::RunningContainer, CommandSignal::StepSucceeded) => (
            CommandPhase::Verifying,
            CommandStep::VerifyOutput,
        ),
        (CommandPhase::ResolvingSource, CommandSignal::StepSucceeded) => (
            CommandPhase::LoadingManifest,
            CommandStep::LoadManifest,
        ),
        (CommandPhase::LoadingManifest, CommandSignal::StepSucceeded) => (
            CommandPhase::Compiling,
            CommandStep::Compile,
        ),
        (CommandPhase::Compiling, CommandSignal::StepSucceeded) => (
            CommandPhase::LocatingBinary,
            CommandStep::LocateBinary,
        ),
        (CommandPhase::LocatingBinary, CommandSignal::StepSucceeded) => (
            CommandPhase::Bundling,
            CommandStep::Bundle,
        ),
        (CommandPhase::Bundling, CommandSignal::StepSucceeded) => (
            CommandPhase::Moving,
            CommandStep::MoveArtifact,
        ),
        (CommandPhase::Bundling, CommandSignal::NothingProduced) => (
            CommandPhase::Finished,
            CommandStep::Exit(1),
        ),
        (CommandPhase::Moving, CommandSignal::StepSucceeded) => (
            CommandPhase::Verifying,
            CommandStep::VerifyOutput,
        ),
        (CommandPhase::Verifying, CommandSignal::OutputPresent) => (
            CommandPhase::Finished,
            CommandStep::Exit(0),
        ),
        _ => (CommandPhase::Finished, CommandStep::Fail),
    }
}

/// How far a phase is from the start of the command.
pub open spec fn command_rank(phase: CommandPhase) -> nat {
    match phase {
        CommandPhase::Start => 0,
        CommandPhase::EnsuringImage => 1,
        CommandPhase::RunningContainer => 2,
        CommandPhase::ResolvingSource => 3,
        CommandPhase::LoadingManifest => 4,
        CommandPhase::Compiling => 5,
        CommandPhase::LocatingBinary => 6,
        CommandPhase::Bundling => 7,
        CommandPhase::Moving => 8,
        CommandPhase::Verifying => 9,
        CommandPhase::Finished => 10,
    }
}

/// The target that the binary is cross-compiled for, if it is.
pub open spec fn cross_target(package_type: PackageType, current_os: Seq<char>) -> Option<Seq<char>> {
    if package_type == PackageType::Exe && current_os != "windows"@ {
        Some(WINDOWS_GNU_TARGET@)
    } else {
        None
    }
}

/// The arguments of `cargo` that compile the binary.
pub open spec fn cargo_args(binary_name: Seq<char>, target: Option<Seq<char>>) -> Seq<Seq<char>> {
    match target {
        Some(t) => seq!["build"@, "--release"@, "--bin"@, binary_name, "--target"@, t],
        None => seq!["build"@, "--release"@, "--bin"@, binary_name],
    }
}

/// The directory in which the compiled binary lies.
pub open spec fn release_dir(repo: Seq<char>, target: Option<Seq<char>>) -> Seq<char> {
    match target {
        Some(t) => path_join(path_join(path_join(repo, "target"@), t), "release"@),
        None => path_join(path_join(repo, "target"@), "release"@),
    }
}

/// The file name of the compiled binary: with `.exe` where it is cross-compiled.
pub open spec fn binary_file_name(binary_name: Seq<char>, target: Option<Seq<char>>) -> Seq<char> {
    match target {
        Some(_) => binary_name + ".exe"@,
        None => binary_name,
    }
}

impl Args {
    /// Whether the arguments fit together: the source is not empty and the
    /// platform is one that the command line accepts.
    pub fn validate(&self) -> (r: Result<(), String>)
        ensures
            match r {
                Ok(_) => arguments_defect(self.source@, self.platform@) is None,
                Err(text) => arguments_defect(self.source@, self.platform@) == Some(text@),
            },
    {
        if self.source.as_str().unicode_len() == 0 {
            return Err(String::from_str("Source cannot be empty"));
        }
        let mut platforms: Vec<String> = Vec::new();
        platforms.push(String::from_str("deb"));
        platforms.push(String::from_str("rpm"));
        platforms.push(String::from_str("dmg"));
        platforms.push(String::from_str("macos-bundle"));
        platforms.push(String::from_str("nsis"));
        platforms.push(String::from_str("appimage"));
        proof {
            assert(platforms.deep_view() =~= valid_platforms());
        }
        if !crate::text::strings_contain(&platforms, self.platform.as_str()) {
            let mut text = String::from_str("Invalid platform: ");
            text.append(self.platform.as_str());
            text.append(". Valid platforms: ");
            let list = join_strings(&platforms, ", ");
            text.append(list.as_str());
            return Err(text);
        }
        Ok(())
    }
}

/// Whether the arguments fit together.
pub fn validate_args(args: &Args) -> (r: Result<(), String>)
    ensures
        match r {
            Ok(_) => arguments_defect(args.source@, args.platform@) is None,
            Err(text) => arguments_defect(args.source@, args.platform@) == Some(text@),
        },
{
    args.validate()
}

/// How the package that the arguments ask for is built: in a container
/// where the host is not the system that the package type requires, unless
/// the bundler runs in a container itself.
pub fn choose_route(args: &Args, in_container: bool, current_os: &str) -> (r: Result<
    BuildRoute,
    BundlerError,
>)
    ensures
        match r {
            Ok(BuildRoute::Container(t)) => {
                &&& arguments_defect(args.source@, args.platform@) is None
                &&& package_type_of_name(lower(args.platform@)) == Some(t)
                &&& !in_container && required_os(t) != current_os@
            },
            Ok(BuildRoute::Native(t)) => {
                &&& arguments_defect(args.source@, args.platform@) is None
                &&& package_type_of_name(lower(args.platform@)) == Some(t)
                &&& in_container || required_os(t) == current_os@
            },
            Err(e) => {
                &&& e matches BundlerError::Cli(CliError::InvalidArguments { reason }) && Some(
                    reason@,
                ) == arguments_defect(args.source@, args.platform@)
            },
        },
{
    match args.validate() {
        Err(reason) => {
            return Err(BundlerError::Cli(CliError::InvalidArguments { reason }));
        },
        Ok(_) => {},
    }
    proof {
        lemma_valid_platforms_parse(args.platform@);
    }
    match parse_platform_string(args.platform.as_str()) {
        Err(e) => Err(e),
        Ok(t) => {
            if needs_docker(&t, in_container, current_os) {
                Ok(BuildRoute::Container(t))
            } else {
                Ok(BuildRoute::Native(t))
            }
        },
    }
}

/// The next phase and step of the command.
pub fn command_step(phase: CommandPhase, signal: CommandSignal) -> (r: (CommandPhase, CommandStep))
    ensures
        r == command_transition(phase, signal),
{
    match (phase, signal) {
        (CommandPhase::Start, CommandSignal::RouteContainer) => (
            CommandPhase::EnsuringImage,
            CommandStep::EnsureImage,
        ),
        (CommandPhase::Start, CommandSignal::RouteNative) => (
            CommandPhase::ResolvingSource,
            CommandStep::ResolveSource,
        ),
        (CommandPhase::EnsuringImage, CommandSignal::StepSucceeded) => (
            CommandPhase::RunningContainer,
            CommandStep::RunContainer,
        ),
        (CommandPhase::RunningContainer, CommandSignal::StepSucceeded) => (
            CommandPhase::Verifying,
            CommandStep::VerifyOutput,
        ),
        (CommandPhase::ResolvingSource, CommandSignal::StepSucceeded) => (
            CommandPhase::LoadingManifest,
            CommandStep::LoadManifest,
        ),
        (CommandPhase::LoadingManifest, CommandSignal::StepSucceeded) => (
            CommandPhase::Compiling,
            CommandStep::Compile,
        ),
        (CommandPhase::Compiling, CommandSignal::StepSucceeded) => (
            CommandPhase::LocatingBinary,
            CommandStep::LocateBinary,
        ),
        (CommandPhase::LocatingBinary, CommandSignal::StepSucceeded) => (
            CommandPhase::Bundling,
            CommandStep::Bundle,
        ),
        (CommandPhase::Bundling, CommandSignal::StepSucceeded) => (
            CommandPhase::Moving,
            CommandStep::MoveArtifact,
        ),
        (CommandPhase::Bundling, CommandSignal::NothingProduced) => (
            CommandPhase::Finished,
            CommandStep::Exit(1),
        ),
        (CommandPhase::Moving, CommandSignal::StepSucceeded) => (
            CommandPhase::Verifying,
            CommandStep::VerifyOutput,
        ),
        (CommandPhase::Verifying, CommandSignal::OutputPresent) => (
            CommandPhase::Finished,
            CommandStep::Exit(0),
        ),
        _ => (CommandPhase::Finished, CommandStep::Fail),
    }
}

/// The signal that the choice of a route gives rise to.
pub fn signal_of_route(route: &Result<BuildRoute, BundlerError>) -> (r: CommandSignal)
    ensures
        r == match *route {
            Ok(BuildRoute::Container(_)) => CommandSignal::RouteContainer,
            Ok(BuildRoute::Native(_)) => CommandSignal::RouteNative,
            Err(_) => CommandSignal::Refused,
        },
{
    match route {
        Ok(BuildRoute::Container(_)) => CommandSignal::RouteContainer,
        Ok(BuildRoute::Native(_)) => CommandSignal::RouteNative,
        Err(_) => CommandSignal::Refused,
    }
}

/// The target that the binary is cross-compiled for, if it is: the Windows
/// installer's binary on every host but Windows.
pub fn cross_compile_target(package_type: PackageType, current_os: &str) -> (r: Option<
    &'static str,
>)
    ensures
        match r {
            Some(t) => cross_target(package_type, current_os@) == Some(t@),
            None => cross_target(package_type, current_os@) is None,
        },
{
    if package_type == PackageType::Exe && !str_eq(current_os, "windows") {
        Some(WINDOWS_GNU_TARGET)
    } else {
        None
    }
}

/// The arguments of `cargo` that compile the binary.
pub fn cargo_build_args(binary_name: &str, target: Option<&str>) -> (r: Vec<String>)
    ensures
        r.deep_view() == cargo_args(
            binary_name@,
            match target {
                Some(t) => Some(t@),
                None => None,
            },
        ),
{
    let mut r: Vec<String> = Vec::new();
    r.push(String::from_str("build"));
    r.push(String::from_str("--release"));
    r.push(String::from_str("--bin"));
    r.push(String::from_str(binary_name));
    match target {
        Some(t) => {
            r.push(String::from_str("--target"));
            r.push(String::from_str(t));
            proof {
                assert(r.deep_view() =~= seq![
                    "build"@,
                    "--release"@,
                    "--bin"@,
                    binary_name@,
                    "--target"@,
                    t@,
                ]);
            }
        },
        None => {
            proof {
                assert(r.deep_view() =~= seq!["build"@, "--release"@, "--bin"@, binary_name@]);
            }
        },
    }
    r
}

/// The directory in which the compiled binary lies.
pub fn release_directory(repo: &str, target: Option<&str>) -> (r: String)
    ensures
        r@ == release_dir(
            repo@,
            match target {
                Some(t) => Some(t@),
                None => None,
            },
        ),
{
    let base = join_path(repo, "target");
    match target {
        Some(t) => {
            let dir = join_path(base.as_str(), t);
            join_path(dir.as_str(), "release")
        },
        None => join_path(base.as_str(), "release"),
    }
}

/// The path at which the compiled binary is expected.
pub fn expected_binary_path(repo: &str, binary_name: &str, target: Option<&str>) -> (r: String)
    ensures
        r@ == path_join(
            release_dir(
                repo@,
                match target {
                    Some(t) => Some(t@),
                    None => None,
                },
            ),
            binary_file_name(
                binary_name@,
                match target {
                    Some(t) => Some(t@),
                    None => None,
                },
            ),
        ),
{
    let dir = release_directory(repo, target);
    let mut name = String::from_str(binary_name);
    if target.is_some() {
        name.append(".exe");
    }
    join_path(dir.as_str(), name.as_str())
}

/// The package settings that a manifest gives.
pub fn package_settings_of(manifest: &CargoManifest) -> (r: PackageSettings)
    ensures
        r.product_name@ == manifest.metadata.name@,
        r.version@ == manifest.metadata.version@,
        r.description@ == manifest.metadata.description@,
        match (manifest.metadata.homepage, r.homepage) {
            (Some(a), Some(b)) => a@ == b@,
            (None, None) => true,
            _ => false,
        },
        r.authors matches Some(authors) && authors.deep_view() == manifest.metadata.authors.deep_view(),
        r.default_run matches Some(name) && name@ == manifest.binary_name@,
{
    let mut authors: Vec<String> = Vec::new();
    let mut i: usize = 0;
    while i < manifest.metadata.authors.len()
        invariant
            i <= manifest.metadata.authors.len(),
            authors.len() == i,
            forall|k: int| 0 <= k < i ==> (#[trigger] authors[k])@ == manifest.metadata.authors[k]@,
        decreases manifest.metadata.authors.len() - i,
    {
        authors.push(String::from_str(manifest.metadata.authors[i].as_str()));
        i += 1;
    }
    proof {
        assert(authors.deep_view() =~= manifest.metadata.authors.deep_view());
    }
    PackageSettings {
        product_name: String::from_str(manifest.metadata.name.as_str()),
        version: String::from_str(manifest.metadata.version.as_str()),
        description: String::from_str(manifest.metadata.description.as_str()),
        homepage: match &manifest.metadata.homepage {
            Some(h) => Some(String::from_str(h.as_str())),
            None => None,
        },
        authors: Some(authors),
        default_run: Some(String::from_str(manifest.binary_name.as_str())),
    }
}

/// The report on an output path that does not exist although every step
/// before reported success.
pub fn missing_output_error(after_container: bool, output_path: &str) -> (e: BundlerError)
    ensures
        e matches BundlerError::Cli(CliError::ExecutionFailed { command, reason }) && if after_container {
            command@ == "docker container bundle"@ && reason@
                == "Container bundling completed but artifact not found at "@ + output_path@
        } else {
            command@ == "verify output"@ && reason@
                == "Move reported success but file does not exist at "@ + output_path@
        },
{
    if after_container {
        let mut reason = String::from_str("Container bundling completed but artifact not found at ");
        reason.append(output_path);
        BundlerError::Cli(
            CliError::ExecutionFailed {
                command: String::from_str("docker container bundle"),
                reason,
            },
        )
    } else {
        let mut reason = String::from_str("Move reported success but file does not exist at ");
        reason.append(output_path);
        BundlerError::Cli(
            CliError::ExecutionFailed { command: String::from_str("verify output"), reason },
        )
    }
}

/// Every platform that the command line accepts names a package type.
pub proof fn lemma_valid_platforms_parse(platform: Seq<char>)
    requires
        valid_platforms().contains(platform),
    ensures
        package_type_of_name(lower(platform)) is Some,
{
    reveal_strlit("deb");
    reveal_strlit("rpm");
    reveal_strlit("dmg");
    reveal_strlit("macos-bundle");
    reveal_strlit("nsis");
    reveal_strlit("appimage");
    let i = choose|i: int| 0 <= i < valid_platforms().len() && valid_platforms()[i] == platform;
    assert(lower("deb"@) =~= "deb"@);
    assert(lower("rpm"@) =~= "rpm"@);
    assert(lower("dmg"@) =~= "dmg"@);
    assert(lower("macos-bundle"@) =~= "macos-bundle"@);
    assert(lower("nsis"@) =~= "nsis"@);
    assert(lower("appimage"@) =~= "appimage"@);
}

/// Exit code zero means that the artifact is at the output path: the command
/// ends with it only when the output path was looked at and found.
pub proof fn lemma_success_means_output_exists(phase: CommandPhase, signal: CommandSignal)
    requires
        command_transition(phase, signal).1 == CommandStep::Exit(0),
    ensures
        phase == CommandPhase::Verifying,
        signal == CommandSignal::OutputPresent,
{
}

/// A step that failed ends the command at once with that failure, and so
/// does an output path that is not there.
pub proof fn lemma_failure_ends_command(phase: CommandPhase)
    ensures
        command_transition(phase, CommandSignal::StepFailed) == (
            CommandPhase::Finished,
            CommandStep::Fail,
        ),
        command_transition(phase, CommandSignal::OutputAbsent) == (
            CommandPhase::Finished,
            CommandStep::Fail,
        ),
        command_transition(phase, CommandSignal::Refused) == (
            CommandPhase::Finished,
            CommandStep::Fail,
        ),
{
}

/// Every signal moves the command forward, so it ends after at most ten signals.
pub proof fn lemma_command_always_advances(phase: CommandPhase, signal: CommandSignal)
    requires
        phase != CommandPhase::Finished,
    ensures
        command_rank(command_transition(phase, signal).0) > command_rank(phase),
{
}

} // verus!
