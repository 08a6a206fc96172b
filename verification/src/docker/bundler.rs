//! Building one package in a container, from the fresh container name to the
//! removal of the container on every way out.

use vstd::prelude::*;
use vstd::string::StringExecFns;
use crate::docker::container_runner::full_bundle_args;
use crate::docker::container_runner::ContainerRunResult;
use crate::docker::container_runner::ContainerRunner;
use crate::docker::limits::limits_defect;
use crate::docker::limits::ContainerLimits;
use crate::docker::oom_detector::has_oom_marker;
use crate::docker::oom_detector::is_container_failure;
use crate::docker::oom_detector::report_reason;
use crate::docker::oom_detector::stderr_text;
use crate::docker::oom_detector::triage_stderr;
use crate::docker::oom_detector::OomDetector;
use crate::docker::oom_detector::Triage;
use crate::error::BundlerError;
use crate::error::CliError;
use crate::package::PackageType;
use crate::paths::parent;
use crate::paths::path_parent;
use crate::text::starts_with;

verus! {

/// The image in which packages are built.
pub const BUILDER_IMAGE_NAME: &'static str = "kodegen-release-builder";

/// What every container name begins with.
pub const CONTAINER_NAME_PREFIX: &'static str = "kodegen-bundle-";

/// `Uuid::new_v4` of the uuid crate, written out by its `Display`: a random
/// identifier in the hyphenated form, which is 36 characters long. Nothing
/// else is claimed of it: two calls give different texts.
#[verifier::external_body]
fn new_uuid_text() -> (r: String)
    ensures
        r@.len() == 36,
{
    uuid::Uuid::new_v4().to_string()
}

/// Builds one package in a container.
#[derive(Debug)]
pub struct ContainerBundler {
    image_name: String,
    source: String,
    output_path: String,
    /// The resource ceilings of the container.
    pub limits: ContainerLimits,
}

/// What a container build needs before the container starts.
#[derive(Debug)]
pub struct ContainerPlan {
    /// The name of the container.
    pub container_name: String,
    /// The directory on the host that is mounted as the container's output directory.
    pub output_dir: String,
    /// The arguments of the container runtime.
    pub docker_args: Vec<String>,
}

/// Where a container build stands.
#[derive(Debug, Clone, Copy, PartialEq, Eq, Structural)]
pub enum SessionPhase {
    /// The container has a name; nothing else has happened.
    Ready,
    /// The output directory is being created.
    PreparingOutput,
    /// The container runs.
    Running,
    /// The run failed; the runtime is asked about the container while it
    /// still exists. Where standard error names memory exhaustion the cause
    /// is settled already, and the answer says only how the report words it.
    Diagnosing,
    /// The container is being removed.
    Cleaning,
    /// The build has been reported.
    Done,
}

/// What the caller observed since the last command.
#[derive(Debug, Clone, Copy, PartialEq, Eq, Structural)]
pub enum SessionSignal {
    /// The caller asks for the first command.
    Begin,
    /// The output path has no parent directory.
    OutputParentMissing,
    /// The output directory exists now.
    OutputDirReady,
    /// The output directory could not be created.
    OutputDirFailed,
    /// The run exited with success.
    RunSucceeded,
    /// The run could not be started or awaited, or timed out.
    RunErrored,
    /// The run failed, and its standard error names memory exhaustion.
    RunFailedOomEvident,
    /// The run failed, and its standard error does not name memory exhaustion.
    RunFailedUnclear,
    /// The runtime has answered, or could not answer.
    RuntimeAnswered,
    /// The container has been removed, or could not be.
    ContainerRemoved,
}

/// What the caller has to do next.
#[derive(Debug, Clone, Copy, PartialEq, Eq, Structural)]
pub enum SessionCommand {
    /// Create the output directory with all its ancestors.
    CreateOutputDir,
    /// Run the container.
    RunContainer,
    /// Ask the runtime whether its memory killer ended the container.
    InspectContainer,
    /// Remove the container.
    RemoveContainer,
    /// Report what was found.
    Report,
}

/// The phase and the command that follow a signal. After a run that failed
/// the runtime is asked about the container before the container is
/// removed. A signal that a phase does not expect ends the build as a
/// failure would: the container is removed, unless it has been already.
pub open spec fn session_transition(phase: SessionPhase, signal: SessionSignal) -> (
    SessionPhase,
    SessionCommand,
) {
    match (phase, signal) {
        (SessionPhase::Ready, SessionSignal::Begin) => (
            SessionPhase::PreparingOutput,
            SessionCommand::CreateOutputDir,
        ),
        (SessionPhase::PreparingOutput, SessionSignal::OutputDirReady) => (
            SessionPhase::Running,
            SessionCommand::RunContainer,
        ),
        (SessionPhase::Running, SessionSignal::RunFailedUnclear) => (
            SessionPhase::Diagnosing,
            SessionCommand::InspectContainer,
        ),
        (SessionPhase::Running, SessionSignal::RunFailedOomEvident) => (
            SessionPhase::Diagnosing,
            SessionCommand::InspectContainer,
        ),
        (SessionPhase::Cleaning, _) => (SessionPhase::Done, SessionCommand::Report),
        (SessionPhase::Done, _) => (SessionPhase::Done, SessionCommand::Report),
        _ => (SessionPhase::Cleaning, SessionCommand::RemoveContainer),
    }
}

/// How far a phase is from the start of a build.
pub open spec fn session_rank(phase: SessionPhase) -> nat {
    match phase {
        SessionPhase::Ready => 0,
        SessionPhase::PreparingOutput => 1,
        SessionPhase::Running => 2,
        SessionPhase::Diagnosing => 3,
        SessionPhase::Cleaning => 4,
        SessionPhase::Done => 5,
    }
}

/// The phase reached from `Ready` by the signals, in order.
pub open spec fn session_after(signals: Seq<SessionSignal>) -> SessionPhase
    decreases signals.len(),
{
    if signals.len() == 0 {
        SessionPhase::Ready
    } else {
        session_transition(session_after(signals.drop_last()), signals.last()).0
    }
}

/// How often the command was given on the way from `Ready` through the signals.
pub open spec fn times_commanded(signals: Seq<SessionSignal>, command: SessionCommand) -> nat
    decreases signals.len(),
{
    if signals.len() == 0 {
        0
    } else {
        let before = times_commanded(signals.drop_last(), command);
        if session_transition(session_after(signals.drop_last()), signals.last()).1 == command {
            before + 1
        } else {
            before
        }
    }
}

/// The signal that the end of a run gives rise to.
pub open spec fn run_signal(outcome: Result<ContainerRunResult, BundlerError>) -> SessionSignal {
    match outcome {
        Err(_) => SessionSignal::RunErrored,
        Ok(result) => if result.exit_code == Some(0i32) {
            SessionSignal::RunSucceeded
        } else if has_oom_marker(stderr_text(result.stderr_lines.deep_view())) {
            SessionSignal::RunFailedOomEvident
        } else {
            SessionSignal::RunFailedUnclear
        },
    }
}

/// The name of a container: the fixed prefix and the identifier.
pub fn container_name(identifier: &str) -> (r: String)
    ensures
        r@ == CONTAINER_NAME_PREFIX@ + identifier@,
{
    let mut r = String::from_str(CONTAINER_NAME_PREFIX);
    r.append(identifier);
    r
}

/// A container name with a fresh random identifier, so that runs at the same
/// time get names of their own without any lock.
pub fn fresh_container_name() -> (r: String)
    ensures
        starts_with(r@, CONTAINER_NAME_PREFIX@),
        r@.len() == CONTAINER_NAME_PREFIX@.len() + 36,
{
    let identifier = new_uuid_text();
    let r = container_name(identifier.as_str());
    proof {
        assert(r@.subrange(0, CONTAINER_NAME_PREFIX@.len() as int) =~= CONTAINER_NAME_PREFIX@);
    }
    r
}

/// The next phase and command of a container build.
pub fn session_step(phase: SessionPhase, signal: SessionSignal) -> (r: (
    SessionPhase,
    SessionCommand,
))
    ensures
        r == session_transition(phase, signal),
{
    match (phase, signal) {
        (SessionPhase::Ready, SessionSignal::Begin) => (
            SessionPhase::PreparingOutput,
            SessionCommand::CreateOutputDir,
        ),
        (SessionPhase::PreparingOutput, SessionSignal::OutputDirReady) => (
            SessionPhase::Running,
            SessionCommand::RunContainer,
        ),
        (SessionPhase::Running, SessionSignal::RunFailedUnclear) => (
            SessionPhase::Diagnosing,
            SessionCommand::InspectContainer,
        ),
        (SessionPhase::Running, SessionSignal::RunFailedOomEvident) => (
            SessionPhase::Diagnosing,
            SessionCommand::InspectContainer,
        ),
        (SessionPhase::Cleaning, _) => (SessionPhase::Done, SessionCommand::Report),
        (SessionPhase::Done, _) => (SessionPhase::Done, SessionCommand::Report),
        _ => (SessionPhase::Cleaning, SessionCommand::RemoveContainer),
    }
}

/// The signal that the end of a run gives rise to: an error of the run
/// itself, success, or a failure that standard error does or does not explain.
pub fn signal_of_run(outcome: &Result<ContainerRunResult, BundlerError>) -> (r: SessionSignal)
    ensures
        r == run_signal(*outcome),
{
    match outcome {
        Err(_) => SessionSignal::RunErrored,
        Ok(result) => {
            if result.success() {
                SessionSignal::RunSucceeded
            } else {
                match triage_stderr(&result.stderr_lines) {
                    Triage::Decided(_) => SessionSignal::RunFailedOomEvident,
                    Triage::AskRuntime => SessionSignal::RunFailedUnclear,
                }
            }
        },
    }
}

impl ContainerBundler {
    /// The image in which the package is built.
    pub closed spec fn image(&self) -> Seq<char> {
        self.image_name@
    }

    /// The source that the container is told to build.
    pub closed spec fn source_text(&self) -> Seq<char> {
        self.source@
    }

    /// The path at which the artifact is promised.
    pub closed spec fn output(&self) -> Seq<char> {
        self.output_path@
    }

    /// The resource ceilings of the container.
    pub closed spec fn ceilings(&self) -> ContainerLimits {
        self.limits
    }

    /// A bundler that builds `source` in the builder image and leaves the
    /// artifact at `output_path`.
    pub fn new(source: String, output_path: String, limits: ContainerLimits) -> (r: Self)
        ensures
            r.image() == BUILDER_IMAGE_NAME@,
            r.source_text() == source@,
            r.output() == output_path@,
            r.ceilings() == limits,
    {
        Self { image_name: String::from_str(BUILDER_IMAGE_NAME), source, output_path, limits }
    }

    /// The path at which the artifact is promised.
    pub fn output_path(&self) -> (r: &str)
        ensures
            r@ == self.output(),
    {
        self.output_path.as_str()
    }

    /// What the build of `platform` in the container `container_name` needs:
    /// the parent of the output path as the directory to mount, and the
    /// runtime's arguments with this bundler's limits. Limits whose ceiling on
    /// memory plus swap lies below the memory ceiling are refused, and so is
    /// an output path without a parent.
    pub fn plan(&self, container_name: &str, platform: PackageType) -> (r: Result<
        ContainerPlan,
        BundlerError,
    >)
        ensures
            match r {
                Ok(plan) => {
                    &&& self.ceilings().well_formed()
                    &&& parent(self.output()) == Some(plan.output_dir@)
                    &&& plan.container_name@ == container_name@
                    &&& plan.docker_args.deep_view() == full_bundle_args(
                        self.image(),
                        plan.output_dir@,
                        self.ceilings().memory@,
                        self.ceilings().memory_swap@,
                        self.ceilings().cpus@,
                        self.ceilings().pids_limit as nat,
                        container_name@,
                        self.source_text(),
                        self.output(),
                        platform,
                    )
                },
                Err(e) => if !self.ceilings().well_formed() {
                    e matches BundlerError::Cli(CliError::InvalidArguments { reason }) && reason@
                        == limits_defect(self.ceilings().memory@, self.ceilings().memory_swap@)
                } else {
                    &&& parent(self.output()) is None
                    &&& e matches BundlerError::Cli(CliError::ExecutionFailed { command, reason })
                        && command@ == "determine output directory"@ && reason@
                        == "Output path has no parent directory: "@ + self.output()
                },
            },
    {
        match self.limits.validate() {
            Ok(_) => {},
            Err(e) => {
                return Err(BundlerError::Cli(e));
            },
        }
        match path_parent(self.output_path.as_str()) {
            None => {
                let mut reason = String::from_str("Output path has no parent directory: ");
                reason.append(self.output_path.as_str());
                Err(
                    BundlerError::Cli(
                        CliError::ExecutionFailed {
                            command: String::from_str("determine output directory"),
                            reason,
                        },
                    ),
                )
            },
            Some(output_dir) => {
                let runner = ContainerRunner::new(
                    String::from_str(self.image_name.as_str()),
                    String::from_str(output_dir.as_str()),
                    String::from_str(self.limits.memory.as_str()),
                    String::from_str(self.limits.memory_swap.as_str()),
                    String::from_str(self.limits.cpus.as_str()),
                    self.limits.pids_limit,
                );
                let docker_args = runner.build_docker_args_for_full_bundle(
                    container_name,
                    self.source.as_str(),
                    self.output_path.as_str(),
                    platform,
                );
                Ok(
                    ContainerPlan {
                        container_name: String::from_str(container_name),
                        output_dir,
                        docker_args,
                    },
                )
            },
        }
    }

    /// The report on a run that failed: memory exhaustion where standard
    /// error or the runtime says so, a kill without such evidence for exit
    /// code 137, and the general report otherwise.
    pub fn handle_container_failure(
        &self,
        platform: PackageType,
        exit_code: i32,
        stderr_lines: &Vec<String>,
        oom_killed: bool,
        total_memory_gb: u64,
    ) -> (e: BundlerError)
        ensures
            is_container_failure(
                e,
                platform,
                report_reason(
                    self.ceilings().memory@,
                    self.ceilings().memory_swap@,
                    platform,
                    exit_code as int,
                    oom_killed,
                    total_memory_gb as nat,
                    stderr_text(stderr_lines.deep_view()),
                ),
            ),
    {
        let detector = OomDetector::new(
            String::from_str(self.limits.memory.as_str()),
            String::from_str(self.limits.memory_swap.as_str()),
        );
        detector.failure_report(platform, exit_code, stderr_lines, oom_killed, total_memory_gb)
    }
}

/// Every signal moves a build forward, so no phase is entered twice.
pub proof fn lemma_session_always_advances(phase: SessionPhase, signal: SessionSignal)
    requires
        phase != SessionPhase::Done,
    ensures
        session_rank(session_transition(phase, signal).0) > session_rank(phase),
{
}

/// The container is removed on every way out: a build is reported only after
/// the removal was commanded, and the removal is commanded exactly on
/// entering the cleaning phase.
pub proof fn lemma_cleanup_before_report(phase: SessionPhase, signal: SessionSignal)
    ensures
        phase != SessionPhase::Done && session_transition(phase, signal).0 == SessionPhase::Done
            ==> phase == SessionPhase::Cleaning,
        session_transition(phase, signal).1 == SessionCommand::RemoveContainer <==> (
        session_transition(phase, signal).0 == SessionPhase::Cleaning),
{
}

/// The runtime is asked about the container only while the container still
/// exists: the question is put before the cleaning phase, and only after a
/// run that failed.
pub proof fn lemma_diagnosis_before_cleanup(phase: SessionPhase, signal: SessionSignal)
    requires
        session_transition(phase, signal).1 == SessionCommand::InspectContainer,
    ensures
        phase == SessionPhase::Running,
        signal == SessionSignal::RunFailedUnclear || signal == SessionSignal::RunFailedOomEvident,
        session_rank(session_transition(phase, signal).0) < session_rank(SessionPhase::Cleaning),
{
}

/// On the way from the start through any signals the container is removed at
/// most once, and it has been removed exactly once as soon as the cleaning
/// phase is reached; the runtime is asked at most once.
pub proof fn lemma_container_removed_once(signals: Seq<SessionSignal>)
    ensures
        times_commanded(signals, SessionCommand::RemoveContainer) == if session_rank(
            session_after(signals),
        ) >= 4 {
            1nat
        } else {
            0nat
        },
        times_commanded(signals, SessionCommand::InspectContainer) <= 1,
        times_commanded(signals, SessionCommand::InspectContainer) == 1 ==> session_rank(
            session_after(signals),
        ) >= 3,
    decreases signals.len(),
{
    if signals.len() > 0 {
        lemma_container_removed_once(signals.drop_last());
    }
}

/// A build that got six signals is over.
pub proof fn lemma_session_ends(signals: Seq<SessionSignal>)
    ensures
        session_rank(session_after(signals)) >= if signals.len() < 5 {
            signals.len()
        } else {
            5
        },
    decreases signals.len(),
{
    if signals.len() > 0 {
        lemma_session_ends(signals.drop_last());
    }
}

} // verus!
