//! One container run: the arguments handed to the container runtime, and the
//! decisions taken between spawning the process and reporting how it ended.

use vstd::prelude::*;
use vstd::string::StringExecFns;
use crate::error::BundlerError;
use crate::error::CliError;
use crate::package::package_type_name;
use crate::package::platform_type_to_string;
use crate::package::PackageType;
use crate::paths::file_name;
use crate::paths::path_file_name;
use crate::text::decimal;
use crate::text::join;
use crate::text::join_strings;
use crate::text::push_decimal;
use crate::text::u64_to_string;

verus! {

/// The longest a container run may take, in seconds: twenty minutes.
pub const DOCKER_RUN_TIMEOUT_SECS: u64 = 1200;

/// How long the exit of a killed run is awaited, in seconds.
pub const KILL_GRACE_SECS: u64 = 10;

/// What the report on a timed-out run says after the minutes.
pub const TIMEOUT_ADVICE: &'static str = " minutes.\n\
    \n\
    This usually indicates:\n\
    • Very slow build (large dependency downloads)\n\
    • System resource constraints\n\
    • Network issues\n\
    \n\
    Try:\n\
    • Increase container resource limits\n\
    • Check available system memory/CPU\n\
    • Use --build flag to reuse cached builds";

/// How a container run ended, and what it wrote to standard error.
#[derive(Debug)]
pub struct ContainerRunResult {
    /// The exit code, where the process ended with one.
    pub exit_code: Option<i32>,
    /// The captured lines of standard error, in the order written.
    pub stderr_lines: Vec<String>,
}

/// Runs the bundler in a container under fixed resource ceilings.
#[derive(Debug)]
pub struct ContainerRunner {
    image_name: String,
    workspace_path: String,
    memory_limit: String,
    memory_swap: String,
    cpus_limit: String,
    pids_limit: u32,
}

/// Where a container run stands.
#[derive(Debug, Clone, Copy, PartialEq, Eq, Structural)]
pub enum RunPhase {
    /// Nothing has been started.
    Idle,
    /// The process is being spawned.
    Spawning,
    /// The process runs; both of its output pipes are read at the same time.
    Draining,
    /// Both pipes are closed; the exit is awaited under the overall timeout.
    Waiting,
    /// The timeout struck; the kill signal is being sent.
    Killing,
    /// The kill signal was sent; the exit is awaited for the grace period.
    Reaping,
    /// The run has been reported.
    Done,
}

/// What the caller observed since the last command.
#[derive(Debug, Clone, Copy, PartialEq, Eq, Structural)]
pub enum RunSignal {
    /// The caller asks for the first command.
    Begin,
    /// The process was spawned.
    Spawned,
    /// The process could not be spawned.
    SpawnFailed,
    /// Both output pipes have been read to their end.
    StreamsClosed,
    /// The process has exited.
    Exited,
    /// Waiting for the exit failed.
    WaitFailed,
    /// The time allowed has run out.
    TimedOut,
    /// The kill signal was sent, or sending it failed.
    KillAttempted,
}

/// What the caller has to do next.
#[derive(Debug, Clone, Copy, PartialEq, Eq, Structural)]
pub enum RunCommand {
    /// Spawn the process with both output pipes attached.
    Spawn,
    /// Read both pipes at the same time until each is closed, at most the
    /// given number of seconds: forward standard output line by line, keep
    /// the lines of standard error.
    DrainBoth(u64),
    /// Wait for the exit, at most the given number of seconds: what is left
    /// of the time allowed.
    WaitForExit(u64),
    /// Warn that the run timed out and send the kill signal.
    Kill,
    /// Wait for the exit of the killed process, at most the given number of seconds.
    WaitGrace(u64),
    /// Report the exit status together with the captured standard error.
    ReportExit,
    /// Report that the process could not be spawned.
    ReportSpawnFailure,
    /// Report that waiting for the exit failed.
    ReportWaitFailure,
    /// Report that the run timed out.
    ReportTimeout,
    /// Report that a signal arrived that the phase does not expect.
    ReportMisuse,
}

/// The phase and the command that follow a signal in a container run of
/// which `elapsed_secs` seconds have passed since the process was spawned.
pub open spec fn run_transition(phase: RunPhase, signal: RunSignal, elapsed_secs: u64) -> (
    RunPhase,
    RunCommand,
) {
    process_transition(phase, signal, 1200, elapsed_secs)
}

/// What is left of the time allowed once `elapsed_secs` seconds have passed.
pub open spec fn time_left(timeout_secs: u64, elapsed_secs: u64) -> u64 {
    if elapsed_secs >= timeout_secs {
        0
    } else {
        (timeout_secs - elapsed_secs) as u64
    }
}

/// The phase and the command that follow a signal, for a process that may
/// take `timeout_secs` seconds from its spawning to its exit, of which
/// `elapsed_secs` have passed. One limit covers the whole life of the
/// process: the reading of its pipes gets all of it, the wait for its exit
/// what is left, and when the time runs out in either phase the process is
/// killed.
pub open spec fn process_transition(
    phase: RunPhase,
    signal: RunSignal,
    timeout_secs: u64,
    elapsed_secs: u64,
) -> (RunPhase, RunCommand) {
    match (phase, signal) {
        (RunPhase::Idle, RunSignal::Begin) => (RunPhase::Spawning, RunCommand::Spawn),
        (RunPhase::Spawning, RunSignal::Spawned) => (
            RunPhase::Draining,
            RunCommand::DrainBoth(timeout_secs),
        ),
        (RunPhase::Spawning, RunSignal::SpawnFailed) => (
            RunPhase::Done,
            RunCommand::ReportSpawnFailure,
        ),
        (RunPhase::Draining, RunSignal::StreamsClosed) => (
            RunPhase::Waiting,
            RunCommand::WaitForExit(time_left(timeout_secs, elapsed_secs)),
        ),
        (RunPhase::Draining, RunSignal::TimedOut) => (RunPhase::Killing, RunCommand::Kill),
        (RunPhase::Waiting, RunSignal::Exited) => (RunPhase::Done, RunCommand::ReportExit),
        (RunPhase::Waiting, RunSignal::WaitFailed) => (
            RunPhase::Done,
            RunCommand::ReportWaitFailure,
        ),
        (RunPhase::Waiting, RunSignal::TimedOut) => (RunPhase::Killing, RunCommand::Kill),
        (RunPhase::Killing, RunSignal::KillAttempted) => (
            RunPhase::Reaping,
            RunCommand::WaitGrace(10),
        ),
        (RunPhase::Reaping, RunSignal::Exited) => (RunPhase::Done, RunCommand::ReportTimeout),
        (RunPhase::Reaping, RunSignal::WaitFailed) => (RunPhase::Done, RunCommand::ReportTimeout),
        (RunPhase::Reaping, RunSignal::TimedOut) => (RunPhase::Done, RunCommand::ReportTimeout),
        _ => (RunPhase::Done, RunCommand::ReportMisuse),
    }
}

/// How far a phase is from the start of a run.
pub open spec fn phase_rank(phase: RunPhase) -> nat {
    match phase {
        RunPhase::Idle => 0,
        RunPhase::Spawning => 1,
        RunPhase::Draining => 2,
        RunPhase::Waiting => 3,
        RunPhase::Killing => 4,
        RunPhase::Reaping => 5,
        RunPhase::Done => 6,
    }
}

/// A command that ends the run with a report.
pub open spec fn is_report(command: RunCommand) -> bool {
    command == RunCommand::ReportExit || command == RunCommand::ReportSpawnFailure || command
        == RunCommand::ReportWaitFailure || command == RunCommand::ReportTimeout || command
        == RunCommand::ReportMisuse
}

/// The phase reached from `phase` by the signals of `signals`, in order.
pub open spec fn phase_after(phase: RunPhase, signals: Seq<RunSignal>) -> RunPhase
    decreases signals.len(),
{
    if signals.len() == 0 {
        phase
    } else {
        run_transition(phase_after(phase, signals.drop_last()), signals.last(), 0).0
    }
}

/// A process succeeded when it exited with code zero.
pub open spec fn exit_is_success(exit_code: Option<i32>) -> bool {
    exit_code == Some(0i32)
}

/// The arguments of the container runtime for one whole bundling run.
pub open spec fn full_bundle_args(
    image_name: Seq<char>,
    workspace_path: Seq<char>,
    memory_limit: Seq<char>,
    memory_swap: Seq<char>,
    cpus_limit: Seq<char>,
    pids_limit: nat,
    container_name: Seq<char>,
    source: Seq<char>,
    output_path: Seq<char>,
    platform: PackageType,
) -> Seq<Seq<char>> {
    seq![
        "run"@,
        "--name"@,
        container_name,
        "--security-opt"@,
        "no-new-privileges"@,
        "--cap-drop"@,
        "ALL"@,
        "--memory"@,
        memory_limit,
        "--memory-swap"@,
        memory_swap,
        "--cpus"@,
        cpus_limit,
        "--pids-limit"@,
        decimal(pids_limit),
        "-v"@,
        workspace_path + ":/output:rw"@,
        "-w"@,
        "/tmp/kodegen-build"@,
        "-e"@,
        "CARGO_HOME=/tmp/cargo"@,
        image_name,
        "kodegen_bundler_bundle"@,
        "--source"@,
        source,
        "--platform"@,
        package_type_name(platform),
        "--output-binary"@,
        "/output/"@ + output_file_name(output_path),
    ]
}

/// The file name under which the container writes the artifact.
pub open spec fn output_file_name(output_path: Seq<char>) -> Seq<char> {
    match file_name(output_path) {
        Some(name) => name,
        None => "output.bin"@,
    }
}

/// The command line that a report names: `docker run` and the arguments.
pub open spec fn docker_command_line(args: Seq<Seq<char>>) -> Seq<char> {
    "docker run "@ + join(args, " "@)
}

/// The text of the warning given when a run is about to be killed.
pub open spec fn timeout_warning_text() -> Seq<char> {
    "Docker bundling timed out after "@ + decimal(20) + " minutes, terminating..."@
}

/// The reason text of the report on a run that timed out.
pub open spec fn timeout_reason() -> Seq<char> {
    "Docker bundling timed out after "@ + decimal(20) + TIMEOUT_ADVICE@
}

/// The next phase and command of a container run.
pub fn run_step(phase: RunPhase, signal: RunSignal, elapsed_secs: u64) -> (r: (
    RunPhase,
    RunCommand,
))
    ensures
        r == run_transition(phase, signal, elapsed_secs),
{
    process_step(phase, signal, DOCKER_RUN_TIMEOUT_SECS, elapsed_secs)
}

/// The next phase and command of a process that may take `timeout_secs`
/// seconds, of which `elapsed_secs` have passed since it was spawned.
pub fn process_step(phase: RunPhase, signal: RunSignal, timeout_secs: u64, elapsed_secs: u64) -> (r:
    (RunPhase, RunCommand))
    ensures
        r == process_transition(phase, signal, timeout_secs, elapsed_secs),
{
    match (phase, signal) {
        (RunPhase::Idle, RunSignal::Begin) => (RunPhase::Spawning, RunCommand::Spawn),
        (RunPhase::Spawning, RunSignal::Spawned) => (
            RunPhase::Draining,
            RunCommand::DrainBoth(timeout_secs),
        ),
        (RunPhase::Spawning, RunSignal::SpawnFailed) => (
            RunPhase::Done,
            RunCommand::ReportSpawnFailure,
        ),
        (RunPhase::Draining, RunSignal::StreamsClosed) => (
            RunPhase::Waiting,
            RunCommand::WaitForExit(
                if elapsed_secs >= timeout_secs {
                    0
                } else {
                    timeout_secs - elapsed_secs
                },
            ),
        ),
        (RunPhase::Draining, RunSignal::TimedOut) => (RunPhase::Killing, RunCommand::Kill),
        (RunPhase::Waiting, RunSignal::Exited) => (RunPhase::Done, RunCommand::ReportExit),
        (RunPhase::Waiting, RunSignal::WaitFailed) => (
            RunPhase::Done,
            RunCommand::ReportWaitFailure,
        ),
        (RunPhase::Waiting, RunSignal::TimedOut) => (RunPhase::Killing, RunCommand::Kill),
        (RunPhase::Killing, RunSignal::KillAttempted) => (
            RunPhase::Reaping,
            RunCommand::WaitGrace(KILL_GRACE_SECS),
        ),
        (RunPhase::Reaping, RunSignal::Exited) => (RunPhase::Done, RunCommand::ReportTimeout),
        (RunPhase::Reaping, RunSignal::WaitFailed) => (RunPhase::Done, RunCommand::ReportTimeout),
        (RunPhase::Reaping, RunSignal::TimedOut) => (RunPhase::Done, RunCommand::ReportTimeout),
        _ => (RunPhase::Done, RunCommand::ReportMisuse),
    }
}

/// The text of the warning given when a run is about to be killed.
pub fn timeout_warning() -> (r: String)
    ensures
        r@ == timeout_warning_text(),
{
    let mut r = String::from_str("Docker bundling timed out after ");
    push_decimal(&mut r, DOCKER_RUN_TIMEOUT_SECS / 60);
    r.append(" minutes, terminating...");
    r
}

/// The report on a run that took longer than allowed.
pub fn timeout_error() -> (e: BundlerError)
    ensures
        e matches BundlerError::Cli(CliError::ExecutionFailed { command, reason }) && command@
            == "docker run"@ && reason@ == timeout_reason(),
{
    let mut reason = String::from_str("Docker bundling timed out after ");
    push_decimal(&mut reason, DOCKER_RUN_TIMEOUT_SECS / 60);
    reason.append(TIMEOUT_ADVICE);
    BundlerError::Cli(
        CliError::ExecutionFailed { command: String::from_str("docker run"), reason },
    )
}

/// The report on a process that could not be spawned or awaited: it names
/// the whole command line and gives the reason as it was handed in.
pub fn process_error(docker_args: &Vec<String>, reason: String) -> (e: BundlerError)
    ensures
        e matches BundlerError::Cli(CliError::ExecutionFailed { command, reason: r }) && command@
            == docker_command_line(docker_args.deep_view()) && r@ == reason@,
{
    let mut command = String::from_str("docker run ");
    let joined = join_strings(docker_args, " ");
    command.append(joined.as_str());
    BundlerError::Cli(CliError::ExecutionFailed { command, reason })
}

/// The result of a run that exited: the status and the captured standard
/// error, or no lines where standard error could not be attached.
pub fn exit_result(exit_code: Option<i32>, stderr_lines: Option<Vec<String>>) -> (r:
    ContainerRunResult)
    ensures
        r.exit_code == exit_code,
        r.stderr_lines.deep_view() == match stderr_lines {
            Some(lines) => lines.deep_view(),
            None => Seq::empty(),
        },
{
    match stderr_lines {
        Some(lines) => ContainerRunResult { exit_code, stderr_lines: lines },
        None => {
            let lines: Vec<String> = Vec::new();
            proof {
                assert(lines.deep_view() =~= Seq::<Seq<char>>::empty());
            }
            ContainerRunResult { exit_code, stderr_lines: lines }
        },
    }
}

impl ContainerRunResult {
    /// The process ended with exit code zero.
    pub fn success(&self) -> (r: bool)
        ensures
            r == exit_is_success(self.exit_code),
    {
        match self.exit_code {
            Some(code) => code == 0,
            None => false,
        }
    }

    /// The exit code, or -1 where the process ended without one.
    pub fn code(&self) -> (r: i32)
        ensures
            r == match self.exit_code {
                Some(code) => code,
                None => -1i32,
            },
    {
        match self.exit_code {
            Some(code) => code,
            None => -1,
        }
    }
}

impl ContainerRunner {
    /// The image to run.
    pub closed spec fn image(&self) -> Seq<char> {
        self.image_name@
    }

    /// The directory on the host that is mounted as `/output`.
    pub closed spec fn workspace(&self) -> Seq<char> {
        self.workspace_path@
    }

    /// The memory ceiling.
    pub closed spec fn memory(&self) -> Seq<char> {
        self.memory_limit@
    }

    /// The ceiling on memory and swap together.
    pub closed spec fn swap(&self) -> Seq<char> {
        self.memory_swap@
    }

    /// The processor share.
    pub closed spec fn cpus(&self) -> Seq<char> {
        self.cpus_limit@
    }

    /// The largest number of processes.
    pub closed spec fn pids(&self) -> nat {
        self.pids_limit as nat
    }

    /// A runner for the given image, output directory and resource ceilings.
    pub fn new(
        image_name: String,
        workspace_path: String,
        memory_limit: String,
        memory_swap: String,
        cpus_limit: String,
        pids_limit: u32,
    ) -> (r: Self)
        ensures
            r.image() == image_name@,
            r.workspace() == workspace_path@,
            r.memory() == memory_limit@,
            r.swap() == memory_swap@,
            r.cpus() == cpus_limit@,
            r.pids() == pids_limit as nat,
    {
        Self { image_name, workspace_path, memory_limit, memory_swap, cpus_limit, pids_limit }
    }

    /// The arguments of the container runtime for one whole bundling run:
    /// the name, no new privileges and no capabilities, the four resource
    /// ceilings as they were configured, the output directory mounted at
    /// `/output`, and the bundler's own command line.
    pub fn build_docker_args_for_full_bundle(
        &self,
        container_name: &str,
        source: &str,
        output_path: &str,
        platform: PackageType,
    ) -> (r: Vec<String>)
        ensures
            r.deep_view() == full_bundle_args(
                self.image(),
                self.workspace(),
                self.memory(),
                self.swap(),
                self.cpus(),
                self.pids(),
                container_name@,
                source@,
                output_path@,
                platform,
            ),
    {
        let output_filename = match path_file_name(output_path) {
            Some(name) => name,
            None => String::from_str("output.bin"),
        };
        let mut output_mount = String::from_str(self.workspace_path.as_str());
        output_mount.append(":/output:rw");
        let mut output_binary = String::from_str("/output/");
        output_binary.append(output_filename.as_str());

        let mut args: Vec<String> = Vec::new();
        args.push(String::from_str("run"));
        args.push(String::from_str("--name"));
        args.push(String::from_str(container_name));
        args.push(String::from_str("--security-opt"));
        args.push(String::from_str("no-new-privileges"));
        args.push(String::from_str("--cap-drop"));
        args.push(String::from_str("ALL"));
        args.push(String::from_str("--memory"));
        args.push(String::from_str(self.memory_limit.as_str()));
        args.push(String::from_str("--memory-swap"));
        args.push(String::from_str(self.memory_swap.as_str()));
        args.push(String::from_str("--cpus"));
        args.push(String::from_str(self.cpus_limit.as_str()));
        args.push(String::from_str("--pids-limit"));
        args.push(u64_to_string(self.pids_limit as u64));
        args.push(String::from_str("-v"));
        args.push(output_mount);
        args.push(String::from_str("-w"));
        args.push(String::from_str("/tmp/kodegen-build"));
        args.push(String::from_str("-e"));
        args.push(String::from_str("CARGO_HOME=/tmp/cargo"));
        args.push(String::from_str(self.image_name.as_str()));
        args.push(String::from_str("kodegen_bundler_bundle"));
        args.push(String::from_str("--source"));
        args.push(String::from_str(source));
        args.push(String::from_str("--platform"));
        args.push(String::from_str(platform_type_to_string(platform)));
        args.push(String::from_str("--output-binary"));
        args.push(output_binary);
        proof {
            assert(args.deep_view() =~= full_bundle_args(
                self.image(),
                self.workspace(),
                self.memory(),
                self.swap(),
                self.cpus(),
                self.pids(),
                container_name@,
                source@,
                output_path@,
                platform,
            ));
        }
        args
    }
}

/// Every signal moves a run forward: no phase is entered twice, so a run is
/// reported after at most six signals, whatever the signals are and
/// whenever they come.
pub proof fn lemma_run_always_advances(phase: RunPhase, signal: RunSignal, elapsed_secs: u64)
    requires
        phase != RunPhase::Done,
    ensures
        phase_rank(run_transition(phase, signal, elapsed_secs).0) > phase_rank(phase),
        phase_rank(run_transition(phase, signal, elapsed_secs).0) <= 6,
        run_transition(phase, signal, elapsed_secs).0 == run_transition(phase, signal, 0).0,
{
}

/// Whatever the signals are, a run is over after six of them.
pub proof fn lemma_run_ends_within_six(signals: Seq<RunSignal>)
    ensures
        phase_rank(phase_after(RunPhase::Idle, signals)) >= if signals.len() < 6 {
            signals.len()
        } else {
            6
        },
    decreases signals.len(),
{
    if signals.len() > 0 {
        lemma_run_ends_within_six(signals.drop_last());
        let before = phase_after(RunPhase::Idle, signals.drop_last());
        if before != RunPhase::Done {
            lemma_run_always_advances(before, signals.last(), 0);
        }
    }
}

/// A run is over exactly when a report is commanded.
pub proof fn lemma_report_ends_run(phase: RunPhase, signal: RunSignal, elapsed_secs: u64)
    ensures
        run_transition(phase, signal, elapsed_secs).0 == RunPhase::Done <==> is_report(
            run_transition(phase, signal, elapsed_secs).1,
        ),
{
}

/// One limit bounds the life of the process. The reading of the pipes is
/// given the whole time allowed and the wait for the exit what is left of
/// it, so that the two together never take longer than allowed; a process
/// that has used up its time while its pipes were read is waited for no
/// longer.
pub proof fn lemma_time_allowed_is_kept(timeout_secs: u64, elapsed_secs: u64)
    ensures
        process_transition(RunPhase::Spawning, RunSignal::Spawned, timeout_secs, elapsed_secs).1
            == RunCommand::DrainBoth(timeout_secs),
        process_transition(
            RunPhase::Draining,
            RunSignal::StreamsClosed,
            timeout_secs,
            elapsed_secs,
        ).1 == RunCommand::WaitForExit(time_left(timeout_secs, elapsed_secs)),
        elapsed_secs <= timeout_secs ==> elapsed_secs + time_left(timeout_secs, elapsed_secs)
            == timeout_secs,
        elapsed_secs >= timeout_secs ==> time_left(timeout_secs, elapsed_secs) == 0,
{
}

/// A timeout is never reported as anything else. When the time runs out,
/// be it while the pipes are read or while the exit is awaited, the process
/// is killed, its exit is awaited for the grace period only, and whatever
/// is observed then, the run ends with the timeout report and never with
/// the report of an exit.
pub proof fn lemma_timeout_is_reported(after_grace: RunSignal, elapsed_secs: u64)
    ensures
        run_transition(RunPhase::Draining, RunSignal::TimedOut, elapsed_secs) == (
            RunPhase::Killing,
            RunCommand::Kill,
        ),
        run_transition(RunPhase::Waiting, RunSignal::TimedOut, elapsed_secs) == (
            RunPhase::Killing,
            RunCommand::Kill,
        ),
        run_transition(RunPhase::Killing, RunSignal::KillAttempted, elapsed_secs) == (
            RunPhase::Reaping,
            RunCommand::WaitGrace(10),
        ),
        after_grace == RunSignal::Exited || after_grace == RunSignal::WaitFailed || after_grace
            == RunSignal::TimedOut ==> run_transition(RunPhase::Reaping, after_grace, elapsed_secs)
            == (RunPhase::Done, RunCommand::ReportTimeout),
        run_transition(RunPhase::Reaping, after_grace, elapsed_secs).1 != RunCommand::ReportExit,
        run_transition(RunPhase::Killing, after_grace, elapsed_secs).1 != RunCommand::ReportExit,
{
}

/// Once the kill is commanded the run cannot end with the report of an
/// exit: every way on from the killing phase ends with the timeout report
/// or the report of a misuse.
pub proof fn lemma_killed_run_is_never_a_success(first: RunSignal, second: RunSignal, elapsed_secs: u64)
    ensures
        ({
            let after = run_transition(RunPhase::Killing, first, elapsed_secs);
            after.1 != RunCommand::ReportExit && (after.0 != RunPhase::Done ==> run_transition(
                after.0,
                second,
                elapsed_secs,
            ).1 != RunCommand::ReportExit)
        }),
{
}

/// The exit status is reported only for a process that exited by itself
/// within the time allowed, after both of its pipes were read to the end.
pub proof fn lemma_exit_reported_only_after_drain(phase: RunPhase, signal: RunSignal, elapsed_secs: u64)
    requires
        run_transition(phase, signal, elapsed_secs).1 == RunCommand::ReportExit,
    ensures
        phase == RunPhase::Waiting,
        signal == RunSignal::Exited,
{
}

} // verus!
