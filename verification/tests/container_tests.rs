use kodegen_bundler::docker::bundler::container_name;
use kodegen_bundler::docker::bundler::fresh_container_name;
use kodegen_bundler::docker::bundler::session_step;
use kodegen_bundler::docker::bundler::signal_of_run;
use kodegen_bundler::docker::bundler::ContainerBundler;
use kodegen_bundler::docker::bundler::SessionCommand;
use kodegen_bundler::docker::bundler::SessionPhase;
use kodegen_bundler::docker::bundler::SessionSignal;
use kodegen_bundler::docker::container_runner::exit_result;
use kodegen_bundler::docker::container_runner::process_error;
use kodegen_bundler::docker::container_runner::process_step;
use kodegen_bundler::docker::container_runner::run_step;
use kodegen_bundler::docker::container_runner::timeout_error;
use kodegen_bundler::docker::container_runner::timeout_warning;
use kodegen_bundler::docker::container_runner::ContainerRunResult;
use kodegen_bundler::docker::container_runner::ContainerRunner;
use kodegen_bundler::docker::container_runner::RunCommand;
use kodegen_bundler::docker::container_runner::RunPhase;
use kodegen_bundler::docker::container_runner::RunSignal;
use kodegen_bundler::docker::limits::parse_memory_size;
use kodegen_bundler::docker::limits::ContainerLimits;
use kodegen_bundler::error::BundlerError;
use kodegen_bundler::error::CliError;
use kodegen_bundler::package::PackageType;

fn parts(e: BundlerError) -> (String, String) {
    match e {
        BundlerError::Cli(CliError::ExecutionFailed { command, reason }) => (command, reason),
        other => panic!("unexpected error: {:?}", other),
    }
}

fn runner() -> ContainerRunner {
    ContainerRunner::new(
        "kodegen-release-builder".to_string(),
        "/work/out".to_string(),
        "4g".to_string(),
        "8g".to_string(),
        "2.0".to_string(),
        1000,
    )
}

#[test]
fn docker_args_are_exact() {
    let args = runner().build_docker_args_for_full_bundle(
        "kodegen-bundle-1234",
        "cyrup-ai/kodegen",
        "/work/out/kodegen_0.1.0_arm64.deb",
        PackageType::Deb,
    );
    assert_eq!(
        args,
        vec![
            "run",
            "--name",
            "kodegen-bundle-1234",
            "--security-opt",
            "no-new-privileges",
            "--cap-drop",
            "ALL",
            "--memory",
            "4g",
            "--memory-swap",
            "8g",
            "--cpus",
            "2.0",
            "--pids-limit",
            "1000",
            "-v",
            "/work/out:/output:rw",
            "-w",
            "/tmp/kodegen-build",
            "-e",
            "CARGO_HOME=/tmp/cargo",
            "kodegen-release-builder",
            "kodegen_bundler_bundle",
            "--source",
            "cyrup-ai/kodegen",
            "--platform",
            "deb",
            "--output-binary",
            "/output/kodegen_0.1.0_arm64.deb",
        ]
    );
}

#[test]
fn docker_args_fall_back_to_a_default_file_name() {
    let args = runner().build_docker_args_for_full_bundle("c", "s", "/", PackageType::Exe);
    assert_eq!(args[args.len() - 1], "/output/output.bin");
    assert_eq!(args[26], "nsis");
    let args = runner().build_docker_args_for_full_bundle("c", "s", "setup.exe", PackageType::Exe);
    assert_eq!(args[args.len() - 1], "/output/setup.exe");
}

#[test]
fn a_run_that_exits_is_reported_after_both_pipes_closed() {
    assert_eq!(run_step(RunPhase::Idle, RunSignal::Begin, 0), (RunPhase::Spawning, RunCommand::Spawn));
    assert_eq!(run_step(RunPhase::Spawning, RunSignal::Spawned, 0), (RunPhase::Draining, RunCommand::DrainBoth(1200)));
    assert_eq!(
        run_step(RunPhase::Draining, RunSignal::StreamsClosed, 0),
        (RunPhase::Waiting, RunCommand::WaitForExit(1200))
    );
    assert_eq!(run_step(RunPhase::Waiting, RunSignal::Exited, 0), (RunPhase::Done, RunCommand::ReportExit));
}

#[test]
fn a_run_that_times_out_is_killed_and_reported_as_timed_out() {
    assert_eq!(run_step(RunPhase::Waiting, RunSignal::TimedOut, 0), (RunPhase::Killing, RunCommand::Kill));
    assert_eq!(
        run_step(RunPhase::Killing, RunSignal::KillAttempted, 0),
        (RunPhase::Reaping, RunCommand::WaitGrace(10))
    );
    for signal in [RunSignal::Exited, RunSignal::WaitFailed, RunSignal::TimedOut] {
        assert_eq!(run_step(RunPhase::Reaping, signal, 0), (RunPhase::Done, RunCommand::ReportTimeout));
    }
}

#[test]
fn failures_to_spawn_and_wait_are_reported() {
    assert_eq!(
        run_step(RunPhase::Spawning, RunSignal::SpawnFailed, 0),
        (RunPhase::Done, RunCommand::ReportSpawnFailure)
    );
    assert_eq!(
        run_step(RunPhase::Waiting, RunSignal::WaitFailed, 0),
        (RunPhase::Done, RunCommand::ReportWaitFailure)
    );
}

#[test]
fn unexpected_signals_end_the_run() {
    assert_eq!(run_step(RunPhase::Idle, RunSignal::Exited, 0), (RunPhase::Done, RunCommand::ReportMisuse));
    assert_eq!(run_step(RunPhase::Draining, RunSignal::Exited, 0), (RunPhase::Done, RunCommand::ReportMisuse));
    assert_eq!(run_step(RunPhase::Done, RunSignal::Begin, 0), (RunPhase::Done, RunCommand::ReportMisuse));
}

#[test]
fn every_run_ends_within_six_signals() {
    let signals = [
        RunSignal::Begin,
        RunSignal::Spawned,
        RunSignal::SpawnFailed,
        RunSignal::StreamsClosed,
        RunSignal::Exited,
        RunSignal::WaitFailed,
        RunSignal::TimedOut,
        RunSignal::KillAttempted,
    ];
    let mut frontier = vec![RunPhase::Idle];
    for _ in 0..6 {
        let mut next = Vec::new();
        for phase in &frontier {
            for signal in signals {
                next.push(run_step(*phase, signal, 0).0);
            }
        }
        frontier = next;
    }
    assert!(frontier.iter().all(|phase| *phase == RunPhase::Done));
}

#[test]
fn image_builds_use_their_own_timeout() {
    assert_eq!(
        process_step(RunPhase::Draining, RunSignal::StreamsClosed, 1800, 0),
        (RunPhase::Waiting, RunCommand::WaitForExit(1800))
    );
}

#[test]
fn timeout_texts_are_exact() {
    assert_eq!(timeout_warning(), "Docker bundling timed out after 20 minutes, terminating...");
    let (command, reason) = parts(timeout_error());
    assert_eq!(command, "docker run");
    assert_eq!(
        reason,
        "Docker bundling timed out after 20 minutes.\n\
         \n\
         This usually indicates:\n\
         • Very slow build (large dependency downloads)\n\
         • System resource constraints\n\
         • Network issues\n\
         \n\
         Try:\n\
         • Increase container resource limits\n\
         • Check available system memory/CPU\n\
         • Use --build flag to reuse cached builds"
    );
}

#[test]
fn process_errors_name_the_command_line() {
    let (command, reason) =
        parts(process_error(&vec!["run".to_string(), "--name".to_string(), "x".to_string()], "No such file".to_string()));
    assert_eq!(command, "docker run run --name x");
    assert_eq!(reason, "No such file");
}

#[test]
fn exit_results_keep_status_and_stderr() {
    let result = exit_result(Some(0), Some(vec!["warning".to_string()]));
    assert!(result.success());
    assert_eq!(result.code(), 0);
    assert_eq!(result.stderr_lines, vec!["warning"]);
    let result = exit_result(Some(137), None);
    assert!(!result.success());
    assert_eq!(result.code(), 137);
    assert!(result.stderr_lines.is_empty());
    let result = exit_result(None, None);
    assert!(!result.success());
    assert_eq!(result.code(), -1);
}

#[test]
fn memory_sizes_are_read_in_bytes() {
    assert_eq!(parse_memory_size("4g"), Some(4 * 1024 * 1024 * 1024));
    assert_eq!(parse_memory_size("8G"), Some(8 * 1024 * 1024 * 1024));
    assert_eq!(parse_memory_size("512m"), Some(512 * 1024 * 1024));
    assert_eq!(parse_memory_size("64k"), Some(65536));
    assert_eq!(parse_memory_size("1000"), Some(1000));
    assert_eq!(parse_memory_size("7b"), Some(7));
    assert_eq!(parse_memory_size("0"), Some(0));
    assert_eq!(parse_memory_size(""), None);
    assert_eq!(parse_memory_size("g"), None);
    assert_eq!(parse_memory_size("4gb"), None);
    assert_eq!(parse_memory_size("4.5g"), None);
    assert_eq!(parse_memory_size("-1g"), None);
    assert_eq!(parse_memory_size("18446744073709551615"), Some(u64::MAX));
    assert_eq!(parse_memory_size("18446744073709551616"), None);
    assert_eq!(parse_memory_size("17179869184g"), None);
    assert_eq!(parse_memory_size("17179869183g"), Some(17179869183 * 1073741824));
}

#[test]
fn swap_limit_must_not_be_below_memory_limit() {
    assert!(ContainerLimits::new("4g".into(), "8g".into(), "2".into(), 100).is_ok());
    assert!(ContainerLimits::new("4g".into(), "4096m".into(), "2".into(), 100).is_ok());
    match ContainerLimits::new("4g".into(), "2g".into(), "2".into(), 100) {
        Err(CliError::InvalidArguments { reason }) => {
            assert_eq!(reason, "Memory+swap limit 2g is below the memory limit 4g")
        }
        other => panic!("unexpected result: {:?}", other),
    }
    match ContainerLimits::new("lots".into(), "8g".into(), "2".into(), 100) {
        Err(CliError::InvalidArguments { reason }) => assert_eq!(reason, "Invalid memory limit: lots"),
        other => panic!("unexpected result: {:?}", other),
    }
    match ContainerLimits::new("4g".into(), "".into(), "2".into(), 100) {
        Err(CliError::InvalidArguments { reason }) => assert_eq!(reason, "Invalid memory+swap limit: "),
        other => panic!("unexpected result: {:?}", other),
    }
}

#[test]
fn default_limits_are_valid() {
    let limits = ContainerLimits::default();
    assert_eq!(limits.memory, "4g");
    assert_eq!(limits.memory_swap, "8g");
    assert_eq!(limits.cpus, "2.0");
    assert_eq!(limits.pids_limit, 1000);
    assert!(limits.is_valid());
    let broken = ContainerLimits { memory: "8g".into(), memory_swap: "4g".into(), cpus: "1".into(), pids_limit: 1 };
    assert!(!broken.is_valid());
}

#[test]
fn container_names_carry_the_prefix_and_a_fresh_identifier() {
    assert_eq!(container_name("abc"), "kodegen-bundle-abc");
    let one = fresh_container_name();
    let other = fresh_container_name();
    assert!(one.starts_with("kodegen-bundle-"));
    assert_eq!(one.len(), "kodegen-bundle-".len() + 36);
    assert_ne!(one, other);
    let identifier = &one["kodegen-bundle-".len()..];
    assert!(identifier.chars().all(|c| c == '-' || c.is_ascii_hexdigit()));
}

#[test]
fn container_plan_mounts_the_parent_of_the_output_path() {
    let bundler = ContainerBundler::new("org/repo".into(), "/out/dir/app.rpm".into(), ContainerLimits::default());
    assert_eq!(bundler.output_path(), "/out/dir/app.rpm");
    let plan = bundler.plan("kodegen-bundle-x", PackageType::Rpm).unwrap();
    assert_eq!(plan.output_dir, "/out/dir");
    assert_eq!(plan.container_name, "kodegen-bundle-x");
    assert_eq!(plan.docker_args[2], "kodegen-bundle-x");
    assert_eq!(plan.docker_args[8], "4g");
    assert_eq!(plan.docker_args[10], "8g");
    assert_eq!(plan.docker_args[16], "/out/dir:/output:rw");
    assert_eq!(plan.docker_args[21], "kodegen-release-builder");
    assert_eq!(plan.docker_args[24], "org/repo");
    assert_eq!(plan.docker_args[28], "/output/app.rpm");
}

#[test]
fn output_path_without_parent_is_refused() {
    let bundler = ContainerBundler::new("org/repo".into(), "/".into(), ContainerLimits::default());
    let (command, reason) = parts(bundler.plan("c", PackageType::Deb).unwrap_err());
    assert_eq!(command, "determine output directory");
    assert_eq!(reason, "Output path has no parent directory: /");
}

#[test]
fn container_failures_are_triaged() {
    let bundler = ContainerBundler::new("org/repo".into(), "/o/a.deb".into(), ContainerLimits::default());
    let (_, oom) = parts(bundler.handle_container_failure(PackageType::Deb, 137, &vec![], true, 32));
    assert!(oom.starts_with("Container ran out of memory during build."));
    assert!(oom.contains("Current memory limit: 4g (swap: 8g)"));
    assert!(oom.contains("32 GB total"));
    let (_, kill) = parts(bundler.handle_container_failure(PackageType::Deb, 137, &vec![], false, 32));
    assert!(kill.starts_with("Container was killed with SIGKILL"));
    let (_, generic) = parts(bundler.handle_container_failure(PackageType::Deb, 3, &vec![], false, 32));
    assert!(generic.starts_with("Container bundling failed with exit code: 3"));
}

#[test]
fn run_outcomes_become_signals() {
    let ok = Ok(ContainerRunResult { exit_code: Some(0), stderr_lines: vec!["out of memory".into()] });
    assert_eq!(signal_of_run(&ok), SessionSignal::RunSucceeded);
    let oom = Ok(ContainerRunResult { exit_code: Some(137), stderr_lines: vec!["Out of memory".into()] });
    assert_eq!(signal_of_run(&oom), SessionSignal::RunFailedOomEvident);
    let unclear = Ok(ContainerRunResult { exit_code: Some(137), stderr_lines: vec![] });
    assert_eq!(signal_of_run(&unclear), SessionSignal::RunFailedUnclear);
    let no_code = Ok(ContainerRunResult { exit_code: None, stderr_lines: vec![] });
    assert_eq!(signal_of_run(&no_code), SessionSignal::RunFailedUnclear);
    assert_eq!(signal_of_run(&Err(timeout_error())), SessionSignal::RunErrored);
}

fn run_session(signals: &[SessionSignal]) -> Vec<SessionCommand> {
    let mut phase = SessionPhase::Ready;
    let mut commands = Vec::new();
    for signal in signals {
        let (next, command) = session_step(phase, *signal);
        phase = next;
        commands.push(command);
    }
    assert_eq!(phase, SessionPhase::Done);
    commands
}

#[test]
fn the_container_is_removed_once_on_every_way_out() {
    let ways: Vec<Vec<SessionSignal>> = vec![
        vec![SessionSignal::Begin, SessionSignal::OutputDirReady, SessionSignal::RunSucceeded, SessionSignal::ContainerRemoved],
        vec![SessionSignal::Begin, SessionSignal::OutputDirReady, SessionSignal::RunErrored, SessionSignal::ContainerRemoved],
        vec![SessionSignal::Begin, SessionSignal::OutputDirReady, SessionSignal::RunFailedOomEvident, SessionSignal::RuntimeAnswered, SessionSignal::ContainerRemoved],
        vec![SessionSignal::Begin, SessionSignal::OutputDirReady, SessionSignal::RunFailedUnclear, SessionSignal::RuntimeAnswered, SessionSignal::ContainerRemoved],
        vec![SessionSignal::Begin, SessionSignal::OutputDirFailed, SessionSignal::ContainerRemoved],
        vec![SessionSignal::OutputParentMissing, SessionSignal::ContainerRemoved],
        vec![SessionSignal::RunSucceeded, SessionSignal::Begin],
    ];
    for way in ways {
        let commands = run_session(&way);
        assert_eq!(commands.iter().filter(|c| **c == SessionCommand::RemoveContainer).count(), 1, "{:?}", way);
        assert_eq!(commands[commands.len() - 1], SessionCommand::Report);
    }
}

#[test]
fn diagnosis_comes_before_cleanup() {
    let commands = run_session(&[SessionSignal::Begin, SessionSignal::OutputDirReady, SessionSignal::RunFailedUnclear, SessionSignal::RuntimeAnswered, SessionSignal::ContainerRemoved]);
    assert_eq!(
        commands,
        vec![
            SessionCommand::CreateOutputDir,
            SessionCommand::RunContainer,
            SessionCommand::InspectContainer,
            SessionCommand::RemoveContainer,
            SessionCommand::Report,
        ]
    );
    let evident = run_session(&[SessionSignal::Begin, SessionSignal::OutputDirReady, SessionSignal::RunFailedOomEvident, SessionSignal::RuntimeAnswered, SessionSignal::ContainerRemoved]);
    assert_eq!(evident, commands);
    let succeeded = run_session(&[SessionSignal::Begin, SessionSignal::OutputDirReady, SessionSignal::RunSucceeded, SessionSignal::ContainerRemoved]);
    assert!(!succeeded.contains(&SessionCommand::InspectContainer));
}

#[test]
fn the_time_allowed_bounds_the_reading_of_the_pipes() {
    assert_eq!(
        run_step(RunPhase::Draining, RunSignal::TimedOut, 1200),
        (RunPhase::Killing, RunCommand::Kill)
    );
    assert_eq!(
        process_step(RunPhase::Spawning, RunSignal::Spawned, 1800, 0),
        (RunPhase::Draining, RunCommand::DrainBoth(1800))
    );
    assert_eq!(
        process_step(RunPhase::Draining, RunSignal::TimedOut, 1800, 1800),
        (RunPhase::Killing, RunCommand::Kill)
    );
}

#[test]
fn waiting_gets_what_is_left_of_the_time_allowed() {
    assert_eq!(
        run_step(RunPhase::Draining, RunSignal::StreamsClosed, 500),
        (RunPhase::Waiting, RunCommand::WaitForExit(700))
    );
    assert_eq!(
        run_step(RunPhase::Draining, RunSignal::StreamsClosed, 1200),
        (RunPhase::Waiting, RunCommand::WaitForExit(0))
    );
    assert_eq!(
        run_step(RunPhase::Draining, RunSignal::StreamsClosed, 5000),
        (RunPhase::Waiting, RunCommand::WaitForExit(0))
    );
    assert_eq!(
        process_step(RunPhase::Draining, RunSignal::StreamsClosed, 1800, 1799),
        (RunPhase::Waiting, RunCommand::WaitForExit(1))
    );
}

#[test]
fn a_plan_is_refused_for_limits_that_do_not_fit() {
    let limits = ContainerLimits { memory: "8g".into(), memory_swap: "4g".into(), cpus: "2".into(), pids_limit: 10 };
    let bundler = ContainerBundler::new("org/repo".into(), "/out/app.deb".into(), limits);
    match bundler.plan("c", PackageType::Deb) {
        Err(BundlerError::Cli(CliError::InvalidArguments { reason })) => {
            assert_eq!(reason, "Memory+swap limit 4g is below the memory limit 8g")
        }
        other => panic!("unexpected result: {:?}", other),
    }
    let limits = ContainerLimits { memory: "4g".into(), memory_swap: "4g".into(), cpus: "2".into(), pids_limit: 10 };
    assert!(limits.validate().is_ok());
    assert!(ContainerBundler::new("org/repo".into(), "/out/app.deb".into(), limits).plan("c", PackageType::Deb).is_ok());
}
