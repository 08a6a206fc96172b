use kodegen_bundler::docker::oom_detector::classify_failure;
use kodegen_bundler::docker::oom_detector::oom_status_from_inspect;
use kodegen_bundler::docker::oom_detector::triage_stderr;
use kodegen_bundler::docker::oom_detector::FailureCause;
use kodegen_bundler::docker::oom_detector::OomDetector;
use kodegen_bundler::docker::oom_detector::Triage;
use kodegen_bundler::error::BundlerError;
use kodegen_bundler::error::CliError;
use kodegen_bundler::package::PackageType;

fn lines(text: &[&str]) -> Vec<String> {
    text.iter().map(|s| s.to_string()).collect()
}

fn detector() -> OomDetector {
    OomDetector::new("4g".to_string(), "8g".to_string())
}

fn parts(e: BundlerError) -> (String, String) {
    match e {
        BundlerError::Cli(CliError::ExecutionFailed { command, reason }) => (command, reason),
        other => panic!("unexpected error: {:?}", other),
    }
}

#[test]
fn exit_137_with_allocation_failure_is_oom() {
    let stderr = lines(&["error: Cannot allocate memory"]);
    assert!(detector().is_oom_failure(137, &stderr, false));
    assert_eq!(classify_failure(137, &stderr, false), FailureCause::OomInStderr);
    assert_eq!(triage_stderr(&stderr), Triage::Decided(FailureCause::OomInStderr));
}

#[test]
fn exit_137_with_user_shutdown_is_not_oom() {
    let stderr = lines(&["terminated by signal: user requested shutdown"]);
    assert!(!detector().is_oom_failure(137, &stderr, false));
    assert_eq!(classify_failure(137, &stderr, false), FailureCause::KilledNotOom);
    assert_eq!(triage_stderr(&stderr), Triage::AskRuntime);
}

#[test]
fn exit_137_with_empty_stderr_and_no_runtime_flag_is_not_oom() {
    assert!(!detector().is_oom_failure(137, &vec![], false));
    assert_eq!(classify_failure(137, &vec![], false), FailureCause::KilledWithoutEvidence);
    assert_eq!(classify_failure(137, &lines(&["  ", "\t"]), false), FailureCause::KilledWithoutEvidence);
}

#[test]
fn runtime_flag_confirms_oom() {
    assert!(detector().is_oom_failure(137, &vec![], true));
    assert!(detector().is_oom_failure(1, &lines(&["build failed"]), true));
    assert_eq!(classify_failure(1, &lines(&["build failed"]), true), FailureCause::OomByRuntime);
}

#[test]
fn stderr_evidence_outranks_everything() {
    let stderr = lines(&["killed by user", "java.lang.OutOfMemoryError"]);
    assert_eq!(classify_failure(137, &stderr, false), FailureCause::OomInStderr);
    assert_eq!(classify_failure(0, &stderr, true), FailureCause::OomInStderr);
}

#[test]
fn oom_markers_are_found_in_any_case() {
    for marker in ["OOMKilled", "out of memory", "Out Of Memory", "OUTOFMEMORYERROR", "cannot ALLOCATE memory", "oom"] {
        let text = format!("prefix {} suffix", marker);
        assert!(detector().is_oom_failure(1, &vec![text], false), "{}", marker);
    }
    assert!(!detector().is_oom_failure(1, &lines(&["o o m", "memory is fine"]), false));
}

#[test]
fn markers_may_span_no_line_break() {
    assert!(!detector().is_oom_failure(1, &lines(&["out of", "memory"]), false));
    assert!(detector().is_oom_failure(1, &lines(&["line one", "x out of memory y"]), false));
}

#[test]
fn kill_markers_are_found_in_any_case() {
    for marker in ["Killed by user", "SIGKILL", "system Shutdown", "Terminated By Signal 9"] {
        assert_eq!(classify_failure(137, &vec![marker.to_string()], false), FailureCause::KilledNotOom);
    }
}

#[test]
fn exit_code_alone_never_means_oom() {
    let stderr = lines(&["error[E0308]: mismatched types"]);
    assert_eq!(classify_failure(137, &stderr, false), FailureCause::KilledUnclear);
    assert!(!detector().is_oom_failure(137, &stderr, false));
    assert_eq!(classify_failure(1, &stderr, false), FailureCause::Other);
    assert_eq!(classify_failure(-1, &vec![], false), FailureCause::Other);
}

#[test]
fn inspect_output_is_read_leniently() {
    assert!(oom_status_from_inspect(true, "true\n"));
    assert!(oom_status_from_inspect(true, "  TRUE "));
    assert!(!oom_status_from_inspect(true, "false\n"));
    assert!(!oom_status_from_inspect(false, "true\n"));
    assert!(!oom_status_from_inspect(true, ""));
    assert!(!oom_status_from_inspect(true, "true true"));
}

#[test]
fn generic_report_is_exact() {
    let (command, reason) = parts(detector().format_generic_error(PackageType::Deb, 2, &lines(&["a", "b"])));
    assert_eq!(command, "bundle deb in container");
    assert_eq!(reason, "Container bundling failed with exit code: 2\n\nstderr:\na\nb");
    let (_, reason) = parts(detector().format_generic_error(PackageType::Rpm, -1, &vec![]));
    assert_eq!(reason, "Container bundling failed with exit code: -1\n\nNo error output captured");
}

#[test]
fn sigkill_report_is_exact() {
    let (command, reason) = parts(detector().format_sigkill_error(PackageType::AppImage, &vec![]));
    assert_eq!(command, "bundle appimage in container");
    assert_eq!(
        reason,
        "Container was killed with SIGKILL (exit code 137).\n\
         \n\
         This can indicate:\n\
         • Out of memory (but no OOM markers found in logs/status)\n\
         • User cancellation (Ctrl+C, docker kill, kill -9)\n\
         • System shutdown or reboot\n\
         • PID limit reached (--pids-limit)\n\
         • Docker daemon crash or restart\n\
         \n\
         To diagnose:\n\
         • Check system logs: journalctl -u docker (Linux) or Console.app (macOS)\n\
         • Check kernel logs: dmesg | grep -i oom\n\
         • Verify container limits: --docker-memory, --cpus, --pids-limit\n\
         • Check if you manually killed the process\n\
         \n\
         No error output captured"
    );
}

#[test]
fn oom_report_is_exact() {
    let (command, reason) =
        parts(detector().format_oom_error(PackageType::Deb, &lines(&["Killed", "oom"]), 137, false, 16));
    assert_eq!(command, "bundle deb in container");
    assert_eq!(
        reason,
        "Container ran out of memory during build.\n\n\
         (Detected via exit code 137 - SIGKILL)\n\
         \nCurrent memory limit: 4g (swap: 8g)\n\
         \n\
         The container exhausted available memory while building. This typically happens when:\n\
         • Building large Rust projects with many dependencies\n\
         • Parallel compilation uses more RAM than available\n\
         • Debug builds require more memory than release builds\n\
         \n\
         Solutions:\n\
         1. Increase memory limit:\n\
         cargo run -p kodegen_bundler_release -- bundle --platform deb --docker-memory 8g\n\
         \n\
         2. Build fewer platforms in parallel (run multiple times with --platform)\n\
         \n\
         3. Use release builds (they use less memory):\n\
         cargo run -p kodegen_bundler_release -- bundle --platform deb --release\n\
         \n\
         4. Check available system memory: 16 GB total\
         \n\n=== ACTUAL STDERR OUTPUT ===\nKilled\noom"
    );
}

#[test]
fn oom_report_names_how_it_was_detected() {
    let (_, by_status) = parts(detector().format_oom_error(PackageType::Deb, &vec![], 137, true, 8));
    assert!(by_status.contains("(Detected via Docker container status)\n"));
    assert!(!by_status.contains("ACTUAL STDERR OUTPUT"));
    let (_, by_message) = parts(detector().format_oom_error(PackageType::Deb, &lines(&["oom"]), 1, false, 8));
    assert!(by_message.contains("(Detected via error message)\n"));
    assert!(by_message.contains("Current memory limit: 4g (swap: 8g)"));
    assert!(by_message.contains("8 GB total"));
}

#[test]
fn the_three_reports_are_told_apart() {
    let d = detector();
    let (_, oom) = parts(d.failure_report(PackageType::Deb, 137, &lines(&["Out of memory"]), false, 8));
    let (_, kill) = parts(d.failure_report(PackageType::Deb, 137, &lines(&["terminated by signal"]), false, 8));
    let (_, ambiguous) = parts(d.failure_report(PackageType::Deb, 137, &vec![], false, 8));
    let (_, generic) = parts(d.failure_report(PackageType::Deb, 1, &lines(&["exit status 1"]), false, 8));
    assert!(oom.starts_with("Container ran out of memory during build."));
    assert!(kill.starts_with("Container was killed with SIGKILL (exit code 137)."));
    assert!(ambiguous.starts_with("Container was killed with SIGKILL (exit code 137)."));
    assert!(generic.starts_with("Container bundling failed with exit code: 1"));
    assert_ne!(oom.chars().nth(10), kill.chars().nth(10));
    assert_ne!(oom.chars().nth(10), generic.chars().nth(10));
    assert_ne!(kill.chars().nth(10), generic.chars().nth(10));
    assert!(kill.ends_with("stderr:\nterminated by signal"));
}

#[test]
fn a_marker_inside_a_word_counts() {
    assert!(detector().is_oom_failure(1, &lines(&["boom"]), false));
}
