use kodegen_bundler::docker::image::build_failure;
use kodegen_bundler::docker::image::build_timeout_error;
use kodegen_bundler::docker::image::check_docker_available;
use kodegen_bundler::docker::image::decide_image;
use kodegen_bundler::docker::image::docker_build_args;
use kodegen_bundler::docker::image::docker_start_help;
use kodegen_bundler::docker::image::get_image_age_days;
use kodegen_bundler::docker::image::humanize_duration;
use kodegen_bundler::docker::image::image_age_days;
use kodegen_bundler::docker::image::image_id_from_output;
use kodegen_bundler::docker::image::is_fresh;
use kodegen_bundler::docker::image::is_image_up_to_date;
use kodegen_bundler::docker::image::seconds_between;
use kodegen_bundler::docker::image::short_image_id;
use kodegen_bundler::docker::image::BuildReason;
use kodegen_bundler::docker::image::Freshness;
use kodegen_bundler::docker::image::ImageDecision;
use kodegen_bundler::docker::image::Instant;
use kodegen_bundler::docker::image::ProbeOutcome;
use kodegen_bundler::error::BundlerError;
use kodegen_bundler::error::CliError;
use kodegen_bundler::orchestrator::HostOs;

fn parts(e: BundlerError) -> (String, String) {
    match e {
        BundlerError::Cli(CliError::ExecutionFailed { command, reason }) => (command, reason),
        other => panic!("unexpected error: {:?}", other),
    }
}

#[test]
fn durations_in_words() {
    assert_eq!(humanize_duration(0), "0 seconds");
    assert_eq!(humanize_duration(1), "1 second");
    assert_eq!(humanize_duration(59), "59 seconds");
    assert_eq!(humanize_duration(60), "1 minute");
    assert_eq!(humanize_duration(90), "1 minute");
    assert_eq!(humanize_duration(120), "2 minutes");
    assert_eq!(humanize_duration(3599), "59 minutes");
    assert_eq!(humanize_duration(3600), "1 hour");
    assert_eq!(humanize_duration(-3600), "-1 hour");
    assert_eq!(humanize_duration(7200), "2 hours");
    assert_eq!(humanize_duration(86399), "23 hours");
    assert_eq!(humanize_duration(86400), "1 day");
    assert_eq!(humanize_duration(-172800), "-2 days");
    assert_eq!(humanize_duration(-1), "-1 second");
    assert_eq!(humanize_duration(i64::MAX), "106751991167300 days");
    assert_eq!(humanize_duration(i64::MIN), "-106751991167300 days");
}

fn at(secs: i64, nanos: u32) -> Instant {
    Instant { secs, nanos }
}

#[test]
fn freshness_has_a_tolerance_of_two_seconds() {
    assert!(is_fresh(at(1_000, 0), at(1_000, 0)));
    assert!(is_fresh(at(1_002, 0), at(1_000, 0)));
    assert!(is_fresh(at(1_002, 999_999_999), at(1_000, 0)));
    assert!(!is_fresh(at(1_003, 0), at(1_000, 0)));
    assert!(is_fresh(at(0, 0), at(1_000, 0)));
    assert!(is_fresh(at(i64::MIN, 0), at(i64::MAX, 999_999_999)));
    assert!(!is_fresh(at(i64::MAX, 999_999_999), at(i64::MIN, 0)));
    assert_eq!(seconds_between(at(2, 999_999_999), at(0, 0)), 2);
    assert_eq!(seconds_between(at(0, 0), at(2, 999_999_999)), -2);
    assert_eq!(seconds_between(at(-1, 999_999_999), at(0, 0)), 0);
    assert_eq!(seconds_between(at(i64::MAX, 0), at(i64::MIN, 0)), 18446744073709551615);
}

#[test]
fn freshness_is_told_below_the_millisecond() {
    // 3.0001 s apart: stale, though both lie in milliseconds 3000 and 0.
    assert!(!is_fresh(at(3, 100_000), at(0, 0)));
    assert!(!is_fresh(at(3, 900_000), at(0, 900_000)));
    // 2.9999991 s apart: fresh, though the milliseconds are 3000 apart.
    assert!(is_fresh(at(3, 0), at(0, 900)));
    assert!(is_fresh(at(3, 100_000), at(0, 900_000)));
    assert!(is_fresh(at(1_003, 0), at(1_000, 1)));
    assert_eq!(seconds_between(at(3, 0), at(0, 1)), 2);
    assert_eq!(seconds_between(at(3, 1), at(0, 1)), 3);
}

#[test]
fn image_age_in_days() {
    let day = 86_400;
    assert_eq!(image_age_days(at(10 * day, 0), at(3 * day, 0)), 7);
    assert_eq!(image_age_days(at(10 * day, 0), at(3 * day, 1)), 6);
    assert_eq!(image_age_days(at(10 * day, 0), at(10 * day, 0)), 0);
    assert_eq!(image_age_days(at(3 * day, 0), at(10 * day, 0)), 0);
    assert_eq!(image_age_days(at(i64::MAX, 0), at(i64::MIN, 0)), 213503982334601);
}

#[test]
fn timestamps_of_the_runtime_are_read() {
    let created = "2024-01-01T00:00:00.5Z\n";
    let secs = 1_704_067_200_i64;
    assert_eq!(is_image_up_to_date(created, at(secs, 500_000_000)).unwrap(), true);
    assert_eq!(is_image_up_to_date(created, at(secs + 3, 499_999_999)).unwrap(), true);
    assert_eq!(is_image_up_to_date(created, at(secs + 3, 500_000_000)).unwrap(), false);
    assert_eq!(is_image_up_to_date("2024-01-01T01:00:00+01:00", at(secs + 3, 0)).unwrap(), false);
    assert_eq!(is_image_up_to_date("2024-01-01T00:00:00.000000001Z", at(secs + 3, 0)).unwrap(), true);
    assert_eq!(get_image_age_days(created, at(secs + 8 * 86_400, 500_000_000)).unwrap(), 8);
    assert_eq!(get_image_age_days(created, at(secs + 8 * 86_400, 499_999_999)).unwrap(), 7);
    assert_eq!(get_image_age_days(created, at(secs, 499_999_999)).unwrap(), 0);
}

#[test]
fn unreadable_timestamps_are_errors() {
    let (command, reason) = parts(is_image_up_to_date(" yesterday ", at(0, 0)).unwrap_err());
    assert_eq!(command, "parse_timestamp");
    assert!(reason.starts_with("Invalid timestamp from Docker 'yesterday': "));
    let (command, reason) = parts(get_image_age_days("", at(0, 0)).unwrap_err());
    assert_eq!(command, "parse_timestamp");
    assert!(reason.starts_with("Invalid timestamp '': "));
}

#[test]
fn image_identifiers() {
    assert_eq!(image_id_from_output("sha256:0123456789abcdef\n"), Some("sha256:0123456789abcdef".to_string()));
    assert_eq!(image_id_from_output(" 0123456789ab "), Some("0123456789ab".to_string()));
    assert_eq!(image_id_from_output("0123456789a\n"), None);
    assert_eq!(image_id_from_output(""), None);
    assert_eq!(short_image_id("0123456789abcdef"), "0123456789ab");
    assert_eq!(short_image_id("0123"), "0123");
}

#[test]
fn image_decisions() {
    assert_eq!(decide_image(true, true, Freshness::UpToDate, Some(0)), ImageDecision::Build(BuildReason::Forced));
    assert_eq!(decide_image(false, false, Freshness::NotChecked, None), ImageDecision::Build(BuildReason::Missing));
    assert_eq!(decide_image(false, true, Freshness::Outdated, Some(0)), ImageDecision::Build(BuildReason::Outdated));
    assert_eq!(
        decide_image(false, true, Freshness::Unknown, Some(0)),
        ImageDecision::Build(BuildReason::FreshnessUnknown)
    );
    assert_eq!(
        decide_image(false, true, Freshness::NotChecked, Some(0)),
        ImageDecision::Build(BuildReason::FreshnessUnknown)
    );
    assert_eq!(decide_image(false, true, Freshness::UpToDate, Some(8)), ImageDecision::Build(BuildReason::TooOld));
    assert_eq!(decide_image(false, true, Freshness::UpToDate, Some(7)), ImageDecision::UseExisting);
    assert_eq!(decide_image(false, true, Freshness::UpToDate, None), ImageDecision::UseExisting);
}

#[test]
fn image_build_command_and_reports() {
    assert_eq!(docker_build_args(), vec!["build", "--pull", "-t", "kodegen-release-builder", "-f", "Dockerfile", "."]);
    let (command, reason) = parts(build_failure(Some(2)));
    assert_eq!(command, "docker build");
    assert_eq!(reason, "Build failed with exit code: 2");
    assert_eq!(parts(build_failure(None)).1, "Build failed with exit code: -1");
    let (command, reason) = parts(build_timeout_error());
    assert_eq!(command, "docker build");
    assert!(reason.starts_with("Docker build timed out after 30 minutes.\n\nPossible causes:\n"));
    assert!(reason.ends_with("• Use local registry/cache"));
}

#[test]
fn availability_reports() {
    assert!(check_docker_available(&ProbeOutcome::Succeeded, HostOs::Linux).is_ok());
    let (command, reason) = parts(check_docker_available(&ProbeOutcome::TimedOut, HostOs::Linux).unwrap_err());
    assert_eq!(command, "docker info");
    assert_eq!(
        reason,
        "Docker daemon check timed out after 5 seconds.\n\nThis usually means Docker is not responding.\nStart Docker daemon: sudo systemctl start docker\n\nIf Docker is running, check: docker ps"
    );
    let failed = ProbeOutcome::Failed { exit_code: Some(1) };
    let (command, reason) = parts(check_docker_available(&failed, HostOs::MacOs).unwrap_err());
    assert_eq!(command, "docker info");
    assert_eq!(
        reason,
        "Docker daemon is not responding (exit code: 1).\n\nStart Docker Desktop from Applications or Spotlight \n\nIf Docker is installed, ensure the daemon is running.\nIf not installed, visit: https://docs.docker.com/get-docker/"
    );
    let failed = ProbeOutcome::Failed { exit_code: None };
    assert!(parts(check_docker_available(&failed, HostOs::Linux).unwrap_err()).1.contains("(exit code: -1)"));
    let absent = ProbeOutcome::NotStarted { reason: "No such file or directory".into() };
    let (command, reason) = parts(check_docker_available(&absent, HostOs::Linux).unwrap_err());
    assert_eq!(command, "docker");
    assert!(reason.starts_with("Docker command not found: No such file or directory\n\nDocker does not appear"));
    assert_eq!(docker_start_help(HostOs::Other), "Start Docker daemon: sudo systemctl start docker");
}

#[test]
fn health_check_reports() {
    let check = kodegen_bundler::docker::image::check_docker_responsive;
    assert!(check(&ProbeOutcome::Succeeded, "").is_ok());
    let (command, reason) = parts(check(&ProbeOutcome::TimedOut, "").unwrap_err());
    assert_eq!(command, "docker version");
    assert!(reason.starts_with("Docker health check timed out after 3 seconds.\n\nThe Docker daemon appears"));
    assert!(reason.ends_with("• Check logs: journalctl -u docker.service"));
    let failed = ProbeOutcome::Failed { exit_code: Some(1) };
    assert_eq!(
        parts(check(&failed, "Cannot connect to the Docker daemon").unwrap_err()).1,
        "Docker daemon is not responding correctly:\nCannot connect to the Docker daemon"
    );
    let absent = ProbeOutcome::NotStarted { reason: "not found".into() };
    assert_eq!(
        parts(check(&absent, "").unwrap_err()).1,
        "Cannot execute docker command: not found\n\nPossible causes:\n• Docker is not installed\n• Docker daemon is not running\n• Docker is not in PATH\n\nTry: docker version"
    );
}
