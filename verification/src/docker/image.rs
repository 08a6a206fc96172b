//! The builder image: whether it has to be built, how old it is, and what
//! is reported where the container runtime does not answer.

use vstd::prelude::*;
use vstd::string::StringExecFns;
use crate::docker::bundler::BUILDER_IMAGE_NAME;
use crate::docker::timestamps::parse_error_text;
use crate::docker::timestamps::parse_rfc3339;
use crate::docker::timestamps::rfc3339_instant;
use crate::error::BundlerError;
use crate::error::CliError;
use crate::orchestrator::HostOs;
use crate::text::chars_trim;
use crate::text::decimal;
use crate::text::from_chars;
use crate::text::from_chars_range;
use crate::text::i64_to_string;
use crate::text::push_decimal;
use crate::text::signed_decimal;
use crate::text::starts_with;
use crate::text::str_trim;
use crate::text::to_chars;
use crate::text::trim;

verus! {

/// How long the daemon may take to answer `docker info`, in seconds.
pub const DOCKER_INFO_TIMEOUT_SECS: u64 = 5;

/// How long an image build may take, in seconds: thirty minutes.
pub const DOCKER_BUILD_TIMEOUT_SECS: u64 = 1800;

/// By how many seconds the build file may be younger than the image and the
/// image still count as fresh.
pub const STALENESS_TOLERANCE_SECS: i64 = 2;

/// After how many days an image is rebuilt whatever its build file says.
pub const MAX_IMAGE_AGE_DAYS: u64 = 7;

/// How to start the container runtime on macOS.
pub const START_HELP_MACOS: &'static str = "Start Docker Desktop from Applications or Spotlight";

/// How to start the container runtime on Linux.
pub const START_HELP_LINUX: &'static str = "Start Docker daemon: sudo systemctl start docker";

/// What the report on an unanswered probe says after the seconds.
pub const INFO_TIMEOUT_ADVICE: &'static str = " seconds.\n\
    \n\
    This usually means Docker is not responding.\n";

/// What the report on a missing runtime advises.
pub const INFO_NOT_FOUND_ADVICE: &'static str = "\n\
    \n\
    Docker does not appear to be installed.\n\
    Install from: https://docs.docker.com/get-docker/\n\
    \n\
    Platform-specific instructions:\n\
    • macOS: Install Docker Desktop (includes GUI and CLI)\n\
    • Linux: Install docker.io (Ubuntu/Debian) or docker-ce (others)\n\
    • Windows: Install Docker Desktop";

/// What the report on a runtime that is not running advises.
pub const INFO_NOT_RUNNING_ADVICE: &'static str = " \n\
    \n\
    If Docker is installed, ensure the daemon is running.\n\
    If not installed, visit: https://docs.docker.com/get-docker/";

/// What the report on a timed-out image build says after the minutes.
pub const BUILD_TIMEOUT_ADVICE: &'static str = " minutes.\n\
    \n\
    Possible causes:\n\
    • Slow network connection to Docker registry\n\
    • Large base image download\n\
    • Complex Dockerfile with many layers\n\
    \n\
    Solutions:\n\
    • Check network connection\n\
    • Increase timeout if build is legitimately slow\n\
    • Optimize Dockerfile (fewer layers, smaller base images)\n\
    • Use local registry/cache";

/// What the report on a runtime that cannot be executed advises.
pub const RESPONSIVE_NOT_STARTED_ADVICE: &'static str = "\n\
    \n\
    Possible causes:\n\
    • Docker is not installed\n\
    • Docker daemon is not running\n\
    • Docker is not in PATH\n\
    \n\
    Try: docker version";

/// The report on a health check that was not answered in time.
pub const RESPONSIVE_TIMEOUT_REASON: &'static str = "Docker health check timed out after 3 seconds.\n\
    \n\
    The Docker daemon appears to be hung or unresponsive.\n\
    \n\
    Troubleshooting:\n\
    • Check: docker ps\n\
    • Restart Docker daemon: sudo systemctl restart docker\n\
    • Check logs: journalctl -u docker.service";

/// How long the daemon may take to answer the health check, in seconds.
pub const DOCKER_HEALTH_TIMEOUT_SECS: u64 = 3;

/// A point in time: whole seconds since the start of 1970 in UTC, and the
/// nanoseconds behind them.
#[derive(Debug, Clone, Copy, PartialEq, Eq, Structural)]
pub struct Instant {
    /// The whole seconds.
    pub secs: i64,
    /// The nanoseconds behind the whole seconds.
    pub nanos: u32,
}

/// How a probe of the container runtime ended.
#[derive(Debug)]
pub enum ProbeOutcome {
    /// The probe did not end in time.
    TimedOut,
    /// The probe exited with success.
    Succeeded,
    /// The probe exited with a failure.
    Failed { exit_code: Option<i32> },
    /// The probe could not be started; the text says why.
    NotStarted { reason: String },
}

/// How an image compares with its build file.
#[derive(Debug, Clone, Copy, PartialEq, Eq, Structural)]
pub enum Freshness {
    /// The comparison has not been made.
    NotChecked,
    /// The image is younger than its build file, or as old within the tolerance.
    UpToDate,
    /// The build file changed after the image was built.
    Outdated,
    /// The comparison failed.
    Unknown,
}

/// Why an image is built.
#[derive(Debug, Clone, Copy, PartialEq, Eq, Structural)]
pub enum BuildReason {
    /// The caller asked for it.
    Forced,
    /// There is no image.
    Missing,
    /// The build file changed after the image was built.
    Outdated,
    /// The image's freshness could not be established.
    FreshnessUnknown,
    /// The image is older than a week.
    TooOld,
}

/// What is done about the image.
#[derive(Debug, Clone, Copy, PartialEq, Eq, Structural)]
pub enum ImageDecision {
    /// The image is used as it is.
    UseExisting,
    /// The image is built.
    Build(BuildReason),
}

/// The number of whole units in a duration, and the unit: seconds below a
/// minute, minutes below an hour, hours below a day, and days.
pub open spec fn humanized(seconds: int) -> Seq<char> {
    let magnitude = if seconds < 0 {
        -seconds
    } else {
        seconds
    };
    let sign = if seconds < 0 {
        "-"@
    } else {
        ""@
    };
    if magnitude < 60 {
        sign + decimal(magnitude as nat) + (if magnitude == 1 {
            " second"@
        } else {
            " seconds"@
        })
    } else if magnitude < 3600 {
        sign + decimal((magnitude / 60) as nat) + (if magnitude / 60 == 1 {
            " minute"@
        } else {
            " minutes"@
        })
    } else if magnitude < 86400 {
        sign + decimal((magnitude / 3600) as nat) + (if magnitude / 3600 == 1 {
            " hour"@
        } else {
            " hours"@
        })
    } else {
        sign + decimal((magnitude / 86400) as nat) + (if magnitude / 86400 == 1 {
            " day"@
        } else {
            " days"@
        })
    }
}

/// The nanoseconds from the start of 1970 to an instant.
pub open spec fn nanos_of(instant: Instant) -> int {
    instant.secs as int * 1000000000 + instant.nanos as int
}

/// The whole seconds of a duration in nanoseconds, rounded towards zero.
pub open spec fn whole_seconds(nanos: int) -> int {
    if nanos >= 0 {
        nanos / 1000000000
    } else {
        -((-nanos) / 1000000000)
    }
}

/// An image is fresh unless its build file is more than the tolerance of
/// two whole seconds younger.
pub open spec fn fresh(dockerfile: Instant, image: Instant) -> bool {
    whole_seconds(nanos_of(dockerfile) - nanos_of(image)) <= 2
}

/// The age of an image in whole days; zero for an image from the future.
pub open spec fn age_days(now: Instant, created: Instant) -> int {
    if nanos_of(created) > nanos_of(now) {
        0
    } else {
        (nanos_of(now) - nanos_of(created)) / 86400000000000
    }
}

/// The instant that the runtime's timestamp names, where it names one.
pub open spec fn instant_of(text: Seq<char>) -> Option<Instant> {
    match rfc3339_instant(text) {
        Some((secs, nanos)) => Some(Instant { secs: secs as i64, nanos: nanos as u32 }),
        None => None,
    }
}

/// The identifier of an image in the output of the image query: the output
/// without white space at its ends, where at least twelve characters are left.
pub open spec fn image_id(stdout: Seq<char>) -> Option<Seq<char>> {
    if trim(stdout).len() >= 12 {
        Some(trim(stdout))
    } else {
        None
    }
}

/// What is done about the image: it is built where that is asked for, where
/// there is none, where the build file changed since, where that cannot be
/// told, and where the image is older than a week; an age that cannot be
/// told does not count against it.
pub open spec fn image_decision(
    force_rebuild: bool,
    image_exists: bool,
    freshness: Freshness,
    age: Option<u64>,
) -> ImageDecision {
    if force_rebuild {
        ImageDecision::Build(BuildReason::Forced)
    } else if !image_exists {
        ImageDecision::Build(BuildReason::Missing)
    } else {
        match freshness {
            Freshness::Outdated => ImageDecision::Build(BuildReason::Outdated),
            Freshness::Unknown | Freshness::NotChecked => ImageDecision::Build(
                BuildReason::FreshnessUnknown,
            ),
            Freshness::UpToDate => match age {
                Some(days) => if days > 7 {
                    ImageDecision::Build(BuildReason::TooOld)
                } else {
                    ImageDecision::UseExisting
                },
                None => ImageDecision::UseExisting,
            },
        }
    }
}

/// The hint on how to start the container runtime on a host.
pub open spec fn start_help(host: HostOs) -> Seq<char> {
    match host {
        HostOs::MacOs => START_HELP_MACOS@,
        _ => START_HELP_LINUX@,
    }
}

/// `e` reports a failed step by its name and reason.
pub open spec fn is_failure(e: BundlerError, command: Seq<char>, reason: Seq<char>) -> bool {
    e matches BundlerError::Cli(CliError::ExecutionFailed { command: c, reason: r }) && c@
        == command && r@ == reason
}

fn failure(command: &str, reason: String) -> (e: BundlerError)
    ensures
        is_failure(e, command@, reason@),
{
    BundlerError::Cli(CliError::ExecutionFailed { command: String::from_str(command), reason })
}

/// A duration in words: the whole number of the largest fitting unit.
pub fn humanize_duration(seconds: i64) -> (r: String)
    ensures
        r@ == humanized(seconds as int),
{
    let magnitude: u64 = if seconds == i64::MIN {
        9223372036854775808u64
    } else if seconds < 0 {
        (-seconds) as u64
    } else {
        seconds as u64
    };
    let mut r = if seconds < 0 {
        String::from_str("-")
    } else {
        String::from_str("")
    };
    if magnitude < 60 {
        push_decimal(&mut r, magnitude);
        if magnitude == 1 {
            r.append(" second");
        } else {
            r.append(" seconds");
        }
    } else if magnitude < 3600 {
        let minutes = magnitude / 60;
        push_decimal(&mut r, minutes);
        if minutes == 1 {
            r.append(" minute");
        } else {
            r.append(" minutes");
        }
    } else if magnitude < 86400 {
        let hours = magnitude / 3600;
        push_decimal(&mut r, hours);
        if hours == 1 {
            r.append(" hour");
        } else {
            r.append(" hours");
        }
    } else {
        let days = magnitude / 86400;
        push_decimal(&mut r, days);
        if days == 1 {
            r.append(" day");
        } else {
            r.append(" days");
        }
    }
    r
}

fn instant_nanos(instant: Instant) -> (r: i128)
    ensures
        r == nanos_of(instant),
{
    instant.secs as i128 * 1000000000 + instant.nanos as i128
}

/// The whole seconds between two instants, rounded towards zero.
pub fn seconds_between(later: Instant, earlier: Instant) -> (r: i128)
    ensures
        r == whole_seconds(nanos_of(later) - nanos_of(earlier)),
{
    let diff: i128 = instant_nanos(later) - instant_nanos(earlier);
    if diff >= 0 {
        diff / 1000000000
    } else {
        -((-diff) / 1000000000)
    }
}

/// Whether an image is fresh with respect to its build file.
pub fn is_fresh(dockerfile: Instant, image: Instant) -> (r: bool)
    ensures
        r == fresh(dockerfile, image),
{
    seconds_between(dockerfile, image) <= STALENESS_TOLERANCE_SECS as i128
}

/// The age of an image in whole days.
pub fn image_age_days(now: Instant, created: Instant) -> (r: u64)
    ensures
        r == age_days(now, created),
{
    let a = instant_nanos(now);
    let b = instant_nanos(created);
    if b > a {
        0
    } else {
        ((a - b) / 86400000000000) as u64
    }
}

/// Whether an image is up to date, from the creation time that the runtime
/// prints and the modification time of the build file. A creation time that
/// cannot be read is an error.
pub fn is_image_up_to_date(created: &str, dockerfile: Instant) -> (r: Result<bool, BundlerError>)
    ensures
        match r {
            Ok(up_to_date) => instant_of(trim(created@)) matches Some(image) && up_to_date
                == fresh(dockerfile, image),
            Err(e) => {
                &&& rfc3339_instant(trim(created@)) is None
                &&& e matches BundlerError::Cli(CliError::ExecutionFailed { command, reason })
                    && command@ == "parse_timestamp"@ && starts_with(
                    reason@,
                    "Invalid timestamp from Docker '"@ + trim(created@) + "': "@,
                )
            },
        },
{
    let text = str_trim(created);
    match parse_rfc3339(text.as_str()) {
        Ok(image) => Ok(is_fresh(dockerfile, Instant { secs: image.0, nanos: image.1 })),
        Err(e) => {
            let mut reason = String::from_str("Invalid timestamp from Docker '");
            reason.append(text.as_str());
            reason.append("': ");
            let ghost head = reason@;
            let why = parse_error_text(&e);
            reason.append(why.as_str());
            proof {
                assert(reason@.subrange(0, head.len() as int) =~= head);
            }
            Err(failure("parse_timestamp", reason))
        },
    }
}

/// The age of an image in whole days, from the creation time that the
/// runtime prints and the present time. A creation time that cannot be read
/// is an error.
pub fn get_image_age_days(created: &str, now: Instant) -> (r: Result<u64, BundlerError>)
    ensures
        match r {
            Ok(days) => instant_of(trim(created@)) matches Some(image) && days == age_days(
                now,
                image,
            ),
            Err(e) => {
                &&& rfc3339_instant(trim(created@)) is None
                &&& e matches BundlerError::Cli(CliError::ExecutionFailed { command, reason })
                    && command@ == "parse_timestamp"@ && starts_with(
                    reason@,
                    "Invalid timestamp '"@ + trim(created@) + "': "@,
                )
            },
        },
{
    let text = str_trim(created);
    match parse_rfc3339(text.as_str()) {
        Ok(made) => Ok(image_age_days(now, Instant { secs: made.0, nanos: made.1 })),
        Err(e) => {
            let mut reason = String::from_str("Invalid timestamp '");
            reason.append(text.as_str());
            reason.append("': ");
            let ghost head = reason@;
            let why = parse_error_text(&e);
            reason.append(why.as_str());
            proof {
                assert(reason@.subrange(0, head.len() as int) =~= head);
            }
            Err(failure("parse_timestamp", reason))
        },
    }
}

/// The identifier of the image in the output of the image query.
pub fn image_id_from_output(stdout: &str) -> (r: Option<String>)
    ensures
        match r {
            Some(id) => image_id(stdout@) == Some(id@),
            None => image_id(stdout@) is None,
        },
{
    let v = to_chars(stdout);
    let t = chars_trim(&v);
    if t.len() >= 12 {
        Some(from_chars(&t))
    } else {
        None
    }
}

/// The first twelve characters of an image identifier.
pub fn short_image_id(id: &str) -> (r: String)
    ensures
        r@ == if id@.len() >= 12 {
            id@.subrange(0, 12)
        } else {
            id@
        },
{
    let v = to_chars(id);
    if v.len() >= 12 {
        from_chars_range(&v, 0, 12)
    } else {
        from_chars(&v)
    }
}

/// What is done about the image.
pub fn decide_image(force_rebuild: bool, image_exists: bool, freshness: Freshness, age: Option<u64>) -> (r:
    ImageDecision)
    ensures
        r == image_decision(force_rebuild, image_exists, freshness, age),
{
    if force_rebuild {
        ImageDecision::Build(BuildReason::Forced)
    } else if !image_exists {
        ImageDecision::Build(BuildReason::Missing)
    } else {
        match freshness {
            Freshness::Outdated => ImageDecision::Build(BuildReason::Outdated),
            Freshness::Unknown | Freshness::NotChecked => ImageDecision::Build(
                BuildReason::FreshnessUnknown,
            ),
            Freshness::UpToDate => match age {
                Some(days) => if days > MAX_IMAGE_AGE_DAYS {
                    ImageDecision::Build(BuildReason::TooOld)
                } else {
                    ImageDecision::UseExisting
                },
                None => ImageDecision::UseExisting,
            },
        }
    }
}

/// The arguments of the container runtime that build the image.
pub fn docker_build_args() -> (r: Vec<String>)
    ensures
        r.deep_view() == seq![
            "build"@,
            "--pull"@,
            "-t"@,
            BUILDER_IMAGE_NAME@,
            "-f"@,
            "Dockerfile"@,
            "."@,
        ],
{
    let mut r: Vec<String> = Vec::new();
    r.push(String::from_str("build"));
    r.push(String::from_str("--pull"));
    r.push(String::from_str("-t"));
    r.push(String::from_str(BUILDER_IMAGE_NAME));
    r.push(String::from_str("-f"));
    r.push(String::from_str("Dockerfile"));
    r.push(String::from_str("."));
    proof {
        assert(r.deep_view() =~= seq![
            "build"@,
            "--pull"@,
            "-t"@,
            BUILDER_IMAGE_NAME@,
            "-f"@,
            "Dockerfile"@,
            "."@,
        ]);
    }
    r
}

/// The hint on how to start the container runtime on a host.
pub fn docker_start_help(host: HostOs) -> (r: &'static str)
    ensures
        r@ == start_help(host),
{
    match host {
        HostOs::MacOs => START_HELP_MACOS,
        _ => START_HELP_LINUX,
    }
}

/// What the probe `docker info` says of the runtime: nothing where it
/// succeeded, and otherwise what is wrong and what to do about it.
pub fn check_docker_available(outcome: &ProbeOutcome, host: HostOs) -> (r: Result<(), BundlerError>)
    ensures
        match (*outcome, r) {
            (ProbeOutcome::Succeeded, Ok(_)) => true,
            (ProbeOutcome::TimedOut, Err(e)) => is_failure(
                e,
                "docker info"@,
                "Docker daemon check timed out after "@ + decimal(5) + INFO_TIMEOUT_ADVICE@
                    + start_help(host) + "\n\nIf Docker is running, check: docker ps"@,
            ),
            (ProbeOutcome::Failed { exit_code }, Err(e)) => is_failure(
                e,
                "docker info"@,
                "Docker daemon is not responding (exit code: "@ + signed_decimal(
                    match exit_code {
                        Some(code) => code as int,
                        None => -1,
                    },
                ) + ").\n\n"@ + start_help(host) + INFO_NOT_RUNNING_ADVICE@,
            ),
            (ProbeOutcome::NotStarted { reason }, Err(e)) => is_failure(
                e,
                "docker"@,
                "Docker command not found: "@ + reason@ + INFO_NOT_FOUND_ADVICE@,
            ),
            _ => false,
        },
{
    match outcome {
        ProbeOutcome::Succeeded => Ok(()),
        ProbeOutcome::TimedOut => {
            let mut reason = String::from_str("Docker daemon check timed out after ");
            push_decimal(&mut reason, DOCKER_INFO_TIMEOUT_SECS);
            reason.append(INFO_TIMEOUT_ADVICE);
            reason.append(docker_start_help(host));
            reason.append("\n\nIf Docker is running, check: docker ps");
            Err(failure("docker info", reason))
        },
        ProbeOutcome::Failed { exit_code } => {
            let code: i64 = match exit_code {
                Some(code) => *code as i64,
                None => -1,
            };
            let mut reason = String::from_str("Docker daemon is not responding (exit code: ");
            let text = i64_to_string(code);
            reason.append(text.as_str());
            reason.append(").\n\n");
            reason.append(docker_start_help(host));
            reason.append(INFO_NOT_RUNNING_ADVICE);
            Err(failure("docker info", reason))
        },
        ProbeOutcome::NotStarted { reason: why } => {
            let mut reason = String::from_str("Docker command not found: ");
            reason.append(why.as_str());
            reason.append(INFO_NOT_FOUND_ADVICE);
            Err(failure("docker", reason))
        },
    }
}

/// What the health check `docker version` says of the runtime: nothing
/// where it succeeded, and otherwise what is wrong, with what the probe
/// wrote to standard error where it ran and failed.
pub fn check_docker_responsive(outcome: &ProbeOutcome, stderr: &str) -> (r: Result<(), BundlerError>)
    ensures
        match (*outcome, r) {
            (ProbeOutcome::Succeeded, Ok(_)) => true,
            (ProbeOutcome::TimedOut, Err(e)) => is_failure(
                e,
                "docker version"@,
                RESPONSIVE_TIMEOUT_REASON@,
            ),
            (ProbeOutcome::Failed { exit_code }, Err(e)) => is_failure(
                e,
                "docker version"@,
                "Docker daemon is not responding correctly:\n"@ + stderr@,
            ),
            (ProbeOutcome::NotStarted { reason }, Err(e)) => is_failure(
                e,
                "docker version"@,
                "Cannot execute docker command: "@ + reason@ + RESPONSIVE_NOT_STARTED_ADVICE@,
            ),
            _ => false,
        },
{
    match outcome {
        ProbeOutcome::Succeeded => Ok(()),
        ProbeOutcome::TimedOut => Err(
            failure("docker version", String::from_str(RESPONSIVE_TIMEOUT_REASON)),
        ),
        ProbeOutcome::Failed { exit_code } => {
            let mut reason = String::from_str("Docker daemon is not responding correctly:\n");
            reason.append(stderr);
            Err(failure("docker version", reason))
        },
        ProbeOutcome::NotStarted { reason: why } => {
            let mut reason = String::from_str("Cannot execute docker command: ");
            reason.append(why.as_str());
            reason.append(RESPONSIVE_NOT_STARTED_ADVICE);
            Err(failure("docker version", reason))
        },
    }
}

/// The report on an image build that exited with a failure.
pub fn build_failure(exit_code: Option<i32>) -> (e: BundlerError)
    ensures
        is_failure(
            e,
            "docker build"@,
            "Build failed with exit code: "@ + signed_decimal(
                match exit_code {
                    Some(code) => code as int,
                    None => -1,
                },
            ),
        ),
{
    let code: i64 = match exit_code {
        Some(code) => code as i64,
        None => -1,
    };
    let mut reason = String::from_str("Build failed with exit code: ");
    let text = i64_to_string(code);
    reason.append(text.as_str());
    failure("docker build", reason)
}

/// The report on an image build that took longer than allowed.
pub fn build_timeout_error() -> (e: BundlerError)
    ensures
        is_failure(
            e,
            "docker build"@,
            "Docker build timed out after "@ + decimal(30) + BUILD_TIMEOUT_ADVICE@,
        ),
{
    let mut reason = String::from_str("Docker build timed out after ");
    push_decimal(&mut reason, DOCKER_BUILD_TIMEOUT_SECS / 60);
    reason.append(BUILD_TIMEOUT_ADVICE);
    failure("docker build", reason)
}

/// An image that is used as it is exists, was not asked to be rebuilt, is
/// up to date with its build file, and is not known to be older than a week.
pub proof fn lemma_image_is_used_only_when_fresh(
    force_rebuild: bool,
    image_exists: bool,
    freshness: Freshness,
    age: Option<u64>,
)
    requires
        image_decision(force_rebuild, image_exists, freshness, age) == ImageDecision::UseExisting,
    ensures
        !force_rebuild,
        image_exists,
        freshness == Freshness::UpToDate,
        age matches Some(days) ==> days <= 7,
{
}

} // verus!
