//! Triage of a failed container run: was the build killed for want of memory,
//! killed for another reason, or did it fail on its own.

use vstd::prelude::*;
use vstd::string::StringExecFns;
use crate::error::BundlerError;
use crate::error::CliError;
use crate::package::package_type_name;
use crate::package::platform_type_to_string;
use crate::package::PackageType;
use crate::text::chars_blank;
use crate::text::chars_contain;
use crate::text::chars_lower;
use crate::text::contains;
use crate::text::decimal;
use crate::text::is_blank;
use crate::text::join;
use crate::text::join_strings;
use crate::text::lower;
use crate::text::push_decimal;
use crate::text::signed_decimal;
use crate::text::i64_to_string;
use crate::text::str_eq;
use crate::text::str_lower;
use crate::text::str_trim;
use crate::text::to_chars;
use crate::text::trim;

verus! {

/// The exit code of a process that was ended by the kill signal.
pub const SIGKILL_EXIT_CODE: i32 = 137;

/// How the report on memory exhaustion begins.
pub const OOM_HEADLINE: &'static str = "Container ran out of memory during build.\n\n";

/// The causes of memory exhaustion and the first remedy, up to the platform.
pub const OOM_CAUSES: &'static str = "\n\
    \n\
    The container exhausted available memory while building. This typically happens when:\n\
    • Building large Rust projects with many dependencies\n\
    • Parallel compilation uses more RAM than available\n\
    • Debug builds require more memory than release builds\n\
    \n\
    Solutions:\n\
    1. Increase memory limit:\n\
    cargo run -p kodegen_bundler_release -- bundle --platform ";

/// The second and third remedy, up to the platform.
pub const OOM_FEWER_PLATFORMS: &'static str = " --docker-memory 8g\n\
    \n\
    2. Build fewer platforms in parallel (run multiple times with --platform)\n\
    \n\
    3. Use release builds (they use less memory):\n\
    cargo run -p kodegen_bundler_release -- bundle --platform ";

/// The fourth remedy, up to the host's memory.
pub const OOM_SYSTEM_MEMORY: &'static str = " --release\n\
    \n\
    4. Check available system memory: ";

/// How the report on a kill without evidence of memory exhaustion begins.
pub const SIGKILL_HEADLINE: &'static str = "Container was killed with SIGKILL (exit code 137).\n";

/// What a kill can mean and how to find out.
pub const SIGKILL_ADVICE: &'static str = "\n\
    This can indicate:\n\
    • Out of memory (but no OOM markers found in logs/status)\n\
    • User cancellation (Ctrl+C, docker kill, kill -9)\n\
    • System shutdown or reboot\n\
    • PID limit reached (--pids-limit)\n\
    • Docker daemon crash or restart\n\
    \n\
    To diagnose:\n\
    • Check system logs: journalctl -u docker (Linux) or Console.app (macOS)\n\
    • Check kernel logs: dmesg | grep -i oom\n\
    • Verify container limits: --docker-memory, --cpus, --pids-limit\n\
    • Check if you manually killed the process\n\
    \n";

/// How the report on any other failure begins.
pub const GENERIC_HEADLINE: &'static str = "Container bundling failed with exit code: ";

/// Why a container run failed, from the strongest evidence found.
#[derive(Debug, Clone, Copy, PartialEq, Eq, Structural)]
pub enum FailureCause {
    /// The captured standard error names memory exhaustion.
    OomInStderr,
    /// The container runtime reports that its memory killer ended the container.
    OomByRuntime,
    /// Ended by the kill signal, and standard error names a cause other than memory.
    KilledNotOom,
    /// Ended by the kill signal with nothing on standard error: the cause is unknown.
    KilledWithoutEvidence,
    /// Ended by the kill signal, and standard error names no cause.
    KilledUnclear,
    /// Any other failure.
    Other,
}

/// What the triage does after looking at standard error alone.
#[derive(Debug, Clone, Copy, PartialEq, Eq, Structural)]
pub enum Triage {
    /// Standard error settles it.
    Decided(FailureCause),
    /// The container runtime has to be asked whether its memory killer struck.
    AskRuntime,
}

/// The captured lines as one text, a line feed between neighbours.
pub open spec fn stderr_text(lines: Seq<Seq<char>>) -> Seq<char> {
    join(lines, "\n"@)
}

/// The text names memory exhaustion, in any mix of ASCII upper and lower case.
pub open spec fn has_oom_marker(text: Seq<char>) -> bool {
    let t = lower(text);
    ||| contains(t, "oomkilled"@)
    ||| contains(t, "out of memory"@)
    ||| contains(t, "outofmemoryerror"@)
    ||| contains(t, "cannot allocate memory"@)
    ||| contains(t, "oom"@)
}

/// The text names a kill that has nothing to do with memory.
pub open spec fn has_kill_marker(text: Seq<char>) -> bool {
    let t = lower(text);
    ||| contains(t, "killed by user"@)
    ||| contains(t, "sigkill"@)
    ||| contains(t, "shutdown"@)
    ||| contains(t, "terminated by signal"@)
}

/// The cause of a failure: standard error first, then the runtime's report,
/// and the exit code only to tell a kill from an ordinary failure.
pub open spec fn failure_cause(exit_code: int, text: Seq<char>, oom_killed: bool) -> FailureCause {
    if has_oom_marker(text) {
        FailureCause::OomInStderr
    } else if oom_killed {
        FailureCause::OomByRuntime
    } else if exit_code == 137 {
        if has_kill_marker(text) {
            FailureCause::KilledNotOom
        } else if is_blank(text) {
            FailureCause::KilledWithoutEvidence
        } else {
            FailureCause::KilledUnclear
        }
    } else {
        FailureCause::Other
    }
}

/// The two causes that count as memory exhaustion.
pub open spec fn cause_is_oom(cause: FailureCause) -> bool {
    cause == FailureCause::OomInStderr || cause == FailureCause::OomByRuntime
}

/// The three causes that mean "killed, and not shown to be memory".
pub open spec fn cause_is_kill(cause: FailureCause) -> bool {
    cause == FailureCause::KilledNotOom || cause == FailureCause::KilledWithoutEvidence || cause
        == FailureCause::KilledUnclear
}

/// The runtime's answer to "was this container ended by the memory killer":
/// yes only where the query succeeded and printed `true`, in any case of letters.
pub open spec fn inspect_reports_oom(success: bool, stdout: Seq<char>) -> bool {
    success && lower(trim(stdout)) == "true"@
}

/// The line of an out-of-memory report that says how the exhaustion was found.
pub open spec fn detection_line(exit_code: int, oom_killed: bool) -> Seq<char> {
    if oom_killed {
        "(Detected via Docker container status)\n"@
    } else if exit_code == 137 {
        "(Detected via exit code 137 - SIGKILL)\n"@
    } else {
        "(Detected via error message)\n"@
    }
}

/// What a report says of the captured standard error.
pub open spec fn error_output(text: Seq<char>) -> Seq<char> {
    if text.len() > 0 {
        "stderr:\n"@ + text
    } else {
        "No error output captured"@
    }
}

/// The command that every container failure report names.
pub open spec fn container_command(platform: PackageType) -> Seq<char> {
    "bundle "@ + package_type_name(platform) + " in container"@
}

/// The reason text of an out-of-memory report.
pub open spec fn oom_reason(
    memory_limit: Seq<char>,
    memory_swap: Seq<char>,
    platform: PackageType,
    exit_code: int,
    oom_killed: bool,
    total_memory_gb: nat,
    text: Seq<char>,
) -> Seq<char> {
    OOM_HEADLINE@ + detection_line(exit_code, oom_killed) + "\nCurrent memory limit: "@
        + memory_limit + " (swap: "@ + memory_swap + ")"@ + OOM_CAUSES@ + package_type_name(
        platform,
    ) + OOM_FEWER_PLATFORMS@ + package_type_name(platform) + OOM_SYSTEM_MEMORY@ + decimal(
        total_memory_gb,
    ) + " GB total"@ + (if text.len() > 0 {
        "\n\n=== ACTUAL STDERR OUTPUT ===\n"@ + text
    } else {
        Seq::empty()
    })
}

/// The reason text of a report on a kill that was not shown to be memory.
pub open spec fn sigkill_reason(text: Seq<char>) -> Seq<char> {
    SIGKILL_HEADLINE@ + SIGKILL_ADVICE@ + error_output(text)
}

/// The reason text of a report on any other failure.
pub open spec fn generic_reason(exit_code: int, text: Seq<char>) -> Seq<char> {
    GENERIC_HEADLINE@ + signed_decimal(exit_code) + "\n\n"@ + error_output(text)
}

/// `e` is the report of a failed container command with the given reason.
pub open spec fn is_container_failure(e: BundlerError, platform: PackageType, reason: Seq<char>) -> bool {
    e matches BundlerError::Cli(CliError::ExecutionFailed { command, reason: r })
        && command@ == container_command(platform) && r@ == reason
}

/// Classifies failed container runs and words the reports.
#[derive(Debug)]
pub struct OomDetector {
    memory_limit: String,
    memory_swap: String,
}

fn text_has_oom_marker(text: &Vec<char>) -> (r: bool)
    ensures
        r == has_oom_marker(text@),
{
    let t = chars_lower(text);
    chars_contain(&t, &to_chars("oomkilled")) || chars_contain(&t, &to_chars("out of memory"))
        || chars_contain(&t, &to_chars("outofmemoryerror")) || chars_contain(
        &t,
        &to_chars("cannot allocate memory"),
    ) || chars_contain(&t, &to_chars("oom"))
}

fn text_has_kill_marker(text: &Vec<char>) -> (r: bool)
    ensures
        r == has_kill_marker(text@),
{
    let t = chars_lower(text);
    chars_contain(&t, &to_chars("killed by user")) || chars_contain(&t, &to_chars("sigkill"))
        || chars_contain(&t, &to_chars("shutdown")) || chars_contain(
        &t,
        &to_chars("terminated by signal"),
    )
}

fn error_output_text(text: &str) -> (r: String)
    ensures
        r@ == error_output(text@),
{
    if text.unicode_len() > 0 {
        let mut r = String::from_str("stderr:\n");
        r.append(text);
        r
    } else {
        String::from_str("No error output captured")
    }
}

fn container_failure(platform: PackageType, reason: String) -> (e: BundlerError)
    ensures
        is_container_failure(e, platform, reason@),
{
    let mut command = String::from_str("bundle ");
    command.append(platform_type_to_string(platform));
    command.append(" in container");
    BundlerError::Cli(CliError::ExecutionFailed { command, reason })
}

/// Reads the answer of the container runtime to the memory-killer query.
pub fn oom_status_from_inspect(success: bool, stdout: &str) -> (r: bool)
    ensures
        r == inspect_reports_oom(success, stdout@),
{
    if !success {
        return false;
    }
    let trimmed = str_trim(stdout);
    let lowered = str_lower(trimmed.as_str());
    str_eq(lowered.as_str(), "true")
}

/// The first step of the triage: standard error alone. Where it names memory
/// exhaustion the cause is decided and the runtime is not asked.
pub fn triage_stderr(stderr_lines: &Vec<String>) -> (r: Triage)
    ensures
        r == if has_oom_marker(stderr_text(stderr_lines.deep_view())) {
            Triage::Decided(FailureCause::OomInStderr)
        } else {
            Triage::AskRuntime
        },
{
    let joined = join_strings(stderr_lines, "\n");
    let text = to_chars(joined.as_str());
    if text_has_oom_marker(&text) {
        Triage::Decided(FailureCause::OomInStderr)
    } else {
        Triage::AskRuntime
    }
}

/// The cause of a failed run, from its exit code, its captured standard error
/// and the runtime's answer to the memory-killer query.
pub fn classify_failure(exit_code: i32, stderr_lines: &Vec<String>, oom_killed: bool) -> (r:
    FailureCause)
    ensures
        r == failure_cause(exit_code as int, stderr_text(stderr_lines.deep_view()), oom_killed),
{
    let joined = join_strings(stderr_lines, "\n");
    let text = to_chars(joined.as_str());
    if text_has_oom_marker(&text) {
        FailureCause::OomInStderr
    } else if oom_killed {
        FailureCause::OomByRuntime
    } else if exit_code == SIGKILL_EXIT_CODE {
        if text_has_kill_marker(&text) {
            FailureCause::KilledNotOom
        } else if chars_blank(&text) {
            FailureCause::KilledWithoutEvidence
        } else {
            FailureCause::KilledUnclear
        }
    } else {
        FailureCause::Other
    }
}

impl OomDetector {
    /// The memory ceiling that reports name.
    pub closed spec fn limit(&self) -> Seq<char> {
        self.memory_limit@
    }

    /// The ceiling on memory and swap that reports name.
    pub closed spec fn swap(&self) -> Seq<char> {
        self.memory_swap@
    }

    /// A detector that words its reports with the given limits.
    pub fn new(memory_limit: String, memory_swap: String) -> (r: Self)
        ensures
            r.limit() == memory_limit@,
            r.swap() == memory_swap@,
    {
        Self { memory_limit, memory_swap }
    }

    /// Whether a failed run died of memory exhaustion: standard error says so,
    /// or the runtime does. The exit code alone never decides this.
    pub fn is_oom_failure(&self, exit_code: i32, stderr_lines: &Vec<String>, oom_killed: bool) -> (r:
        bool)
        ensures
            r == cause_is_oom(
                failure_cause(exit_code as int, stderr_text(stderr_lines.deep_view()), oom_killed),
            ),
            r == (has_oom_marker(stderr_text(stderr_lines.deep_view())) || oom_killed),
    {
        let cause = classify_failure(exit_code, stderr_lines, oom_killed);
        cause == FailureCause::OomInStderr || cause == FailureCause::OomByRuntime
    }

    /// The report on a run that died of memory exhaustion: how it was found,
    /// the configured limits, the host's memory, what to do, and the captured
    /// standard error.
    pub fn format_oom_error(
        &self,
        platform: PackageType,
        stderr_lines: &Vec<String>,
        exit_code: i32,
        oom_killed: bool,
        total_memory_gb: u64,
    ) -> (e: BundlerError)
        ensures
            is_container_failure(
                e,
                platform,
                oom_reason(
                    self.limit(),
                    self.swap(),
                    platform,
                    exit_code as int,
                    oom_killed,
                    total_memory_gb as nat,
                    stderr_text(stderr_lines.deep_view()),
                ),
            ),
    {
        let name = platform_type_to_string(platform);
        let mut reason = String::from_str(OOM_HEADLINE);
        if oom_killed {
            reason.append("(Detected via Docker container status)\n");
        } else if exit_code == SIGKILL_EXIT_CODE {
            reason.append("(Detected via exit code 137 - SIGKILL)\n");
        } else {
            reason.append("(Detected via error message)\n");
        }
        reason.append("\nCurrent memory limit: ");
        reason.append(self.memory_limit.as_str());
        reason.append(" (swap: ");
        reason.append(self.memory_swap.as_str());
        reason.append(")");
        reason.append(OOM_CAUSES);
        reason.append(name);
        reason.append(OOM_FEWER_PLATFORMS);
        reason.append(name);
        reason.append(OOM_SYSTEM_MEMORY);
        push_decimal(&mut reason, total_memory_gb);
        reason.append(" GB total");
        let joined = join_strings(stderr_lines, "\n");
        if joined.as_str().unicode_len() > 0 {
            reason.append("\n\n=== ACTUAL STDERR OUTPUT ===\n");
            reason.append(joined.as_str());
        }
        proof {
            assert(reason@ =~= oom_reason(
                self.limit(),
                self.swap(),
                platform,
                exit_code as int,
                oom_killed,
                total_memory_gb as nat,
                stderr_text(stderr_lines.deep_view()),
            ));
        }
        container_failure(platform, reason)
    }

    /// The report on a failure that was neither memory exhaustion nor a kill.
    pub fn format_generic_error(
        &self,
        platform: PackageType,
        exit_code: i32,
        stderr_lines: &Vec<String>,
    ) -> (e: BundlerError)
        ensures
            is_container_failure(
                e,
                platform,
                generic_reason(exit_code as int, stderr_text(stderr_lines.deep_view())),
            ),
    {
        let joined = join_strings(stderr_lines, "\n");
        let output = error_output_text(joined.as_str());
        let mut reason = String::from_str(GENERIC_HEADLINE);
        let code = i64_to_string(exit_code as i64);
        reason.append(code.as_str());
        reason.append("\n\n");
        reason.append(output.as_str());
        container_failure(platform, reason)
    }

    /// The report on a run that was ended by the kill signal without evidence
    /// of memory exhaustion.
    pub fn format_sigkill_error(&self, platform: PackageType, stderr_lines: &Vec<String>) -> (e:
        BundlerError)
        ensures
            is_container_failure(
                e,
                platform,
                sigkill_reason(stderr_text(stderr_lines.deep_view())),
            ),
    {
        let joined = join_strings(stderr_lines, "\n");
        let output = error_output_text(joined.as_str());
        let mut reason = String::from_str(SIGKILL_HEADLINE);
        reason.append(SIGKILL_ADVICE);
        reason.append(output.as_str());
        container_failure(platform, reason)
    }

    /// The report that belongs to a cause: the out-of-memory report for the
    /// two memory causes, the kill report for an exit by the kill signal, and
    /// the general report otherwise.
    pub fn failure_report(
        &self,
        platform: PackageType,
        exit_code: i32,
        stderr_lines: &Vec<String>,
        oom_killed: bool,
        total_memory_gb: u64,
    ) -> (e: BundlerError)
        ensures
            is_container_failure(
                e,
                platform,
                report_reason(
                    self.limit(),
                    self.swap(),
                    platform,
                    exit_code as int,
                    oom_killed,
                    total_memory_gb as nat,
                    stderr_text(stderr_lines.deep_view()),
                ),
            ),
    {
        if self.is_oom_failure(exit_code, stderr_lines, oom_killed) {
            self.format_oom_error(platform, stderr_lines, exit_code, oom_killed, total_memory_gb)
        } else if exit_code == SIGKILL_EXIT_CODE {
            self.format_sigkill_error(platform, stderr_lines)
        } else {
            self.format_generic_error(platform, exit_code, stderr_lines)
        }
    }
}

/// The reason text of the report on a failed run.
pub open spec fn report_reason(
    memory_limit: Seq<char>,
    memory_swap: Seq<char>,
    platform: PackageType,
    exit_code: int,
    oom_killed: bool,
    total_memory_gb: nat,
    text: Seq<char>,
) -> Seq<char> {
    let cause = failure_cause(exit_code, text, oom_killed);
    if cause_is_oom(cause) {
        oom_reason(memory_limit, memory_swap, platform, exit_code, oom_killed, total_memory_gb, text)
    } else if cause_is_kill(cause) {
        sigkill_reason(text)
    } else {
        generic_reason(exit_code, text)
    }
}

/// The three kinds of report can always be told apart by their text: they
/// differ in the eleventh character, whatever the limits, the platform, the
/// exit code and the captured standard error.
pub proof fn lemma_reports_distinguishable(
    memory_limit: Seq<char>,
    memory_swap: Seq<char>,
    platform: PackageType,
    exit_code: int,
    oom_killed: bool,
    total_memory_gb: nat,
    text: Seq<char>,
    other_exit_code: int,
    other_text: Seq<char>,
    third_text: Seq<char>,
)
    ensures
        oom_reason(memory_limit, memory_swap, platform, exit_code, oom_killed, total_memory_gb, text)
            != sigkill_reason(other_text),
        oom_reason(memory_limit, memory_swap, platform, exit_code, oom_killed, total_memory_gb, text)
            != generic_reason(other_exit_code, third_text),
        sigkill_reason(other_text) != generic_reason(other_exit_code, third_text),
{
    reveal_strlit("Container ran out of memory during build.\n\n");
    reveal_strlit("Container was killed with SIGKILL (exit code 137).\n");
    reveal_strlit("Container bundling failed with exit code: ");
    let a = oom_reason(
        memory_limit,
        memory_swap,
        platform,
        exit_code,
        oom_killed,
        total_memory_gb,
        text,
    );
    let b = sigkill_reason(other_text);
    let c = generic_reason(other_exit_code, third_text);
    assert(OOM_HEADLINE@[10] == 'r');
    assert(SIGKILL_HEADLINE@[10] == 'w');
    assert(GENERIC_HEADLINE@[10] == 'b');
    assert(a[10] == 'r');
    assert(b[10] == 'w');
    assert(c[10] == 'b');
}

/// The cause never rests on the exit code alone: without a memory marker on
/// standard error and without the runtime's word, no exit code gives a memory cause.
pub proof fn lemma_exit_code_alone_is_not_oom(exit_code: int, text: Seq<char>)
    requires
        !has_oom_marker(text),
    ensures
        !cause_is_oom(failure_cause(exit_code, text, false)),
{
}

} // verus!
