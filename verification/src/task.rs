//! The task model and result assembly.
//!
//! A task gives a command, bytes for its input, ceilings for wall time,
//! memory and captured output, and the identity to run under. Its result
//! holds the exit code when there is one, the captured output texts, the
//! elapsed time, the peak memory, and the three verdict flags. When the
//! child could not be spawned or watched, the exit code is absent and the
//! error text carries the message; no verdict flag is raised for that.

use vstd::prelude::*;
use vstd::string::StringSliceAdditionalSpecFns;
use crate::monitor::MonitorState;
use crate::sampler::is_ascii_space;
use crate::sampler::is_space_byte;

verus! {

/// One task to run and watch: the command (handed to a shell, so shell
/// syntax in it is live), the bytes to feed it, the ceilings, and the
/// unprivileged identity to run it under.
pub struct TaskInput {
    /// The command line, run as `sh -c <command>`.
    pub command: String,
    /// Bytes written to the child's input stream, which is then closed.
    pub stdin: String,
    /// Wall-clock ceiling, in milliseconds.
    pub timeout_ms: u64,
    /// Memory ceiling, in megabytes.
    pub memory_limit_mb: u64,
    /// User id the child runs as.
    pub uid: u32,
    /// Group id the child runs as.
    pub gid: u32,
    /// Cap on captured standard output, in bytes.
    pub stdout_max_bytes: usize,
    /// Cap on captured standard error, in bytes.
    pub stderr_max_bytes: usize,
}

/// The one result of a task.
pub struct TaskOutput {
    /// The child's exit code; absent exactly when setting up or monitoring
    /// the task failed, never for a verdict.
    pub exit_code: Option<i32>,
    /// Captured standard output, as text.
    pub stdout: String,
    /// Captured standard error, as text; carries the error message when the
    /// exit code is absent.
    pub stderr: String,
    /// Elapsed wall time, in milliseconds.
    pub time_ms: u64,
    /// Peak observed memory, in kilobytes.
    pub memory_kb: u64,
    /// Whether the wall-time ceiling was crossed.
    pub tle: bool,
    /// Whether the memory ceiling was crossed.
    pub mle: bool,
    /// Whether either captured stream crossed its byte cap.
    pub ole: bool,
}

/// Whether the bytes of a command hold at least one token, that is, one
/// byte that is not ASCII whitespace.
pub open spec fn has_command_token(bytes: Seq<u8>) -> bool {
    exists|i: int| 0 <= i < bytes.len() && !is_ascii_space(bytes[i])
}

/// Whether the command tokenizes to at least one element. A command of
/// nothing but whitespace is rejected before anything is spawned. Only
/// ASCII whitespace counts as blank here: a command made of nothing but
/// exotic Unicode spacing is handed to the shell instead of refused.
pub fn command_has_tokens(command: &str) -> (r: bool)
    ensures
        r == has_command_token(command.spec_bytes()),
{
    let bytes = command.as_bytes();
    let mut i: usize = 0;
    while i < bytes.len()
        invariant
            bytes@ == command.spec_bytes(),
            0 <= i <= bytes@.len(),
            forall|j: int| 0 <= j < i ==> is_ascii_space(#[trigger] bytes@[j]),
        decreases bytes@.len() - i,
    {
        if !is_space_byte(bytes[i]) {
            proof {
                assert(!is_ascii_space(bytes@[i as int]));
            }
            return true;
        }
        i = i + 1;
    }
    false
}

/// The memory ceiling in kilobytes that a ceiling in megabytes denotes,
/// saturating at the largest representable value.
pub open spec fn spec_memory_limit_kb(memory_limit_mb: u64) -> u64 {
    if memory_limit_mb * 1024 <= u64::MAX {
        (memory_limit_mb * 1024) as u64
    } else {
        u64::MAX
    }
}

/// Convert the memory ceiling from megabytes to kilobytes, saturating.
pub fn memory_limit_kb(memory_limit_mb: u64) -> (kb: u64)
    ensures
        kb == spec_memory_limit_kb(memory_limit_mb),
{
    if memory_limit_mb > u64::MAX / 1024 {
        u64::MAX
    } else {
        memory_limit_mb * 1024
    }
}

/// The result of a task that could not be set up: no exit code, the
/// message in the error text, nothing run, nothing measured, no verdicts.
pub fn setup_error_output(message: String) -> (out: TaskOutput)
    ensures
        out.exit_code is None,
        out.stdout@.len() == 0,
        out.stderr@ == message@,
        out.time_ms == 0,
        out.memory_kb == 0,
        !out.tle,
        !out.mle,
        !out.ole,
{
    TaskOutput {
        exit_code: None,
        stdout: String::new(),
        stderr: message,
        time_ms: 0,
        memory_kb: 0,
        tle: false,
        mle: false,
        ole: false,
    }
}

/// The result of a task whose monitoring failed midway: no exit code, the
/// message in the error text, and whatever time, peak memory and verdicts
/// had accumulated by then preserved.
pub fn monitoring_error_output(
    st: &MonitorState,
    message: String,
    time_ms: u64,
    overflow: bool,
) -> (out: TaskOutput)
    ensures
        out.exit_code is None,
        out.stdout@.len() == 0,
        out.stderr@ == message@,
        out.time_ms == time_ms,
        out.memory_kb == st.max_memory_kb,
        out.tle == st.tle,
        out.mle == st.mle,
        out.ole == overflow,
{
    TaskOutput {
        exit_code: None,
        stdout: String::new(),
        stderr: message,
        time_ms,
        memory_kb: st.max_memory_kb,
        tle: st.tle,
        mle: st.mle,
        ole: overflow,
    }
}

/// The exit code an observed exit status denotes: the code itself when
/// the child exited on its own, and the shell convention of the signal
/// number plus 128 when a signal terminated it, as one does after a
/// verdict kill. The code is present exactly when the child yielded a
/// code or a signal, so an absent code is left to mean a setup or
/// monitoring error and nothing else.
pub open spec fn spec_observed_exit_code(code: Option<i32>, signal: Option<i32>) -> Option<i32> {
    match code {
        Some(c) => Some(c),
        None => match signal {
            Some(s) => if s + 128 <= i32::MAX {
                Some((s + 128) as i32)
            } else {
                Some(i32::MAX)
            },
            None => None,
        },
    }
}

/// Map what the platform reported of an exit, code and terminating
/// signal, to the one exit code of the result.
pub fn observed_exit_code(code: Option<i32>, signal: Option<i32>) -> (r: Option<i32>)
    ensures
        r == spec_observed_exit_code(code, signal),
        (code is Some || signal is Some) <==> r is Some,
{
    match code {
        Some(c) => Some(c),
        None => match signal {
            Some(s) => if s <= i32::MAX - 128 {
                Some(s + 128)
            } else {
                Some(i32::MAX)
            },
            None => None,
        },
    }
}

/// The result of a task whose child was seen to exit: the exit code (see
/// `observed_exit_code`), the captured texts, the elapsed time, and the
/// verdicts accumulated while it ran. An exit observed on a tick is always
/// reported this way, whether or not a ceiling was crossed on the same
/// tick: limits are never applied retroactively to a finished child. A
/// killed task reports the elapsed time of the tick whose verdict killed
/// it, so that time stays within one polling gap of the crossed ceiling;
/// only an unkilled task reports the time its exit was observed.
pub fn exited_output(
    st: &MonitorState,
    exit_code: Option<i32>,
    stdout: String,
    stderr: String,
    time_ms: u64,
    overflow: bool,
) -> (out: TaskOutput)
    ensures
        out.exit_code == exit_code,
        out.stdout@ == stdout@,
        out.stderr@ == stderr@,
        out.time_ms == (if st.killed_at_ms is Some {
            st.killed_at_ms->0
        } else {
            time_ms
        }),
        out.memory_kb == st.max_memory_kb,
        out.tle == st.tle,
        out.mle == st.mle,
        out.ole == overflow,
{
    let reported_ms: u64 = match st.killed_at_ms {
        Some(at_ms) => at_ms,
        None => time_ms,
    };
    TaskOutput {
        exit_code,
        stdout,
        stderr,
        time_ms: reported_ms,
        memory_kb: st.max_memory_kb,
        tle: st.tle,
        mle: st.mle,
        ole: overflow,
    }
}

} // verus!
