//! The limit-enforcement state machine.
//!
//! While the child runs, the control loop polls once per fixed interval.
//! Each tick first asks whether the process has already exited (handled by
//! the caller, so that a natural exit is never turned into a verdict), and
//! only then checks the three ceilings in order: elapsed wall time, the
//! latest memory sample, and the shared output-overflow signal. The first
//! ceiling found crossed sets its verdict flag and terminates the whole
//! process group exactly once; polling then continues, without further
//! checks, until the exit is observed.

use vstd::prelude::*;
use crate::terminate::kill_process_group;

verus! {

/// The interval between two polls of the child, in milliseconds.
pub const CHECK_INTERVAL_MS: u64 = 10;

/// The accumulated monitoring state of one task.
#[derive(PartialEq, Eq, Structural, Clone, Copy, Debug)]
pub struct MonitorState {
    /// Whether the elapsed wall time was seen above the timeout.
    pub tle: bool,
    /// Whether a memory sample was seen above the ceiling.
    pub mle: bool,
    /// Whether the process group has been sent its termination signals.
    pub killed: bool,
    /// The largest memory sample seen so far, in kilobytes.
    pub max_memory_kb: u64,
    /// The elapsed time, in milliseconds, of the tick whose verdict
    /// terminated the group; absent while nothing has been killed. A killed
    /// task reports this as its elapsed time, so the report names the
    /// moment the verdict was decided, not the later moment the reaped
    /// exit was observed.
    pub killed_at_ms: Option<u64>,
}

/// What one observation of a still-running child was seen to hold; the
/// input of one tick of the enforcement loop.
#[derive(PartialEq, Eq, Structural, Clone, Copy, Debug)]
pub struct TickObs {
    /// Wall time since the task started, in milliseconds.
    pub elapsed_ms: u64,
    /// The memory sample of this tick, in kilobytes, if one could be read.
    pub sample: Option<u64>,
    /// Whether either capture stream has reported overflow.
    pub overflow: bool,
}

/// What the control loop must do after a tick.
#[derive(PartialEq, Eq, Structural, Clone, Copy, Debug)]
pub enum TickAction {
    /// A ceiling was crossed on this tick and the process group has just
    /// been terminated: poll again at once.
    KilledGroup,
    /// Nothing new: sleep one interval before the next poll.
    Sleep,
}

/// The state before any tick: no verdicts, nothing killed, no memory seen.
pub open spec fn initial_state() -> MonitorState {
    MonitorState { tle: false, mle: false, killed: false, max_memory_kb: 0, killed_at_ms: None }
}

/// The peak memory after seeing one optional sample.
pub open spec fn peak_after(max_kb: u64, sample: Option<u64>) -> u64 {
    match sample {
        Some(m) => if m > max_kb {
            m
        } else {
            max_kb
        },
        None => max_kb,
    }
}

/// The state after one tick that found the child still running: ceilings
/// are checked in order (time, then memory, then output) and the first one
/// crossed sets its flag and moves the state to killed; after the kill,
/// ticks change nothing. The peak memory takes in every sample of a tick
/// that reaches the memory check, crossing or not.
pub open spec fn tick_state(
    st: MonitorState,
    obs: TickObs,
    timeout_ms: u64,
    memory_limit_kb: u64,
) -> MonitorState {
    if st.killed {
        st
    } else if obs.elapsed_ms > timeout_ms {
        MonitorState { tle: true, ..st }.killed_at(obs.elapsed_ms)
    } else {
        let bumped = MonitorState { max_memory_kb: peak_after(st.max_memory_kb, obs.sample), ..st };
        if obs.sample is Some && obs.sample->0 > memory_limit_kb {
            MonitorState { mle: true, ..bumped }.killed_at(obs.elapsed_ms)
        } else if obs.overflow {
            bumped.killed_at(obs.elapsed_ms)
        } else {
            bumped
        }
    }
}

impl MonitorState {
    /// The same state, moved to killed at the given elapsed time.
    pub open spec fn killed_at(self, at_ms: u64) -> MonitorState {
        MonitorState { killed: true, killed_at_ms: Some(at_ms), ..self }
    }
}

/// Whether a tick on this observation invokes the group terminator: only a
/// tick that still has the child unkilled and finds a ceiling crossed.
pub open spec fn tick_kills(
    st: MonitorState,
    obs: TickObs,
    timeout_ms: u64,
    memory_limit_kb: u64,
) -> bool {
    &&& !st.killed
    &&& {
        ||| obs.elapsed_ms > timeout_ms
        ||| (obs.sample is Some && obs.sample->0 > memory_limit_kb)
        ||| obs.overflow
    }
}

/// A fresh monitoring state for a task about to be watched.
pub fn start_state() -> (st: MonitorState)
    ensures
        st == initial_state(),
{
    MonitorState { tle: false, mle: false, killed: false, max_memory_kb: 0, killed_at_ms: None }
}

/// One tick of the enforcement loop for a child found still running, given
/// what this tick observed. Updates the state exactly as `tick_state` says,
/// and invokes the group terminator exactly when `tick_kills` says, so the
/// guard against terminating twice is part of the contract.
pub fn monitor_tick(
    st: &mut MonitorState,
    pid: u32,
    obs: TickObs,
    timeout_ms: u64,
    memory_limit_kb: u64,
) -> (action: TickAction)
    requires
        1 < pid <= i32::MAX as u32,
    ensures
        *final(st) == tick_state(*old(st), obs, timeout_ms, memory_limit_kb),
        action == (if tick_kills(*old(st), obs, timeout_ms, memory_limit_kb) {
            TickAction::KilledGroup
        } else {
            TickAction::Sleep
        }),
{
    if st.killed {
        return TickAction::Sleep;
    }
    if obs.elapsed_ms > timeout_ms {
        st.tle = true;
        st.killed = true;
        st.killed_at_ms = Some(obs.elapsed_ms);
        kill_process_group(pid);
        return TickAction::KilledGroup;
    }
    match obs.sample {
        Some(m) => {
            if m > st.max_memory_kb {
                st.max_memory_kb = m;
            }
            if m > memory_limit_kb {
                st.mle = true;
                st.killed = true;
                st.killed_at_ms = Some(obs.elapsed_ms);
                kill_process_group(pid);
                return TickAction::KilledGroup;
            }
        },
        None => {},
    }
    if obs.overflow {
        st.killed = true;
        st.killed_at_ms = Some(obs.elapsed_ms);
        kill_process_group(pid);
        return TickAction::KilledGroup;
    }
    TickAction::Sleep
}

/// The state after a whole run: ticks folded over the observations in
/// order, starting from `init`.
pub open spec fn run_state(
    init: MonitorState,
    obs: Seq<TickObs>,
    timeout_ms: u64,
    memory_limit_kb: u64,
) -> MonitorState
    decreases obs.len(),
{
    if obs.len() == 0 {
        init
    } else {
        tick_state(
            run_state(init, obs.drop_last(), timeout_ms, memory_limit_kb),
            obs.last(),
            timeout_ms,
            memory_limit_kb,
        )
    }
}

/// How often a run invokes the group terminator.
pub open spec fn kills_in_run(
    init: MonitorState,
    obs: Seq<TickObs>,
    timeout_ms: u64,
    memory_limit_kb: u64,
) -> nat
    decreases obs.len(),
{
    if obs.len() == 0 {
        0
    } else {
        kills_in_run(init, obs.drop_last(), timeout_ms, memory_limit_kb) + (if tick_kills(
            run_state(init, obs.drop_last(), timeout_ms, memory_limit_kb),
            obs.last(),
            timeout_ms,
            memory_limit_kb,
        ) {
            1nat
        } else {
            0nat
        })
    }
}

/// An observation that crosses no ceiling.
pub open spec fn clean_obs(obs: TickObs, timeout_ms: u64, memory_limit_kb: u64) -> bool {
    &&& obs.elapsed_ms <= timeout_ms
    &&& (obs.sample is Some ==> obs.sample->0 <= memory_limit_kb)
    &&& !obs.overflow
}

/// Running a tail of observations after a prefix is the same as running
/// their concatenation.
pub proof fn lemma_run_state_concat(
    init: MonitorState,
    a: Seq<TickObs>,
    b: Seq<TickObs>,
    timeout_ms: u64,
    memory_limit_kb: u64,
)
    ensures
        run_state(init, a + b, timeout_ms, memory_limit_kb) == run_state(
            run_state(init, a, timeout_ms, memory_limit_kb),
            b,
            timeout_ms,
            memory_limit_kb,
        ),
    decreases b.len(),
{
    if b.len() == 0 {
        assert(a + b =~= a);
    } else {
        assert((a + b).drop_last() =~= a + b.drop_last());
        assert((a + b).last() == b.last());
        lemma_run_state_concat(init, a, b.drop_last(), timeout_ms, memory_limit_kb);
    }
}

/// Verdict flags are never cleared, the kill is never revoked, and the
/// recorded peak memory never shrinks, over any run; a state that has
/// already killed is left entirely untouched by every later tick.
pub proof fn lemma_run_preserves_verdicts(
    init: MonitorState,
    obs: Seq<TickObs>,
    timeout_ms: u64,
    memory_limit_kb: u64,
)
    ensures
        init.tle ==> run_state(init, obs, timeout_ms, memory_limit_kb).tle,
        init.mle ==> run_state(init, obs, timeout_ms, memory_limit_kb).mle,
        init.killed ==> run_state(init, obs, timeout_ms, memory_limit_kb) == init,
        init.killed ==> run_state(init, obs, timeout_ms, memory_limit_kb).killed,
        run_state(init, obs, timeout_ms, memory_limit_kb).max_memory_kb >= init.max_memory_kb,
    decreases obs.len(),
{
    if obs.len() > 0 {
        lemma_run_preserves_verdicts(init, obs.drop_last(), timeout_ms, memory_limit_kb);
    }
}

/// A task whose ticks never observe a crossed ceiling ends with every
/// verdict flag clear and the child never signalled: a command that exits
/// before any limit is reached is reported as a plain exit.
pub proof fn lemma_clean_run_sets_no_flags(
    obs: Seq<TickObs>,
    timeout_ms: u64,
    memory_limit_kb: u64,
)
    requires
        forall|i: int| 0 <= i < obs.len() ==> clean_obs(#[trigger] obs[i], timeout_ms, memory_limit_kb),
    ensures
        !run_state(initial_state(), obs, timeout_ms, memory_limit_kb).tle,
        !run_state(initial_state(), obs, timeout_ms, memory_limit_kb).mle,
        !run_state(initial_state(), obs, timeout_ms, memory_limit_kb).killed,
        kills_in_run(initial_state(), obs, timeout_ms, memory_limit_kb) == 0,
    decreases obs.len(),
{
    if obs.len() > 0 {
        assert(forall|i: int|
            0 <= i < obs.drop_last().len() ==> clean_obs(
                #[trigger] obs.drop_last()[i],
                timeout_ms,
                memory_limit_kb,
            ));
        lemma_clean_run_sets_no_flags(obs.drop_last(), timeout_ms, memory_limit_kb);
        assert(clean_obs(obs[obs.len() - 1], timeout_ms, memory_limit_kb));
    }
}

/// A run invokes the group terminator exactly when it moves the state to
/// killed, which happens at most once.
pub proof fn lemma_terminator_invoked_at_most_once(
    init: MonitorState,
    obs: Seq<TickObs>,
    timeout_ms: u64,
    memory_limit_kb: u64,
)
    ensures
        kills_in_run(init, obs, timeout_ms, memory_limit_kb) == (if run_state(
            init,
            obs,
            timeout_ms,
            memory_limit_kb,
        ).killed && !init.killed {
            1nat
        } else {
            0nat
        }),
        kills_in_run(init, obs, timeout_ms, memory_limit_kb) <= 1,
    decreases obs.len(),
{
    if obs.len() > 0 {
        lemma_terminator_invoked_at_most_once(init, obs.drop_last(), timeout_ms, memory_limit_kb);
        lemma_run_preserves_verdicts(init, obs.drop_last(), timeout_ms, memory_limit_kb);
        let pre = run_state(init, obs.drop_last(), timeout_ms, memory_limit_kb);
        let post = tick_state(pre, obs.last(), timeout_ms, memory_limit_kb);
        assert(post.killed == (pre.killed || tick_kills(pre, obs.last(), timeout_ms, memory_limit_kb)));
        assert(post == run_state(init, obs, timeout_ms, memory_limit_kb));
    }
}

/// A tick that finds the elapsed time over the timeout, before any kill,
/// flags time-limit-exceeded for good: the flag stands in the state after
/// every later tick of the run, and the kill is recorded at that tick's
/// elapsed time.
pub proof fn lemma_timeout_violation_flagged(
    init: MonitorState,
    obs: Seq<TickObs>,
    i: int,
    timeout_ms: u64,
    memory_limit_kb: u64,
)
    requires
        0 <= i < obs.len(),
        !run_state(init, obs.take(i), timeout_ms, memory_limit_kb).killed,
        obs[i].elapsed_ms > timeout_ms,
    ensures
        run_state(init, obs, timeout_ms, memory_limit_kb).tle,
        run_state(init, obs, timeout_ms, memory_limit_kb).killed,
        run_state(init, obs, timeout_ms, memory_limit_kb).killed_at_ms == Some(obs[i].elapsed_ms),
{
    let pre = run_state(init, obs.take(i), timeout_ms, memory_limit_kb);
    assert(obs.take(i + 1).drop_last() =~= obs.take(i));
    assert(obs.take(i + 1).last() == obs[i]);
    let mid = run_state(init, obs.take(i + 1), timeout_ms, memory_limit_kb);
    assert(mid == tick_state(pre, obs[i], timeout_ms, memory_limit_kb));
    assert(mid.tle && mid.killed);
    assert(obs.take(i + 1) + obs.skip(i + 1) =~= obs);
    lemma_run_state_concat(init, obs.take(i + 1), obs.skip(i + 1), timeout_ms, memory_limit_kb);
    lemma_run_preserves_verdicts(mid, obs.skip(i + 1), timeout_ms, memory_limit_kb);
}

/// When consecutive polls of a run are never more than one gap apart and
/// the first poll comes within one gap of the start, the first tick that
/// finds the timeout crossed sees an elapsed time within one gap's slack
/// of the timeout: detection latency is bounded by the polling interval.
pub proof fn lemma_timeout_detected_within_one_gap(
    obs: Seq<TickObs>,
    i: int,
    timeout_ms: u64,
    gap_ms: u64,
)
    requires
        0 <= i < obs.len(),
        obs[i].elapsed_ms > timeout_ms,
        forall|j: int| 0 <= j < i ==> #[trigger] obs[j].elapsed_ms <= timeout_ms,
        forall|j: int|
            0 < j < obs.len() ==> #[trigger] obs[j].elapsed_ms <= obs[j - 1].elapsed_ms + gap_ms,
        obs[0].elapsed_ms <= gap_ms,
    ensures
        obs[i].elapsed_ms <= timeout_ms + gap_ms,
{
}

/// The elapsed time a timed-out task reports: in a run whose ticks are
/// clean until the first one that finds the timeout crossed, with polls
/// never more than one gap apart and the first within one gap of the
/// start, the run ends flagged time-limit-exceeded and records its kill at
/// an elapsed time above the timeout by at most one gap's slack.
pub proof fn lemma_timeout_verdict_time(
    obs: Seq<TickObs>,
    i: int,
    timeout_ms: u64,
    memory_limit_kb: u64,
    gap_ms: u64,
)
    requires
        0 <= i < obs.len(),
        forall|j: int| 0 <= j < i ==> clean_obs(#[trigger] obs[j], timeout_ms, memory_limit_kb),
        obs[i].elapsed_ms > timeout_ms,
        forall|j: int|
            0 < j < obs.len() ==> #[trigger] obs[j].elapsed_ms <= obs[j - 1].elapsed_ms + gap_ms,
        obs[0].elapsed_ms <= gap_ms,
    ensures
        run_state(initial_state(), obs, timeout_ms, memory_limit_kb).tle,
        run_state(initial_state(), obs, timeout_ms, memory_limit_kb).killed_at_ms is Some,
        timeout_ms < run_state(initial_state(), obs, timeout_ms, memory_limit_kb).killed_at_ms->0
            <= timeout_ms + gap_ms,
{
    assert(forall|j: int|
        0 <= j < obs.take(i).len() ==> clean_obs(
            #[trigger] obs.take(i)[j],
            timeout_ms,
            memory_limit_kb,
        ));
    lemma_clean_run_sets_no_flags(obs.take(i), timeout_ms, memory_limit_kb);
    lemma_timeout_violation_flagged(initial_state(), obs, i, timeout_ms, memory_limit_kb);
    assert(forall|j: int| 0 <= j < i ==> #[trigger] obs[j].elapsed_ms <= timeout_ms);
    lemma_timeout_detected_within_one_gap(obs, i, timeout_ms, gap_ms);
}

/// A tick that reads a memory sample above the ceiling, in time and before
/// any kill, flags memory-limit-exceeded for good, and the reported peak
/// memory of the rest of the run stays above the ceiling.
pub proof fn lemma_memory_violation_flagged(
    init: MonitorState,
    obs: Seq<TickObs>,
    i: int,
    timeout_ms: u64,
    memory_limit_kb: u64,
)
    requires
        0 <= i < obs.len(),
        !run_state(init, obs.take(i), timeout_ms, memory_limit_kb).killed,
        obs[i].elapsed_ms <= timeout_ms,
        obs[i].sample is Some,
        obs[i].sample->0 > memory_limit_kb,
    ensures
        run_state(init, obs, timeout_ms, memory_limit_kb).mle,
        run_state(init, obs, timeout_ms, memory_limit_kb).killed,
        run_state(init, obs, timeout_ms, memory_limit_kb).max_memory_kb > memory_limit_kb,
        run_state(init, obs, timeout_ms, memory_limit_kb).killed_at_ms == Some(obs[i].elapsed_ms),
{
    let pre = run_state(init, obs.take(i), timeout_ms, memory_limit_kb);
    assert(obs.take(i + 1).drop_last() =~= obs.take(i));
    assert(obs.take(i + 1).last() == obs[i]);
    let mid = run_state(init, obs.take(i + 1), timeout_ms, memory_limit_kb);
    assert(mid == tick_state(pre, obs[i], timeout_ms, memory_limit_kb));
    assert(mid.mle && mid.killed && mid.max_memory_kb > memory_limit_kb);
    assert(obs.take(i + 1) + obs.skip(i + 1) =~= obs);
    lemma_run_state_concat(init, obs.take(i + 1), obs.skip(i + 1), timeout_ms, memory_limit_kb);
    lemma_run_preserves_verdicts(mid, obs.skip(i + 1), timeout_ms, memory_limit_kb);
}

} // verus!
