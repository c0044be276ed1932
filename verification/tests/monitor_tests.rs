use watchdog::capture::CaptureBuffer;
use watchdog::monitor::{monitor_tick, start_state, TickAction, TickObs};
use watchdog::task::{exited_output, memory_limit_kb, monitoring_error_output, observed_exit_code};
use watchdog::terminate::kill_process_group;

// A process id far above any the platform hands out, so the group signals
// of a violating tick go to a group that does not exist and are discarded.
const STALE_PID: u32 = i32::MAX as u32;

fn obs(elapsed_ms: u64, sample: Option<u64>, overflow: bool) -> TickObs {
    TickObs { elapsed_ms, sample, overflow }
}

#[test]
fn exit_before_any_limit_reports_plain_exit() {
    // Like `echo hello` under a 1000 ms timeout and a 256 MB ceiling with
    // generous caps: a few quiet ticks, then the exit is observed.
    let limit_kb = memory_limit_kb(256);
    let mut st = start_state();
    for (t, m) in [(10u64, 2000u64), (20, 2100), (30, 2100)] {
        let action = monitor_tick(&mut st, STALE_PID, obs(t, Some(m), false), 1000, limit_kb);
        assert_eq!(action, TickAction::Sleep);
    }
    assert!(!st.tle && !st.mle && !st.killed);
    let out = exited_output(
        &st,
        observed_exit_code(Some(0), None),
        "hello\n".to_string(),
        String::new(),
        42,
        false,
    );
    assert_eq!(out.exit_code, Some(0));
    assert_eq!(out.time_ms, 42);
    assert_eq!(out.stdout, "hello\n");
    assert_eq!(out.stderr, "");
    assert!(!out.tle && !out.mle && !out.ole);
    assert_eq!(out.memory_kb, 2100);
}

#[test]
fn sleeping_past_the_timeout_is_flagged_and_killed() {
    // Like `sleep 5` under a 100 ms timeout: ticks stay quiet until the
    // elapsed time crosses the timeout, then the group is terminated once
    // and the exit, when it comes, still carries a code.
    let mut st = start_state();
    assert_eq!(monitor_tick(&mut st, STALE_PID, obs(90, None, false), 100, 1000), TickAction::Sleep);
    let action = monitor_tick(&mut st, STALE_PID, obs(105, None, false), 100, 1000);
    assert_eq!(action, TickAction::KilledGroup);
    assert!(st.tle && st.killed && !st.mle);
    // Polling goes on after the kill, but nothing changes any more.
    let later = monitor_tick(&mut st, STALE_PID, obs(215, Some(99999), true), 100, 1000);
    assert_eq!(later, TickAction::Sleep);
    assert!(st.tle && st.killed && !st.mle && st.max_memory_kb == 0);
    assert_eq!(st.killed_at_ms, Some(105));
    // The child was reaped after the kill grace; the exit status carries
    // the terminating signal, and the reported time is the verdict tick's.
    let code = observed_exit_code(None, Some(9));
    let out = exited_output(&st, code, String::new(), String::new(), 215, false);
    assert!(out.tle && !out.mle && !out.ole);
    assert_eq!(out.exit_code, Some(137));
    assert_eq!(out.time_ms, 105);
}

#[test]
fn memory_above_ceiling_is_flagged_with_peak_at_least_ceiling() {
    let mut st = start_state();
    assert_eq!(
        monitor_tick(&mut st, STALE_PID, obs(10, Some(800), false), 1000, 1000),
        TickAction::Sleep
    );
    let action = monitor_tick(&mut st, STALE_PID, obs(20, Some(2048), false), 1000, 1000);
    assert_eq!(action, TickAction::KilledGroup);
    assert!(st.mle && st.killed && !st.tle);
    assert!(st.max_memory_kb >= 1000);
    assert_eq!(st.max_memory_kb, 2048);
    assert_eq!(st.killed_at_ms, Some(20));
}

#[test]
fn peak_memory_is_the_running_maximum_of_valid_samples() {
    let mut st = start_state();
    for m in [100u64, 500, 300] {
        monitor_tick(&mut st, STALE_PID, obs(10, Some(m), false), 1000, 1000);
    }
    monitor_tick(&mut st, STALE_PID, obs(10, None, false), 1000, 1000);
    assert_eq!(st.max_memory_kb, 500);
    assert!(!st.mle && !st.killed);
}

#[test]
fn output_overflow_kills_and_result_holds_exactly_the_cap() {
    // Like `yes` with a 10-byte cap on standard output: the capture crosses
    // its cap, the union overflow signal reaches the loop, the group is
    // terminated, and the reported text is exactly the cap long.
    let mut buf = CaptureBuffer::new(10);
    let mut overflow = false;
    for _ in 0..100 {
        if !buf.absorb(b"y\n") {
            overflow = true;
            break;
        }
    }
    assert!(overflow);
    let mut st = start_state();
    let action = monitor_tick(&mut st, STALE_PID, obs(30, Some(100), overflow), 5000, 262144);
    assert_eq!(action, TickAction::KilledGroup);
    assert!(st.killed && !st.tle && !st.mle);
    let out = exited_output(
        &st,
        observed_exit_code(None, Some(9)),
        buf.text(),
        String::new(),
        140,
        overflow,
    );
    assert!(out.ole && !out.tle && !out.mle);
    assert_eq!(out.stdout.len(), 10);
    assert_eq!(out.exit_code, Some(137));
    assert_eq!(out.time_ms, 30);
}

#[test]
fn terminating_an_exited_group_twice_is_benign() {
    // The terminator on a group that no longer exists: both phases are
    // best-effort, so a second invocation has no observable effect either.
    kill_process_group(STALE_PID);
    kill_process_group(STALE_PID);
}

#[test]
fn guard_keeps_the_terminator_from_running_twice() {
    let mut st = start_state();
    assert_eq!(
        monitor_tick(&mut st, STALE_PID, obs(200, None, false), 100, 1000),
        TickAction::KilledGroup
    );
    // A second violating observation finds the state killed already and
    // does not invoke the terminator again.
    assert_eq!(
        monitor_tick(&mut st, STALE_PID, obs(300, None, false), 100, 1000),
        TickAction::Sleep
    );
}

#[test]
fn monitoring_error_preserves_accumulated_state() {
    let mut st = start_state();
    monitor_tick(&mut st, STALE_PID, obs(10, Some(777), false), 1000, 100000);
    let out = monitoring_error_output(&st, "wait failed".to_string(), 55, false);
    assert_eq!(out.exit_code, None);
    assert_eq!(out.stderr, "wait failed");
    assert_eq!(out.stdout, "");
    assert_eq!(out.time_ms, 55);
    assert_eq!(out.memory_kb, 777);
    assert!(!out.tle && !out.mle && !out.ole);
}
