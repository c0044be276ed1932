//! Group-wide termination with escalating signals.
//!
//! The child is the leader of its own process group, so a signal addressed
//! to the negative of its id reaches it together with every descendant it
//! has spawned. Termination is two-phase: a graceful signal, a fixed grace
//! period, then an unblockable kill. Both deliveries are best-effort; a
//! group that has already exited yields a benign error that is discarded,
//! so terminating an exited group any number of times has no effect.

use vstd::prelude::*;

verus! {

/// The grace period between the graceful and the forced signal, in
/// nanoseconds (one tenth of a second).
pub const GRACE_PERIOD_NANOS: i64 = 100_000_000;

/// Relies on nix::sys::signal::kill with SIGTERM: asks every process of the
/// group addressed by the negative id to terminate; an error, such as the
/// group no longer existing, is discarded. Ids 0 and -1 are excluded: to
/// kill(2) they do not name a group but the caller's own group and every
/// process the caller may signal, and the signal would then reach the
/// watchdog itself.
#[verifier::external_body]
fn send_term_to_group(pgid: i32)
    requires
        pgid < -1,
{
    let _ = nix::sys::signal::kill(nix::unistd::Pid::from_raw(pgid), nix::sys::signal::Signal::SIGTERM);
}

/// Relies on nix::sys::signal::kill with SIGKILL: forcibly kills every
/// process of the group addressed by the negative id; an error, such as
/// the group no longer existing, is discarded. Ids 0 and -1 are excluded
/// for the same reason as for the graceful signal: they would address the
/// watchdog's own group, and an unblockable kill would never return.
#[verifier::external_body]
fn send_kill_to_group(pgid: i32)
    requires
        pgid < -1,
{
    let _ = nix::sys::signal::kill(nix::unistd::Pid::from_raw(pgid), nix::sys::signal::Signal::SIGKILL);
}

/// Relies on nix::time::clock_nanosleep on the monotonic clock: returns
/// after about the requested fraction of a second has passed; the outcome,
/// including an early return on a caught signal, is discarded.
#[verifier::external_body]
fn sleep_nanos(nanos: i64)
    requires
        0 <= nanos < 1_000_000_000,
{
    let request = nix::sys::time::TimeSpec::new(0, nanos);
    let _ = nix::time::clock_nanosleep(
        nix::time::ClockId::CLOCK_MONOTONIC,
        nix::time::ClockNanosleepFlags::empty(),
        &request,
    );
}

/// Terminate the whole process group led by `pid`: a graceful signal to
/// the group, the grace period, then a forced kill of whatever is left.
/// Best-effort and repeatable: a group that has already fully exited is
/// left untouched apart from the benign signal attempts. Only ids above 1
/// name a group a child can lead, and only those fit the negated form.
pub fn kill_process_group(pid: u32)
    requires
        1 < pid <= i32::MAX as u32,
{
    let pgid: i32 = -(pid as i32);
    send_term_to_group(pgid);
    sleep_nanos(GRACE_PERIOD_NANOS);
    send_kill_to_group(pgid);
}

} // verus!
