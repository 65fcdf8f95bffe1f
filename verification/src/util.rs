//! Names of the helper programs, the per-invocation identifier, and the
//! bounded existence poll used to await a side-car's socket.

use vstd::prelude::*;

use crate::error::AppError;
use crate::numfmt::{fmt_i64, fmt_u64, lemma_dec_chars_digits};

verus! {

/// How long one poll step waits, in milliseconds.
pub const POLL_INTERVAL_MS: u64 = 100;

/// How many poll steps are attempted before giving up: three seconds in
/// all.
pub const POLL_ATTEMPTS: u32 = 30;

/// The sandbox helper's executable name.
pub fn bwrap_bin() -> (r: String)
    ensures
        r@ == "bwrap"@,
{
    "bwrap".to_owned()
}

/// The session-bus proxy's executable name.
pub fn dbus_proxy_bin() -> (r: String)
    ensures
        r@ == "xdg-dbus-proxy"@,
{
    "xdg-dbus-proxy".to_owned()
}

/// The user-mode TCP/IP stack's executable name.
pub fn slirp4netns_bin() -> (r: String)
    ensures
        r@ == "slirp4netns"@,
{
    "slirp4netns".to_owned()
}

/// Relies on `fastrand::u64`: a uniformly random number; nothing is known
/// of its value.
#[verifier::external_body]
fn sys_rand_u64() -> u64 {
    fastrand::u64(..)
}

/// A random identifier, rendered in decimal: never empty, digits alone.
/// Each call draws a fresh number; the orchestrator draws one identifier
/// per invocation and threads it through every transient file of that
/// invocation, keeping concurrent sandboxes apart.
pub fn sandbox_id() -> (r: String)
    ensures
        r@.len() >= 1,
        forall|i: int| 0 <= i < r@.len() ==> '0' <= #[trigger] r@[i] <= '9',
{
    let raw = sys_rand_u64();
    let s = fmt_u64(raw);
    proof {
        lemma_dec_chars_digits(raw as int);
    }
    s
}

/// Relies on `rustix::fs::stat`: whether the path can be stat'ed; the
/// error is the raw errno.
#[verifier::external_body]
fn sys_stat_errno(path: &str) -> Result<(), i32> {
    match rustix::fs::stat(path) {
        Ok(_) => Ok(()),
        Err(e) => Err(e.raw_os_error()),
    }
}

/// Relies on `rustix::thread::nanosleep`: blocks for the given duration;
/// an interrupted or failed sleep is treated as a completed one.
#[verifier::external_body]
fn sys_sleep(secs: i64, nanos: i64) -> () {
    let _ = rustix::thread::nanosleep(
        &rustix::thread::Timespec { tv_sec: secs, tv_nsec: nanos },
    );
}

/// What one existence check means to the poll loop.
#[derive(Debug, Clone, Copy, PartialEq, Eq, Structural)]
pub enum PollStep {
    /// The path exists; the poll is done with a positive answer.
    Found,
    /// The path does not exist yet; keep polling.
    Absent,
    /// The check itself failed with this errno; the poll aborts.
    Failed(i32),
}

/// Decides what a stat outcome means: success is presence, the no-entry
/// errno is absence still worth waiting out, and any other errno aborts
/// the poll.
pub fn poll_step(outcome: Result<(), i32>) -> (r: PollStep)
    ensures
        outcome is Ok ==> r == PollStep::Found,
        outcome matches Err(e) ==> r == (if e == 2 {
            PollStep::Absent
        } else {
            PollStep::Failed(e)
        }),
{
    match outcome {
        Ok(()) => PollStep::Found,
        Err(errno) => {
            if errno == 2 {
                PollStep::Absent
            } else {
                PollStep::Failed(errno)
            }
        },
    }
}

/// Polls for a path's existence, sleeping `interval_ms` between attempts,
/// up to `attempts` times. `Ok(true)` when a check saw the path,
/// `Ok(false)` when every check came back absent (in particular when no
/// attempt was asked for); any check failure other than absence aborts
/// with an error naming the polled path.
pub fn poll_file(path: &String, interval_ms: u64, attempts: u32) -> (r: Result<bool, AppError>)
    requires
        interval_ms < 1000000,
    ensures
        attempts == 0 ==> (r matches Ok(found) && !found),
        r matches Err(e) ==> e matches AppError::File(p, _) && p@ == path@,
{
    let mut i: u32 = 0;
    while i < attempts
        invariant
            interval_ms < 1000000,
        decreases attempts - i,
    {
        match poll_step(sys_stat_errno(path.as_str())) {
            PollStep::Found => {
                return Ok(true);
            },
            PollStep::Absent => {},
            PollStep::Failed(errno) => {
                return Err(AppError::File(path.clone(), fmt_i64(errno as i64)));
            },
        }
        let secs: i64 = (interval_ms / 1000) as i64;
        let nanos: i64 = ((interval_ms % 1000) * 1000000) as i64;
        sys_sleep(secs, nanos);
        i = i + 1;
    }
    Ok(false)
}

} // verus!
