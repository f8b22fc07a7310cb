//! Startup and shutdown timing: how long binding the listener is retried, and
//! how long a termination signal is ignored after the start.

use vstd::prelude::*;

verus! {

/// How long binding the listener is retried, in milliseconds.
pub const BIND_RETRY_MS: u64 = 30000;

/// The pause between two attempts to bind, in milliseconds.
pub const BIND_INTERVAL_MS: u64 = 200;

/// How long after the start a termination signal is ignored, in seconds.
pub const SIGTERM_GRACE_SECS: u64 = 60;

/// Tells whether a failed attempt to bind is the last one: it is once thirty
/// seconds have passed since the first attempt.
pub fn bind_gives_up(elapsed_ms: u64) -> (r: bool)
    ensures
        r == (elapsed_ms >= 30000),
{
    elapsed_ms >= BIND_RETRY_MS
}

/// Tells whether a termination signal ends the server: it does once sixty
/// seconds have passed since the start, and is ignored before.
pub fn sigterm_ends_server(elapsed_secs: u64) -> (r: bool)
    ensures
        r == (elapsed_secs >= 60),
{
    elapsed_secs >= SIGTERM_GRACE_SECS
}

} // verus!
