//! Signal numbers the supervisor watches, and the fixed allow-list of
//! signals that may be forwarded to the managed processes.
//!
//! The numbers are the Linux values for the mainstream architectures; the
//! test suite holds them against the platform's own definitions.

use vstd::prelude::*;

verus! {

pub const SIGHUP: i32 = 1;

pub const SIGINT: i32 = 2;

pub const SIGQUIT: i32 = 3;

pub const SIGUSR1: i32 = 10;

pub const SIGUSR2: i32 = 12;

pub const SIGALRM: i32 = 14;

pub const SIGTERM: i32 = 15;

pub const SIGCHLD: i32 = 17;

pub const SIGCONT: i32 = 18;

/// The fixed allow-list of forwardable signals: continue, alarm (when no
/// watchdog timeout claims it), quit, the two user-defined signals, hangup.
pub open spec fn is_forward_signal(signum: i32) -> bool {
    ||| signum == SIGCONT
    ||| signum == SIGALRM
    ||| signum == SIGQUIT
    ||| signum == SIGUSR1
    ||| signum == SIGUSR2
    ||| signum == SIGHUP
}

/// Decide membership in the forward allow-list.
pub fn forward_signal(signum: i32) -> (r: bool)
    ensures
        r == is_forward_signal(signum),
{
    signum == SIGCONT || signum == SIGALRM || signum == SIGQUIT || signum == SIGUSR1
        || signum == SIGUSR2 || signum == SIGHUP
}

} // verus!
