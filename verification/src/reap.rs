//! The Reaper: given the result of one non-blocking wait for any terminated
//! child, update the task records and decide respawn versus shutdown.
//!
//! The wait itself (`waitpid` with no-hang) is the caller's: it runs in the
//! main loop, never in signal context, and hands the collected process id
//! and raw wait status in as plain values.

use vstd::prelude::*;

use crate::supervisor::Config;
use crate::supervisor::Supervisor;
use crate::supervisor::log_enabled;
use crate::supervisor::spec_log_enabled;
use crate::task::Action;
use crate::task::NO_PID;
use crate::task::task_action_queue;
use crate::task::with_action;
use crate::task::with_pid;

verus! {

/// Returned where a reap carries no meaningful exit status: nothing was
/// collected, or the collected process is not the command process.
pub const NO_STATUS: i32 = -1;

/// Normal termination, per the platform's wait-status encoding.
pub open spec fn is_exited(status: i32) -> bool {
    status & 0x7f == 0
}

/// The exit code of a normally terminated process, per the platform's
/// wait-status encoding.
pub open spec fn exit_code_of(status: i32) -> i32 {
    (status >> 8) & 0xff
}

/// Relies on libc::WIFEXITED (Linux): normal termination is
/// `(status & 0x7f) == 0`.
#[verifier::external_body]
fn wait_exited(status: i32) -> (r: bool)
    ensures
        r == is_exited(status),
{
    libc::WIFEXITED(status)
}

/// Relies on libc::WEXITSTATUS (Linux): the exit code of a normally
/// terminated process is `(status >> 8) & 0xff`.
#[verifier::external_body]
fn wait_exit_code(status: i32) -> (r: i32)
    ensures
        r == exit_code_of(status),
{
    libc::WEXITSTATUS(status)
}

/// The monitored command finished its work: exit-on-success mode is active
/// and the process terminated normally with code zero.
pub open spec fn is_success_exit(cfg: Config, status: i32) -> bool {
    cfg.success_exit && is_exited(status) && exit_code_of(status) == 0
}

/// The supervisor state after reaping: `pid` and `status` are what the
/// non-blocking wait returned, `pid <= 0` meaning no child was collected.
pub open spec fn reap_next(st: Supervisor, cfg: Config, pid: i32, status: i32) -> Supervisor {
    if pid <= 0 {
        st
    } else if pid == st.cmd_task.pid {
        if is_success_exit(cfg, status) {
            Supervisor { cmd_task: with_pid(st.cmd_task, NO_PID), running: false, ..st }
        } else {
            Supervisor {
                cmd_task: with_action(with_pid(st.cmd_task, NO_PID), Action::Start),
                ..st
            }
        }
    } else if spec_log_enabled(cfg) && pid == st.log_task.pid {
        Supervisor { log_task: with_action(with_pid(st.log_task, NO_PID), Action::Start), ..st }
    } else {
        st
    }
}

/// The value a reap reports: the command process's raw wait status, or
/// `NO_STATUS` for anything else.
pub open spec fn reap_result(st: Supervisor, cfg: Config, pid: i32, status: i32) -> i32 {
    if pid > 0 && pid == st.cmd_task.pid {
        status
    } else {
        NO_STATUS
    }
}

/// The reap-and-check entry point, called from the main loop after the
/// child-exit flag was observed and one non-blocking wait was performed.
///
/// A collected command process is marked not running; exit-on-success with a
/// normal zero exit clears the run flag (graceful shutdown), any other exit
/// queues a restart; its raw wait status is reported. A collected log
/// process is marked not running and its restart queued unconditionally, its
/// status never load-bearing. A wait that collected nothing, or a process
/// matching neither task, changes no state. At most one child is handled per
/// call: the caller re-checks if more may have exited.
pub fn reap_and_check(st: &mut Supervisor, cfg: &Config, pid: i32, status: i32) -> (r: i32)
    ensures
        *final(st) == reap_next(*old(st), *cfg, pid, status),
        r == reap_result(*old(st), *cfg, pid, status),
{
    if pid <= 0 {
        return NO_STATUS;
    }
    if pid == st.cmd_task.pid {
        st.cmd_task.pid = NO_PID;
        if cfg.success_exit && wait_exited(status) && wait_exit_code(status) == 0 {
            st.running = false;
        } else {
            task_action_queue(&mut st.cmd_task, Action::Start);
        }
        return status;
    }
    if log_enabled(cfg) && pid == st.log_task.pid {
        st.log_task.pid = NO_PID;
        task_action_queue(&mut st.log_task, Action::Start);
    }
    NO_STATUS
}

/// Law: with exit-on-success enabled, a command process that terminated
/// normally with code zero shuts the supervisor down: the run flag is
/// cleared, the task is marked not running, and no restart is queued.
pub proof fn lemma_reap_success_exit(st: Supervisor, cfg: Config, pid: i32, status: i32)
    requires
        pid > 0,
        pid == st.cmd_task.pid,
        cfg.success_exit,
        is_exited(status),
        exit_code_of(status) == 0,
    ensures
        !reap_next(st, cfg, pid, status).running,
        reap_next(st, cfg, pid, status).cmd_task.pid == NO_PID,
        reap_next(st, cfg, pid, status).cmd_task.action == st.cmd_task.action,
        reap_result(st, cfg, pid, status) == status,
{
}

/// Law: with exit-on-success disabled, a reaped command process is marked
/// not running and its restart is queued, whatever its exit status.
pub proof fn lemma_reap_command_respawns(st: Supervisor, cfg: Config, pid: i32, status: i32)
    requires
        pid > 0,
        pid == st.cmd_task.pid,
        !cfg.success_exit,
    ensures
        reap_next(st, cfg, pid, status).cmd_task.pid == NO_PID,
        reap_next(st, cfg, pid, status).cmd_task.action == Action::Start,
        reap_next(st, cfg, pid, status).running == st.running,
        reap_result(st, cfg, pid, status) == status,
{
}

/// Law: a reaped log process always has its restart queued, whatever its
/// exit status, and the run flag is never touched; its status is not
/// reported.
pub proof fn lemma_reap_log_respawns(st: Supervisor, cfg: Config, pid: i32, status: i32)
    requires
        pid > 0,
        pid != st.cmd_task.pid,
        spec_log_enabled(cfg),
        pid == st.log_task.pid,
    ensures
        reap_next(st, cfg, pid, status).log_task.pid == NO_PID,
        reap_next(st, cfg, pid, status).log_task.action == Action::Start,
        reap_next(st, cfg, pid, status).running == st.running,
        reap_next(st, cfg, pid, status).cmd_task == st.cmd_task,
        reap_result(st, cfg, pid, status) == NO_STATUS,
{
}

/// Law: a wait that collected no child, or a child matching neither task,
/// reports the meaningless-status sentinel and mutates nothing.
pub proof fn lemma_reap_nothing(st: Supervisor, cfg: Config, pid: i32, status: i32)
    requires
        pid <= 0 || (pid != st.cmd_task.pid && !(spec_log_enabled(cfg) && pid
            == st.log_task.pid)),
    ensures
        reap_next(st, cfg, pid, status) == st,
        reap_result(st, cfg, pid, status) == NO_STATUS,
{
}

} // verus!
