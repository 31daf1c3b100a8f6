//! Supervisor state, read-only configuration, and the signal handler.
//!
//! The handler is the only routine that runs in asynchronous signal context.
//! It therefore does nothing but write primitive flags and per-task pending
//! slots; every blocking or compound step (the actual process stop, the alarm
//! re-arm) is handed back to the caller as a value to perform.

use vstd::prelude::*;

use crate::signals::SIGALRM;
use crate::signals::SIGCHLD;
use crate::signals::SIGINT;
use crate::signals::SIGTERM;
use crate::signals::forward_signal;
use crate::signals::is_forward_signal;
use crate::task::Action;
use crate::task::Effect;
use crate::task::Task;
use crate::task::task_action;
use crate::task::task_action_queue;
use crate::task::task_signal_queue;
use crate::task::with_action;
use crate::task::with_signal;

verus! {

/// Configuration, read-only to the core. `cmd_timeout` in seconds, zero
/// meaning no watchdog; the two forwarding gates; the exit-on-success mode;
/// and the log output descriptor, `-1` when logging is not configured.
#[derive(Clone, Copy, PartialEq, Eq, Structural, Debug)]
pub struct Config {
    pub cmd_timeout: u64,
    pub cmd_signals: bool,
    pub log_signals: bool,
    pub success_exit: bool,
    pub log_fd: i32,
}

/// The mutable state shared between signal context and the main loop: the
/// two task records, the run flag (`false` requests graceful shutdown) and
/// the flag asking the main loop to reap.
#[derive(Clone, Copy, PartialEq, Eq, Structural, Debug)]
pub struct Supervisor {
    pub cmd_task: Task,
    pub log_task: Task,
    pub running: bool,
    pub check_child: bool,
}

/// Logging is enabled exactly when a log output descriptor is configured.
pub open spec fn spec_log_enabled(cfg: Config) -> bool {
    cfg.log_fd != -1
}

/// Whether the optional log task is in use.
pub fn log_enabled(cfg: &Config) -> (r: bool)
    ensures
        r == spec_log_enabled(*cfg),
{
    cfg.log_fd != -1
}

/// Interrupt or terminate: a request to shut the supervisor down.
pub open spec fn is_stop_request(signum: i32) -> bool {
    signum == SIGINT || signum == SIGTERM
}

/// The alarm fired while a watchdog timeout is configured.
pub open spec fn is_watchdog_alarm(cfg: Config, signum: i32) -> bool {
    signum == SIGALRM && cfg.cmd_timeout > 0
}

/// A task with `Signal(signum)` queued on it.
pub open spec fn forwarded_task(t: Task, signum: i32) -> Task {
    with_signal(with_action(t, Action::Signal), signum)
}

/// The supervisor state after the handler has run on `signum`.
pub open spec fn handler_next(st: Supervisor, cfg: Config, signum: i32) -> Supervisor {
    if is_stop_request(signum) {
        Supervisor { running: false, ..st }
    } else if signum == SIGCHLD {
        Supervisor { check_child: true, ..st }
    } else if is_watchdog_alarm(cfg, signum) {
        Supervisor { cmd_task: with_action(st.cmd_task, Action::Start), ..st }
    } else if is_forward_signal(signum) {
        Supervisor {
            cmd_task: if cfg.cmd_signals {
                forwarded_task(st.cmd_task, signum)
            } else {
                st.cmd_task
            },
            log_task: if cfg.log_signals && spec_log_enabled(cfg) {
                forwarded_task(st.log_task, signum)
            } else {
                st.log_task
            },
            ..st
        }
    } else {
        st
    }
}

/// The effect the handler asks the caller to perform on the command process:
/// a stop, exactly when the watchdog alarm fired.
pub open spec fn handler_stop_effect(cfg: Config, signum: i32) -> Effect {
    if is_watchdog_alarm(cfg, signum) {
        Effect::StopProcess
    } else {
        Effect::NoEffect
    }
}

/// The interval the caller must re-arm the alarm for; zero means leave it.
pub open spec fn handler_rearm(cfg: Config, signum: i32) -> u64 {
    if is_watchdog_alarm(cfg, signum) {
        cfg.cmd_timeout
    } else {
        0
    }
}

/// What the caller must do once the handler returns. The stop effect, when
/// present, is to be performed before the queued restart is dispatched.
#[derive(Clone, Copy, PartialEq, Eq, Structural, Debug)]
pub struct HandlerOutcome {
    pub cmd_effect: Effect,
    pub rearm_alarm: u64,
}

/// The signal-handler entry point, run on delivery of a watched signal.
///
/// Interrupt and terminate clear the run flag; a child-exit notification
/// sets the reap-request flag; the watchdog alarm stops the command process
/// (the stop is returned for the caller to perform) and queues its restart,
/// asking for the alarm to be re-armed; a signal on the forward allow-list
/// is queued on each task whose forwarding gate is open. Anything else is
/// ignored. Nothing here blocks or allocates: only flags and pending slots
/// are written.
pub fn handle_signal(st: &mut Supervisor, cfg: &Config, signum: i32) -> (out: HandlerOutcome)
    ensures
        *final(st) == handler_next(*old(st), *cfg, signum),
        out.cmd_effect == handler_stop_effect(*cfg, signum),
        out.rearm_alarm == handler_rearm(*cfg, signum),
{
    if signum == SIGINT || signum == SIGTERM {
        st.running = false;
        return HandlerOutcome { cmd_effect: Effect::NoEffect, rearm_alarm: 0 };
    }
    if signum == SIGCHLD {
        st.check_child = true;
        return HandlerOutcome { cmd_effect: Effect::NoEffect, rearm_alarm: 0 };
    }
    if signum == SIGALRM && cfg.cmd_timeout > 0 {
        let stop_effect = task_action(&mut st.cmd_task, Action::Stop);
        task_action_queue(&mut st.cmd_task, Action::Start);
        return HandlerOutcome { cmd_effect: stop_effect, rearm_alarm: cfg.cmd_timeout };
    }
    if forward_signal(signum) {
        if cfg.cmd_signals {
            task_action_queue(&mut st.cmd_task, Action::Signal);
            task_signal_queue(&mut st.cmd_task, signum);
        }
        if cfg.log_signals && log_enabled(cfg) {
            task_action_queue(&mut st.log_task, Action::Signal);
            task_signal_queue(&mut st.log_task, signum);
        }
    }
    HandlerOutcome { cmd_effect: Effect::NoEffect, rearm_alarm: 0 }
}

/// Law: delivering a signal on the forward allow-list (while the watchdog
/// does not claim it) queues exactly that signal on each task whose
/// forwarding gate is open, and leaves a task with a closed gate untouched.
/// The global flags are untouched either way.
pub proof fn lemma_forwarding(st: Supervisor, cfg: Config, signum: i32)
    requires
        is_forward_signal(signum),
        !is_watchdog_alarm(cfg, signum),
    ensures
        cfg.cmd_signals ==> handler_next(st, cfg, signum).cmd_task == forwarded_task(
            st.cmd_task,
            signum,
        ),
        !cfg.cmd_signals ==> handler_next(st, cfg, signum).cmd_task == st.cmd_task,
        cfg.log_signals && spec_log_enabled(cfg) ==> handler_next(st, cfg, signum).log_task
            == forwarded_task(st.log_task, signum),
        !(cfg.log_signals && spec_log_enabled(cfg)) ==> handler_next(st, cfg, signum).log_task
            == st.log_task,
        handler_next(st, cfg, signum).running == st.running,
        handler_next(st, cfg, signum).check_child == st.check_child,
        handler_stop_effect(cfg, signum) == Effect::NoEffect,
        handler_rearm(cfg, signum) == 0,
{
}

/// Law: a signal that is not a stop request, not a child-exit notification,
/// not the watchdog alarm and not on the forward allow-list changes no task
/// and no flag, and asks for no effect.
pub proof fn lemma_ignored_signal(st: Supervisor, cfg: Config, signum: i32)
    requires
        !is_stop_request(signum),
        signum != SIGCHLD,
        !is_watchdog_alarm(cfg, signum),
        !is_forward_signal(signum),
    ensures
        handler_next(st, cfg, signum) == st,
        handler_stop_effect(cfg, signum) == Effect::NoEffect,
        handler_rearm(cfg, signum) == 0,
{
}

/// Law: the watchdog alarm (timeout configured positive) asks the caller to
/// stop the command process, leaves the command task with its restart
/// queued, and asks for the alarm to be re-armed for the configured
/// interval. The log task and the global flags are untouched.
pub proof fn lemma_watchdog_alarm(st: Supervisor, cfg: Config, signum: i32)
    requires
        signum == SIGALRM,
        cfg.cmd_timeout > 0,
    ensures
        handler_stop_effect(cfg, signum) == Effect::StopProcess,
        handler_next(st, cfg, signum).cmd_task == with_action(st.cmd_task, Action::Start),
        handler_rearm(cfg, signum) == cfg.cmd_timeout,
        handler_next(st, cfg, signum).log_task == st.log_task,
        handler_next(st, cfg, signum).running == st.running,
        handler_next(st, cfg, signum).check_child == st.check_child,
{
}

} // verus!
