use dmon::Action;
use dmon::Config;
use dmon::Effect;
use dmon::Supervisor;
use dmon::Task;
use dmon::handle_signal;
use dmon::log_enabled;
use dmon::reap_and_check;
use dmon::task_action;
use dmon::task_action_queue;
use dmon::task_dispatch;
use dmon::task_signal;
use dmon::task_signal_queue;
use dmon::NO_PID;
use dmon::NO_STATUS;

fn task(pid: i32) -> Task {
    Task { pid, action: Action::Idle, signal: 0, write_fd: -1, read_fd: -1, started: 0 }
}

fn config() -> Config {
    Config { cmd_timeout: 0, cmd_signals: false, log_signals: false, success_exit: false, log_fd: -1 }
}

fn state() -> Supervisor {
    Supervisor { cmd_task: task(100), log_task: task(200), running: true, check_child: false }
}

#[test]
fn signal_numbers_match_platform() {
    assert_eq!(dmon::signals::SIGHUP, libc::SIGHUP);
    assert_eq!(dmon::signals::SIGINT, libc::SIGINT);
    assert_eq!(dmon::signals::SIGQUIT, libc::SIGQUIT);
    assert_eq!(dmon::signals::SIGUSR1, libc::SIGUSR1);
    assert_eq!(dmon::signals::SIGUSR2, libc::SIGUSR2);
    assert_eq!(dmon::signals::SIGALRM, libc::SIGALRM);
    assert_eq!(dmon::signals::SIGTERM, libc::SIGTERM);
    assert_eq!(dmon::signals::SIGCHLD, libc::SIGCHLD);
    assert_eq!(dmon::signals::SIGCONT, libc::SIGCONT);
}

#[test]
fn interrupt_clears_run_flag() {
    let cfg = config();
    let mut st = state();
    let out = handle_signal(&mut st, &cfg, libc::SIGINT);
    assert!(!st.running);
    assert_eq!(st.cmd_task, task(100));
    assert_eq!(out.cmd_effect, Effect::NoEffect);
    assert_eq!(out.rearm_alarm, 0);
}

#[test]
fn terminate_clears_run_flag() {
    let cfg = config();
    let mut st = state();
    handle_signal(&mut st, &cfg, libc::SIGTERM);
    assert!(!st.running);
    assert!(!st.check_child);
}

#[test]
fn child_exit_sets_check_flag() {
    let cfg = config();
    let mut st = state();
    let out = handle_signal(&mut st, &cfg, libc::SIGCHLD);
    assert!(st.check_child);
    assert!(st.running);
    assert_eq!(st.cmd_task, task(100));
    assert_eq!(st.log_task, task(200));
    assert_eq!(out.rearm_alarm, 0);
}

#[test]
fn forwarded_signal_queued_on_command() {
    let cfg = Config { cmd_signals: true, ..config() };
    for sig in [libc::SIGCONT, libc::SIGQUIT, libc::SIGUSR1, libc::SIGUSR2, libc::SIGHUP] {
        let mut st = state();
        let out = handle_signal(&mut st, &cfg, sig);
        assert_eq!(st.cmd_task.action, Action::Signal);
        assert_eq!(st.cmd_task.signal, sig);
        assert_eq!(st.cmd_task.pid, 100);
        assert_eq!(st.log_task, task(200));
        assert!(st.running);
        assert_eq!(out.cmd_effect, Effect::NoEffect);
        assert_eq!(out.rearm_alarm, 0);
    }
}

#[test]
fn alarm_without_timeout_is_forwardable() {
    let cfg = Config { cmd_signals: true, ..config() };
    let mut st = state();
    let out = handle_signal(&mut st, &cfg, libc::SIGALRM);
    assert_eq!(st.cmd_task.action, Action::Signal);
    assert_eq!(st.cmd_task.signal, libc::SIGALRM);
    assert_eq!(out.cmd_effect, Effect::NoEffect);
    assert_eq!(out.rearm_alarm, 0);
}

#[test]
fn forwarding_disabled_leaves_command_untouched() {
    let cfg = config();
    let mut st = state();
    handle_signal(&mut st, &cfg, libc::SIGHUP);
    assert_eq!(st, state());
}

#[test]
fn forwarded_signal_queued_on_log_when_enabled() {
    let cfg = Config { cmd_signals: true, log_signals: true, log_fd: 5, ..config() };
    let mut st = state();
    handle_signal(&mut st, &cfg, libc::SIGUSR1);
    assert_eq!(st.cmd_task.action, Action::Signal);
    assert_eq!(st.cmd_task.signal, libc::SIGUSR1);
    assert_eq!(st.log_task.action, Action::Signal);
    assert_eq!(st.log_task.signal, libc::SIGUSR1);
}

#[test]
fn log_forwarding_needs_log_configured() {
    let cfg = Config { cmd_signals: true, log_signals: true, log_fd: -1, ..config() };
    let mut st = state();
    handle_signal(&mut st, &cfg, libc::SIGUSR2);
    assert_eq!(st.cmd_task.action, Action::Signal);
    assert_eq!(st.log_task, task(200));
}

#[test]
fn unwatched_signal_changes_nothing() {
    let cfg = Config { cmd_signals: true, log_signals: true, log_fd: 5, ..config() };
    for sig in [libc::SIGTSTP, libc::SIGPIPE, libc::SIGWINCH, 0, -3] {
        let mut st = state();
        let out = handle_signal(&mut st, &cfg, sig);
        assert_eq!(st, state());
        assert_eq!(out.cmd_effect, Effect::NoEffect);
        assert_eq!(out.rearm_alarm, 0);
    }
}

#[test]
fn watchdog_alarm_stops_then_queues_restart() {
    let cfg = Config { cmd_timeout: 30, cmd_signals: true, ..config() };
    let mut st = state();
    let out = handle_signal(&mut st, &cfg, libc::SIGALRM);
    assert_eq!(out.cmd_effect, Effect::StopProcess);
    assert_eq!(out.rearm_alarm, 30);
    assert_eq!(st.cmd_task.action, Action::Start);
    assert_eq!(st.log_task, task(200));
    assert!(st.running);
}

#[test]
fn queueing_twice_equals_queueing_once() {
    let mut once = task(100);
    task_action_queue(&mut once, Action::Start);
    let mut twice = task(100);
    task_action_queue(&mut twice, Action::Start);
    task_action_queue(&mut twice, Action::Start);
    assert_eq!(once, twice);

    let mut sig_once = task(100);
    task_signal_queue(&mut sig_once, libc::SIGHUP);
    let mut sig_twice = task(100);
    task_signal_queue(&mut sig_twice, libc::SIGHUP);
    task_signal_queue(&mut sig_twice, libc::SIGHUP);
    assert_eq!(sig_once, sig_twice);
}

#[test]
fn queueing_overwrites_previous_action() {
    let mut t = task(100);
    task_action_queue(&mut t, Action::Stop);
    task_action_queue(&mut t, Action::Start);
    assert_eq!(t.action, Action::Start);
}

#[test]
fn dispatch_consumes_pending_action() {
    let mut t = task(100);
    task_action_queue(&mut t, Action::Start);
    assert_eq!(task_dispatch(&mut t), Effect::StartProcess);
    assert_eq!(t.action, Action::Idle);
    assert_eq!(task_dispatch(&mut t), Effect::NoEffect);
}

#[test]
fn dispatch_of_signal_carries_pid_and_number() {
    let mut t = task(321);
    task_action_queue(&mut t, Action::Signal);
    task_signal_queue(&mut t, libc::SIGUSR1);
    assert_eq!(task_dispatch(&mut t), Effect::SendSignal { pid: 321, signum: libc::SIGUSR1 });
}

#[test]
fn task_action_applies_immediately() {
    let mut t = task(100);
    assert_eq!(task_action(&mut t, Action::Stop), Effect::StopProcess);
    assert_eq!(t.action, Action::Idle);
}

#[test]
fn synchronous_send_flushes_then_sends() {
    let mut t = task(100);
    task_action_queue(&mut t, Action::Start);
    let (first, second) = task_signal(&mut t, libc::SIGHUP);
    assert_eq!(first, Effect::StartProcess);
    assert_eq!(second, Effect::SendSignal { pid: 100, signum: libc::SIGHUP });
    assert_eq!(t.action, Action::Idle);
    assert_eq!(t.signal, libc::SIGHUP);
}

#[test]
fn reap_command_respawns_by_default() {
    let cfg = config();
    let status = 256;  // normal termination, exit code 1
    let mut st = state();
    let r = reap_and_check(&mut st, &cfg, 100, status);
    assert_eq!(r, status);
    assert_eq!(st.cmd_task.pid, NO_PID);
    assert_eq!(st.cmd_task.action, Action::Start);
    assert!(st.running);
}

#[test]
fn reap_command_respawns_even_on_zero_exit() {
    let cfg = config();
    let mut st = state();
    let r = reap_and_check(&mut st, &cfg, 100, 0);
    assert_eq!(r, 0);
    assert_eq!(st.cmd_task.pid, NO_PID);
    assert_eq!(st.cmd_task.action, Action::Start);
    assert!(st.running);
}

#[test]
fn reap_success_exit_shuts_down() {
    let cfg = Config { success_exit: true, ..config() };
    let mut st = state();
    let r = reap_and_check(&mut st, &cfg, 100, 0);
    assert_eq!(r, 0);
    assert_eq!(st.cmd_task.pid, NO_PID);
    assert_eq!(st.cmd_task.action, Action::Idle);
    assert!(!st.running);
}

#[test]
fn reap_success_exit_nonzero_code_respawns() {
    let cfg = Config { success_exit: true, ..config() };
    let status = 2 << 8;  // normal termination, exit code 2
    assert!(libc::WIFEXITED(status) && libc::WEXITSTATUS(status) == 2);
    let mut st = state();
    let r = reap_and_check(&mut st, &cfg, 100, status);
    assert_eq!(r, status);
    assert_eq!(st.cmd_task.action, Action::Start);
    assert!(st.running);
}

#[test]
fn reap_success_exit_killed_by_signal_respawns() {
    let cfg = Config { success_exit: true, ..config() };
    let status = libc::SIGKILL;  // killed by a signal: not a normal termination
    assert!(!libc::WIFEXITED(status));
    let mut st = state();
    reap_and_check(&mut st, &cfg, 100, status);
    assert_eq!(st.cmd_task.action, Action::Start);
    assert!(st.running);
}

#[test]
fn reap_log_always_respawns() {
    let cfg = Config { log_fd: 5, success_exit: true, ..config() };
    for status in [0, 256, libc::SIGKILL] {
        let mut st = state();
        let r = reap_and_check(&mut st, &cfg, 200, status);
        assert_eq!(r, NO_STATUS);
        assert_eq!(st.log_task.pid, NO_PID);
        assert_eq!(st.log_task.action, Action::Start);
        assert!(st.running);
        assert_eq!(st.cmd_task, task(100));
    }
}

#[test]
fn reap_log_pid_ignored_when_logging_disabled() {
    let cfg = config();
    let mut st = state();
    let r = reap_and_check(&mut st, &cfg, 200, 0);
    assert_eq!(r, NO_STATUS);
    assert_eq!(st, state());
}

#[test]
fn reap_nothing_collected_changes_nothing() {
    let cfg = Config { log_fd: 5, ..config() };
    for pid in [0, -1] {
        let mut st = state();
        let r = reap_and_check(&mut st, &cfg, pid, 0);
        assert_eq!(r, NO_STATUS);
        assert_eq!(st, state());
    }
}

#[test]
fn reap_foreign_pid_changes_nothing() {
    let cfg = Config { log_fd: 5, ..config() };
    let mut st = state();
    let r = reap_and_check(&mut st, &cfg, 4242, 0);
    assert_eq!(r, NO_STATUS);
    assert_eq!(st, state());
}

#[test]
fn reap_idle_command_pid_not_confused_with_wait_error() {
    // The command task holds NO_PID (-1); a failed wait also reports -1.
    // Nothing was collected, so nothing may change.
    let cfg = config();
    let mut st = state();
    st.cmd_task.pid = NO_PID;
    let before = st;
    let r = reap_and_check(&mut st, &cfg, -1, 0);
    assert_eq!(r, NO_STATUS);
    assert_eq!(st, before);
}

#[test]
fn log_enabled_follows_descriptor() {
    assert!(!log_enabled(&config()));
    assert!(log_enabled(&Config { log_fd: 7, ..config() }));
    assert!(log_enabled(&Config { log_fd: 0, ..config() }));
}
