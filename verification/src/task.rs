//! Task records: one per supervised child process, holding its identity and
//! the single pending control action, plus the dispatch protocol that turns a
//! pending action into an externally performed effect.

use vstd::prelude::*;

verus! {

/// Sentinel process id: the task is not currently backed by a live process.
pub const NO_PID: i32 = -1;

/// The control action that may be queued on a task. At most one is pending at
/// a time: queuing overwrites, it never accumulates.
#[derive(Clone, Copy, PartialEq, Eq, Structural, Debug)]
pub enum Action {
    /// Nothing pending.
    Idle,
    /// (Re)start the task's process.
    Start,
    /// Stop the task's process.
    Stop,
    /// Deliver the task's pending signal to its process.
    Signal,
}

/// One supervised child process: its process id (or `NO_PID`), the pending
/// action, the signal to deliver when that action is `Signal`, the stdio
/// descriptors handed to the external spawner, and the time of the last start.
#[derive(Clone, Copy, PartialEq, Eq, Structural, Debug)]
pub struct Task {
    pub pid: i32,
    pub action: Action,
    pub signal: i32,
    pub write_fd: i32,
    pub read_fd: i32,
    pub started: i64,
}

/// The externally delegated effect that dispatching a pending action calls
/// for. The core only decides; spawning, stopping and signal delivery are the
/// external process-management layer's work.
#[derive(Clone, Copy, PartialEq, Eq, Structural, Debug)]
pub enum Effect {
    /// Nothing to do.
    NoEffect,
    /// Spawn the task's process.
    StartProcess,
    /// Terminate the task's process.
    StopProcess,
    /// Deliver `signum` to the live process `pid`.
    SendSignal { pid: i32, signum: i32 },
}

/// `t` with its pending action replaced: all other fields are kept.
pub open spec fn with_action(t: Task, a: Action) -> Task {
    Task { action: a, ..t }
}

/// `t` with its pending signal replaced: all other fields are kept.
pub open spec fn with_signal(t: Task, signum: i32) -> Task {
    Task { signal: signum, ..t }
}

/// `t` with its process id replaced: all other fields are kept.
pub open spec fn with_pid(t: Task, pid: i32) -> Task {
    Task { pid: pid, ..t }
}

/// The effect that dispatching `t`'s pending action performs.
pub open spec fn effect_of(t: Task) -> Effect {
    match t.action {
        Action::Idle => Effect::NoEffect,
        Action::Start => Effect::StartProcess,
        Action::Stop => Effect::StopProcess,
        Action::Signal => Effect::SendSignal { pid: t.pid, signum: t.signal },
    }
}

/// Queue an action on a task. Last write wins: whatever was pending before is
/// overwritten, never accumulated.
pub fn task_action_queue(task: &mut Task, action: Action)
    ensures
        *final(task) == with_action(*old(task), action),
{
    task.action = action;
}

/// Queue the signal number to deliver when the pending action is `Signal`.
pub fn task_signal_queue(task: &mut Task, signum: i32)
    ensures
        *final(task) == with_signal(*old(task), signum),
{
    task.signal = signum;
}

/// Dispatcher: consume the pending action and return the effect the caller
/// must perform. The pending slot is cleared; the signal number is kept.
pub fn task_dispatch(task: &mut Task) -> (e: Effect)
    ensures
        e == effect_of(*old(task)),
        *final(task) == with_action(*old(task), Action::Idle),
{
    let e = match task.action {
        Action::Idle => Effect::NoEffect,
        Action::Start => Effect::StartProcess,
        Action::Stop => Effect::StopProcess,
        Action::Signal => Effect::SendSignal { pid: task.pid, signum: task.signal },
    };
    task.action = Action::Idle;
    e
}

/// Apply an action right away: queue it, then dispatch it. Returns the effect
/// the caller must perform; the task is left with nothing pending.
pub fn task_action(task: &mut Task, action: Action) -> (e: Effect)
    ensures
        e == effect_of(with_action(*old(task), action)),
        *final(task) == with_action(*old(task), Action::Idle),
{
    task_action_queue(task, action);
    task_dispatch(task)
}

/// Send a signal synchronously: first dispatch whatever was already queued
/// (so a concurrently queued action is not silently dropped), then queue this
/// signal, then dispatch again so the send takes effect before returning.
/// The two effects are returned in the order they must be performed.
pub fn task_signal(task: &mut Task, signum: i32) -> (effects: (Effect, Effect))
    ensures
        effects.0 == effect_of(*old(task)),
        effects.1 == (Effect::SendSignal { pid: old(task).pid, signum: signum }),
        *final(task) == with_signal(with_action(*old(task), Action::Idle), signum),
{
    let first = task_dispatch(task);
    task_action_queue(task, Action::Signal);
    task_signal_queue(task, signum);
    let second = task_dispatch(task);
    (first, second)
}

/// Law: queuing the same action twice in a row leaves the task exactly as
/// queuing it once. The pending slot is last-write-wins, nothing accumulates.
pub proof fn lemma_queue_idempotent(t: Task, a: Action)
    ensures
        with_action(with_action(t, a), a) == with_action(t, a),
{
}

/// Law: queuing the same signal number twice in a row leaves the task exactly
/// as queuing it once.
pub proof fn lemma_signal_queue_idempotent(t: Task, signum: i32)
    ensures
        with_signal(with_signal(t, signum), signum) == with_signal(t, signum),
{
}

} // verus!
