//! Core of a minimal process supervisor: a monitored command process and an
//! optional logging process, restarted on exit, with select signals forwarded
//! to both and an optional watchdog timeout on the command.
//!
//! The hard part is the split between what may run inside an asynchronous
//! signal handler (flag and field writes only) and what runs in the normal
//! supervision loop (reaps, dispatching, respawn decisions). This crate
//! verifies that control core over plain values; the surrounding process
//! machinery (spawning, `waitpid`, alarm arming, signal delivery) is the
//! caller's, which performs the effects this core decides on.

pub mod ident;
pub mod reap;
pub mod signals;
pub mod supervisor;
pub mod task;

pub use reap::NO_STATUS;
pub use reap::reap_and_check;

pub use supervisor::Config;
pub use supervisor::HandlerOutcome;
pub use supervisor::Supervisor;
pub use supervisor::handle_signal;
pub use supervisor::log_enabled;
pub use task::Action;
pub use task::Effect;
pub use task::Task;
pub use task::NO_PID;
pub use task::task_action;
pub use task::task_action_queue;
pub use task::task_dispatch;
pub use task::task_signal;
pub use task::task_signal_queue;
