//! A verified model of a filesystem-watch dispatch pipeline.
//!
//! Notifications reported by an OS watch facility are classified into log
//! actions, queued through a bounded FIFO, admitted under a counting
//! semaphore, and fanned out into one unit of work per affected path.
//! The pure decision logic lives here; the asynchronous plumbing around it
//! (the OS watch registration, the task runtime, the logging sink) is an
//! unverified shell that hands this library plain values.

pub mod event;
pub mod classify;
pub mod queue;
pub mod limiter;
pub mod dispatch;
