//! Start/stop synchronisation for a mobile foreground service.
//!
//! A window offers two buttons, "start service" and "stop service". Behind
//! them sits one process-wide guard that makes repeated requests harmless:
//! a start is taken only while the service is not running, a stop only while
//! it is, and at most one worker waits for the stop signal at any time.
//!
//! The platform calls themselves (promoting the service to the foreground,
//! posting its notification, demoting it again) are made by the embedding
//! program. The guard decides which call comes next and what each result
//! means for the shared flag:
//!
//! 1. A start request that is taken raises the flag and asks for the first
//!    platform call. The program makes the call without holding the lock on
//!    the guard and reports the result; the guard answers with the next
//!    call, with the order to spawn the worker, or, after a failure, with
//!    the flag lowered again.
//! 2. The worker waits on the stop-signal channel. A stop request that is
//!    taken puts one signal on it and leaves the flag alone.
//! 3. When its wait has ended the worker reports to the guard, which lowers
//!    the flag and asks for the service to be demoted.
//!
//! [`lifecycle`] holds the transition table, [`guard`] the guard with its
//! channel, [`history`] what is proved of every sequence of events,
//! [`bridge`] the two window events and the platform flag, [`notification`]
//! what the service shows, and [`signal`] the assumptions made of the
//! channel crate.

pub mod bridge;
pub mod guard;
pub mod history;
pub mod lifecycle;
pub mod notification;
pub mod signal;
