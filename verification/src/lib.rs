//! Notification hooks for a retry/backoff loop.
//!
//! When an operation fails and the caller decides to wait before retrying,
//! a notifier is invoked with the failure and the computed wait duration, so
//! the failure can be observed (logged, counted, reported) without taking part
//! in the retry decision itself. The library offers one uniform interface for
//! that step and a dual-mode wrapper that serves either a plain synchronous
//! callback or one whose work is finished later by a deferred computation.

pub mod duration;
pub mod notify;
pub mod record;
