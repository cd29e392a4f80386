//! Cooperative one-shot synchronisation tokens for asynchronous tasks.
//!
//! A [`cancelation_token::CancelationToken`] lets a controller abandon a task's wait on a
//! pending operation, and a [`completion_token::CompletionToken`] lets a task announce, exactly
//! once, that it has reached a milestone, carrying a result. Both rest on one shared construct,
//! the [`latch::Latch`]: a one-way flag with a payload and a single stored continuation.
pub mod cancelation_token;
pub mod completion_token;
pub mod latch;
mod shared;
