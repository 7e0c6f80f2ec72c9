//! Core of a work/break interval scheduler: a state machine that tracks the
//! current phase (work, short break, long break), decides transitions when the
//! countdown timer expires, absorbs externally reported idle periods by
//! pausing and resuming the countdown, and renders the notification messages
//! that accompany each transition.

pub mod config;
pub mod message;
pub mod scheduler;
