//! Scheduler configuration: the work interval, the short-break length, an
//! optional long-break policy, and an optional idle timeout.
//!
//! Long breaks require two settings at once: a duration and a count of short
//! breaks to take before one fires. The two are bundled into a single
//! [`LongBreakPolicy`] that is present only when both were supplied, so a
//! half-configured long break cannot be represented at all.

use vstd::prelude::*;

verus! {

/// Cadence and length of long breaks.
#[derive(Clone, Copy, Debug, PartialEq, Eq)]
pub struct LongBreakPolicy {
    /// How many consecutive short breaks are taken before a long break fires.
    pub threshold: u8,
    /// Length of a long break, in milliseconds.
    pub long_break_ms: u64,
}

/// Immutable settings of the scheduler, fixed for the process lifetime.
#[derive(Clone, Copy, Debug, PartialEq, Eq)]
pub struct Config {
    /// Length of a work interval, in milliseconds. Always positive.
    pub work_interval_ms: u64,
    /// Length of a short break, in milliseconds. Always positive.
    pub short_break_ms: u64,
    /// Present only when both a long-break duration and a short-break count
    /// were supplied; otherwise every break is a short break.
    pub long_break: Option<LongBreakPolicy>,
    /// When present, idle detection is active with this timeout (milliseconds);
    /// when absent, idle events are never consumed.
    pub idle_timeout_ms: Option<u64>,
}

/// Why a set of raw settings was rejected.
#[derive(Clone, Copy, Debug, PartialEq, Eq)]
pub enum ConfigError {
    /// The work interval was zero.
    ZeroWorkInterval,
    /// The short-break duration was zero.
    ZeroShortBreak,
}

impl Config {
    /// The two required durations are positive.
    pub open spec fn wf(self) -> bool {
        &&& self.work_interval_ms > 0
        &&& self.short_break_ms > 0
    }

    /// Builds a configuration from the raw settings, rejecting a zero work
    /// interval or a zero short break. The long-break fields are bundled:
    /// the policy is present exactly when both were supplied.
    pub fn new(
        work_interval_ms: u64,
        short_break_ms: u64,
        long_break_ms: Option<u64>,
        short_breaks_before_long_break: Option<u8>,
        idle_timeout_ms: Option<u64>,
    ) -> (r: Result<Config, ConfigError>)
        ensures
            r is Ok <==> work_interval_ms > 0 && short_break_ms > 0,
            r matches Ok(c) ==> {
                &&& c.wf()
                &&& c.work_interval_ms == work_interval_ms
                &&& c.short_break_ms == short_break_ms
                &&& c.idle_timeout_ms == idle_timeout_ms
                &&& (c.long_break is Some <==> (long_break_ms is Some
                    && short_breaks_before_long_break is Some))
                &&& c.long_break matches Some(p) ==> (
                    long_break_ms == Some(p.long_break_ms)
                    && short_breaks_before_long_break == Some(p.threshold))
            },
            r matches Err(e) ==> (e == ConfigError::ZeroWorkInterval <==> work_interval_ms == 0),
            r matches Err(e) ==> (e == ConfigError::ZeroShortBreak
                <==> (work_interval_ms > 0 && short_break_ms == 0)),
    {
        if work_interval_ms == 0 {
            return Err(ConfigError::ZeroWorkInterval);
        }
        if short_break_ms == 0 {
            return Err(ConfigError::ZeroShortBreak);
        }
        let long_break: Option<LongBreakPolicy> = match (long_break_ms, short_breaks_before_long_break) {
            (Some(long_break_ms), Some(threshold)) => Some(LongBreakPolicy {
                threshold,
                long_break_ms,
            }),
            _ => None,
        };
        Ok(Config { work_interval_ms, short_break_ms, long_break, idle_timeout_ms })
    }
}

} // verus!
