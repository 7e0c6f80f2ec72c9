//! The phase scheduler: the state machine at the heart of the interval timer.
//!
//! The scheduler owns the current phase (work, short break, long break), the
//! count of short breaks taken since the last long break, and the state of the
//! single countdown timer — either running with a known armed duration, or
//! paused with a known remaining duration. Two handlers drive it: one for the
//! expiry of the countdown, one for idle/active events from an external idle
//! source. Each handler is a pure transition: it updates the state and
//! returns the list of effects (re-arm or disarm the timer, show a
//! notification) for the surrounding event loop to carry out.

use vstd::prelude::*;
use vstd::string::StringExecFns;
use crate::config::Config;
use crate::message::{resume_summary, resume_summary_string, short_break_summary,
    short_break_summary_string};

verus! {

/// The phase the scheduler is currently in.
#[derive(Clone, Copy, Debug, PartialEq, Eq)]
pub enum Phase {
    Work,
    ShortBreak,
    LongBreak,
}

/// The single countdown timer: running with the duration it was armed with,
/// or paused with the duration that was left when it was paused. The shape of
/// the type makes "paused remaining is recorded exactly when the timer is
/// paused" hold by construction.
#[derive(Clone, Copy, Debug, PartialEq, Eq)]
pub enum TimerState {
    Running { armed_ms: u64 },
    Paused { remaining_ms: u64 },
}

/// An event from the external idle source.
#[derive(Clone, Copy, Debug, PartialEq, Eq)]
pub enum IdleEvent {
    Idled,
    Resumed,
}

/// An instruction for the surrounding event loop.
#[derive(Debug)]
pub enum Effect {
    /// Stop delivery of the pending countdown expiry.
    Disarm,
    /// Arm the countdown for this many milliseconds.
    ReArm { duration_ms: u64 },
    /// Show a notification.
    Notify { summary: String, body: String },
}

/// The scheduler state.
pub struct Scheduler {
    pub config: Config,
    pub phase: Phase,
    /// Consecutive short breaks taken since the last long break (or start);
    /// kept at zero when no long-break policy is configured.
    pub short_break_count: u8,
    pub timer: TimerState,
}

impl Scheduler {
    /// The invariant every reachable scheduler state satisfies: the
    /// configuration is valid, the short-break count never exceeds the
    /// configured threshold (and stays zero without a policy), a break's
    /// countdown is always running and armed with exactly that break's
    /// configured duration — so a long break is only ever current when the
    /// policy exists — and during work the countdown never holds more than a
    /// full work interval.
    pub open spec fn wf(self) -> bool {
        &&& self.config.wf()
        &&& (self.config.long_break matches Some(p) ==> self.short_break_count <= p.threshold)
        &&& (self.config.long_break is None ==> self.short_break_count == 0)
        &&& (self.phase is ShortBreak ==> self.timer == TimerState::Running {
            armed_ms: self.config.short_break_ms,
        })
        &&& (self.phase is LongBreak ==> (self.config.long_break matches Some(p)
            && self.timer == TimerState::Running { armed_ms: p.long_break_ms }))
        &&& (self.phase is Work ==> match self.timer {
            TimerState::Running { armed_ms } => armed_ms <= self.config.work_interval_ms,
            TimerState::Paused { remaining_ms } => remaining_ms <= self.config.work_interval_ms,
        })
    }

    /// A fresh scheduler: in the work phase, no short breaks taken, the
    /// countdown armed for one work interval.
    pub fn new(config: Config) -> (s: Scheduler)
        requires
            config.wf(),
        ensures
            s.wf(),
            s.config == config,
            s.phase is Work,
            s.short_break_count == 0,
            s.timer == (TimerState::Running { armed_ms: config.work_interval_ms }),
    {
        Scheduler {
            config,
            phase: Phase::Work,
            short_break_count: 0,
            timer: TimerState::Running { armed_ms: config.work_interval_ms },
        }
    }
}

/// Whether the next expiry during work enters a long break: a policy is
/// configured and the short-break count has reached its threshold.
pub open spec fn takes_long_break(s: Scheduler) -> bool {
    s.config.long_break matches Some(p) && s.short_break_count == p.threshold
}

/// The state after the countdown expires. From work the scheduler enters a
/// break — the long one exactly when [`takes_long_break`] holds, resetting the
/// count, the short one otherwise, advancing the count under a policy — and
/// arms the countdown for that break's duration. From either break it returns
/// to work and arms a full work interval.
pub open spec fn step_timer(s: Scheduler) -> Scheduler {
    match s.phase {
        Phase::Work => match s.config.long_break {
            Some(p) => if s.short_break_count == p.threshold {
                Scheduler {
                    phase: Phase::LongBreak,
                    short_break_count: 0,
                    timer: TimerState::Running { armed_ms: p.long_break_ms },
                    ..s
                }
            } else {
                Scheduler {
                    phase: Phase::ShortBreak,
                    short_break_count: (s.short_break_count + 1) as u8,
                    timer: TimerState::Running { armed_ms: s.config.short_break_ms },
                    ..s
                }
            },
            None => Scheduler {
                phase: Phase::ShortBreak,
                timer: TimerState::Running { armed_ms: s.config.short_break_ms },
                ..s
            },
        },
        _ => Scheduler {
            phase: Phase::Work,
            timer: TimerState::Running { armed_ms: s.config.work_interval_ms },
            ..s
        },
    }
}

/// The state after an idle event. Inert unless idle detection is configured
/// and the scheduler is in the work phase; then `Idled` pauses a running
/// countdown, recording armed minus elapsed as the remaining time, and
/// `Resumed` re-arms a paused countdown for exactly the recorded remainder.
/// A repeated `Idled` while paused or `Resumed` while running changes nothing.
pub open spec fn step_idle(s: Scheduler, kind: IdleEvent, elapsed_ms: u64) -> Scheduler {
    if s.config.idle_timeout_ms is None || !(s.phase is Work) {
        s
    } else {
        match (kind, s.timer) {
            (IdleEvent::Idled, TimerState::Running { armed_ms }) => Scheduler {
                timer: TimerState::Paused { remaining_ms: (armed_ms - elapsed_ms) as u64 },
                ..s
            },
            (IdleEvent::Resumed, TimerState::Paused { remaining_ms }) => Scheduler {
                timer: TimerState::Running { armed_ms: remaining_ms },
                ..s
            },
            _ => s,
        }
    }
}

/// Whether an idle event actually pauses the countdown, so that the elapsed
/// time handed in with it matters.
pub open spec fn idle_event_pauses(s: Scheduler, kind: IdleEvent) -> bool {
    &&& s.config.idle_timeout_ms is Some
    &&& s.phase is Work
    &&& kind is Idled
    &&& s.timer is Running
}

/// The effects of a countdown expiry: entering a break notifies (with the
/// break's summary and body) and re-arms for the break's duration; returning
/// to work silently re-arms a full work interval.
pub open spec fn timer_expiry_effects(s: Scheduler, effects: Seq<Effect>) -> bool {
    match s.phase {
        Phase::Work => {
            &&& effects.len() == 2
            &&& (takes_long_break(s) ==> {
                &&& (effects[0] matches Effect::Notify { summary, body }
                    && summary@ == "Long break"@ && body@ == "Take a long pause!"@)
                &&& (effects[1] matches Effect::ReArm { duration_ms }
                    && s.config.long_break matches Some(p) && duration_ms == p.long_break_ms)
            })
            &&& (!takes_long_break(s) ==> {
                &&& (effects[0] matches Effect::Notify { summary, body }
                    && summary@ == short_break_summary(
                    step_timer(s).short_break_count,
                    s.config.long_break,
                ) && body@ == "Take a pause!"@)
                &&& (effects[1] matches Effect::ReArm { duration_ms }
                    && duration_ms == s.config.short_break_ms)
            })
        },
        _ => {
            &&& effects.len() == 1
            &&& (effects[0] matches Effect::ReArm { duration_ms }
                && duration_ms == s.config.work_interval_ms)
        },
    }
}

/// The effects of an idle event: pausing disarms the countdown, resuming
/// re-arms it for the exact remainder and announces the rounded remaining
/// time; every other case has no effect at all.
pub open spec fn idle_event_effects(s: Scheduler, kind: IdleEvent, effects: Seq<Effect>) -> bool {
    if s.config.idle_timeout_ms is None || !(s.phase is Work) {
        effects.len() == 0
    } else {
        match (kind, s.timer) {
            (IdleEvent::Idled, TimerState::Running { armed_ms }) => {
                &&& effects.len() == 1
                &&& effects[0] is Disarm
            },
            (IdleEvent::Resumed, TimerState::Paused { remaining_ms }) => {
                &&& effects.len() == 2
                &&& (effects[0] matches Effect::ReArm { duration_ms }
                    && duration_ms == remaining_ms)
                &&& (effects[1] matches Effect::Notify { summary, body }
                    && summary@ == resume_summary(remaining_ms) && body@ == "Take a pause!"@)
            },
            _ => effects.len() == 0,
        }
    }
}

impl Scheduler {
    /// Handles the expiry of the countdown. Must be called exactly when the
    /// armed countdown reaches zero, which can only happen while it is
    /// running. The state steps as [`step_timer`] says and the returned
    /// effects are as [`timer_expiry_effects`] says.
    pub fn on_timer_expired(&mut self) -> (effects: Vec<Effect>)
        requires
            old(self).wf(),
            old(self).timer is Running,
        ensures
            *final(self) == step_timer(*old(self)),
            final(self).wf(),
            timer_expiry_effects(*old(self), effects@),
    {
        let mut effects: Vec<Effect> = Vec::new();
        match self.phase {
            Phase::Work => {
                let take_long = match self.config.long_break {
                    Some(p) => self.short_break_count == p.threshold,
                    None => false,
                };
                if take_long {
                    let duration_ms = match self.config.long_break {
                        Some(p) => p.long_break_ms,
                        None => 0,  // unreachable: take_long implies a policy
                    };
                    self.phase = Phase::LongBreak;
                    self.short_break_count = 0;
                    self.timer = TimerState::Running { armed_ms: duration_ms };
                    effects.push(Effect::Notify {
                        summary: long_break_summary_string(),
                        body: long_break_body_string(),
                    });
                    effects.push(Effect::ReArm { duration_ms });
                } else {
                    if self.config.long_break.is_some() {
                        self.short_break_count = self.short_break_count + 1;
                    }
                    self.phase = Phase::ShortBreak;
                    self.timer = TimerState::Running { armed_ms: self.config.short_break_ms };
                    effects.push(Effect::Notify {
                        summary: short_break_summary_string(
                            self.short_break_count,
                            &self.config.long_break,
                        ),
                        body: break_body_string(),
                    });
                    effects.push(Effect::ReArm { duration_ms: self.config.short_break_ms });
                }
            },
            _ => {
                self.phase = Phase::Work;
                self.timer = TimerState::Running { armed_ms: self.config.work_interval_ms };
                effects.push(Effect::ReArm { duration_ms: self.config.work_interval_ms });
            },
        }
        effects
    }

    /// Handles an idle event. `elapsed_ms` is how long the current countdown
    /// has been running; when the event pauses the countdown it must not
    /// exceed the armed duration (the expiry would have fired first). The
    /// state steps as [`step_idle`] says and the returned effects are as
    /// [`idle_event_effects`] says.
    pub fn on_idle_event(&mut self, kind: IdleEvent, elapsed_ms: u64) -> (effects: Vec<Effect>)
        requires
            old(self).wf(),
            idle_event_pauses(*old(self), kind) ==> elapsed_ms <= old(self).timer->armed_ms,
        ensures
            *final(self) == step_idle(*old(self), kind, elapsed_ms),
            final(self).wf(),
            idle_event_effects(*old(self), kind, effects@),
    {
        let mut effects: Vec<Effect> = Vec::new();
        if self.config.idle_timeout_ms.is_none() {
            return effects;
        }
        match self.phase {
            Phase::Work => match (kind, self.timer) {
                (IdleEvent::Idled, TimerState::Running { armed_ms }) => {
                    self.timer = TimerState::Paused { remaining_ms: armed_ms - elapsed_ms };
                    effects.push(Effect::Disarm);
                },
                (IdleEvent::Resumed, TimerState::Paused { remaining_ms }) => {
                    self.timer = TimerState::Running { armed_ms: remaining_ms };
                    effects.push(Effect::ReArm { duration_ms: remaining_ms });
                    effects.push(Effect::Notify {
                        summary: resume_summary_string(remaining_ms),
                        body: break_body_string(),
                    });
                },
                _ => {},
            },
            _ => {},
        }
        effects
    }
}

/// Phase alternation: from work, a countdown expiry enters a break — a long
/// break only when the policy is configured and the count has reached its
/// threshold — and from either break it returns to work; validity is kept.
pub proof fn lemma_phase_alternation(s: Scheduler)
    requires
        s.wf(),
    ensures
        s.phase is Work ==> (step_timer(s).phase is ShortBreak || step_timer(s).phase
            is LongBreak),
        !(s.phase is Work) ==> step_timer(s).phase is Work,
        step_timer(s).phase is LongBreak ==> (s.config.long_break is Some && takes_long_break(s)),
        step_timer(s).wf(),
{
}

/// The long-break cadence: under a policy, each expiry during work either
/// advances the short-break count by one, or — exactly when the count has
/// reached the threshold — takes the long break and resets the count to zero.
pub proof fn lemma_long_break_cadence(s: Scheduler)
    requires
        s.wf(),
        s.phase is Work,
        s.config.long_break is Some,
    ensures
        takes_long_break(s) ==> (step_timer(s).phase is LongBreak
            && step_timer(s).short_break_count == 0),
        !takes_long_break(s) ==> (step_timer(s).phase is ShortBreak
            && step_timer(s).short_break_count == s.short_break_count + 1),
{
}

/// Pausing during work after `elapsed_ms` of the armed countdown and then
/// resuming re-arms the countdown for exactly armed minus elapsed, whenever
/// the resume happens; and a further `Resumed` without an intervening pause
/// changes nothing.
pub proof fn lemma_pause_resume_exact(s: Scheduler, elapsed_ms: u64, e1: u64, e2: u64)
    requires
        s.wf(),
        s.config.idle_timeout_ms is Some,
        s.phase is Work,
        s.timer matches TimerState::Running { armed_ms } && elapsed_ms <= armed_ms,
    ensures
        ({
            let paused = step_idle(s, IdleEvent::Idled, elapsed_ms);
            let resumed = step_idle(paused, IdleEvent::Resumed, e1);
            &&& resumed.timer == TimerState::Running {
                armed_ms: (s.timer->armed_ms - elapsed_ms) as u64,
            }
            &&& step_idle(resumed, IdleEvent::Resumed, e2) == resumed
        }),
{
}

/// Idle events arriving during a short or long break leave the scheduler —
/// and with it the break's own countdown — entirely unchanged.
pub proof fn lemma_break_ignores_idle(s: Scheduler, kind: IdleEvent, elapsed_ms: u64)
    requires
        s.wf(),
        s.phase is ShortBreak || s.phase is LongBreak,
    ensures
        step_idle(s, kind, elapsed_ms) == s,
{
}

/// Idempotence of pausing: a second `Idled` right after a first one leaves
/// the state exactly as the first one left it.
pub proof fn lemma_idled_idempotent(s: Scheduler, e1: u64, e2: u64)
    requires
        s.wf(),
    ensures
        step_idle(step_idle(s, IdleEvent::Idled, e1), IdleEvent::Idled, e2) == step_idle(
            s,
            IdleEvent::Idled,
            e1,
        ),
{
}

/// The summary of the long-break notification.
fn long_break_summary_string() -> (r: String)
    ensures
        r@ == "Long break"@,
{
    String::from_str("Long break")
}

/// The body of the long-break notification.
fn long_break_body_string() -> (r: String)
    ensures
        r@ == "Take a long pause!"@,
{
    String::from_str("Take a long pause!")
}

/// The body of the short-break and resume notifications.
fn break_body_string() -> (r: String)
    ensures
        r@ == "Take a pause!"@,
{
    String::from_str("Take a pause!")
}

} // verus!
