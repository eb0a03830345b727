//! The auto-repeat scheduler: after a validated session, a resume timer waits
//! out the plan's delay, ticking down the seconds, and starts the next session
//! only if the plan's generation is still the one it was stamped with.
use crate::config::SessionConfig;
use crate::manager::{counter_next, releases_repeat, SessionManager};
use vstd::prelude::*;

verus! {

/// Signalled once when a repeat is scheduled.
#[derive(Debug, Clone, Copy, PartialEq, Eq, Structural)]
pub struct AutoRepeatWaitingPayload {
    pub session_id: u64,
    /// Wall-clock time of the resume, in milliseconds since the epoch.
    pub next_start_at_ms: u64,
    /// Repeats left after the scheduled one.
    pub remaining: u32,
}

/// Signalled while the resume timer counts down.
#[derive(Debug, Clone, Copy, PartialEq, Eq, Structural)]
pub struct AutoRepeatTickPayload {
    pub session_id: u64,
    pub seconds_left: u64,
    pub remaining: u32,
}

/// What the resume timer's caller is to do next.
#[derive(Debug, Clone, Copy, PartialEq, Eq, Structural)]
pub enum TimerAction {
    /// The plan changed since the timer was stamped: end without effect.
    Cancelled,
    /// Signal this tick, then sleep a little.
    Tick(AutoRepeatTickPayload),
    /// Sleep a little without signalling.
    Wait,
    /// Signal this last tick and start the next session.
    Fire(AutoRepeatTickPayload),
}

/// Whole seconds left, rounded up.
pub open spec fn seconds_left_of(ms: int) -> int {
    (ms + 999) / 1000
}

/// What a poll of `timer` yields, given the plan's generation now and the
/// milliseconds left.
pub open spec fn step_outcome(timer: ResumeTimer, current_generation: u64, remaining_ms: u64) -> TimerAction {
    if current_generation != timer.generation {
        TimerAction::Cancelled
    } else if remaining_ms == 0 {
        TimerAction::Fire(
            AutoRepeatTickPayload {
                session_id: timer.session_id,
                seconds_left: 0,
                remaining: timer.remaining,
            },
        )
    } else if timer.last_sent == Some(seconds_left_of(remaining_ms as int) as u64) {
        TimerAction::Wait
    } else {
        TimerAction::Tick(
            AutoRepeatTickPayload {
                session_id: timer.session_id,
                seconds_left: seconds_left_of(remaining_ms as int) as u64,
                remaining: timer.remaining,
            },
        )
    }
}

/// A pending resume, stamped with the generation at which it was scheduled.
#[derive(Debug, Clone, Copy, PartialEq, Eq, Structural)]
pub struct ResumeTimer {
    pub session_id: u64,
    pub generation: u64,
    pub remaining: u32,
    /// The last count of seconds signalled.
    pub last_sent: Option<u64>,
}

impl ResumeTimer {
    /// One poll of the timer: the plan's generation now, and the milliseconds
    /// left until the resume. A stale generation cancels; no time left fires;
    /// otherwise a tick is signalled when its count of seconds differs from the
    /// last one signalled.
    pub fn step(&mut self, current_generation: u64, remaining_ms: u64) -> (r: TimerAction)
        ensures
            r == step_outcome(*old(self), current_generation, remaining_ms),
            final(self).session_id == old(self).session_id,
            final(self).generation == old(self).generation,
            final(self).remaining == old(self).remaining,
            current_generation != old(self).generation ==> r == TimerAction::Cancelled
                && *final(self) == *old(self),
            r is Fire ==> current_generation == old(self).generation && remaining_ms == 0,
            current_generation == old(self).generation && remaining_ms == 0 ==> r
                == TimerAction::Fire(
                AutoRepeatTickPayload {
                    session_id: old(self).session_id,
                    seconds_left: 0,
                    remaining: old(self).remaining,
                },
            ),
            current_generation == old(self).generation && remaining_ms > 0 ==> {
                let s = seconds_left_of(remaining_ms as int) as u64;
                if old(self).last_sent == Some(s) {
                    r == TimerAction::Wait && *final(self) == *old(self)
                } else {
                    &&& r == TimerAction::Tick(
                        AutoRepeatTickPayload {
                            session_id: old(self).session_id,
                            seconds_left: s,
                            remaining: old(self).remaining,
                        },
                    )
                    &&& final(self).last_sent == Some(s)
                }
            },
    {
        if current_generation != self.generation {
            return TimerAction::Cancelled;
        }
        if remaining_ms == 0 {
            return TimerAction::Fire(
                AutoRepeatTickPayload {
                    session_id: self.session_id,
                    seconds_left: 0,
                    remaining: self.remaining,
                },
            );
        }
        let seconds_left = remaining_ms / 1000 + if remaining_ms % 1000 == 0 {
            0
        } else {
            1
        };
        if self.last_sent == Some(seconds_left) {
            return TimerAction::Wait;
        }
        self.last_sent = Some(seconds_left);
        TimerAction::Tick(
            AutoRepeatTickPayload {
                session_id: self.session_id,
                seconds_left,
                remaining: self.remaining,
            },
        )
    }
}

/// A repeat that was scheduled: what to signal now, the timer to run, the
/// delay to wait and the configuration to start with.
#[derive(Debug, Clone, Copy, PartialEq, Eq, Structural)]
pub struct ScheduledRepeat {
    pub waiting: AutoRepeatWaitingPayload,
    pub timer: ResumeTimer,
    pub delay_ms: u64,
    pub config: SessionConfig,
}

/// `a + b`, held at `u64::MAX`.
pub open spec fn saturating_sum(a: u64, b: u64) -> u64 {
    if a + b > u64::MAX {
        u64::MAX
    } else {
        (a + b) as u64
    }
}

/// Consumes the validation marker of `session_id` and, when a repeat is
/// released, schedules it `delay_ms` after `now_ms`, with a timer stamped with
/// the plan's generation.
pub fn schedule_auto_repeat_if_needed(
    manager: &mut SessionManager,
    session_id: u64,
    now_ms: u64,
) -> (r: Option<ScheduledRepeat>)
    requires
        old(manager).wf(),
    ensures
        final(manager).wf(),
        r is Some <==> releases_repeat(old(manager).auto_repeat_plan, session_id),
        r is None ==> *final(manager) == *old(manager),
        r matches Some(s) ==> {
            let p = old(manager).auto_repeat_plan->0;
            &&& s.delay_ms == p.delay_ms
            &&& s.config == p.config
            &&& s.waiting == (AutoRepeatWaitingPayload {
                session_id,
                next_start_at_ms: saturating_sum(now_ms, p.delay_ms),
                remaining: (p.remaining - 1) as u32,
            })
            &&& s.timer == (ResumeTimer {
                session_id,
                generation: old(manager).auto_repeat_generation,
                remaining: (p.remaining - 1) as u32,
                last_sent: None,
            })
            &&& final(manager).auto_repeat_plan == Some(
                crate::config::AutoRepeatPlan {
                    remaining: (p.remaining - 1) as u32,
                    awaiting_validation_session_id: None,
                    ..p
                },
            )
            &&& final(manager).auto_repeat_generation == old(manager).auto_repeat_generation
        },
{
    let info = manager.mark_validated_and_schedule_info(session_id);
    match info {
        Ok(Some((delay_ms, remaining, config, generation))) => {
            let next_start_at_ms = if now_ms > u64::MAX - delay_ms {
                u64::MAX
            } else {
                now_ms + delay_ms
            };
            Some(
                ScheduledRepeat {
                    waiting: AutoRepeatWaitingPayload { session_id, next_start_at_ms, remaining },
                    timer: ResumeTimer { session_id, generation, remaining, last_sent: None },
                    delay_ms,
                    config,
                },
            )
        },
        _ => None,
    }
}

/// A resume stamped before the plan was replaced never starts a session:
/// `configure_auto_repeat` moves the generation one step on from the stamp,
/// and from then on every poll of the timer is `Cancelled`, however much time
/// is left.
pub proof fn lemma_replaced_plan_cancels_resume(
    timer: ResumeTimer,
    before: SessionManager,
    after: SessionManager,
)
    requires
        timer.generation == before.auto_repeat_generation,
        after.auto_repeat_generation == counter_next(before.auto_repeat_generation),
    ensures
        forall|remaining_ms: u64|
            #[trigger] step_outcome(timer, after.auto_repeat_generation, remaining_ms)
                == TimerAction::Cancelled,
{
}

/// While the plan keeps the timer's generation, a resume scheduled `delay_ms`
/// ahead starts the next session only once no time is left, with a last tick
/// of zero seconds; before that, ticks count whole seconds left, never more
/// than the delay rounded up, and carry the repeats left.
pub proof fn lemma_resume_fires_when_due(timer: ResumeTimer, remaining_ms: u64, delay_ms: u64)
    requires
        remaining_ms <= delay_ms,
    ensures
        step_outcome(timer, timer.generation, remaining_ms) is Fire <==> remaining_ms == 0,
        remaining_ms == 0 ==> step_outcome(timer, timer.generation, remaining_ms)
            == TimerAction::Fire(
            AutoRepeatTickPayload {
                session_id: timer.session_id,
                seconds_left: 0,
                remaining: timer.remaining,
            },
        ),
        step_outcome(timer, timer.generation, remaining_ms) matches TimerAction::Tick(t) ==> {
            &&& 1 <= t.seconds_left <= seconds_left_of(delay_ms as int)
            &&& t.remaining == timer.remaining
            &&& t.session_id == timer.session_id
        },
{
}

} // verus!
