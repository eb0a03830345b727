//! One session run as a state machine: each call of `advance` yields the next
//! thing to do (emit a signal, or wait), and the caller performs it. The run
//! counts down, reveals `total_numbers` values one by one, and ends with the
//! complete result.
use crate::config::SessionConfig;
use crate::generator::{next_distinct_value, value_fits, value_ok, MAX_DRAW_ATTEMPTS};
use rand::rngs::ThreadRng;
use vstd::prelude::*;

verus! {

/// Length of the countdown, in ticks of one second.
pub const COUNTDOWN_TICKS: u32 = 3;

/// One revealed value, as signalled to the presentation layer.
#[derive(Debug, Clone, Copy, PartialEq, Eq, Structural)]
pub struct ShowNumber {
    pub session_id: u64,
    /// 1-based position of the value in its session.
    pub index: u32,
    pub total: u32,
    pub value: i64,
    /// Sum of the values revealed so far, this one included.
    pub running_sum: i128,
}

/// The outcome of a finished session.
#[derive(Debug, Clone)]
pub struct SessionComplete {
    pub session_id: u64,
    pub numbers: Vec<i64>,
    pub sum: i128,
}

/// `v` repeats the last value of `s`.
pub open spec fn repeats_previous(s: Seq<i64>, v: i64) -> bool {
    s.len() > 0 && s.last() == v
}

/// The sum of a sequence of values.
pub open spec fn seq_sum(s: Seq<i64>) -> int
    decreases s.len(),
{
    if s.len() == 0 {
        0
    } else {
        seq_sum(s.drop_last()) + s.last()
    }
}

/// A sequence of values that the generator may produce for `config`: each
/// value has the configured digit count, the first is positive, a negative
/// value comes only where negatives are allowed, and every prefix sums to zero
/// or more.
pub open spec fn sequence_fits(config: SessionConfig, s: Seq<i64>) -> bool {
    &&& forall|i: int| 0 <= i < s.len() ==> #[trigger] value_ok(
        config.digits_per_number as nat,
        s[i] as int,
    )
    &&& forall|i: int|
        0 <= i < s.len() && s[i] < 0 ==> config.allow_negative_numbers && i > 0
    &&& forall|k: int| 0 <= k <= s.len() ==> seq_sum(#[trigger] s.take(k)) >= 0
}

impl SessionComplete {
    /// The complete result is consistent: `sum` is the sum of `numbers`.
    pub open spec fn sum_is_exact(&self) -> bool {
        self.sum == seq_sum(self.numbers@)
    }

    /// A copy with the same id, values and sum.
    pub fn snapshot(&self) -> (r: SessionComplete)
        ensures
            r.session_id == self.session_id,
            r.numbers@ == self.numbers@,
            r.sum == self.sum,
    {
        let mut numbers: Vec<i64> = Vec::new();
        let mut i: usize = 0;
        while i < self.numbers.len()
            invariant
                i <= self.numbers.len(),
                numbers@ == self.numbers@.take(i as int),
            decreases self.numbers.len() - i,
        {
            numbers.push(self.numbers[i]);
            i = i + 1;
            assert(numbers@ =~= self.numbers@.take(i as int));
        }
        assert(numbers@ =~= self.numbers@);
        SessionComplete { session_id: self.session_id, numbers, sum: self.sum }
    }
}

/// Where a run stands.
#[derive(Debug, Clone, Copy, PartialEq, Eq, Structural)]
pub enum RunStep {
    /// Not started.
    Begin,
    /// About to wait for countdown tick `tick` (the last one, `COUNTDOWN_TICKS`,
    /// marks the end of the countdown).
    CountdownWait { tick: u32 },
    /// About to signal countdown tick `tick`.
    CountdownTick { tick: u32 },
    /// Countdown over; the screen is cleared next.
    CountdownDone,
    /// About to wait for the next reveal.
    RevealWait,
    /// About to draw and reveal the next value.
    Reveal,
    /// About to keep the revealed value on screen.
    Display,
    /// About to clear the revealed value.
    ClearAfterReveal,
    /// All values revealed; the screen is cleared next.
    Finish,
    /// About to hand out the result.
    Completing,
    /// The result was handed out.
    Done,
}

/// What the caller is to do next.
#[derive(Debug, Clone)]
pub enum RunAction {
    /// Signal `clear_screen`, and start the countdown clock.
    Begin,
    /// Wait until `offset_ms` after the countdown clock started.
    WaitCountdown { offset_ms: u64 },
    /// Signal `countdown_tick` with `value`.
    Countdown { value: u32 },
    /// Signal `clear_screen`.
    Clear,
    /// Wait until `ms` after the last `clear_screen`.
    WaitAfterClear { ms: u64 },
    /// Signal `show_number`.
    Show(ShowNumber),
    /// Wait until `ms` after the last `show_number`.
    WaitAfterShow { ms: u64 },
    /// Signal `session_complete` with the result; the run is over.
    Complete(SessionComplete),
    /// Signal `clear_screen` and end the run without a result.
    Abort,
}

/// A session run in progress.
pub struct SessionRun {
    pub session_id: u64,
    pub config: SessionConfig,
    pub step: RunStep,
    /// The values revealed so far.
    pub numbers: Vec<i64>,
    /// Their sum.
    pub running_sum: i128,
    /// How many draws the last revealed value took.
    pub last_draw_count: usize,
}

impl SessionRun {
    /// The run's invariant.
    pub open spec fn wf(&self) -> bool {
        let n = self.numbers@.len();
        let total = self.config.total_numbers as int;
        &&& self.config.is_valid()
        &&& n <= total
        &&& self.running_sum == seq_sum(self.numbers@)
        &&& sequence_fits(self.config, self.numbers@)
        &&& match self.step {
            RunStep::Begin | RunStep::CountdownDone => n == 0,
            RunStep::CountdownWait { tick } => n == 0 && tick <= COUNTDOWN_TICKS,
            RunStep::CountdownTick { tick } => n == 0 && tick < COUNTDOWN_TICKS,
            RunStep::RevealWait | RunStep::Reveal => n < total,
            RunStep::Display | RunStep::ClearAfterReveal => 1 <= n,
            RunStep::Finish | RunStep::Completing | RunStep::Done => n == total,
        }
    }

    /// A fresh run of session `session_id`.
    pub fn new(session_id: u64, config: SessionConfig) -> (r: SessionRun)
        requires
            config.is_valid(),
        ensures
            r.wf(),
            r.session_id == session_id,
            r.config == config,
            r.step == RunStep::Begin,
            r.numbers@.len() == 0,
    {
        let r = SessionRun {
            session_id,
            config,
            step: RunStep::Begin,
            numbers: Vec::new(),
            running_sum: 0,
            last_draw_count: 0,
        };
        proof {
            assert forall|k: int| 0 <= k <= r.numbers@.len() implies seq_sum(
                #[trigger] r.numbers@.take(k),
            ) >= 0 by {
                assert(r.numbers@.take(k) =~= Seq::<i64>::empty());
            }
        }
        r
    }

    /// Performs the step the run stands at and says what the caller is to do.
    /// A value is revealed only at `Reveal`, with index one past the values
    /// revealed before; the result comes only after all `total_numbers` values
    /// were revealed, and holds exactly them and their sum.
    pub fn advance(&mut self, rng: &mut ThreadRng) -> (r: RunAction)
        requires
            old(self).wf(),
        ensures
            final(self).wf(),
            final(self).session_id == old(self).session_id,
            final(self).config == old(self).config,
            final(self).step == next_step(old(self).step, old(self).numbers@.len(), old(self).config),
            old(self).step != RunStep::Reveal ==> final(self).numbers@ == old(self).numbers@,
            old(self).step == RunStep::Reveal ==> {
                &&& final(self).numbers@.drop_last() == old(self).numbers@
                &&& final(self).numbers@.len() == old(self).numbers@.len() + 1
            },
            r is Show <==> old(self).step == RunStep::Reveal,
            r matches RunAction::Show(s) ==> {
                &&& s.session_id == old(self).session_id
                &&& s.index == old(self).numbers@.len() + 1
                &&& s.total == old(self).config.total_numbers
                &&& s.value == final(self).numbers@.last()
                &&& s.running_sum == final(self).running_sum
                &&& s.running_sum >= 0
                &&& value_fits(
                    old(self).config.digits_per_number as nat,
                    old(self).config.allow_negative_numbers,
                    old(self).numbers@.len() as int,
                    old(self).running_sum as int,
                    s.value as int,
                )
                &&& 1 <= final(self).last_draw_count <= MAX_DRAW_ATTEMPTS
                &&& repeats_previous(old(self).numbers@, s.value) ==> final(self).last_draw_count
                    == MAX_DRAW_ATTEMPTS
            },
            r is Complete <==> old(self).step == RunStep::Completing,
            r matches RunAction::Complete(c) ==> {
                &&& c.session_id == old(self).session_id
                &&& c.numbers@ == old(self).numbers@
                &&& c.numbers@.len() == old(self).config.total_numbers
                &&& c.sum == seq_sum(c.numbers@)
                &&& sequence_fits(old(self).config, c.numbers@)
            },
            r == action_for(old(self).step, old(self).numbers@.len(), old(self).config)
                || r is Show || r is Complete,
    {
        let n = self.numbers.len();
        match self.step {
            RunStep::Begin => {
                self.step = RunStep::CountdownWait { tick: 0 };
                RunAction::Begin
            },
            RunStep::CountdownWait { tick } => {
                self.step = if tick < COUNTDOWN_TICKS {
                    RunStep::CountdownTick { tick }
                } else {
                    RunStep::CountdownDone
                };
                RunAction::WaitCountdown { offset_ms: tick as u64 * 1000 }
            },
            RunStep::CountdownTick { tick } => {
                self.step = RunStep::CountdownWait { tick: tick + 1 };
                RunAction::Countdown { value: COUNTDOWN_TICKS - tick }
            },
            RunStep::CountdownDone => {
                self.step = RunStep::RevealWait;
                RunAction::Clear
            },
            RunStep::RevealWait => {
                self.step = RunStep::Reveal;
                let ms = if n == 0 {
                    0
                } else {
                    self.config.delay_between_numbers_ms
                };
                RunAction::WaitAfterClear { ms }
            },
            RunStep::Reveal => {
                let show = self.reveal_next(rng);
                RunAction::Show(show)
            },
            RunStep::Display => {
                self.step = RunStep::ClearAfterReveal;
                RunAction::WaitAfterShow { ms: self.config.number_duration_ms }
            },
            RunStep::ClearAfterReveal => {
                self.step = if n < self.config.total_numbers as usize {
                    RunStep::RevealWait
                } else {
                    RunStep::Finish
                };
                RunAction::Clear
            },
            RunStep::Finish => {
                self.step = RunStep::Completing;
                RunAction::Clear
            },
            RunStep::Completing => {
                let result = SessionComplete {
                    session_id: self.session_id,
                    numbers: self.numbers.clone(),
                    sum: self.running_sum,
                };
                assert(result.numbers@ =~= self.numbers@);
                self.step = RunStep::Done;
                RunAction::Complete(result)
            },
            RunStep::Done => RunAction::Abort,
        }
    }

    /// Draws the next value, records it and describes its reveal.
    fn reveal_next(&mut self, rng: &mut ThreadRng) -> (s: ShowNumber)
        requires
            old(self).wf(),
            old(self).step == RunStep::Reveal,
        ensures
            final(self).wf(),
            final(self).step == RunStep::Display,
            final(self).session_id == old(self).session_id,
            final(self).config == old(self).config,
            final(self).numbers@ == old(self).numbers@.push(s.value),
            s.session_id == old(self).session_id,
            s.index == old(self).numbers@.len() + 1,
            s.total == old(self).config.total_numbers,
            s.running_sum == final(self).running_sum,
            s.running_sum >= 0,
            s.value == final(self).numbers@.last(),
            1 <= final(self).last_draw_count <= MAX_DRAW_ATTEMPTS,
            repeats_previous(old(self).numbers@, s.value) ==> final(self).last_draw_count
                == MAX_DRAW_ATTEMPTS,
            value_fits(
                old(self).config.digits_per_number as nat,
                old(self).config.allow_negative_numbers,
                old(self).numbers@.len() as int,
                old(self).running_sum as int,
                s.value as int,
            ),
    {
        let n = self.numbers.len();
        let last = if n == 0 {
            None
        } else {
            Some(self.numbers[n - 1])
        };
        let (value, draws) = next_distinct_value(
            rng,
            self.config.digits_per_number,
            self.config.allow_negative_numbers,
            n as u32,
            self.running_sum,
            last,
        );
        let ghost old_numbers = self.numbers@;
        proof {
            lemma_sum_bound(self.config, old_numbers);
            crate::generator::lemma_magnitude_below_1e18(
                self.config.digits_per_number as nat,
                crate::generator::abs(value as int),
            );
        }
        self.numbers.push(value);
        self.running_sum = self.running_sum + value as i128;
        self.step = RunStep::Display;
        self.last_draw_count = draws.len();
        proof {
            let s = self.numbers@;
            assert(s.drop_last() =~= old_numbers);
            assert forall|k: int| 0 <= k <= s.len() implies seq_sum(#[trigger] s.take(k)) >= 0 by {
                if k < s.len() {
                    assert(s.take(k) =~= old_numbers.take(k));
                } else {
                    assert(s.take(k) =~= s);
                    assert(old_numbers.take(old_numbers.len() as int) =~= old_numbers);
                    assert(seq_sum(s) == seq_sum(old_numbers) + value);
                }
            }
            assert forall|i: int| 0 <= i < s.len() implies #[trigger] value_ok(
                self.config.digits_per_number as nat,
                s[i] as int,
            ) by {
                if i < old_numbers.len() {
                    assert(s[i] == old_numbers[i]);
                }
            }
        }
        ShowNumber {
            session_id: self.session_id,
            index: (n + 1) as u32,
            total: self.config.total_numbers,
            value,
            running_sum: self.running_sum,
        }
    }
}

/// The step that follows `step` in a run of `config` that has revealed `n`
/// values.
pub open spec fn next_step(step: RunStep, n: nat, config: SessionConfig) -> RunStep {
    match step {
        RunStep::Begin => RunStep::CountdownWait { tick: 0 },
        RunStep::CountdownWait { tick } => if tick < COUNTDOWN_TICKS {
            RunStep::CountdownTick { tick }
        } else {
            RunStep::CountdownDone
        },
        RunStep::CountdownTick { tick } => RunStep::CountdownWait { tick: (tick + 1) as u32 },
        RunStep::CountdownDone => RunStep::RevealWait,
        RunStep::RevealWait => RunStep::Reveal,
        RunStep::Reveal => RunStep::Display,
        RunStep::Display => RunStep::ClearAfterReveal,
        RunStep::ClearAfterReveal => if n < config.total_numbers {
            RunStep::RevealWait
        } else {
            RunStep::Finish
        },
        RunStep::Finish => RunStep::Completing,
        RunStep::Completing | RunStep::Done => RunStep::Done,
    }
}

/// The action of every step but `Reveal` and `Completing`, whose actions carry
/// the drawn value or the result.
pub open spec fn action_for(step: RunStep, n: nat, config: SessionConfig) -> RunAction {
    match step {
        RunStep::Begin => RunAction::Begin,
        RunStep::CountdownWait { tick } => RunAction::WaitCountdown {
            offset_ms: (tick * 1000) as u64,
        },
        RunStep::CountdownTick { tick } => RunAction::Countdown {
            value: (COUNTDOWN_TICKS - tick) as u32,
        },
        RunStep::CountdownDone | RunStep::ClearAfterReveal | RunStep::Finish => RunAction::Clear,
        RunStep::RevealWait => RunAction::WaitAfterClear {
            ms: if n == 0 {
                0
            } else {
                config.delay_between_numbers_ms
            },
        },
        RunStep::Display => RunAction::WaitAfterShow { ms: config.number_duration_ms },
        _ => RunAction::Abort,
    }
}

/// A sum of at most `MAX_TOTAL_NUMBERS` values below `10^18` in magnitude stays
/// far inside `i128`.
pub proof fn lemma_sum_bound(config: SessionConfig, s: Seq<i64>)
    requires
        config.is_valid(),
        s.len() <= config.total_numbers,
        forall|i: int| 0 <= i < s.len() ==> #[trigger] value_ok(
            config.digits_per_number as nat,
            s[i] as int,
        ),
    ensures
        -(s.len() as int) * 1_000_000_000_000_000_000 <= seq_sum(s) <= (s.len() as int)
            * 1_000_000_000_000_000_000,
    decreases s.len(),
{
    if s.len() > 0 {
        let init = s.drop_last();
        assert forall|i: int| 0 <= i < init.len() implies #[trigger] value_ok(
            config.digits_per_number as nat,
            init[i] as int,
        ) by {
            assert(init[i] == s[i]);
        }
        lemma_sum_bound(config, init);
        assert(value_ok(config.digits_per_number as nat, s[s.len() - 1] as int));
        crate::generator::lemma_magnitude_below_1e18(
            config.digits_per_number as nat,
            crate::generator::abs(s.last() as int),
        );
    }
}

} // verus!
