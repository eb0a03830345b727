//! The session manager: issues session ids, owns the one active run, keeps a
//! small cache of recent results, and holds the auto-repeat plan with its
//! generation counter. Workers, timers and locks live with the caller; every
//! decision lives here.
use crate::config::{config_error, validate_config, AutoRepeatPlan, ConfigError, SessionConfig};
use crate::generator::{value_fits, MAX_DRAW_ATTEMPTS};
use crate::run::{
    action_for, next_step, repeats_previous, seq_sum, RunAction, RunStep, SessionComplete,
    SessionRun,
};
use rand::rngs::ThreadRng;
use std::collections::VecDeque;
use vstd::prelude::*;

verus! {

/// How many finished results are kept; the oldest leaves first.
pub const MAX_RECENT_RESULTS: usize = 8;

/// What the engine is doing.
#[derive(Debug, Clone, Copy, PartialEq, Eq, Structural)]
pub enum SessionState {
    Idle,
    ShowingNumbers { current: u32, total: u32 },
    Complete,
}

/// The recoverable errors of the engine.
#[derive(Debug, Clone, Copy, PartialEq, Eq, Structural)]
pub enum SessionError {
    /// The configuration is out of bounds.
    InvalidConfig(ConfigError),
    /// A session is still running.
    AlreadyRunning,
    /// No cached result for that session id.
    NotFound,
    /// A text answer is not a single integer.
    InvalidAnswerFormat,
}

/// What a cached result holds.
pub struct ResultView {
    pub session_id: u64,
    pub numbers: Seq<i64>,
    pub sum: i128,
}

impl View for SessionComplete {
    type V = ResultView;

    open spec fn view(&self) -> ResultView {
        ResultView { session_id: self.session_id, numbers: self.numbers@, sum: self.sum }
    }
}

/// The newest entry of `s` with id `session_id`.
pub open spec fn latest_result(s: Seq<ResultView>, session_id: u64) -> Option<ResultView>
    decreases s.len(),
{
    if s.len() == 0 {
        None
    } else if s.last().session_id == session_id {
        Some(s.last())
    } else {
        latest_result(s.drop_last(), session_id)
    }
}

/// A counter step as an atomic `fetch_add(1)` makes it: wrapping at the top.
pub open spec fn counter_next(x: u64) -> u64 {
    if x == u64::MAX {
        0
    } else {
        (x + 1) as u64
    }
}

fn counter_step(x: u64) -> (r: u64)
    ensures
        r == counter_next(x),
{
    if x == u64::MAX {
        0
    } else {
        x + 1
    }
}

/// The cache after `c` was added: the newest `MAX_RECENT_RESULTS` entries.
pub open spec fn cache_after(s: Seq<ResultView>, c: ResultView) -> Seq<ResultView> {
    let t = s.push(c);
    if t.len() > MAX_RECENT_RESULTS {
        t.subrange(t.len() - MAX_RECENT_RESULTS, t.len() as int)
    } else {
        t
    }
}

/// The plan after session `session_id` finished: it now waits for that
/// session's answer, if any repeats remain.
pub open spec fn plan_after_completion(plan: Option<AutoRepeatPlan>, session_id: u64) -> Option<
    AutoRepeatPlan,
> {
    match plan {
        Some(p) if p.remaining > 0 => Some(
            AutoRepeatPlan { awaiting_validation_session_id: Some(session_id), ..p },
        ),
        _ => plan,
    }
}

/// The information needed to schedule the next repeat: delay, repeats left
/// after this one, configuration, and the generation it was taken at.
pub type RepeatInfo = (u64, u32, SessionConfig, u64);

/// Whether validating `session_id` releases a repeat of `plan`.
pub open spec fn releases_repeat(plan: Option<AutoRepeatPlan>, session_id: u64) -> bool {
    match plan {
        Some(p) => p.awaiting_validation_session_id == Some(session_id) && p.remaining > 0,
        None => false,
    }
}

pub struct SessionManager {
    pub state: SessionState,
    pub next_session_id: u64,
    pub recent_results: VecDeque<SessionComplete>,
    pub auto_repeat_plan: Option<AutoRepeatPlan>,
    pub auto_repeat_generation: u64,
    /// The active run, if any.
    pub run: Option<SessionRun>,
}

impl SessionManager {
    /// The cached results, oldest first.
    pub open spec fn results(&self) -> Seq<ResultView> {
        self.recent_results@.map_values(|c: SessionComplete| c@)
    }

    /// The manager's invariant.
    pub open spec fn wf(&self) -> bool {
        &&& self.recent_results@.len() <= MAX_RECENT_RESULTS
        &&& forall|i: int|
            0 <= i < self.recent_results@.len() ==> (#[trigger] self.recent_results@[i]).sum
                == seq_sum(self.recent_results@[i].numbers@)
        &&& self.run matches Some(r) ==> r.wf() && r.step != RunStep::Done
    }

    /// Whether a run is active.
    pub open spec fn running(&self) -> bool {
        self.run is Some
    }

    /// The id of the active run.
    pub open spec fn running_id(&self) -> Option<u64> {
        match self.run {
            Some(r) => Some(r.session_id),
            None => None,
        }
    }

    /// An idle manager: no run, no results, no plan; ids and generations start
    /// at 1.
    pub fn new() -> (r: SessionManager)
        ensures
            r.wf(),
            r.state == SessionState::Idle,
            r.next_session_id == 1,
            r.results().len() == 0,
            r.auto_repeat_plan is None,
            r.auto_repeat_generation == 1,
            !r.running(),
    {
        let r = SessionManager {
            state: SessionState::Idle,
            next_session_id: 1,
            recent_results: VecDeque::new(),
            auto_repeat_plan: None,
            auto_repeat_generation: 1,
            run: None,
        };
        assert(r.results() =~= Seq::<ResultView>::empty());
        r
    }

    /// Starts a session: refuses an invalid configuration, then refuses while a
    /// run is active; otherwise issues the next session id and creates the run.
    pub fn start(&mut self, config: SessionConfig) -> (r: Result<u64, SessionError>)
        requires
            old(self).wf(),
        ensures
            final(self).wf(),
            config_error(config) matches Some(e) ==> r == Err::<u64, SessionError>(
                SessionError::InvalidConfig(e),
            ) && *final(self) == *old(self),
            config_error(config) is None && old(self).running() ==> r == Err::<u64, SessionError>(
                SessionError::AlreadyRunning,
            ) && *final(self) == *old(self),
            r is Ok <==> config.is_valid() && !old(self).running(),
            r is Ok ==> {
                &&& r == Ok::<u64, SessionError>(old(self).next_session_id)
                &&& final(self).next_session_id == counter_next(old(self).next_session_id)
                &&& final(self).state == (SessionState::ShowingNumbers {
                    current: 0,
                    total: config.total_numbers,
                })
                &&& final(self).run matches Some(run) && run.session_id
                    == old(self).next_session_id && run.config == config && run.step
                    == RunStep::Begin && run.numbers@.len() == 0
                &&& final(self).recent_results == old(self).recent_results
                &&& final(self).auto_repeat_plan == old(self).auto_repeat_plan
                &&& final(self).auto_repeat_generation == old(self).auto_repeat_generation
            },
    {
        match validate_config(&config) {
            Err(e) => {
                return Err(SessionError::InvalidConfig(e));
            },
            Ok(()) => {},
        }
        if self.run.is_some() {
            return Err(SessionError::AlreadyRunning);
        }
        let session_id = self.next_session_id;
        self.next_session_id = counter_step(session_id);
        self.state = SessionState::ShowingNumbers { current: 0, total: config.total_numbers };
        self.run = Some(SessionRun::new(session_id, config));
        Ok(session_id)
    }

    /// Replaces the auto-repeat plan and advances the generation, so that any
    /// resume scheduled before becomes stale.
    pub fn configure_auto_repeat(&mut self, plan: Option<AutoRepeatPlan>)
        requires
            old(self).wf(),
        ensures
            final(self).wf(),
            final(self).auto_repeat_plan == plan,
            final(self).auto_repeat_generation == counter_next(old(self).auto_repeat_generation),
            final(self).auto_repeat_generation != old(self).auto_repeat_generation,
            final(self).state == old(self).state,
            final(self).next_session_id == old(self).next_session_id,
            final(self).recent_results == old(self).recent_results,
            final(self).run == old(self).run,
    {
        self.auto_repeat_plan = plan;
        self.auto_repeat_generation = counter_step(self.auto_repeat_generation);
    }

    /// The current generation of the auto-repeat plan.
    pub fn auto_repeat_generation(&self) -> (r: u64)
        ensures
            r == self.auto_repeat_generation,
    {
        self.auto_repeat_generation
    }

    /// What the engine is doing.
    pub fn state(&self) -> (r: SessionState)
        ensures
            r == self.state,
    {
        self.state
    }

    /// The most recent cached result of `session_id`.
    pub fn result_for(&self, session_id: u64) -> (r: Result<SessionComplete, SessionError>)
        requires
            self.wf(),
        ensures
            r is Ok <==> latest_result(self.results(), session_id) is Some,
            r is Err ==> r == Err::<SessionComplete, SessionError>(SessionError::NotFound),
            r matches Ok(c) ==> latest_result(self.results(), session_id) == Some(c@),
            r matches Ok(c) ==> c.session_id == session_id && c.sum == seq_sum(c.numbers@),
    {
        let mut i: usize = self.recent_results.len();
        assert(self.results().take(i as int) =~= self.results());
        while i > 0
            invariant
                i <= self.recent_results@.len(),
                self.wf(),
                latest_result(self.results(), session_id) == latest_result(
                    self.results().take(i as int),
                    session_id,
                ),
            decreases i,
        {
            assert(self.results().take(i as int).drop_last() =~= self.results().take(i - 1));
            i = i - 1;
            if self.recent_results[i].session_id == session_id {
                let c = self.recent_results[i].snapshot();
                assert(c@ == self.results()[i as int]);
                return Ok(c);
            }
        }
        Err(SessionError::NotFound)
    }

    /// Consumes the "awaiting validation" marker of session `session_id`: when
    /// the plan waits for exactly that session and repeats remain, one repeat is
    /// used up and the information to schedule it is returned; otherwise
    /// nothing changes.
    pub fn mark_validated_and_schedule_info(&mut self, session_id: u64) -> (r: Result<
        Option<RepeatInfo>,
        SessionError,
    >)
        requires
            old(self).wf(),
        ensures
            final(self).wf(),
            r is Ok,
            !releases_repeat(old(self).auto_repeat_plan, session_id) ==> r == Ok::<
                Option<RepeatInfo>,
                SessionError,
            >(None) && *final(self) == *old(self),
            releases_repeat(old(self).auto_repeat_plan, session_id) ==> {
                let p = old(self).auto_repeat_plan->0;
                let left = (p.remaining - 1) as u32;
                &&& r == Ok::<Option<RepeatInfo>, SessionError>(
                    Some((p.delay_ms, left, p.config, old(self).auto_repeat_generation)),
                )
                &&& final(self).auto_repeat_plan == Some(
                    AutoRepeatPlan { remaining: left, awaiting_validation_session_id: None, ..p },
                )
                &&& final(self).auto_repeat_generation == old(self).auto_repeat_generation
                &&& final(self).state == old(self).state
                &&& final(self).next_session_id == old(self).next_session_id
                &&& final(self).recent_results == old(self).recent_results
                &&& final(self).run == old(self).run
            },
    {
        let generation = self.auto_repeat_generation;
        match self.auto_repeat_plan {
            Some(p) => {
                if p.awaiting_validation_session_id != Some(session_id) {
                    return Ok(None);
                }
                if p.remaining == 0 {
                    return Ok(None);
                }
                let left = p.remaining - 1;
                self.auto_repeat_plan = Some(
                    AutoRepeatPlan { remaining: left, awaiting_validation_session_id: None, ..p },
                );
                Ok(Some((p.delay_ms, left, p.config, generation)))
            },
            None => Ok(None),
        }
    }

    /// Stops everything: cancels the plan, forgets the cached results, ends the
    /// active run (its worker gets `Abort` from then on) and returns to `Idle`.
    pub fn stop(&mut self)
        requires
            old(self).wf(),
        ensures
            final(self).wf(),
            final(self).state == SessionState::Idle,
            !final(self).running(),
            final(self).results().len() == 0,
            final(self).auto_repeat_plan is None,
            final(self).auto_repeat_generation == counter_next(old(self).auto_repeat_generation),
            final(self).next_session_id == old(self).next_session_id,
    {
        self.configure_auto_repeat(None);
        self.recent_results = VecDeque::new();
        self.run = None;
        self.state = SessionState::Idle;
        assert(self.results() =~= Seq::<ResultView>::empty());
    }

    /// Adds a result to the cache, dropping the oldest beyond
    /// `MAX_RECENT_RESULTS`.
    fn cache_result(&mut self, c: SessionComplete)
        requires
            old(self).wf(),
            c.sum == seq_sum(c.numbers@),
        ensures
            final(self).wf(),
            final(self).results() == cache_after(old(self).results(), c@),
            final(self).state == old(self).state,
            final(self).next_session_id == old(self).next_session_id,
            final(self).auto_repeat_plan == old(self).auto_repeat_plan,
            final(self).auto_repeat_generation == old(self).auto_repeat_generation,
            final(self).run == old(self).run,
    {
        let ghost before = self.results();
        self.recent_results.push_back(c);
        assert(self.results() =~= before.push(c@));
        if self.recent_results.len() > MAX_RECENT_RESULTS {
            let ghost pushed = self.results();
            self.recent_results.pop_front();
            assert(self.results() =~= pushed.subrange(
                pushed.len() - MAX_RECENT_RESULTS,
                pushed.len() as int,
            ));
        }
    }

    /// The worker of session `session_id` asks what to do next. A worker whose
    /// run is no longer the active one gets `Abort`, and nothing changes. A
    /// reveal moves the state to `ShowingNumbers`; completion caches the result,
    /// arms the plan to wait for this session's answer, ends the run and moves
    /// the state to `Complete`.
    pub fn advance_run(&mut self, session_id: u64, rng: &mut ThreadRng) -> (r: RunAction)
        requires
            old(self).wf(),
        ensures
            final(self).wf(),
            old(self).running_id() != Some(session_id) ==> r is Abort && *final(self)
                == *old(self),
            r is Show ==> old(self).running_id() == Some(session_id),
            r matches RunAction::Show(s) ==> {
                let run = old(self).run->0;
                &&& s.session_id == session_id
                &&& s.index == run.numbers@.len() + 1
                &&& s.index <= run.config.total_numbers
                &&& s.total == run.config.total_numbers
                &&& s.running_sum >= 0
                &&& value_fits(
                    run.config.digits_per_number as nat,
                    run.config.allow_negative_numbers,
                    run.numbers@.len() as int,
                    run.running_sum as int,
                    s.value as int,
                )
                &&& repeats_previous(run.numbers@, s.value) ==> final(self).run->0.last_draw_count
                    == MAX_DRAW_ATTEMPTS
                &&& final(self).state == (SessionState::ShowingNumbers {
                    current: s.index,
                    total: s.total,
                })
                &&& final(self).run matches Some(nr) && nr.numbers@ == run.numbers@.push(s.value)
                    && nr.running_sum == s.running_sum
            },
            r matches RunAction::Complete(c) ==> {
                let run = old(self).run->0;
                &&& old(self).running_id() == Some(session_id)
                &&& c.session_id == session_id
                &&& c.numbers@ == run.numbers@
                &&& c.numbers@.len() == run.config.total_numbers
                &&& c.sum == seq_sum(c.numbers@)
                &&& final(self).results() == cache_after(old(self).results(), c@)
                &&& final(self).auto_repeat_plan == plan_after_completion(
                    old(self).auto_repeat_plan,
                    session_id,
                )
                &&& final(self).state == SessionState::Complete
                &&& !final(self).running()
            },
            old(self).running_id() == Some(session_id) ==> {
                let run = old(self).run->0;
                &&& r is Show <==> run.step == RunStep::Reveal
                &&& r is Complete <==> run.step == RunStep::Completing
                &&& r == action_for(run.step, run.numbers@.len(), run.config) || r is Show
                    || r is Complete
            },
            old(self).running_id() == Some(session_id) && !(r is Complete) ==> {
                let run = old(self).run->0;
                &&& final(self).run->0.step == next_step(run.step, run.numbers@.len(), run.config)
                &&& final(self).run matches Some(nr) && nr.session_id == session_id
                    && nr.config == run.config && (r is Show || nr.numbers@ == run.numbers@)
            },
            final(self).next_session_id == old(self).next_session_id,
            final(self).auto_repeat_generation == old(self).auto_repeat_generation,
            !(r is Complete) ==> final(self).auto_repeat_plan == old(self).auto_repeat_plan
                && final(self).recent_results == old(self).recent_results,
    {
        let mut run = match self.run.take() {
            Some(run) => run,
            None => {
                return RunAction::Abort;
            },
        };
        if run.session_id != session_id {
            self.run = Some(run);
            return RunAction::Abort;
        }
        let action = run.advance(rng);
        match action {
            RunAction::Show(s) => {
                self.state = SessionState::ShowingNumbers { current: s.index, total: s.total };
                self.run = Some(run);
                RunAction::Show(s)
            },
            RunAction::Complete(c) => {
                let cached = c.snapshot();
                self.cache_result(cached);
                self.auto_repeat_plan = match self.auto_repeat_plan {
                    Some(p) => {
                        if p.remaining > 0 {
                            Some(
                                AutoRepeatPlan {
                                    awaiting_validation_session_id: Some(session_id),
                                    ..p
                                },
                            )
                        } else {
                            Some(p)
                        }
                    },
                    None => None,
                };
                self.state = SessionState::Complete;
                RunAction::Complete(c)
            },
            other => {
                self.run = Some(run);
                other
            },
        }
    }
}

/// Stopping ends all reveals: `advance_run` hands a worker a value only while
/// that worker's run is the active one, and a manager that `stop` left behind
/// has no active run, so no worker is handed a value until a new `start`.
pub proof fn lemma_stopped_manager_reveals_nothing(m: SessionManager, session_id: u64)
    requires
        m.state == SessionState::Idle,
        !m.running(),
    ensures
        m.running_id() != Some(session_id),
{
}

impl Default for SessionManager {
    fn default() -> (r: SessionManager)
        ensures
            r.wf(),
            r.state == SessionState::Idle,
            r.next_session_id == 1,
            r.results().len() == 0,
            r.auto_repeat_plan is None,
            r.auto_repeat_generation == 1,
            !r.running(),
    {
        SessionManager::new()
    }
}

} // verus!
