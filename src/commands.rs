//! Starting a session from untrusted input: the configuration and the
//! optional auto-repeat request are normalized, the plan is replaced, and the
//! session is started.
use crate::config::{
    effective_of, normalize_auto_repeat, normalize_session_config, normalized, normalized_plan,
    AutoRepeatConfigInput, AutoRepeatPlan, SessionConfigEffective, SessionConfigInput,
};
use crate::manager::{counter_next, SessionError, SessionManager};
use vstd::prelude::*;

verus! {

/// What a started session reports back.
#[derive(Debug, Clone, Copy, PartialEq, Eq, Structural)]
pub struct StartSessionResponse {
    pub session_id: u64,
    pub effective_config: SessionConfigEffective,
    pub effective_auto_repeat: Option<AutoRepeatPlan>,
}

/// Normalizes the input, replaces the auto-repeat plan (clearing it when no
/// enabled request comes along) and starts the session. Fails with
/// `AlreadyRunning` while a run is active; the plan is replaced either way.
pub fn start_session(
    manager: &mut SessionManager,
    config: SessionConfigInput,
    auto_repeat: Option<AutoRepeatConfigInput>,
) -> (r: Result<StartSessionResponse, SessionError>)
    requires
        old(manager).wf(),
    ensures
        final(manager).wf(),
        final(manager).auto_repeat_plan == normalized_plan(auto_repeat, normalized(config)),
        final(manager).auto_repeat_generation == counter_next(
            old(manager).auto_repeat_generation,
        ),
        old(manager).running() ==> r == Err::<StartSessionResponse, SessionError>(
            SessionError::AlreadyRunning,
        ),
        !old(manager).running() ==> r == Ok::<StartSessionResponse, SessionError>(
            StartSessionResponse {
                session_id: old(manager).next_session_id,
                effective_config: effective_of(normalized(config)),
                effective_auto_repeat: normalized_plan(auto_repeat, normalized(config)),
            },
        ),
        r is Ok ==> final(manager).running_id() == Some(old(manager).next_session_id)
            && final(manager).next_session_id == counter_next(old(manager).next_session_id),
{
    let (config, effective_config) = normalize_session_config(config);
    let plan = normalize_auto_repeat(auto_repeat, config);
    manager.configure_auto_repeat(plan);
    match manager.start(config) {
        Ok(session_id) => Ok(
            StartSessionResponse { session_id, effective_config, effective_auto_repeat: plan },
        ),
        Err(e) => Err(e),
    }
}

} // verus!
