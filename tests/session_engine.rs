use arith_drill::config::{AutoRepeatConfigInput, SessionConfig, SessionConfigInput};
use arith_drill::commands::start_session;
use arith_drill::manager::{SessionError, SessionManager, SessionState};
use arith_drill::repeat::{schedule_auto_repeat_if_needed, TimerAction};
use arith_drill::run::{RunAction, SessionComplete, ShowNumber};
use arith_drill::answer::submit_answer;

fn config(digits: u32, total: u32, allow_negative: bool) -> SessionConfig {
    SessionConfig {
        digits_per_number: digits,
        number_duration_ms: 500,
        delay_between_numbers_ms: 200,
        total_numbers: total,
        allow_negative_numbers: allow_negative,
    }
}

/// Runs the worker side of a session to its end, skipping the waits.
fn drive(m: &mut SessionManager, id: u64) -> (Vec<RunAction>, Vec<ShowNumber>, Option<SessionComplete>) {
    let mut rng = rand::thread_rng();
    let mut actions = Vec::new();
    let mut shows = Vec::new();
    for _ in 0..200_000 {
        let a = m.advance_run(id, &mut rng);
        match &a {
            RunAction::Show(s) => shows.push(*s),
            RunAction::Complete(c) => {
                let c = c.clone();
                actions.push(a);
                return (actions, shows, Some(c));
            }
            RunAction::Abort => {
                actions.push(a);
                return (actions, shows, None);
            }
            _ => {}
        }
        actions.push(a);
    }
    panic!("run did not end");
}

#[test]
fn three_two_digit_numbers_then_complete() {
    let mut m = SessionManager::new();
    let id = m.start(config(2, 3, false)).unwrap();
    let (_, shows, done) = drive(&mut m, id);
    assert_eq!(shows.len(), 3);
    for s in &shows {
        assert!(s.value >= 10 && s.value <= 99);
        assert_eq!(s.total, 3);
        assert_eq!(s.session_id, id);
    }
    let done = done.expect("session completes");
    assert_eq!(done.numbers, shows.iter().map(|s| s.value).collect::<Vec<_>>());
    assert_eq!(done.sum, shows.iter().map(|s| s.value as i128).sum::<i128>());
    assert_eq!(m.state(), SessionState::Complete);
}

#[test]
fn action_order_of_a_short_run() {
    let mut m = SessionManager::new();
    let id = m.start(config(1, 2, false)).unwrap();
    let (actions, _, _) = drive(&mut m, id);
    let kinds: Vec<&str> = actions
        .iter()
        .map(|a| match a {
            RunAction::Begin => "begin",
            RunAction::WaitCountdown { .. } => "wait_countdown",
            RunAction::Countdown { .. } => "countdown",
            RunAction::Clear => "clear",
            RunAction::WaitAfterClear { .. } => "wait_clear",
            RunAction::Show(_) => "show",
            RunAction::WaitAfterShow { .. } => "wait_show",
            RunAction::Complete(_) => "complete",
            RunAction::Abort => "abort",
        })
        .collect();
    assert_eq!(
        kinds,
        vec![
            "begin", "wait_countdown", "countdown", "wait_countdown", "countdown",
            "wait_countdown", "countdown", "wait_countdown", "clear", "wait_clear", "show",
            "wait_show", "clear", "wait_clear", "show", "wait_show", "clear", "clear", "complete"
        ]
    );
    let counts: Vec<u32> = actions
        .iter()
        .filter_map(|a| match a {
            RunAction::Countdown { value } => Some(*value),
            _ => None,
        })
        .collect();
    assert_eq!(counts, vec![3, 2, 1]);
    let waits: Vec<u64> = actions
        .iter()
        .filter_map(|a| match a {
            RunAction::WaitCountdown { offset_ms } => Some(*offset_ms),
            RunAction::WaitAfterClear { ms } => Some(*ms),
            RunAction::WaitAfterShow { ms } => Some(*ms),
            _ => None,
        })
        .collect();
    assert_eq!(waits, vec![0, 1000, 2000, 3000, 0, 500, 200, 500]);
}

#[test]
fn reveal_indices_run_from_one_to_total() {
    let mut m = SessionManager::new();
    let id = m.start(config(3, 25, true)).unwrap();
    let (_, shows, done) = drive(&mut m, id);
    let indices: Vec<u32> = shows.iter().map(|s| s.index).collect();
    assert_eq!(indices, (1..=25).collect::<Vec<u32>>());
    assert_eq!(done.unwrap().numbers.len(), 25);
}

#[test]
fn negatives_keep_running_sum_non_negative() {
    for _ in 0..50 {
        let mut m = SessionManager::new();
        let id = m.start(config(1, 40, true)).unwrap();
        let (_, shows, done) = drive(&mut m, id);
        assert!(shows[0].value > 0);
        let mut sum: i128 = 0;
        for s in &shows {
            sum += s.value as i128;
            assert_eq!(s.running_sum, sum);
            assert!(s.running_sum >= 0);
            assert!(s.value != 0 && s.value.abs() <= 9);
        }
        assert_eq!(done.unwrap().sum, sum);
    }
}

#[test]
fn no_negatives_when_not_allowed() {
    let mut m = SessionManager::new();
    let id = m.start(config(4, 200, false)).unwrap();
    let (_, shows, _) = drive(&mut m, id);
    for s in &shows {
        assert!(s.value >= 1000 && s.value <= 9999);
    }
}

#[test]
fn consecutive_values_differ() {
    let mut m = SessionManager::new();
    let id = m.start(config(1, 500, true)).unwrap();
    let (_, shows, _) = drive(&mut m, id);
    for w in shows.windows(2) {
        assert_ne!(w[0].value, w[1].value);
    }
}

#[test]
fn eighteen_digit_session_sums_exactly() {
    let mut m = SessionManager::new();
    let id = m.start(config(18, 40, false)).unwrap();
    let (_, shows, done) = drive(&mut m, id);
    for s in &shows {
        assert!(s.value >= 100_000_000_000_000_000 && s.value <= 999_999_999_999_999_999);
    }
    let done = done.unwrap();
    assert_eq!(done.sum, done.numbers.iter().map(|v| *v as i128).sum::<i128>());
    assert!(done.sum > i64::MAX as i128);
}

#[test]
fn start_refuses_while_running_and_invalid_configs() {
    let mut m = SessionManager::new();
    let bad = SessionConfig { digits_per_number: 19, ..config(2, 3, false) };
    assert!(matches!(m.start(bad), Err(SessionError::InvalidConfig(_))));
    let id = m.start(config(2, 3, false)).unwrap();
    assert_eq!(id, 1);
    assert_eq!(m.start(config(2, 3, false)), Err(SessionError::AlreadyRunning));
    drive(&mut m, id);
    assert_eq!(m.start(config(2, 3, false)), Ok(2));
}

#[test]
fn stop_mid_session_ends_reveals() {
    let mut m = SessionManager::new();
    let id = m.start(config(2, 10, false)).unwrap();
    let mut rng = rand::thread_rng();
    let mut shown = 0;
    while shown < 2 {
        if let RunAction::Show(_) = m.advance_run(id, &mut rng) {
            shown += 1;
        }
    }
    m.stop();
    assert_eq!(m.state(), SessionState::Idle);
    for _ in 0..50 {
        assert!(matches!(m.advance_run(id, &mut rng), RunAction::Abort));
    }
    assert_eq!(m.result_for(id).unwrap_err(), SessionError::NotFound);
}

#[test]
fn stop_while_idle_stays_idle() {
    let mut m = SessionManager::new();
    m.stop();
    assert_eq!(m.state(), SessionState::Idle);
    m.stop();
    assert_eq!(m.state(), SessionState::Idle);
    let id = m.start(config(1, 1, false)).unwrap();
    assert_eq!(id, 1);
}

#[test]
fn stop_clears_cached_results() {
    let mut m = SessionManager::new();
    let id = m.start(config(2, 2, false)).unwrap();
    drive(&mut m, id);
    assert!(m.result_for(id).is_ok());
    m.stop();
    assert_eq!(m.result_for(id).unwrap_err(), SessionError::NotFound);
}

#[test]
fn cache_keeps_the_eight_newest_results() {
    let mut m = SessionManager::new();
    let mut ids = Vec::new();
    for _ in 0..10 {
        let id = m.start(config(1, 1, false)).unwrap();
        drive(&mut m, id);
        ids.push(id);
    }
    assert_eq!(m.result_for(ids[0]).unwrap_err(), SessionError::NotFound);
    assert_eq!(m.result_for(ids[1]).unwrap_err(), SessionError::NotFound);
    for id in &ids[2..] {
        assert_eq!(m.result_for(*id).unwrap().session_id, *id);
    }
    assert_eq!(m.result_for(999).unwrap_err(), SessionError::NotFound);
}

#[test]
fn submitted_sum_is_checked_against_cached_sum() {
    let mut m = SessionManager::new();
    let id = m.start(config(2, 3, false)).unwrap();
    let (_, _, done) = drive(&mut m, id);
    let sum = done.unwrap().sum as i64;
    let right = submit_answer(&mut m, id, sum, 0).unwrap();
    assert!(right.validation.correct);
    assert_eq!(right.validation.delta, 0);
    let wrong = submit_answer(&mut m, id, sum + 7, 0).unwrap();
    assert!(!wrong.validation.correct);
    assert_eq!(wrong.validation.delta, 7);
    assert_eq!(wrong.validation.expected_sum, sum as i128);
    assert_eq!(submit_answer(&mut m, id + 1, 0, 0), Err(SessionError::NotFound));
}

fn input(total: i64) -> SessionConfigInput {
    SessionConfigInput {
        digits_per_number: 2,
        number_duration_ms: 500,
        delay_between_numbers_ms: 200,
        total_numbers: total,
        allow_negative_numbers: false,
    }
}

#[test]
fn auto_repeat_waits_then_starts_next_session() {
    let mut m = SessionManager::new();
    let repeat = AutoRepeatConfigInput { enabled: true, repeats: 2, delay_ms: 5000 };
    let started = start_session(&mut m, input(3), Some(repeat)).unwrap();
    let plan = started.effective_auto_repeat.unwrap();
    assert_eq!(plan.remaining, 2);
    assert_eq!(plan.delay_ms, 5000);
    let (_, _, done) = drive(&mut m, started.session_id);
    assert!(done.is_some());
    let scheduled = schedule_auto_repeat_if_needed(&mut m, started.session_id, 1_000).unwrap();
    assert_eq!(scheduled.waiting.remaining, 1);
    assert_eq!(scheduled.waiting.session_id, started.session_id);
    assert_eq!(scheduled.waiting.next_start_at_ms, 6_000);
    assert_eq!(scheduled.delay_ms, 5000);
    // A second acknowledgement releases nothing more.
    assert!(schedule_auto_repeat_if_needed(&mut m, started.session_id, 1_000).is_none());
    let mut timer = scheduled.timer;
    let gen = m.auto_repeat_generation();
    match timer.step(gen, 5000) {
        TimerAction::Tick(t) => {
            assert_eq!(t.seconds_left, 5);
            assert_eq!(t.remaining, 1);
        }
        other => panic!("expected a tick, got {:?}", other),
    }
    assert_eq!(timer.step(gen, 4500), TimerAction::Wait);
    match timer.step(gen, 3999) {
        TimerAction::Tick(t) => assert_eq!(t.seconds_left, 4),
        other => panic!("expected a tick, got {:?}", other),
    }
    match timer.step(gen, 0) {
        TimerAction::Fire(t) => assert_eq!(t.seconds_left, 0),
        other => panic!("expected the resume, got {:?}", other),
    }
    let next = m.start(scheduled.config).unwrap();
    assert_eq!(next, started.session_id + 1);
}

#[test]
fn cancelled_plan_never_resumes() {
    let mut m = SessionManager::new();
    let repeat = AutoRepeatConfigInput { enabled: true, repeats: 2, delay_ms: 5000 };
    let started = start_session(&mut m, input(2), Some(repeat)).unwrap();
    drive(&mut m, started.session_id);
    let scheduled = schedule_auto_repeat_if_needed(&mut m, started.session_id, 0).unwrap();
    m.configure_auto_repeat(None);
    let mut timer = scheduled.timer;
    assert_eq!(timer.step(m.auto_repeat_generation(), 3000), TimerAction::Cancelled);
    assert_eq!(timer.step(m.auto_repeat_generation(), 0), TimerAction::Cancelled);
}

#[test]
fn last_repeat_is_not_rearmed() {
    let mut m = SessionManager::new();
    let repeat = AutoRepeatConfigInput { enabled: true, repeats: 1, delay_ms: 0 };
    let started = start_session(&mut m, input(1), Some(repeat)).unwrap();
    assert_eq!(started.effective_auto_repeat.unwrap().delay_ms, 5000);
    drive(&mut m, started.session_id);
    let scheduled = schedule_auto_repeat_if_needed(&mut m, started.session_id, 0).unwrap();
    assert_eq!(scheduled.waiting.remaining, 0);
    let second = m.start(scheduled.config).unwrap();
    drive(&mut m, second);
    assert!(schedule_auto_repeat_if_needed(&mut m, second, 0).is_none());
}

#[test]
fn start_session_without_repeat_clears_plan() {
    let mut m = SessionManager::new();
    let off = AutoRepeatConfigInput { enabled: false, repeats: 5, delay_ms: 9000 };
    let started = start_session(&mut m, input(1), Some(off)).unwrap();
    assert!(started.effective_auto_repeat.is_none());
    drive(&mut m, started.session_id);
    assert!(schedule_auto_repeat_if_needed(&mut m, started.session_id, 0).is_none());
    assert_eq!(
        start_session(&mut m, input(0), None).unwrap().effective_config.total_numbers,
        1
    );
    assert_eq!(start_session(&mut m, input(1), None), Err(SessionError::AlreadyRunning));
}

#[test]
fn waiting_time_saturates() {
    let mut m = SessionManager::new();
    let repeat = AutoRepeatConfigInput { enabled: true, repeats: 3, delay_ms: 7000 };
    let started = start_session(&mut m, input(1), Some(repeat)).unwrap();
    drive(&mut m, started.session_id);
    let scheduled = schedule_auto_repeat_if_needed(&mut m, started.session_id, u64::MAX - 10).unwrap();
    assert_eq!(scheduled.waiting.next_start_at_ms, u64::MAX);
    assert_eq!(scheduled.waiting.remaining, 2);
}
