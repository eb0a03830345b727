use arith_drill::answer::{parse_answer_text, submit_answer_text, validate_answer};
use arith_drill::manager::{SessionError, SessionManager};

#[test]
fn plain_and_signed_integers() {
    assert_eq!(parse_answer_text("42"), Ok(42));
    assert_eq!(parse_answer_text("-17"), Ok(-17));
    assert_eq!(parse_answer_text("+8"), Ok(8));
    assert_eq!(parse_answer_text("007"), Ok(7));
}

#[test]
fn whitespace_and_separators_are_dropped() {
    assert_eq!(parse_answer_text("  1,234 \n"), Ok(1234));
    assert_eq!(parse_answer_text("\u{3000}-2,000,000\u{a0}"), Ok(-2_000_000));
    assert_eq!(parse_answer_text(",,5,,"), Ok(5));
}

#[test]
fn rejected_answers() {
    for bad in ["", "   ", ",", "-", "+", "abc", "1 2", "4.5", "--3", "12a", "١٢"] {
        assert_eq!(parse_answer_text(bad), Err(SessionError::InvalidAnswerFormat), "{bad:?}");
    }
}

#[test]
fn i64_limits() {
    assert_eq!(parse_answer_text("9223372036854775807"), Ok(i64::MAX));
    assert_eq!(parse_answer_text("-9223372036854775808"), Ok(i64::MIN));
    assert_eq!(parse_answer_text("9223372036854775808"), Err(SessionError::InvalidAnswerFormat));
    assert_eq!(parse_answer_text("-9223372036854775809"), Err(SessionError::InvalidAnswerFormat));
    assert_eq!(
        parse_answer_text("99999999999999999999999999"),
        Err(SessionError::InvalidAnswerFormat)
    );
}

#[test]
fn length_limit_counts_the_cleaned_text() {
    let sixty_four = format!("{}1", "0".repeat(63));
    assert_eq!(parse_answer_text(&sixty_four), Ok(1));
    let sixty_five = format!("{}1", "0".repeat(64));
    assert_eq!(parse_answer_text(&sixty_five), Err(SessionError::InvalidAnswerFormat));
    let with_commas = format!("{}1", ",".repeat(500));
    assert_eq!(parse_answer_text(&with_commas), Ok(1));
}

#[test]
fn delta_and_correctness() {
    let v = validate_answer(100, 100);
    assert!(v.correct);
    assert_eq!(v.delta, 0);
    let v = validate_answer(100, 90);
    assert!(!v.correct);
    assert_eq!(v.delta, -10);
    let v = validate_answer(-5, i64::MAX);
    assert_eq!(v.delta, i64::MAX);
    let v = validate_answer(i128::MAX, 0);
    assert_eq!(v.delta, i64::MIN);
    assert!(!v.correct);
    let v = validate_answer(i64::MAX as i128 + 1, i64::MAX);
    assert_eq!(v.delta, -1);
}

#[test]
fn text_answer_for_unknown_session() {
    let mut m = SessionManager::new();
    assert_eq!(submit_answer_text(&mut m, 1, "12", 0), Err(SessionError::NotFound));
    assert_eq!(submit_answer_text(&mut m, 1, "twelve", 0), Err(SessionError::InvalidAnswerFormat));
}
