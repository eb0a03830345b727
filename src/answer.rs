//! Answer checking: the submitted sum against the cached one, and the text
//! form of an answer read as a signed 64-bit integer.
use crate::manager::{latest_result, SessionError, SessionManager};
use crate::repeat::{schedule_auto_repeat_if_needed, ScheduledRepeat};
use vstd::prelude::*;
use vstd::std_specs::iter::IteratorSpec;

verus! {

/// Longest cleaned text answer, in characters.
pub const MAX_ANSWER_CHARS: usize = 64;

/// How a submitted sum compares with the expected one.
#[derive(Debug, Clone, Copy, PartialEq, Eq, Structural)]
pub struct ValidationResult {
    pub expected_sum: i128,
    pub provided_sum: i64,
    pub correct: bool,
    /// `provided_sum - expected_sum`, held within `i64`.
    pub delta: i64,
}

/// `x` held within the range of `i64`.
pub open spec fn saturate_i64(x: int) -> int {
    if x < i64::MIN {
        i64::MIN as int
    } else if x > i64::MAX {
        i64::MAX as int
    } else {
        x
    }
}

/// Compares a submitted sum with the expected one.
pub fn validate_answer(expected_sum: i128, provided_sum: i64) -> (r: ValidationResult)
    ensures
        r.expected_sum == expected_sum,
        r.provided_sum == provided_sum,
        r.delta == saturate_i64(provided_sum - expected_sum),
        r.correct == (provided_sum == expected_sum),
        r.correct == (r.delta == 0),
{
    // Beyond 2^64 in magnitude the difference saturates either way.
    let bound: i128 = 0x1_0000_0000_0000_0000;
    let expected = if expected_sum > bound {
        bound
    } else if expected_sum < -bound {
        -bound
    } else {
        expected_sum
    };
    let diff: i128 = provided_sum as i128 - expected;
    let delta: i64 = if diff < i64::MIN as i128 {
        i64::MIN
    } else if diff > i64::MAX as i128 {
        i64::MAX
    } else {
        diff as i64
    };
    ValidationResult { expected_sum, provided_sum, correct: delta == 0, delta }
}

/// The answer to a session and, where one was released, the scheduled repeat.
#[derive(Debug, Clone, Copy, PartialEq, Eq, Structural)]
pub struct SubmitAnswerResponse {
    pub validation: ValidationResult,
    pub auto_repeat: Option<ScheduledRepeat>,
}

/// Checks `provided_sum` against the cached result of `session_id`, then
/// releases the next repeat as `schedule_auto_repeat_if_needed` does. Fails
/// with `NotFound`, changing nothing, when no result of that session is cached.
pub fn submit_answer(
    manager: &mut SessionManager,
    session_id: u64,
    provided_sum: i64,
    now_ms: u64,
) -> (r: Result<SubmitAnswerResponse, SessionError>)
    requires
        old(manager).wf(),
    ensures
        final(manager).wf(),
        latest_result(old(manager).results(), session_id) is None ==> r == Err::<
            SubmitAnswerResponse,
            SessionError,
        >(SessionError::NotFound) && *final(manager) == *old(manager),
        latest_result(old(manager).results(), session_id) matches Some(c) ==> r matches Ok(resp)
            && {
            &&& resp.validation.expected_sum == c.sum
            &&& resp.validation.provided_sum == provided_sum
            &&& resp.validation.correct == (provided_sum == c.sum)
            &&& resp.validation.delta == saturate_i64(provided_sum - c.sum)
            &&& resp.auto_repeat is Some <==> crate::manager::releases_repeat(
                old(manager).auto_repeat_plan,
                session_id,
            )
        },
        r is Ok && !crate::manager::releases_repeat(old(manager).auto_repeat_plan, session_id)
            ==> *final(manager) == *old(manager),
{
    let result = match manager.result_for(session_id) {
        Ok(c) => c,
        Err(e) => {
            return Err(e);
        },
    };
    let validation = validate_answer(result.sum, provided_sum);
    let auto_repeat = schedule_auto_repeat_if_needed(manager, session_id, now_ms);
    Ok(SubmitAnswerResponse { validation, auto_repeat })
}

/// Reads a text answer, then submits it as `submit_answer` does; an answer
/// that is not a single integer fails with `InvalidAnswerFormat`, changing
/// nothing.
pub fn submit_answer_text(
    manager: &mut SessionManager,
    session_id: u64,
    provided_text: &str,
    now_ms: u64,
) -> (r: Result<SubmitAnswerResponse, SessionError>)
    requires
        old(manager).wf(),
    ensures
        final(manager).wf(),
        answer_value(provided_text@) is None ==> r == Err::<SubmitAnswerResponse, SessionError>(
            SessionError::InvalidAnswerFormat,
        ) && *final(manager) == *old(manager),
        answer_value(provided_text@) matches Some(v) ==> {
            &&& latest_result(old(manager).results(), session_id) is None ==> r == Err::<
                SubmitAnswerResponse,
                SessionError,
            >(SessionError::NotFound)
            &&& latest_result(old(manager).results(), session_id) matches Some(c) ==> r matches Ok(
                resp,
            ) && resp.validation.provided_sum == v && resp.validation.expected_sum == c.sum
                && resp.validation.correct == (v == c.sum)
                && resp.validation.delta == saturate_i64(v - c.sum)
        },
{
    let provided_sum = match parse_answer_text(provided_text) {
        Ok(v) => v,
        Err(e) => {
            return Err(e);
        },
    };
    submit_answer(manager, session_id, provided_sum, now_ms)
}

/// Unicode's White_Space property, which `char::is_whitespace` follows.
pub open spec fn is_white_space(c: char) -> bool {
    let u = c as u32;
    ||| 0x09 <= u <= 0x0D
    ||| u == 0x20
    ||| u == 0x85
    ||| u == 0xA0
    ||| u == 0x1680
    ||| 0x2000 <= u <= 0x200A
    ||| u == 0x2028
    ||| u == 0x2029
    ||| u == 0x202F
    ||| u == 0x205F
    ||| u == 0x3000
}

/// Relies on `char::is_whitespace`: true exactly for the characters with
/// Unicode's White_Space property.
#[verifier::external_body]
fn char_is_whitespace(c: char) -> (r: bool)
    ensures
        r == is_white_space(c),
{
    c.is_whitespace()
}

/// `s` without its leading white space.
pub open spec fn trim_front(s: Seq<char>) -> Seq<char>
    decreases s.len(),
{
    if s.len() > 0 && is_white_space(s[0]) {
        trim_front(s.skip(1))
    } else {
        s
    }
}

/// `s` without its trailing white space.
pub open spec fn trim_back(s: Seq<char>) -> Seq<char>
    decreases s.len(),
{
    if s.len() > 0 && is_white_space(s.last()) {
        trim_back(s.drop_last())
    } else {
        s
    }
}

/// `s` without its commas.
pub open spec fn strip_commas(s: Seq<char>) -> Seq<char>
    decreases s.len(),
{
    if s.len() == 0 {
        s
    } else if s.last() == ',' {
        strip_commas(s.drop_last())
    } else {
        strip_commas(s.drop_last()).push(s.last())
    }
}

/// A text answer cleaned: trimmed of white space, then without commas.
pub open spec fn cleaned_answer(s: Seq<char>) -> Seq<char> {
    strip_commas(trim_back(trim_front(s)))
}

pub open spec fn is_ascii_digit(c: char) -> bool {
    '0' <= c && c <= '9'
}

pub open spec fn all_digits(s: Seq<char>) -> bool {
    forall|i: int| 0 <= i < s.len() ==> #[trigger] is_ascii_digit(s[i])
}

/// The number that a string of decimal digits spells.
pub open spec fn digits_value(s: Seq<char>) -> int
    decreases s.len(),
{
    if s.len() == 0 {
        0
    } else {
        digits_value(s.drop_last()) * 10 + (s.last() as int - '0' as int)
    }
}

/// The integer that `s` spells: an optional `+` or `-`, then one or more
/// decimal digits.
pub open spec fn integer_literal(s: Seq<char>) -> Option<int> {
    if s.len() > 0 && (s[0] == '+' || s[0] == '-') {
        let body = s.skip(1);
        if body.len() > 0 && all_digits(body) {
            Some(
                if s[0] == '-' {
                    -digits_value(body)
                } else {
                    digits_value(body)
                },
            )
        } else {
            None
        }
    } else if s.len() > 0 && all_digits(s) {
        Some(digits_value(s))
    } else {
        None
    }
}

/// The `i64` that a cleaned answer spells, if any.
pub open spec fn i64_literal(s: Seq<char>) -> Option<i64> {
    match integer_literal(s) {
        Some(v) => if i64::MIN <= v <= i64::MAX {
            Some(v as i64)
        } else {
            None
        },
        None => None,
    }
}

/// The value of a text answer: none when the cleaned text is empty, longer
/// than `MAX_ANSWER_CHARS`, or not an integer within `i64`.
pub open spec fn answer_value(s: Seq<char>) -> Option<i64> {
    let c = cleaned_answer(s);
    if c.len() == 0 || c.len() > MAX_ANSWER_CHARS {
        None
    } else {
        i64_literal(c)
    }
}

/// Reads a text answer: surrounding white space and thousands separators are
/// dropped, and what is left must be a single integer within `i64`.
pub fn parse_answer_text(input: &str) -> (r: Result<i64, SessionError>)
    ensures
        r is Ok <==> answer_value(input@) is Some,
        r matches Ok(v) ==> answer_value(input@) == Some(v),
        r is Err ==> r == Err::<i64, SessionError>(SessionError::InvalidAnswerFormat),
{
    let chars = chars_of(input);
    let cleaned = clean_answer(&chars);
    if cleaned.len() == 0 || cleaned.len() > MAX_ANSWER_CHARS {
        return Err(SessionError::InvalidAnswerFormat);
    }
    match parse_i64(&cleaned) {
        Some(v) => Ok(v),
        None => Err(SessionError::InvalidAnswerFormat),
    }
}

/// The characters of `s`.
pub(crate) fn chars_of(s: &str) -> (r: Vec<char>)
    ensures
        r@ == s@,
{
    broadcast use vstd::string::axiom_spec_iter, vstd::string::next_postcondition;

    let mut it = s.chars();
    let mut out: Vec<char> = Vec::new();
    loop
        invariant
            it.remaining() == s@.skip(out@.len() as int),
            out@ == s@.take(out@.len() as int),
            out@.len() <= s@.len(),
        decreases s@.len() - out@.len(),
    {
        match it.next() {
            Some(c) => {
                out.push(c);
                assert(out@ =~= s@.take(out@.len() as int));
            },
            None => {
                assert(out@ =~= s@);
                return out;
            },
        }
    }
}

/// The cleaned form of a text answer.
fn clean_answer(s: &Vec<char>) -> (r: Vec<char>)
    ensures
        r@ == cleaned_answer(s@),
{
    let n = s.len();
    let mut a: usize = 0;
    assert(s@.skip(0) =~= s@);
    while a < n && char_is_whitespace(s[a])
        invariant
            a <= n == s@.len(),
            trim_front(s@) == trim_front(s@.skip(a as int)),
        decreases n - a,
    {
        assert(s@.skip(a as int).skip(1) =~= s@.skip(a + 1));
        a = a + 1;
    }
    let ghost front = s@.skip(a as int);
    assert(trim_front(front) == front);
    let mut b: usize = n;
    while b > a && char_is_whitespace(s[b - 1])
        invariant
            a <= b <= n == s@.len(),
            front == s@.skip(a as int),
            trim_back(front) == trim_back(s@.subrange(a as int, b as int)),
        decreases b - a,
    {
        assert(s@.subrange(a as int, b as int).drop_last() =~= s@.subrange(a as int, b - 1));
        b = b - 1;
    }
    assert(front =~= s@.subrange(a as int, n as int));
    let ghost trimmed = s@.subrange(a as int, b as int);
    assert(trim_back(trimmed) == trimmed);
    let mut out: Vec<char> = Vec::new();
    let mut i: usize = a;
    assert(s@.subrange(a as int, a as int) =~= Seq::<char>::empty());
    while i < b
        invariant
            a <= i <= b <= n == s@.len(),
            trimmed == s@.subrange(a as int, b as int),
            out@ == strip_commas(s@.subrange(a as int, i as int)),
        decreases b - i,
    {
        assert(s@.subrange(a as int, i + 1).drop_last() =~= s@.subrange(a as int, i as int));
        if s[i] != ',' {
            out.push(s[i]);
        }
        i = i + 1;
    }
    out
}

/// A longer string of digits spells at least as much as its prefixes.
proof fn lemma_digits_value_prefix(s: Seq<char>, k: int)
    requires
        0 <= k <= s.len(),
        all_digits(s),
    ensures
        0 <= digits_value(s.take(k)) <= digits_value(s),
    decreases s.len(),
{
    if s.len() > 0 {
        let init = s.drop_last();
        assert forall|i: int| 0 <= i < init.len() implies #[trigger] is_ascii_digit(init[i]) by {
            assert(init[i] == s[i]);
        }
        assert(is_ascii_digit(s[s.len() - 1]));
        if k < s.len() {
            assert(init.take(k) =~= s.take(k));
            lemma_digits_value_prefix(init, k);
        } else {
            assert(s.take(k) =~= s);
            lemma_digits_value_prefix(init, 0);
            assert(init.take(0) =~= Seq::<char>::empty());
        }
    }
}

/// The value of `digits`, when all are decimal digits and the value is at most
/// `2^63`.
fn digits_magnitude(s: &Vec<char>, start: usize) -> (r: Option<u64>)
    requires
        start <= s@.len(),
    ensures
        r matches Some(m) ==> all_digits(s@.skip(start as int)) && m == digits_value(
            s@.skip(start as int),
        ) && m <= 0x8000_0000_0000_0000,
        r is None ==> !all_digits(s@.skip(start as int)) || digits_value(s@.skip(start as int))
            > 0x8000_0000_0000_0000,
{
    let ghost body = s@.skip(start as int);
    let mut acc: u64 = 0;
    let mut i: usize = start;
    assert(body.take(0) =~= Seq::<char>::empty());
    while i < s.len()
        invariant
            start <= i <= s@.len(),
            body == s@.skip(start as int),
            all_digits(body.take(i - start)),
            acc == digits_value(body.take(i - start)),
            acc <= 0x8000_0000_0000_0000,
        decreases s@.len() - i,
    {
        let c = s[i];
        let ghost k = i - start;
        if !('0' <= c && c <= '9') {
            assert(body[k] == c);
            assert(!is_ascii_digit(body[k]));
            return None;
        }
        assert(body.take(k + 1).drop_last() =~= body.take(k));
        assert(body.take(k + 1).last() == c);
        let d = (c as u32 - '0' as u32) as u64;
        if acc > (0x8000_0000_0000_0000u64 - d) / 10 {
            proof {
                assert(all_digits(body.take(k + 1)));
                if all_digits(body) {
                    lemma_digits_value_prefix(body, k + 1);
                }
            }
            return None;
        }
        acc = acc * 10 + d;
        i = i + 1;
        assert(all_digits(body.take(i - start)));
    }
    assert(body.take(i - start) =~= body);
    Some(acc)
}

/// Reads `s` as an `i64` in decimal, with an optional sign.
fn parse_i64(s: &Vec<char>) -> (r: Option<i64>)
    ensures
        r == i64_literal(s@),
{
    if s.len() == 0 {
        return None;
    }
    let signed = s[0] == '+' || s[0] == '-';
    let start: usize = if signed {
        1
    } else {
        0
    };
    assert(s@.skip(0) =~= s@);
    if start == s.len() {
        return None;
    }
    match digits_magnitude(s, start) {
        Some(m) => {
            if s[0] == '-' {
                if m == 0x8000_0000_0000_0000u64 {
                    Some(i64::MIN)
                } else {
                    Some(-(m as i64))
                }
            } else if m <= i64::MAX as u64 {
                Some(m as i64)
            } else {
                None
            }
        },
        None => None,
    }
}

} // verus!
