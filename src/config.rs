//! Session configuration: validation of effective configurations and clamping
//! of untrusted input into them.
use vstd::prelude::*;

verus! {

/// Largest digit count per number: `10^18` still fits a `u64`.
pub const MAX_DIGITS: u32 = 18;

/// Largest count of numbers in one session.
pub const MAX_TOTAL_NUMBERS: u32 = 10_000;

/// Largest display duration and gap, in milliseconds.
pub const MAX_INTERVAL_MS: u64 = 60_000;

/// Shortest display duration, in milliseconds.
pub const MIN_DURATION_MS: u64 = 1;

/// Most repeats an auto-repeat plan may ask for.
pub const MAX_REPEATS: u32 = 20;

/// Shortest wait before a repeat, in milliseconds.
pub const MIN_REPEAT_DELAY_MS: u64 = 5_000;

/// Longest wait before a repeat, in milliseconds.
pub const MAX_REPEAT_DELAY_MS: u64 = 120_000;

/// An effective session configuration.
#[derive(Debug, Clone, Copy, PartialEq, Eq, Structural)]
pub struct SessionConfig {
    pub digits_per_number: u32,
    pub number_duration_ms: u64,
    pub delay_between_numbers_ms: u64,
    pub total_numbers: u32,
    pub allow_negative_numbers: bool,
}

/// Why a configuration is refused.
#[derive(Debug, Clone, Copy, PartialEq, Eq, Structural)]
pub enum ConfigError {
    /// Digit count, display duration or number count is zero.
    ZeroField,
    /// More than `MAX_DIGITS` digits per number.
    TooManyDigits,
    /// More than `MAX_TOTAL_NUMBERS` numbers.
    TooManyNumbers,
    /// Display duration above `MAX_INTERVAL_MS`.
    DurationTooLong,
    /// Gap above `MAX_INTERVAL_MS`.
    GapTooLong,
}

impl SessionConfig {
    /// Every field lies within its bounds.
    pub open spec fn is_valid(&self) -> bool {
        &&& 1 <= self.digits_per_number <= MAX_DIGITS
        &&& 1 <= self.number_duration_ms <= MAX_INTERVAL_MS
        &&& self.delay_between_numbers_ms <= MAX_INTERVAL_MS
        &&& 1 <= self.total_numbers <= MAX_TOTAL_NUMBERS
    }
}

/// The first failed check, in the order in which they are made.
pub open spec fn config_error(c: SessionConfig) -> Option<ConfigError> {
    if c.digits_per_number == 0 || c.number_duration_ms == 0 || c.total_numbers == 0 {
        Some(ConfigError::ZeroField)
    } else if c.digits_per_number > MAX_DIGITS {
        Some(ConfigError::TooManyDigits)
    } else if c.total_numbers > MAX_TOTAL_NUMBERS {
        Some(ConfigError::TooManyNumbers)
    } else if c.number_duration_ms > MAX_INTERVAL_MS {
        Some(ConfigError::DurationTooLong)
    } else if c.delay_between_numbers_ms > MAX_INTERVAL_MS {
        Some(ConfigError::GapTooLong)
    } else {
        None
    }
}

/// Checks that a configuration can be run.
pub fn validate_config(config: &SessionConfig) -> (r: Result<(), ConfigError>)
    ensures
        r is Ok <==> config.is_valid(),
        r is Ok <==> config_error(*config) is None,
        forall|e: ConfigError| r == Err::<(), ConfigError>(e) <==> config_error(*config) == Some(e),
{
    if config.digits_per_number == 0 || config.number_duration_ms == 0 || config.total_numbers
        == 0 {
        return Err(ConfigError::ZeroField);
    }
    if config.digits_per_number > MAX_DIGITS {
        return Err(ConfigError::TooManyDigits);
    }
    if config.total_numbers > MAX_TOTAL_NUMBERS {
        return Err(ConfigError::TooManyNumbers);
    }
    if config.number_duration_ms > MAX_INTERVAL_MS {
        return Err(ConfigError::DurationTooLong);
    }
    if config.delay_between_numbers_ms > MAX_INTERVAL_MS {
        return Err(ConfigError::GapTooLong);
    }
    Ok(())
}

/// `v` raised to at least `lo`, then lowered to at most `hi`.
pub open spec fn clamp(v: int, lo: int, hi: int) -> int {
    let raised = if v < lo { lo } else { v };
    if raised > hi { hi } else { raised }
}

/// `v.max(min).min(max)`: when `min > max` the result is `max`.
pub fn clamp_i64(v: i64, min: i64, max: i64) -> (r: i64)
    ensures
        r == clamp(v as int, min as int, max as int),
{
    let raised = if v < min { min } else { v };
    if raised > max { max } else { raised }
}

/// Untrusted configuration input, with durations already in whole
/// milliseconds.
#[derive(Debug, Clone, Copy, PartialEq, Eq, Structural)]
pub struct SessionConfigInput {
    pub digits_per_number: i64,
    pub number_duration_ms: i64,
    pub delay_between_numbers_ms: i64,
    pub total_numbers: i64,
    pub allow_negative_numbers: bool,
}

/// The configuration echoed back for display, durations in tenths of a second.
#[derive(Debug, Clone, Copy, PartialEq, Eq, Structural)]
pub struct SessionConfigEffective {
    pub digits_per_number: u32,
    pub number_duration_tenths: u64,
    pub delay_between_numbers_tenths: u64,
    pub total_numbers: u32,
    pub allow_negative_numbers: bool,
}

/// Milliseconds rounded to the nearest tenth of a second, halves up.
pub open spec fn ms_to_tenths(ms: int) -> int {
    (ms + 50) / 100
}

/// What `normalize_session_config` makes of an input.
pub open spec fn normalized(input: SessionConfigInput) -> SessionConfig {
    SessionConfig {
        digits_per_number: clamp(input.digits_per_number as int, 1, MAX_DIGITS as int) as u32,
        number_duration_ms: clamp(
            input.number_duration_ms as int,
            MIN_DURATION_MS as int,
            MAX_INTERVAL_MS as int,
        ) as u64,
        delay_between_numbers_ms: clamp(
            input.delay_between_numbers_ms as int,
            0,
            MAX_INTERVAL_MS as int,
        ) as u64,
        total_numbers: clamp(input.total_numbers as int, 1, MAX_TOTAL_NUMBERS as int) as u32,
        allow_negative_numbers: input.allow_negative_numbers,
    }
}

/// The display echo of an effective configuration.
pub open spec fn effective_of(c: SessionConfig) -> SessionConfigEffective {
    SessionConfigEffective {
        digits_per_number: c.digits_per_number,
        number_duration_tenths: ms_to_tenths(c.number_duration_ms as int) as u64,
        delay_between_numbers_tenths: ms_to_tenths(c.delay_between_numbers_ms as int) as u64,
        total_numbers: c.total_numbers,
        allow_negative_numbers: c.allow_negative_numbers,
    }
}

/// Clamps every field of an untrusted input into its bounds; never fails.
pub fn normalize_session_config(input: SessionConfigInput) -> (r: (
    SessionConfig,
    SessionConfigEffective,
))
    ensures
        r.0 == normalized(input),
        r.0.is_valid(),
        r.1 == effective_of(r.0),
{
    let digits = clamp_i64(input.digits_per_number, 1, MAX_DIGITS as i64) as u32;
    let total_numbers = clamp_i64(input.total_numbers, 1, MAX_TOTAL_NUMBERS as i64) as u32;
    let number_duration_ms = clamp_i64(
        input.number_duration_ms,
        MIN_DURATION_MS as i64,
        MAX_INTERVAL_MS as i64,
    ) as u64;
    let delay_between_numbers_ms = clamp_i64(
        input.delay_between_numbers_ms,
        0,
        MAX_INTERVAL_MS as i64,
    ) as u64;
    let config = SessionConfig {
        digits_per_number: digits,
        number_duration_ms,
        delay_between_numbers_ms,
        total_numbers,
        allow_negative_numbers: input.allow_negative_numbers,
    };
    let effective = SessionConfigEffective {
        digits_per_number: digits,
        number_duration_tenths: (number_duration_ms + 50) / 100,
        delay_between_numbers_tenths: (delay_between_numbers_ms + 50) / 100,
        total_numbers,
        allow_negative_numbers: input.allow_negative_numbers,
    };
    (config, effective)
}

/// An auto-repeat plan: how many more sessions to start, how long to wait
/// before each, with which configuration, and the session whose answer must
/// be acknowledged first.
#[derive(Debug, Clone, Copy, PartialEq, Eq, Structural)]
pub struct AutoRepeatPlan {
    pub remaining: u32,
    pub delay_ms: u64,
    pub config: SessionConfig,
    pub awaiting_validation_session_id: Option<u64>,
}

/// Untrusted auto-repeat input, with the delay already in whole milliseconds.
#[derive(Debug, Clone, Copy, PartialEq, Eq, Structural)]
pub struct AutoRepeatConfigInput {
    pub enabled: bool,
    pub repeats: i64,
    pub delay_ms: i64,
}

/// What `normalize_auto_repeat` makes of an input.
pub open spec fn normalized_plan(
    input: Option<AutoRepeatConfigInput>,
    config: SessionConfig,
) -> Option<AutoRepeatPlan> {
    match input {
        Some(ar) if ar.enabled => Some(
            AutoRepeatPlan {
                remaining: clamp(ar.repeats as int, 1, MAX_REPEATS as int) as u32,
                delay_ms: clamp(
                    ar.delay_ms as int,
                    MIN_REPEAT_DELAY_MS as int,
                    MAX_REPEAT_DELAY_MS as int,
                ) as u64,
                config,
                awaiting_validation_session_id: None,
            },
        ),
        _ => None,
    }
}

/// Turns an optional auto-repeat request into a plan for `config`: none when
/// absent or disabled, else repeats clamped to `1..=MAX_REPEATS` and the delay
/// to `MIN_REPEAT_DELAY_MS..=MAX_REPEAT_DELAY_MS`.
pub fn normalize_auto_repeat(input: Option<AutoRepeatConfigInput>, config: SessionConfig) -> (r:
    Option<AutoRepeatPlan>)
    ensures
        r == normalized_plan(input, config),
{
    match input {
        Some(ar) => {
            if ar.enabled {
                let repeats = clamp_i64(ar.repeats, 1, MAX_REPEATS as i64) as u32;
                let delay_ms = clamp_i64(
                    ar.delay_ms,
                    MIN_REPEAT_DELAY_MS as i64,
                    MAX_REPEAT_DELAY_MS as i64,
                ) as u64;
                Some(
                    AutoRepeatPlan {
                        remaining: repeats,
                        delay_ms,
                        config,
                        awaiting_validation_session_id: None,
                    },
                )
            } else {
                None
            }
        },
        None => None,
    }
}

} // verus!
