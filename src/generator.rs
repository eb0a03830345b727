//! The constrained sequence generator: one value at a time, of a fixed digit
//! count, never driving the running sum below zero, and unlike the value
//! before it where the random source allows.
use rand::rngs::ThreadRng;
use rand::Rng;
use vstd::prelude::*;

verus! {

#[verifier::external_type_specification]
#[verifier::external_body]
pub struct ExThreadRng(ThreadRng);

/// How many draws are made before a repeat of the previous value is accepted.
pub const MAX_DRAW_ATTEMPTS: u32 = 256;

/// Relies on rand's `Rng::gen_range` over `lo..hi`: a value of that half-open
/// range (it panics when the range is empty).
#[verifier::external_body]
fn gen_range_u64(rng: &mut ThreadRng, lo: u64, hi: u64) -> (r: u64)
    requires
        lo < hi,
    ensures
        lo <= r < hi,
{
    rng.gen_range(lo..hi)
}

/// Relies on rand's `Rng::gen::<bool>`, the `Standard` distribution: a fair
/// coin. Nothing is promised of the outcome.
#[verifier::external_body]
fn gen_coin(rng: &mut ThreadRng) -> bool {
    rng.gen::<bool>()
}

/// `10^d`.
pub open spec fn pow10(d: nat) -> nat
    decreases d,
{
    if d == 0 {
        1
    } else {
        10 * pow10((d - 1) as nat)
    }
}

/// Smallest magnitude with `d` digits and no leading zero.
pub open spec fn min_magnitude(d: nat) -> nat {
    if d <= 1 {
        1
    } else {
        pow10((d - 1) as nat)
    }
}

/// Largest magnitude with `d` digits.
pub open spec fn max_magnitude(d: nat) -> nat {
    if d <= 1 {
        9
    } else {
        (pow10(d) - 1) as nat
    }
}

/// `m` is written with exactly `d` digits and no leading zero (and is never 0).
pub open spec fn magnitude_ok(d: nat, m: int) -> bool {
    min_magnitude(d) <= m <= max_magnitude(d)
}

pub open spec fn abs(v: int) -> int {
    if v < 0 {
        -v
    } else {
        v
    }
}

/// A value that the generator may produce for `digits` digits.
pub open spec fn value_ok(digits: nat, v: int) -> bool {
    magnitude_ok(digits, abs(v))
}

/// Whether a value may be negative at position `index` of a session.
pub open spec fn negative_allowed(allow_negative_numbers: bool, index: int) -> bool {
    allow_negative_numbers && index > 0
}

/// What holds of every value that the generator produces: the digit count,
/// a sign allowed at this position, and a running sum that stays at or above
/// zero.
pub open spec fn value_fits(
    digits: nat,
    allow_negative_numbers: bool,
    index: int,
    running_sum: int,
    v: int,
) -> bool {
    &&& value_ok(digits, v)
    &&& v < 0 ==> negative_allowed(allow_negative_numbers, index) && running_sum + v >= 0
}

pub proof fn lemma_pow10_bounds(d: nat)
    ensures
        pow10(d) >= 1,
        d >= 1 ==> pow10(d) >= 10,
    decreases d,
{
    if d > 0 {
        lemma_pow10_bounds((d - 1) as nat);
    }
}

pub proof fn lemma_pow10_monotonic(a: nat, b: nat)
    requires
        a <= b,
    ensures
        pow10(a) <= pow10(b),
    decreases b,
{
    if a < b {
        lemma_pow10_monotonic(a, (b - 1) as nat);
        lemma_pow10_bounds((b - 1) as nat);
    }
}

/// Magnitudes with up to 18 digits stay below `10^18`.
pub proof fn lemma_magnitude_below_1e18(d: nat, m: int)
    requires
        1 <= d <= 18,
        magnitude_ok(d, m),
    ensures
        1 <= m < 1_000_000_000_000_000_000,
{
    lemma_pow10_monotonic(d, 18);
    lemma_pow10_bounds(d);
    reveal_with_fuel(pow10, 19);
    assert(pow10(18) == 1_000_000_000_000_000_000);
}

/// `10^d` computed in `u64`.
fn pow10_u64(d: u32) -> (r: u64)
    requires
        d <= 19,
    ensures
        r == pow10(d as nat),
{
    let mut r: u64 = 1;
    let mut i: u32 = 0;
    while i < d
        invariant
            i <= d <= 19,
            r == pow10(i as nat),
        decreases d - i,
    {
        proof {
            lemma_pow10_monotonic((i + 1) as nat, 19);
            reveal_with_fuel(pow10, 20);
            assert(pow10(19) == 10_000_000_000_000_000_000);
        }
        r = r * 10;
        i = i + 1;
    }
    r
}

/// The half-open range `[lo, hi)` of magnitudes with `digits` digits.
pub fn magnitude_range(digits: u32) -> (r: (u64, u64))
    requires
        1 <= digits <= crate::config::MAX_DIGITS,
    ensures
        r.0 == min_magnitude(digits as nat),
        r.1 == max_magnitude(digits as nat) + 1,
{
    proof {
        lemma_pow10_bounds(digits as nat);
    }
    if digits <= 1 {
        (1, 10)
    } else {
        (pow10_u64(digits - 1), pow10_u64(digits))
    }
}

/// A magnitude of exactly `digits` digits, drawn uniformly.
pub fn random_fixed_digits_no_leading_zero(rng: &mut ThreadRng, digits: u32) -> (r: u64)
    requires
        1 <= digits <= crate::config::MAX_DIGITS,
    ensures
        magnitude_ok(digits as nat, r as int),
{
    let (lo, hi) = magnitude_range(digits);
    proof {
        lemma_pow10_monotonic((digits - 1) as nat, digits as nat);
        lemma_pow10_bounds(digits as nat);
        if digits > 1 {
            assert(pow10(digits as nat) == 10 * pow10((digits - 1) as nat));
        }
    }
    gen_range_u64(rng, lo, hi)
}

/// A magnitude of exactly `digits` digits and at most `max_inclusive`, drawn
/// uniformly; none when no such magnitude exists.
pub fn random_fixed_digits_no_leading_zero_capped(
    rng: &mut ThreadRng,
    digits: u32,
    max_inclusive: u64,
) -> (r: Option<u64>)
    requires
        1 <= digits <= crate::config::MAX_DIGITS,
    ensures
        r is None <==> max_inclusive < min_magnitude(digits as nat),
        r matches Some(m) ==> magnitude_ok(digits as nat, m as int) && m <= max_inclusive,
{
    let (lo, hi) = magnitude_range(digits);
    if max_inclusive < lo {
        return None;
    }
    let cap_exclusive = if max_inclusive < hi {
        max_inclusive + 1
    } else {
        hi
    };
    Some(gen_range_u64(rng, lo, cap_exclusive))
}

/// The largest magnitude that a negative value may have: the running sum,
/// capped at the largest magnitude of `digits` digits; zero when the sum is
/// not positive.
pub open spec fn negative_cap(digits: nat, running_sum: int) -> int {
    if running_sum <= 0 {
        0
    } else if running_sum < max_magnitude(digits) {
        running_sum
    } else {
        max_magnitude(digits) as int
    }
}

/// Whether a coin is flipped to try a negative value: negatives are allowed at
/// this position and the running sum leaves room for one.
pub open spec fn may_try_negative(
    digits: nat,
    allow_negative_numbers: bool,
    index: int,
    running_sum: int,
) -> bool {
    negative_allowed(allow_negative_numbers, index) && negative_cap(digits, running_sum) > 0
}

/// What the random draws for one value may be: `positive` a magnitude of
/// `digits` digits, and `negative` a magnitude of `digits` digits within the
/// negative cap, none exactly when no such magnitude exists.
pub open spec fn draws_fit(
    digits: nat,
    running_sum: int,
    negative: Option<u64>,
    positive: u64,
) -> bool {
    &&& magnitude_ok(digits, positive as int)
    &&& match negative {
        Some(m) => magnitude_ok(digits, m as int) && m <= negative_cap(digits, running_sum),
        None => negative_cap(digits, running_sum) < min_magnitude(digits),
    }
}

/// The value that the draws give: the negated `negative` magnitude when a
/// coin may be flipped, it came up for a negative value and a negative
/// magnitude fits; else the `positive` magnitude.
pub open spec fn value_of_draws(
    digits: nat,
    allow_negative_numbers: bool,
    index: int,
    running_sum: int,
    coin: bool,
    negative: Option<u64>,
    positive: u64,
) -> int {
    if may_try_negative(digits, allow_negative_numbers, index, running_sum) && coin
        && negative is Some {
        -(negative->0 as int)
    } else {
        positive as int
    }
}

/// The value for position `index` from the draws made for it: the coin, the
/// capped negative magnitude and the positive magnitude.
pub fn value_from_draws(
    digits: u32,
    allow_negative_numbers: bool,
    index: u32,
    running_sum: i128,
    coin: bool,
    negative: Option<u64>,
    positive: u64,
) -> (r: i64)
    requires
        1 <= digits <= crate::config::MAX_DIGITS,
        draws_fit(digits as nat, running_sum as int, negative, positive),
    ensures
        r == value_of_draws(
            digits as nat,
            allow_negative_numbers,
            index as int,
            running_sum as int,
            coin,
            negative,
            positive,
        ),
        value_fits(
            digits as nat,
            allow_negative_numbers,
            index as int,
            running_sum as int,
            r as int,
        ),
{
    let cap = negative_cap_of(digits, running_sum);
    proof {
        lemma_magnitude_below_1e18(digits as nat, positive as int);
    }
    if allow_negative_numbers && index > 0 && cap > 0 && coin {
        match negative {
            Some(m) => {
                proof {
                    lemma_magnitude_below_1e18(digits as nat, m as int);
                }
                return -(m as i64);
            },
            None => {},
        }
    }
    positive as i64
}

/// The negative cap, computed.
fn negative_cap_of(digits: u32, running_sum: i128) -> (r: u64)
    requires
        1 <= digits <= crate::config::MAX_DIGITS,
    ensures
        r == negative_cap(digits as nat, running_sum as int),
{
    let (_lo, hi) = magnitude_range(digits);
    let max_for_digits: u64 = hi - 1;
    if running_sum <= 0 {
        0
    } else if running_sum < max_for_digits as i128 {
        running_sum as u64
    } else {
        max_for_digits
    }
}

/// One value for position `index` of a session whose running sum is
/// `running_sum`. Where negatives are allowed and the sum leaves room for one,
/// a fair coin decides whether a negative value is tried; otherwise, or when no
/// negative magnitude fits, the value is positive. The value is what
/// `value_from_draws` makes of some fitting draws.
pub fn random_number_with_constraints(
    rng: &mut ThreadRng,
    digits: u32,
    allow_negative_numbers: bool,
    index: u32,
    running_sum: i128,
) -> (r: i64)
    requires
        1 <= digits <= crate::config::MAX_DIGITS,
    ensures
        value_fits(
            digits as nat,
            allow_negative_numbers,
            index as int,
            running_sum as int,
            r as int,
        ),
        r < 0 ==> -r <= negative_cap(digits as nat, running_sum as int),
        exists|coin: bool, negative: Option<u64>, positive: u64|
            draws_fit(digits as nat, running_sum as int, negative, positive) && r
                == #[trigger] value_of_draws(
                digits as nat,
                allow_negative_numbers,
                index as int,
                running_sum as int,
                coin,
                negative,
                positive,
            ),
{
    let (lo, _hi) = magnitude_range(digits);
    let cap = negative_cap_of(digits, running_sum);
    let may_try = allow_negative_numbers && index > 0 && cap > 0;
    let coin = if may_try {
        gen_coin(rng)
    } else {
        false
    };
    // A negative magnitude that fits, for when none is drawn.
    let unused_negative: Option<u64> = if cap >= lo {
        Some(lo)
    } else {
        None
    };
    let ghost mut negative: Option<u64> = unused_negative;
    let ghost mut positive: u64 = lo;
    proof {
        lemma_pow10_bounds(digits as nat);
        lemma_pow10_monotonic((digits - 1) as nat, digits as nat);
    }
    if coin {
        let drawn = random_fixed_digits_no_leading_zero_capped(rng, digits, cap);
        proof {
            negative = drawn;
        }
        match drawn {
            Some(m) => {
                let v = value_from_draws(
                    digits,
                    allow_negative_numbers,
                    index,
                    running_sum,
                    coin,
                    drawn,
                    lo,
                );
                assert(r_witness(v, digits, allow_negative_numbers, index, running_sum, coin, negative, positive));
                return v;
            },
            None => {},
        }
    }
    let m = random_fixed_digits_no_leading_zero(rng, digits);
    proof {
        positive = m;
    }
    let v = value_from_draws(
        digits,
        allow_negative_numbers,
        index,
        running_sum,
        coin,
        unused_negative,
        m,
    );
    assert(r_witness(v, digits, allow_negative_numbers, index, running_sum, coin, negative, positive));
    v
}

/// `v` is what the given draws make, and the draws fit.
spec fn r_witness(
    v: i64,
    digits: u32,
    allow_negative_numbers: bool,
    index: u32,
    running_sum: i128,
    coin: bool,
    negative: Option<u64>,
    positive: u64,
) -> bool {
    draws_fit(digits as nat, running_sum as int, negative, positive) && v == value_of_draws(
        digits as nat,
        allow_negative_numbers,
        index as int,
        running_sum as int,
        coin,
        negative,
        positive,
    )
}

/// Whether drawing stops at `candidate`, the `attempt`-th draw (counting from
/// one): it differs from `last`, or no draw is left.
pub fn stops_at(candidate: i64, last: Option<i64>, attempt: u32) -> (r: bool)
    ensures
        r == (last != Some(candidate) || attempt >= MAX_DRAW_ATTEMPTS),
{
    let repeats = match last {
        Some(prev) => prev == candidate,
        None => false,
    };
    !repeats || attempt >= MAX_DRAW_ATTEMPTS
}

/// Draws values until one differs from `last`, at most `MAX_DRAW_ATTEMPTS`
/// times, and returns the value with every draw made. All draws before the
/// last one repeated `last`; the value repeats `last` only when all
/// `MAX_DRAW_ATTEMPTS` draws did.
pub fn next_distinct_value(
    rng: &mut ThreadRng,
    digits: u32,
    allow_negative_numbers: bool,
    index: u32,
    running_sum: i128,
    last: Option<i64>,
) -> (r: (i64, Vec<i64>))
    requires
        1 <= digits <= crate::config::MAX_DIGITS,
    ensures
        value_fits(
            digits as nat,
            allow_negative_numbers,
            index as int,
            running_sum as int,
            r.0 as int,
        ),
        1 <= r.1@.len() <= MAX_DRAW_ATTEMPTS,
        r.0 == r.1@.last(),
        forall|i: int| 0 <= i < r.1@.len() ==> value_fits(
            digits as nat,
            allow_negative_numbers,
            index as int,
            running_sum as int,
            #[trigger] r.1@[i] as int,
        ),
        forall|i: int| 0 <= i < r.1@.len() - 1 ==> last == Some(#[trigger] r.1@[i]),
        last == Some(r.0) ==> r.1@.len() == MAX_DRAW_ATTEMPTS,
{
    let mut draws: Vec<i64> = Vec::new();
    loop
        invariant
            draws@.len() < MAX_DRAW_ATTEMPTS,
            1 <= digits <= crate::config::MAX_DIGITS,
            forall|i: int| 0 <= i < draws@.len() ==> value_fits(
                digits as nat,
                allow_negative_numbers,
                index as int,
                running_sum as int,
                #[trigger] draws@[i] as int,
            ),
            forall|i: int| 0 <= i < draws@.len() ==> last == Some(#[trigger] draws@[i]),
        decreases MAX_DRAW_ATTEMPTS - draws@.len(),
    {
        let candidate = random_number_with_constraints(
            rng,
            digits,
            allow_negative_numbers,
            index,
            running_sum,
        );
        draws.push(candidate);
        if stops_at(candidate, last, draws.len() as u32) {
            return (candidate, draws);
        }
    }
}

} // verus!
