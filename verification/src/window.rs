//! Time-based codes: the counter is the index of the time window that a
//! point in time falls into.

use vstd::prelude::*;
use time::{Duration, Timespec};
use crate::counter::{hotp, hotp_code};
use crate::digits::{check_code, validation, MAX_DIGITS};
use crate::error::OtpError;

verus! {

/// `time::Timespec`, a point in time. It is carried through as it is; what
/// it holds is known only through `timespec_seconds`.
#[verifier::external_type_specification]
#[verifier::external_body]
pub struct ExTimespec(time::Timespec);

/// `time::Duration`, a span of time. It is carried through as it is; what it
/// holds is known only through `duration_seconds`.
#[verifier::external_type_specification]
#[verifier::external_body]
pub struct ExDuration(time::Duration);

/// The seconds of a point in time: what its field `sec` holds. The
/// nanoseconds beside them play no part.
pub uninterp spec fn timespec_seconds(time: Timespec) -> i64;

/// The number of whole seconds in a duration, a fraction of a second left out
/// towards zero.
pub uninterp spec fn duration_seconds(window: Duration) -> i64;

/// Reads the field `sec` of a `time::Timespec`. Nothing is proved of it: the
/// contract gives what is read the name `timespec_seconds`.
#[verifier::external_body]
fn seconds_of(time: &Timespec) -> (seconds: i64)
    ensures
        seconds == timespec_seconds(*time),
{
    time.sec
}

/// Calls `time::Duration::num_seconds`. Nothing is proved of it: the contract
/// gives the count that it returns the name `duration_seconds`, as a function
/// of the duration and of nothing else.
#[verifier::external_body]
fn whole_seconds(window: &Duration) -> (seconds: i64)
    ensures
        seconds == duration_seconds(*window),
{
    window.num_seconds()
}

/// The absolute value of a number.
pub open spec fn magnitude(x: int) -> int {
    if x < 0 {
        -x
    } else {
        x
    }
}

/// The index of the window that `seconds` falls into, for windows of
/// `window_seconds`: the quotient of their absolute values, rounded down.
pub open spec fn window_index(seconds: i64, window_seconds: i64) -> int {
    magnitude(seconds as int) / magnitude(window_seconds as int)
}

/// The code of a secret at a point in time.
pub open spec fn totp_code(secret: Seq<u8>, seconds: i64, window_seconds: i64) -> int {
    hotp_code(secret, window_index(seconds, window_seconds) as u64)
}

/// What the validation of a guess at a point in time answers. An empty
/// window is refused before the digit count is looked at.
pub open spec fn totp_validation(
    secret: Seq<u8>,
    seconds: i64,
    window_seconds: i64,
    guess: u32,
    digits: u32,
) -> Result<bool, OtpError> {
    if window_seconds == 0 {
        Err(OtpError::InvalidWindow)
    } else {
        validation(totp_code(secret, seconds, window_seconds), guess, digits)
    }
}

/// A window index fits in 64 bits.
pub proof fn lemma_window_index_range(seconds: i64, window_seconds: i64)
    requires
        window_seconds != 0,
    ensures
        0 <= window_index(seconds, window_seconds) <= magnitude(seconds as int)
            <= 0x8000_0000_0000_0000,
{
    let s = magnitude(seconds as int);
    let w = magnitude(window_seconds as int);
    assert(0 <= s / w <= s) by (nonlinear_arith)
        requires
            0 <= s,
            1 <= w,
    ;
}

/// At the start of the window with index `counter`, the time-based code is
/// the counter-based code of `counter`.
pub proof fn lemma_window_start(secret: Seq<u8>, counter: u64, window_seconds: i64)
    requires
        window_seconds != 0,
        counter * magnitude(window_seconds as int) <= i64::MAX,
    ensures
        window_index((counter * magnitude(window_seconds as int)) as i64, window_seconds)
            == counter,
        totp_code(secret, (counter * magnitude(window_seconds as int)) as i64, window_seconds)
            == hotp_code(secret, counter),
{
    let w = magnitude(window_seconds as int);
    let c = counter as int;
    assert(0 <= c * w && (c * w) / w == c) by (nonlinear_arith)
        requires
            0 <= c,
            1 <= w,
    ;
}

/// One window later, the window index is one more.
pub proof fn lemma_next_window(seconds: i64, window_seconds: i64)
    requires
        window_seconds != 0,
        0 <= seconds,
        seconds + magnitude(window_seconds as int) <= i64::MAX,
    ensures
        window_index((seconds + magnitude(window_seconds as int)) as i64, window_seconds)
            == window_index(seconds, window_seconds) + 1,
{
    let w = magnitude(window_seconds as int);
    let s = seconds as int;
    assert((s + w) / w == s / w + 1) by (nonlinear_arith)
        requires
            0 <= s,
            1 <= w,
    ;
}

fn magnitude_of(x: i64) -> (m: u64)
    ensures
        m == magnitude(x as int),
{
    if x >= 0 {
        x as u64
    } else {
        (-(x + 1)) as u64 + 1
    }
}

/// The counter of the window that `seconds` falls into.
pub fn time_counter(seconds: i64, window_seconds: i64) -> (counter: Result<u64, OtpError>)
    ensures
        window_seconds == 0 ==> counter == Err::<u64, OtpError>(OtpError::InvalidWindow),
        window_seconds != 0 ==> counter == Ok::<u64, OtpError>(
            window_index(seconds, window_seconds) as u64,
        ) && 0 <= window_index(seconds, window_seconds) <= u64::MAX,
{
    if window_seconds == 0 {
        return Err(OtpError::InvalidWindow);
    }
    proof {
        lemma_window_index_range(seconds, window_seconds);
    }
    Ok(magnitude_of(seconds) / magnitude_of(window_seconds))
}

/// Derives the code of `secret` at the point in time `time`, for windows of
/// the length `window`. A window of less than one whole second is refused.
pub fn totp(secret: &[u8], time: Timespec, window: Duration) -> (code: Result<u32, OtpError>)
    ensures
        duration_seconds(window) == 0 ==> code == Err::<u32, OtpError>(OtpError::InvalidWindow),
        duration_seconds(window) != 0 ==> code is Ok && code->Ok_0 == totp_code(
            secret@,
            timespec_seconds(time),
            duration_seconds(window),
        ) && code->Ok_0 < 0x8000_0000,
{
    match time_counter(seconds_of(&time), whole_seconds(&window)) {
        Ok(counter) => Ok(hotp(secret, counter)),
        Err(refusal) => Err(refusal),
    }
}

/// Validates `guess` against the code of `secret` at the point in time
/// `time`, reduced to its low `digits` decimal digits.
pub fn totp_validate(
    secret: &[u8],
    time: Timespec,
    window: Duration,
    guess: u32,
    digits: u32,
) -> (verdict: Result<bool, OtpError>)
    ensures
        verdict == totp_validation(
            secret@,
            timespec_seconds(time),
            duration_seconds(window),
            guess,
            digits,
        ),
        verdict is Ok <==> duration_seconds(window) != 0 && digits <= MAX_DIGITS,
{
    match totp(secret, time, window) {
        Ok(code) => check_code(code, guess, digits),
        Err(refusal) => Err(refusal),
    }
}

} // verus!
