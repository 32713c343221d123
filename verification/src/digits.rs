//! Validation: a guess against the low decimal digits of a code.

use vstd::prelude::*;
use vstd::arithmetic::power::{pow, lemma_pow0, lemma_pow1, lemma_pow_adds, lemma_pow_increases};
use crate::counter::{hotp, hotp_code};
use crate::error::OtpError;

verus! {

/// The largest digit count whose power of ten fits in 32 bits.
pub const MAX_DIGITS: u32 = 9;

/// The number of values that `digits` decimal digits can show.
pub open spec fn guess_space(digits: u32) -> int {
    pow(10, digits as nat)
}

/// What the validation of `guess` against `code` answers: whether the guess is
/// the code reduced to its low `digits` decimal digits, or that the digit
/// count is refused because its guess space does not fit in 32 bits.
pub open spec fn validation(code: int, guess: u32, digits: u32) -> Result<bool, OtpError> {
    if guess_space(digits) <= u32::MAX {
        Ok(guess == code % guess_space(digits))
    } else {
        Err(OtpError::InvalidDigitCount)
    }
}

proof fn lemma_guess_space_step(digits: u32)
    requires
        digits < u32::MAX,
    ensures
        guess_space((digits + 1) as u32) == 10 * guess_space(digits),
{
    lemma_pow_adds(10, digits as nat, 1);
    lemma_pow1(10);
    assert(pow(10, digits as nat) * 10 == 10 * pow(10, digits as nat)) by (nonlinear_arith);
}

/// The guess spaces that fit in 32 bits, one for each digit count up to nine.
pub proof fn lemma_guess_space_values()
    ensures
        guess_space(0) == 1,
        guess_space(1) == 10,
        guess_space(2) == 100,
        guess_space(3) == 1_000,
        guess_space(4) == 10_000,
        guess_space(5) == 100_000,
        guess_space(6) == 1_000_000,
        guess_space(7) == 10_000_000,
        guess_space(8) == 100_000_000,
        guess_space(9) == 1_000_000_000,
{
    lemma_pow0(10);
    lemma_guess_space_step(0);
    lemma_guess_space_step(1);
    lemma_guess_space_step(2);
    lemma_guess_space_step(3);
    lemma_guess_space_step(4);
    lemma_guess_space_step(5);
    lemma_guess_space_step(6);
    lemma_guess_space_step(7);
    lemma_guess_space_step(8);
}

/// The guess space fits in 32 bits for up to nine digits and for no more.
pub proof fn lemma_guess_space_fits(digits: u32)
    ensures
        guess_space(digits) <= u32::MAX <==> digits <= MAX_DIGITS,
        guess_space(digits) >= 1,
{
    lemma_guess_space_values();
    lemma_pow0(10);
    lemma_pow_increases(10, 0, digits as nat);
    if digits <= 9 {
        lemma_pow_increases(10, digits as nat, 9);
    } else {
        lemma_guess_space_step(9);
        lemma_pow_increases(10, 10, digits as nat);
    }
}

/// With no digit to compare, the only guess is zero, and it is always right.
pub proof fn lemma_zero_digits(code: int, guess: u32)
    ensures
        validation(code, guess, 0) == Ok::<bool, OtpError>(guess == 0),
{
    lemma_pow0(10);
}

/// The low digits of a code always validate against that code.
pub proof fn lemma_own_digits_validate(code: u32, digits: u32)
    requires
        digits <= MAX_DIGITS,
    ensures
        0 <= code as int % guess_space(digits) <= code,
        validation(code as int, (code as int % guess_space(digits)) as u32, digits) == Ok::<
            bool,
            OtpError,
        >(true),
{
    lemma_guess_space_fits(digits);
    let space = guess_space(digits);
    assert(0 <= code as int % space <= code) by (nonlinear_arith)
        requires
            space >= 1,
    ;
}

/// Ten to the power of `digits`, where that fits in 32 bits.
pub fn guess_space_of(digits: u32) -> (space: Result<u32, OtpError>)
    ensures
        guess_space(digits) <= u32::MAX ==> space == Ok::<u32, OtpError>(
            guess_space(digits) as u32,
        ),
        guess_space(digits) > u32::MAX ==> space == Err::<u32, OtpError>(
            OtpError::InvalidDigitCount,
        ),
        space is Ok <==> digits <= MAX_DIGITS,
{
    proof {
        lemma_guess_space_fits(digits);
        lemma_pow0(10);
    }
    if digits > MAX_DIGITS {
        return Err(OtpError::InvalidDigitCount);
    }
    let mut space: u32 = 1;
    let mut done: u32 = 0;
    while done < digits
        invariant
            done <= digits <= MAX_DIGITS,
            space == guess_space(done),
            guess_space(digits) <= u32::MAX,
        decreases digits - done,
    {
        proof {
            lemma_guess_space_step(done);
            lemma_pow_increases(10, (done + 1) as nat, digits as nat);
        }
        space = space * 10;
        done = done + 1;
    }
    Ok(space)
}

/// Compares `guess` with the low `digits` decimal digits of `code`.
pub fn check_code(code: u32, guess: u32, digits: u32) -> (verdict: Result<bool, OtpError>)
    ensures
        verdict == validation(code as int, guess, digits),
        verdict is Ok <==> digits <= MAX_DIGITS,
{
    proof {
        lemma_guess_space_fits(digits);
    }
    match guess_space_of(digits) {
        Ok(space) => Ok(guess == code % space),
        Err(refusal) => Err(refusal),
    }
}

/// Validates `guess` against the code of `secret` at `counter`, reduced to
/// its low `digits` decimal digits.
pub fn hotp_validate(secret: &[u8], counter: u64, guess: u32, digits: u32) -> (verdict: Result<
    bool,
    OtpError,
>)
    ensures
        verdict == validation(hotp_code(secret@, counter), guess, digits),
        verdict is Ok <==> digits <= MAX_DIGITS,
{
    check_code(hotp(secret, counter), guess, digits)
}

} // verus!
