//! One-time passwords: the counter-based HOTP algorithm and its time-based
//! variant TOTP, with the validation of a guessed code against a number of
//! decimal digits.

pub mod counter;
pub mod digest;
pub mod digits;
pub mod error;
pub mod window;

pub use counter::{counter_bytes, hotp};
pub use digest::dynamic_truncate;
pub use digits::{check_code, guess_space_of, hotp_validate};
pub use error::OtpError;
pub use window::{time_counter, totp, totp_validate};
