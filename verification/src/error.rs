//! The failures of password generation.

use vstd::prelude::*;

verus! {

/// What is reported when a password of length zero is asked for.
pub const ZERO_LENGTH_MESSAGE: &'static str = "Password length must be greater than 0";

/// What is reported when every character class is switched off.
pub const EMPTY_CHARSET_MESSAGE: &'static str = "No character set selected for password generation";

/// Why a generator could not be built or a password could not be produced.
#[derive(Debug, Clone, Copy, PartialEq, Eq, Structural)]
pub enum PasswordError {
    /// A password of length zero was requested.
    ZeroLength,
    /// Every character class is disabled, so there is nothing to draw from.
    EmptyCharset,
}

impl PasswordError {
    /// The text that describes this failure.
    pub open spec fn description(self) -> Seq<char> {
        match self {
            PasswordError::ZeroLength => ZERO_LENGTH_MESSAGE@,
            PasswordError::EmptyCharset => EMPTY_CHARSET_MESSAGE@,
        }
    }

    /// A sentence for the user that says what went wrong.
    pub fn message(&self) -> (message: String)
        ensures
            message@ == self.description(),
    {
        match self {
            PasswordError::ZeroLength => ZERO_LENGTH_MESSAGE.to_owned(),
            PasswordError::EmptyCharset => EMPTY_CHARSET_MESSAGE.to_owned(),
        }
    }
}

} // verus!
