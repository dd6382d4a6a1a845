//! Random passwords drawn from a configurable union of character classes.
//!
//! A [`PasswordGenerator`] holds a length and one switch for each of four
//! classes: uppercase letters, lowercase letters, digits and symbols. Its
//! charset is the enabled classes joined in that order, and a password is
//! the charset read at positions drawn uniformly and independently.

pub mod charset;
pub mod error;
pub mod generator;
pub mod sampling;

pub use error::PasswordError;
pub use generator::{generate_password, PasswordGenerator};
