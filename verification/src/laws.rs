//! What holds of the detector on every input and over every history.
//!
//! The laws are stated over the mathematical values that the contracts of
//! the executable functions speak of, so each of them holds of the code that
//! runs.

pub mod accounting;
pub mod encoding;
pub mod independence;
pub mod timing;
pub mod wellformed;
