//! Turning source text into tokens.

pub mod scanner;
pub mod token;
