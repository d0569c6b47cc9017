//! A word-count library: counts lines, words, bytes and characters of a
//! text input, with the argument parsing and output formatting of a
//! classic word-count utility.

pub mod config;
pub mod count;
pub mod output;
pub(crate) mod text;
