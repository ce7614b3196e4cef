//! A verified core for a command-line client of the CodePTIT judge:
//! configuration, course selection, submission planning, question-code
//! detection, and the retry policy used while waiting for a verdict.

pub mod api;
pub mod cli;
pub mod config;
pub mod course;
pub mod login;
pub mod submit;
pub mod text;
pub mod util;
