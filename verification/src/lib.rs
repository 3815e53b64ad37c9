//! Core of a desktop LaTeX editor backend: planning an external compiler
//! invocation, combining its captured output into one log, extracting
//! structured error records from that log, and assembling the compile
//! result handed back to the front end.

pub mod text;
pub mod diagnostics;
pub mod compiler;
pub mod config;
pub mod theme;
pub mod fonts;
