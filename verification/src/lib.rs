//! A retry supervisor for an external mail-sending command.
//!
//! The library holds the decision logic of the wrapper: how the outcome of
//! one invocation of the external command is turned into the next step
//! (terminate, or ask the terminal), how a terminal answer is classified,
//! and the exact text of the retry prompt. The surrounding process work
//! (spawning the command, piping bytes, reading the terminal) lives outside
//! the library and feeds it plain values.

pub mod answer;
pub mod machine;
pub mod prompt;
