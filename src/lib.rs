//! Typed access to the memory of another process: a handle that is acquired
//! once, used for reads and writes of raw bytes, and released exactly once,
//! together with the command-line decisions around it.

pub mod args;
pub mod process;
pub mod value;
