//! Decision logic of a sandboxed code-execution engine: the syscall policy,
//! the launch plan of the confined process, the supervisor's polling
//! protocol and the judge that classifies a finished run.
//!
//! Nothing here touches the operating system. The caller performs each
//! action that the library decides on and reports back what came of it.

pub mod command;
pub mod exit_code;
pub mod executor;
pub mod judge;
pub mod launcher;
pub mod process;
pub mod seccomp;
