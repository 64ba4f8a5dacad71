//! Outcome model of one start/stop process invocation.
//!
//! The process itself is spawned outside the library (through a system
//! shell, in the configured working directory); the library decides which
//! command line and directory the action maps to, and classifies the raw
//! outcome. A nonzero exit is a normal result, not an error; only a
//! spawn-level failure is an error, and that distinction is the caller's
//! to make before constructing an `ExecutionResult`.
use crate::config::Config;
use vstd::prelude::*;

verus! {

/// The two privileged lifecycle actions.
#[derive(Clone, Copy, Debug, PartialEq, Eq, Structural)]
pub enum PowerAction {
    Start,
    Stop,
}

/// Outcome of one completed process invocation: `success` is exactly
/// "the process exited with code zero", with the captured output streams.
pub struct ExecutionResult {
    pub success: bool,
    pub stdout: String,
    pub stderr: String,
}

impl Config {
    /// The shell command line that `action` runs.
    pub fn command_for(&self, action: PowerAction) -> (r: &String)
        ensures
            action is Start ==> r@ == self.start_command@,
            action is Stop ==> r@ == self.stop_command@,
    {
        match action {
            PowerAction::Start => &self.start_command,
            PowerAction::Stop => &self.stop_command,
        }
    }
}

impl ExecutionResult {
    /// Classify a terminated process: success exactly on exit code zero.
    /// A `None` exit code (the process was killed before exiting) is not
    /// success.
    pub fn from_exit(exit_code: Option<i32>, stdout: String, stderr: String) -> (r:
        ExecutionResult)
        ensures
            r.success <==> exit_code == Some(0i32),
            r.stdout == stdout,
            r.stderr == stderr,
    {
        let success = match exit_code {
            Some(c) => c == 0,
            None => false,
        };
        ExecutionResult { success, stdout, stderr }
    }
}

} // verus!
