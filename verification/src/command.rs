//! Commands that the core asks its caller to run, and what the caller
//! reports back about them.

use vstd::prelude::*;

verus! {

/// How a command's streams are connected.
#[derive(Clone, Copy, Debug, PartialEq, Eq, Structural)]
pub enum ExecMode {
    /// The output is captured and handed back.
    Capture,
    /// The command inherits the caller's input and output.
    Inherit,
    /// The output is streamed to the caller's log.
    Streamed,
}

/// A command to run on the host.
#[derive(Clone, Debug, PartialEq, Eq)]
pub struct ExecCommand {
    pub command: String,
    pub args: Vec<String>,
    pub mode: ExecMode,
    /// Whether the file must be made executable before it is run.
    pub set_executable: bool,
}

/// The mathematical value of an [`ExecCommand`].
pub struct ExecCommandModel {
    pub command: Seq<char>,
    pub args: Seq<Seq<char>>,
    pub mode: ExecMode,
    pub set_executable: bool,
}

/// The texts that a sequence of strings holds.
pub open spec fn texts(strings: Seq<String>) -> Seq<Seq<char>> {
    strings.map_values(|s: String| s@)
}

impl View for ExecCommand {
    type V = ExecCommandModel;

    open spec fn view(&self) -> ExecCommandModel {
        ExecCommandModel {
            command: self.command@,
            args: texts(self.args@),
            mode: self.mode,
            set_executable: self.set_executable,
        }
    }
}

/// What became of a command.
#[derive(Clone, Debug, PartialEq, Eq)]
pub enum ExecResult {
    /// The command ran and ended with this exit code and captured output.
    Exited { exit_code: i32, stdout: String },
    /// The command could not be run.
    Failed,
}

/// The command ran and ended with exit code zero.
pub open spec fn succeeded(result: ExecResult) -> bool {
    result matches ExecResult::Exited { exit_code, .. } && exit_code == 0
}

impl ExecResult {
    /// Whether the command ran and ended with exit code zero.
    pub fn is_success(&self) -> (ok: bool)
        ensures
            ok == succeeded(*self),
    {
        match self {
            ExecResult::Exited { exit_code, .. } => *exit_code == 0,
            ExecResult::Failed => false,
        }
    }
}

} // verus!
