use vstd::prelude::*;
use vstd::utf8::{decode_utf8, valid_utf8};
use crate::error::AtiumError;
use crate::text::utf8_text;

verus! {

/// How a probe of a tool went.
#[derive(Debug, Clone, Copy, PartialEq, Eq, Structural)]
pub enum ProbeOutcome {
    /// The executable could not be launched.
    NotLaunched,
    /// The tool ran and exited, successfully or not.
    Exited { success: bool },
}

/// What one run of a tool produced: its exit status and both streams as raw
/// bytes.
pub struct ExecutionResult {
    pub success: bool,
    pub stdout: Vec<u8>,
    pub stderr: Vec<u8>,
}

/// How an attempt to run a tool went.
pub enum RunOutcome {
    /// The process could not be spawned.
    SpawnFailed,
    /// The process ran to its end.
    Finished(ExecutionResult),
}

/// Work that a step machine asks its caller to do. Each action but `Stop`
/// is answered with one event.
pub enum Action {
    /// Run `program` with `args` and wait for it; answered by `Ran`.
    Run { program: String, args: Vec<String> },
    /// Tell whether a file is at `path`; answered by `PathChecked`.
    CheckPath { path: String },
    /// Copy the file at `from` to `to`; answered by `Copied`.
    Copy { from: String, to: String },
    /// Delete the file at `path`; answered by `Removed`.
    Remove { path: String },
    /// Write `bytes` to a file at `path`; answered by `Written`.
    Write { path: String, bytes: Vec<u8> },
    /// Send `bytes` to standard output; answered by `Done`.
    Print { bytes: Vec<u8> },
    /// Send `bytes` to the log; answered by `Done`.
    Log { bytes: Vec<u8> },
    /// Nothing more to do: the machine has finished, or the event did not
    /// answer what it asked for.
    Stop,
}

/// The answer to an action.
pub enum Event {
    Ran(RunOutcome),
    PathChecked { exists: bool },
    Copied { ok: bool },
    Removed { ok: bool },
    Written { ok: bool },
    Done,
}

/// The characters of each text.
pub open spec fn texts(v: Seq<String>) -> Seq<Seq<char>> {
    v.map_values(|s: String| s@)
}

/// `a` asks to run `program` with `args`.
pub open spec fn is_run(a: Action, program: Seq<char>, args: Seq<Seq<char>>) -> bool {
    match a {
        Action::Run { program: p, args: xs } => p@ == program && texts(xs@) == args,
        _ => false,
    }
}

/// A validated external tool: its command, kept once a probe of it succeeded.
pub struct CommandManager {
    command: String,
}

impl CommandManager {
    /// The command that runs the tool.
    pub closed spec fn program(&self) -> Seq<char> {
        self.command@
    }

    /// Keeps `command` as a tool handle when its probe succeeded: a tool that
    /// could not be launched is unavailable, one that exited with a failure
    /// fails the probe.
    pub fn new(command: String, probe: ProbeOutcome) -> (r: Result<CommandManager, AtiumError>)
        ensures
            match probe {
                ProbeOutcome::NotLaunched => r == Err::<CommandManager, AtiumError>(
                    AtiumError::UnavailableTool,
                ),
                ProbeOutcome::Exited { success } => if success {
                    r is Ok && r->Ok_0.program() == command@
                } else {
                    r == Err::<CommandManager, AtiumError>(AtiumError::ProbeFailed)
                },
            },
    {
        match probe {
            ProbeOutcome::NotLaunched => Err(AtiumError::UnavailableTool),
            ProbeOutcome::Exited { success } => {
                if success {
                    Ok(CommandManager { command })
                } else {
                    Err(AtiumError::ProbeFailed)
                }
            },
        }
    }

    /// The command that runs the tool.
    pub fn command(&self) -> (r: String)
        ensures
            r@ == self.program(),
    {
        self.command.clone()
    }

    /// The same handle once more.
    pub fn duplicate(&self) -> (r: CommandManager)
        ensures
            r.program() == self.program(),
    {
        CommandManager { command: self.command.clone() }
    }

    /// The action that runs the tool with `args`.
    pub fn execute_with_args(&self, args: Vec<String>) -> (r: Action)
        ensures
            is_run(r, self.program(), texts(args@)),
    {
        Action::Run { program: self.command.clone(), args }
    }

    /// A tool's output as text; output that is not UTF-8 fails.
    pub fn get_command_output_as_string(&self, output: Vec<u8>) -> (r: Result<String, AtiumError>)
        ensures
            valid_utf8(output@) ==> r is Ok && r->Ok_0@ == decode_utf8(output@),
            !valid_utf8(output@) ==> r == Err::<String, AtiumError>(AtiumError::IOError),
    {
        match utf8_text(output) {
            Some(s) => Ok(s),
            None => Err(AtiumError::IOError),
        }
    }
}

} // verus!
