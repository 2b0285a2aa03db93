//! Commands: how they are written, where they run, and what their output means.
pub mod builder;
pub mod common;
pub mod logs;
pub mod noninteractive;

use crate::hive::node::{Target, TargetView};
use crate::modifiers::SubCommandModifiers;
use crate::text::{join, joined, texts};
use vstd::prelude::*;

verus! {

/// How the output of a command is read.
#[derive(Clone, Copy, Debug, PartialEq, Eq, Structural)]
pub enum ChildOutputMode {
    Nix,
    Generic,
    Interactive,
}

/// One of two things.
#[derive(Debug)]
pub enum Either<L, R> {
    Left(L),
    Right(R),
}

/// A command and how to run it.
#[derive(Debug)]
pub struct CommandArguments {
    pub modifiers: SubCommandModifiers,
    pub target: Option<Target>,
    pub output_mode: ChildOutputMode,
    pub command_string: String,
    pub keep_stdin_open: bool,
    pub privilege_escalation_command: Option<String>,
    pub log_stdout: bool,
}

/// What a command holds.
#[verifier::ext_equal]
pub ghost struct CommandView {
    pub modifiers: SubCommandModifiers,
    pub target: Option<TargetView>,
    pub output_mode: ChildOutputMode,
    pub command_string: Seq<char>,
    pub keep_stdin_open: bool,
    pub privilege_escalation_command: Option<Seq<char>>,
    pub log_stdout: bool,
}

impl View for CommandArguments {
    type V = CommandView;

    open spec fn view(&self) -> CommandView {
        CommandView {
            modifiers: self.modifiers,
            target: match self.target {
                Some(target) => Some(target@),
                None => None,
            },
            output_mode: self.output_mode,
            command_string: self.command_string@,
            keep_stdin_open: self.keep_stdin_open,
            privilege_escalation_command: match self.privilege_escalation_command {
                Some(command) => Some(command@),
                None => None,
            },
            log_stdout: self.log_stdout,
        }
    }
}

impl CommandView {
    /// A command that runs here, without privileges, its output read line by line.
    pub open spec fn plain(
        command_string: Seq<char>,
        modifiers: SubCommandModifiers,
    ) -> CommandView {
        CommandView {
            modifiers,
            target: None,
            output_mode: ChildOutputMode::Generic,
            command_string,
            keep_stdin_open: false,
            privilege_escalation_command: None,
            log_stdout: false,
        }
    }
}

impl CommandArguments {
    /// A command that runs here, without privileges, its output read line by line.
    pub fn new(command_string: &str, modifiers: SubCommandModifiers) -> (r: Self)
        ensures
            r@ == CommandView::plain(command_string@, modifiers),
    {
        CommandArguments {
            command_string: command_string.to_owned(),
            keep_stdin_open: false,
            privilege_escalation_command: None,
            log_stdout: false,
            target: None,
            output_mode: ChildOutputMode::Generic,
            modifiers,
        }
    }

    /// Runs the command on the target, where there is one.
    pub fn execute_on_remote(self, target: Option<Target>) -> (r: Self)
        ensures
            r@ == (CommandView {
                target: match target {
                    Some(target) => Some(target@),
                    None => None,
                },
                ..self@
            }),
    {
        CommandArguments { target, ..self }
    }

    /// Reads the output in another way.
    pub fn mode(self, mode: ChildOutputMode) -> (r: Self)
        ensures
            r@ == (CommandView { output_mode: mode, ..self@ }),
    {
        CommandArguments { output_mode: mode, ..self }
    }

    /// Keeps the standard input of the command open.
    pub fn keep_stdin_open(self) -> (r: Self)
        ensures
            r@ == (CommandView { keep_stdin_open: true, ..self@ }),
    {
        CommandArguments { keep_stdin_open: true, ..self }
    }

    /// Runs the command through the escalation command.
    pub fn privileged(self, escalation_command: &Vec<String>) -> (r: Self)
        ensures
            r@ == (CommandView {
                privilege_escalation_command: Some(joined(texts(escalation_command@), " "@)),
                ..self@
            }),
    {
        CommandArguments {
            privilege_escalation_command: Some(join(escalation_command, " ")),
            ..self
        }
    }

    /// Whether the command runs through an escalation command.
    pub fn is_elevated(&self) -> (r: bool)
        ensures
            r == (self@.privilege_escalation_command is Some),
    {
        self.privilege_escalation_command.is_some()
    }

    /// Logs the standard output of the command too.
    pub fn log_stdout(self) -> (r: Self)
        ensures
            r@ == (CommandView { log_stdout: true, ..self@ }),
    {
        CommandArguments { log_stdout: true, ..self }
    }

    /// Whether the command runs without a terminal of its own: when that is forced, or when there
    /// is no reason for interactivity, local and unprivileged.
    pub fn runs_non_interactively(&self) -> (r: bool)
        ensures
            r == (self@.modifiers.non_interactive || self@.target is None
                && self@.privilege_escalation_command is None),
    {
        self.modifiers.non_interactive || (self.target.is_none() && !self.is_elevated())
    }
}

} // verus!
