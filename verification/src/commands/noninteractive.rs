//! Commands that run without a terminal of their own.
use crate::commands::{ChildOutputMode, CommandArguments, CommandView};
use crate::errors::{CommandError, HiveLibError, NetworkError};
use crate::hive::node::ssh_args;
use crate::text::{
    decimal, decimal_of, join, joined, lossy_text, replace_char, replaced, text_lossy, texts,
};
use std::collections::VecDeque;
use vstd::prelude::*;

verus! {

/// The command line that a shell is given: the command, asked to log in a way that can be read
/// where it is a command of nix, quoted for another shell, and run through the escalation
/// command where there is one.
pub open spec fn shell_command(command: CommandView) -> Seq<char> {
    let asked = command.command_string + match command.output_mode {
        ChildOutputMode::Generic | ChildOutputMode::Interactive => ""@,
        ChildOutputMode::Nix => " --log-format internal-json"@,
    };
    let quoted = "bash -c '"@ + replaced(asked, '\'', "'\''"@) + "'"@;
    match command.privilege_escalation_command {
        Some(escalation) => escalation + " "@ + quoted,
        None => quoted,
    }
}

/// A program and its arguments.
#[derive(Debug)]
pub struct Invocation {
    pub program: String,
    pub args: Vec<String>,
}

/// Writes the command line that a shell is given.
pub fn create_shell_command(arguments: &CommandArguments) -> (s: String)
    ensures
        s@ == shell_command(arguments@),
{
    let mut asked = arguments.command_string.clone();
    asked.push_str(
        match arguments.output_mode {
            ChildOutputMode::Generic | ChildOutputMode::Interactive => "",
            ChildOutputMode::Nix => " --log-format internal-json",
        },
    );
    let escaped = replace_char(asked.as_str(), '\'', "'\''");

    let mut quoted = "bash -c '".to_owned();
    quoted.push_str(escaped.as_str());
    quoted.push_str("'");

    match &arguments.privilege_escalation_command {
        Some(escalation) => {
            let mut s = escalation.clone();
            s.push_str(" ");
            s.push_str(quoted.as_str());
            s
        },
        None => quoted,
    }
}

/// The program and arguments that run a command: a shell of this machine, or ssh to the host of
/// the target that is to be tried next. There is none where the hosts of the target are used up.
pub fn create_invocation(arguments: &CommandArguments) -> (r: Result<Invocation, HiveLibError>)
    ensures
        match (arguments@.target, r) {
            (None, Ok(run)) => run.program@ == "bash"@ && texts(run.args@) == seq![
                "-c"@,
                shell_command(arguments@),
            ],
            (Some(target), Ok(run)) => target.current_host < target.hosts.len() && run.program@
                == "ssh"@ && texts(run.args@) == ssh_args(
                target.user,
                target.port,
                arguments@.modifiers,
                false,
            ) + seq![target.hosts[target.current_host as int], shell_command(arguments@)],
            (Some(target), Err(error)) => target.current_host >= target.hosts.len() && error
                == HiveLibError::NetworkError(NetworkError::HostsExhausted),
            (None, Err(_)) => false,
        },
{
    let shell = create_shell_command(arguments);
    match &arguments.target {
        Some(target) => {
            let mut args = match target.create_ssh_args(arguments.modifiers, false) {
                Ok(args) => args,
                Err(error) => {
                    return Err(error);
                },
            };
            let ghost before = texts(args@);
            let host = match target.get_preferred_host() {
                Ok(host) => host.clone(),
                Err(error) => {
                    return Err(error);
                },
            };
            args.push(host);
            args.push(shell);
            assert(texts(args@) =~= before + seq![host@, shell@]);
            Ok(Invocation { program: "ssh".to_owned(), args })
        },
        None => {
            let mut args: Vec<String> = Vec::new();
            args.push("-c".to_owned());
            args.push(shell);
            assert(texts(args@) =~= seq!["-c"@, shell@]);
            Ok(Invocation { program: "bash".to_owned(), args })
        },
    }
}

/// How many messages of a failed command are kept.
pub const KEPT_MESSAGES: usize = 20;

/// The newest message in front of those that are kept.
pub open spec fn kept_with(kept: Seq<Seq<char>>, message: Seq<char>) -> Seq<Seq<char>> {
    let all = seq![message] + kept;
    if all.len() > KEPT_MESSAGES {
        all.take(KEPT_MESSAGES as int)
    } else {
        all
    }
}

/// Collects a line of the standard output: every line is kept, the newest in front.
pub fn collect_stdout(collection: &mut VecDeque<String>, line: &[u8])
    ensures
        texts(final(collection)@) == seq![lossy_text(line@)] + texts(old(collection)@),
{
    collection.push_front(text_lossy(line));
    assert(texts(collection@) =~= seq![lossy_text(line@)] + texts(old(collection)@));
}

/// Collects an error message, where there is one: at most the newest twenty are kept.
pub fn collect_stderr(collection: &mut VecDeque<String>, message: Option<String>)
    ensures
        texts(final(collection)@) == match message {
            Some(message) => kept_with(texts(old(collection)@), message@),
            None => texts(old(collection)@),
        },
{
    if let Some(message) = message {
        collection.push_front(message);
        let ghost all = collection@;
        assert(texts(all) =~= seq![message@] + texts(old(collection)@));
        collection.truncate(KEPT_MESSAGES);
        assert(texts(collection@) =~= kept_with(texts(old(collection)@), message@));
    }
}

/// What was collected as one text, a line for each, in the order in which it came.
pub fn collected_text(collection: &VecDeque<String>) -> (s: String)
    ensures
        s@ == joined(texts(collection@).reverse(), "\n"@),
{
    let len: usize = collection.len();
    let mut lines: Vec<String> = Vec::new();
    for i in 0..len
        invariant
            len == collection@.len(),
            texts(lines@) == texts(collection@).reverse().take(i as int),
    {
        let ghost before = texts(lines@);
        lines.push(collection[len - 1 - i].clone());
        assert(texts(lines@) =~= before.push(collection@[len - 1 - i]@));
        assert(texts(collection@).reverse().take(i + 1) =~= before.push(collection@[len - 1 - i]@));
    }
    assert(texts(collection@).reverse().take(len as int) =~= texts(collection@).reverse());
    join(&lines, "\n")
}

/// A number in decimal, with its sign where it is negative.
pub open spec fn signed_decimal(n: int) -> Seq<char> {
    if n < 0 {
        "-"@ + decimal((-n) as nat)
    } else {
        decimal(n as nat)
    }
}

/// How the exit code of a command is named.
pub open spec fn code_text(code: Option<i32>) -> Seq<char> {
    match code {
        Some(code) => "code "@ + signed_decimal(code as int),
        None => "no exit code"@,
    }
}

fn code_of(code: Option<i32>) -> (s: String)
    ensures
        s@ == code_text(code),
{
    match code {
        Some(code) => {
            let mut s = "code ".to_owned();
            if code < 0 {
                let mut number = "-".to_owned();
                number.push_str(decimal_of((-(code as i64)) as u64).as_str());
                s.push_str(number.as_str());
            } else {
                s.push_str(decimal_of(code as u64).as_str());
            }
            s
        },
        None => "no exit code".to_owned(),
    }
}

/// What a command that ended comes to: its standard output where it succeeded, else an error
/// with the messages that were kept.
pub fn conclude(
    original_command: &str,
    succeeded: bool,
    code: Option<i32>,
    stdout_collection: &VecDeque<String>,
    error_collection: &VecDeque<String>,
) -> (r: Result<String, CommandError>)
    ensures
        match r {
            Ok(stdout) => succeeded && stdout@ == joined(
                texts(stdout_collection@).reverse(),
                "\n"@,
            ),
            Err(CommandError::CommandFailed { command_ran, logs, code: code_shown, reason }) => {
                &&& !succeeded
                &&& command_ran@ == original_command@
                &&& logs@ == joined(texts(error_collection@).reverse(), "\n"@)
                &&& code_shown@ == code_text(code)
                &&& reason@ == "known-status"@
            },
            Err(_) => false,
        },
{
    if !succeeded {
        return Err(
            CommandError::CommandFailed {
                command_ran: original_command.to_owned(),
                logs: collected_text(error_collection),
                code: code_of(code),
                reason: "known-status".to_owned(),
            },
        );
    }
    Ok(collected_text(stdout_collection))
}

/// What is kept of messages that came one after the other.
pub open spec fn kept_of(messages: Seq<Seq<char>>) -> Seq<Seq<char>>
    decreases messages.len(),
{
    if messages.len() == 0 {
        Seq::empty()
    } else {
        kept_with(kept_of(messages.drop_last()), messages.last())
    }
}

/// However many messages a command gives, an error shows the last twenty of them, in the order
/// in which they came.
pub proof fn the_last_messages_are_kept(messages: Seq<Seq<char>>)
    ensures
        kept_of(messages).reverse() == if messages.len() > KEPT_MESSAGES {
            messages.skip(messages.len() - KEPT_MESSAGES)
        } else {
            messages
        },
    decreases messages.len(),
{
    if messages.len() > 0 {
        the_last_messages_are_kept(messages.drop_last());
        let before = kept_of(messages.drop_last());
        let after = kept_of(messages);
        assert(before =~= before.reverse().reverse());
        assert(after =~= kept_with(before, messages.last()));
        assert(messages =~= messages.drop_last().push(messages.last()));
        let shown = if messages.len() > KEPT_MESSAGES {
            messages.skip(messages.len() - KEPT_MESSAGES)
        } else {
            messages
        };
        assert(after.len() == shown.len());
        assert forall|i: int| 0 <= i < shown.len() implies after.reverse()[i] == shown[i] by {
            if i < shown.len() - 1 {
                let j = after.len() - 1 - i;
                assert(after[j] == before[j - 1]);
                assert(before[j - 1] == before.reverse()[before.len() - j]);
            }
        }
        assert(after.reverse() =~= shown);
    } else {
        assert(kept_of(messages).reverse() =~= messages);
    }
}

} // verus!
