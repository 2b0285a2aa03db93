//! How commands are run, and what is made of how they end.
use crate::commands::common::{
    conclude_evaluation, conclude_push, get_hive_node_names, push_command, show_node_names,
};
use crate::commands::logs::{
    is_traced, nix_mark, unparsed_line, LogLine, LogMessage, LogMessageView, SliceTrace,
};
use crate::commands::noninteractive::{conclude, create_invocation, Invocation};
use crate::commands::{ChildOutputMode, CommandArguments};
use crate::errors::{CommandError, HiveInitialisationError, HiveLibError, NetworkError};
use crate::hive::node::{Name, Push, Target};
use crate::json::{json_texts, texts_json};
use crate::modifiers::SubCommandModifiers;
use crate::store_path::SafeStorePath;
use crate::text::{joined, lossy_text, texts};
use std::collections::VecDeque;
use vstd::prelude::*;

verus! {

/// A command that is made runs here, is no command of nix, asks for nothing, logs nothing of what
/// it prints, and has no more rights than the user.
pub proof fn commands_start_out_plain(
    line: &str,
    modifiers: SubCommandModifiers,
    command: CommandArguments,
)
    requires
        call_ensures(CommandArguments::new, (line, modifiers), command),
    ensures
        command@.command_string == line@,
        command@.modifiers == modifiers,
        command@.target is None,
        command@.output_mode is Generic,
        !command@.keep_stdin_open,
        command@.privilege_escalation_command is None,
        !command@.log_stdout,
{
}

/// Each setting of a command changes that and nothing else.
pub proof fn settings_change_one_thing(
    before: CommandArguments,
    target: Option<Target>,
    escalation: &Vec<String>,
    after: CommandArguments,
)
    ensures
        call_ensures(CommandArguments::execute_on_remote, (before, target), after) ==> {
            &&& target is Some ==> after@.target == Some(target->0@)
            &&& target is None ==> after@.target is None
            &&& after@.command_string == before@.command_string
            &&& after@.modifiers == before@.modifiers
            &&& after@.output_mode == before@.output_mode
            &&& after@.keep_stdin_open == before@.keep_stdin_open
            &&& after@.privilege_escalation_command == before@.privilege_escalation_command
            &&& after@.log_stdout == before@.log_stdout
        },
        call_ensures(CommandArguments::privileged, (before, escalation), after) ==> {
            &&& after@.privilege_escalation_command == Some(joined(texts(escalation@), " "@))
            &&& after@.command_string == before@.command_string
            &&& after@.target == before@.target
            &&& after@.modifiers == before@.modifiers
            &&& after@.output_mode == before@.output_mode
            &&& after@.keep_stdin_open == before@.keep_stdin_open
            &&& after@.log_stdout == before@.log_stdout
        },
        call_ensures(CommandArguments::keep_stdin_open, (before,), after) ==> {
            &&& after@.keep_stdin_open
            &&& after@.command_string == before@.command_string
            &&& after@.target == before@.target
            &&& after@.modifiers == before@.modifiers
            &&& after@.output_mode == before@.output_mode
            &&& after@.privilege_escalation_command == before@.privilege_escalation_command
            &&& after@.log_stdout == before@.log_stdout
        },
        forall|mode: ChildOutputMode| #[trigger]
            call_ensures(CommandArguments::mode, (before, mode), after) ==> {
                &&& after@.output_mode == mode
                &&& after@.command_string == before@.command_string
                &&& after@.target == before@.target
                &&& after@.modifiers == before@.modifiers
                &&& after@.keep_stdin_open == before@.keep_stdin_open
                &&& after@.privilege_escalation_command == before@.privilege_escalation_command
                &&& after@.log_stdout == before@.log_stdout
            },
        call_ensures(CommandArguments::log_stdout, (before,), after) ==> {
            &&& after@.log_stdout
            &&& after@.command_string == before@.command_string
            &&& after@.target == before@.target
            &&& after@.modifiers == before@.modifiers
            &&& after@.output_mode == before@.output_mode
            &&& after@.keep_stdin_open == before@.keep_stdin_open
            &&& after@.privilege_escalation_command == before@.privilege_escalation_command
        },
{
}

/// A command is run without asking where nothing may be asked, and where it runs here with the
/// rights of the user.
pub proof fn passwords_are_asked_for_where_needed(command: &CommandArguments, r: bool)
    ensures
        call_ensures(CommandArguments::runs_non_interactively, (command,), r) ==> (!r
            <==> !command@.modifiers.non_interactive && (command@.target is Some
            || command@.privilege_escalation_command is Some)),
        call_ensures(CommandArguments::is_elevated, (command,), r) ==> (r
            <==> command@.privilege_escalation_command is Some),
{
}

/// A command for this machine is handed to a shell here, one for a target to `ssh`, with the host
/// that is tried at the moment. Where no host is left it is not run.
pub proof fn commands_run_where_they_are_meant_to(
    command: &CommandArguments,
    r: Result<Invocation, HiveLibError>,
)
    requires
        call_ensures(create_invocation, (command,), r),
    ensures
        command@.target is None ==> r is Ok && r->Ok_0.program@ == "bash"@ && r->Ok_0.args@.len()
            == 2 && r->Ok_0.args@[0]@ == "-c"@,
        command@.target matches Some(target) ==> {
            &&& target.current_host < target.hosts.len() ==> {
                &&& r is Ok
                &&& r->Ok_0.program@ == "ssh"@
                &&& r->Ok_0.args@.len() >= 2
                &&& r->Ok_0.args@[r->Ok_0.args@.len() - 2]@
                    == target.hosts[target.current_host as int]
                &&& r->Ok_0.args@[0]@ == "-l"@
                &&& r->Ok_0.args@[1]@ == target.user
            }
            &&& target.current_host >= target.hosts.len() ==> r == Err::<Invocation, HiveLibError>(
                HiveLibError::NetworkError(NetworkError::HostsExhausted),
            )
        },
{
    if r is Ok {
        let args = r->Ok_0.args@;
        assert(texts(args).len() == args.len());
        if command@.target is None {
            assert(texts(args)[0] == args[0]@);
        } else {
            let target = command@.target->0;
            assert(texts(args)[args.len() - 2] == args[args.len() - 2]@);
            assert(texts(args)[0] == args[0]@);
            assert(texts(args)[1] == args[1]@);
        }
    }
}

/// A command succeeds with what it printed, or fails with what it was, its last messages and its
/// code.
pub proof fn commands_end_as_they_did(
    line: &str,
    succeeded: bool,
    code: Option<i32>,
    stdout: &VecDeque<String>,
    stderr: &VecDeque<String>,
    r: Result<String, CommandError>,
)
    requires
        call_ensures(conclude, (line, succeeded, code, stdout, stderr), r),
    ensures
        r is Ok <==> succeeded,
        succeeded ==> r->Ok_0@ == joined(texts(stdout@).reverse(), "\n"@),
        !succeeded ==> (r matches Err(CommandError::CommandFailed { command_ran, logs, reason, .. })
            && command_ran@ == line@ && logs@ == joined(texts(stderr@).reverse(), "\n"@)
            && reason@ == "known-status"@),
{
}

/// A path is copied to the host that is tried at the moment, by a command of nix on this machine
/// that is told how to connect.
pub proof fn copies_are_commands_of_nix(
    target: &Target,
    push: &Push,
    substitute: bool,
    modifiers: SubCommandModifiers,
    r: Result<(CommandArguments, Vec<(String, String)>), HiveLibError>,
)
    requires
        call_ensures(push_command, (target, push, substitute, modifiers), r),
    ensures
        target@.current_host < target@.hosts.len() ==> {
            &&& r is Ok
            &&& r->Ok_0.0@.output_mode is Nix
            &&& r->Ok_0.0@.target is None
            &&& r->Ok_0.0@.modifiers == modifiers
            &&& r->Ok_0.1@.len() == 1
            &&& r->Ok_0.1@[0].0@ == "NIX_SSHOPTS"@
        },
        target@.current_host >= target@.hosts.len() ==> r == Err::<
            (CommandArguments, Vec<(String, String)>),
            HiveLibError,
        >(HiveLibError::NetworkError(NetworkError::HostsExhausted)),
{
}

/// A copy that fails says which path could not be copied to which node, and why.
pub proof fn failed_pushes_are_told(
    status: Result<(), CommandError>,
    name: &Name,
    path: &SafeStorePath,
    r: Result<(), HiveLibError>,
)
    requires
        call_ensures(conclude_push, (status, name, &Push::Derivation(path)), r) || call_ensures(
            conclude_push,
            (status, name, &Push::Path(path)),
            r,
        ),
    ensures
        status is Ok <==> r is Ok,
        status is Err ==> (r matches Err(
            HiveLibError::NixCopyCliError { name: shown, path: copied, error, .. },
        ) && shown == *name && copied@ == path@ && error == status->Err_0),
{
}

/// An evaluation that fails says of which attribute, and why.
pub proof fn failed_evaluations_are_told(
    status: Result<String, CommandError>,
    attribute: String,
    r: Result<String, HiveLibError>,
)
    requires
        call_ensures(conclude_evaluation, (status, attribute), r),
    ensures
        status is Ok ==> r == Ok::<String, HiveLibError>(status->Ok_0),
        status is Err ==> (r matches Err(
            HiveLibError::NixEvalError { attribute: shown, source, .. },
        ) && shown == attribute && source == status->Err_0),
{
}

/// The names of nodes are read as nix prints them, and shown one in each line or as JSON.
pub proof fn names_are_read_and_shown(
    output: &str,
    read: Result<Vec<String>, HiveLibError>,
    names: &Vec<String>,
    shown: String,
)
    ensures
        call_ensures(get_hive_node_names, (output,), read) ==> {
            &&& json_texts(output@) is Ok <==> read is Ok
            &&& read is Ok ==> texts(read->Ok_0@) == json_texts(output@)->Ok_0
            &&& read is Err ==> (read matches Err(
                HiveLibError::HiveInitialisationError(
                    HiveInitialisationError::ParseEvaluateError(error),
                ),
            ) && error@ == json_texts(output@)->Err_0)
        },
        call_ensures(show_node_names, (names, true), shown) ==> shown@ == texts_json(
            texts(names@),
        ),
        call_ensures(show_node_names, (names, false), shown) ==> shown@ == joined(
            texts(names@),
            "\n"@,
        ),
{
}

/// Lines of build logs are written to the log where they are asked for, and all others always.
pub proof fn build_logs_are_written_on_demand(message: &LogMessage, asked_for: bool, r: bool)
    requires
        call_ensures(is_traced, (message, asked_for), r),
    ensures
        !r <==> !asked_for && (message@ matches LogMessageView::Result { result, .. } && result
            is BuildLogLine),
{
}

/// What a command prints is a warning, and is kept as it is. What a command of nix prints is a
/// message from behind the first mark on, and else a warning that is not kept.
pub proof fn printed_lines_are_warnings(mode: ChildOutputMode, line: &[u8], r: SliceTrace)
    requires
        call_ensures(ChildOutputMode::trace_slice, (mode, line), r),
    ensures
        !(mode is Nix) ==> (r matches SliceTrace::Line(shown, Some(kept)) && shown@.level is Warn
            && shown@.build is None && kept@ == lossy_text(line@)),
        mode is Nix ==> match r {
            SliceTrace::Line(shown, kept) => kept is None && shown@.level is Warn && shown@.build
                is None && shown@.text == lossy_text(line@),
            SliceTrace::Message(start) => 5 <= start <= line@.len() && line@[start - 5] == 64
                && line@[start - 4] == 110 && line@[start - 3] == 105 && line@[start - 2] == 120
                && line@[start - 1] == 32,
        },
{
    if mode is Nix {
        if let SliceTrace::Message(start) = r {
            let mark = nix_mark();
            assert(line@.subrange(start - 5, start as int) == mark);
            assert(line@.subrange(start - 5, start as int)[0] == line@[start - 5]);
            assert(line@.subrange(start - 5, start as int)[1] == line@[start - 4]);
            assert(line@.subrange(start - 5, start as int)[2] == line@[start - 3]);
            assert(line@.subrange(start - 5, start as int)[3] == line@[start - 2]);
            assert(line@.subrange(start - 5, start as int)[4] == line@[start - 1]);
        }
    }
}

/// Of the lines of the log errors and warnings are kept, by their text.
pub proof fn errors_and_warnings_are_kept(
    line: &LogLine,
    r: Option<String>,
    slice: &[u8],
    shown: LogLine,
)
    ensures
        call_ensures(LogLine::kept_message, (line,), r) ==> (r is Some <==> line.level is Error
            || line.level is Warn) && (r is Some ==> r->0@ == line.text@),
        call_ensures(unparsed_line, (slice,), shown) ==> shown.level is Warn && shown.build is None
            && shown.text@ == lossy_text(slice@),
{
}

} // verus!
