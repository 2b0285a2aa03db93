//! The commands of nix that a deployment runs.
use crate::commands::builder::{slice_texts, with_args, with_args_appends, CommandStringBuilder};
use crate::commands::{ChildOutputMode, CommandArguments, CommandView};
use crate::errors::{CommandError, HiveInitialisationError, HiveLibError, NetworkError};
use crate::hive::location::HiveLocation;
use crate::hive::node::{ssh_args, Name, Push, Target};
use crate::json::{json_texts, parse_texts, texts_json, write_texts};
use crate::modifiers::{EvalGoal, SubCommandModifiers};
use crate::store_path::SafeStorePath;
use crate::text::{contains, join, joined, occurs_in, texts};
use vstd::prelude::*;

verus! {

/// What to tell a user whose node does not trust them.
pub open spec fn untrusted_help() -> Seq<char> {
    "wire requires the deploying user or wire binary cache is trusted on the remote server. if you're attempting to make that change, skip keys with --no-keys. please read https://wire.forall.systems/guides/keys for more information"@
}

/// What to tell a user whose hive is none.
pub open spec fn no_hive_help() -> Seq<char> {
    "Double check this `--path` or `--flake` is a wire hive. You may be pointing to the wrong directory."@
}

/// Whether the logs of a copy show that the node does not trust the user.
pub open spec fn shows_distrust(logs: Seq<char>) -> bool {
    occurs_in(logs, "error: unexpected end-of-file"@)
}

/// Whether the logs of an evaluation show that there is no hive.
pub open spec fn shows_no_hive(logs: Seq<char>) -> bool {
    occurs_in(logs, "attribute 'inspect' missing"@) || occurs_in(
        logs,
        "does not provide attribute 'packages.x86_64-linux.wire'"@,
    ) || occurs_in(logs, "attribute 'inspect' in selection path"@)
}

/// Help for the text of a failed copy.
pub fn copy_help(logs: &str) -> (r: Option<String>)
    ensures
        match r {
            Some(help) => shows_distrust(logs@) && help@ == untrusted_help(),
            None => !shows_distrust(logs@),
        },
{
    if contains(logs, "error: unexpected end-of-file") {
        Some(
            "wire requires the deploying user or wire binary cache is trusted on the remote server. if you're attempting to make that change, skip keys with --no-keys. please read https://wire.forall.systems/guides/keys for more information".to_owned(),
        )
    } else {
        None
    }
}

/// Help for a failed copy.
pub fn get_common_copy_path_help(error: &CommandError) -> (r: Option<String>)
    ensures
        match r {
            Some(help) => (error matches CommandError::CommandFailed { logs, .. }
                && shows_distrust(logs@)) && help@ == untrusted_help(),
            None => error matches CommandError::CommandFailed { logs, .. } ==> !shows_distrust(
                logs@,
            ),
        },
{
    match error {
        CommandError::CommandFailed { logs, .. } => copy_help(logs.as_str()),
        _ => None,
    }
}

/// Help for a failed evaluation.
pub fn get_common_command_help(error: &CommandError) -> (r: Option<String>)
    ensures
        match r {
            Some(help) => (error matches CommandError::CommandFailed { logs, .. }
                && shows_no_hive(logs@)) && help@ == no_hive_help(),
            None => error matches CommandError::CommandFailed { logs, .. } ==> !shows_no_hive(
                logs@,
            ),
        },
{
    match error {
        CommandError::CommandFailed { logs, .. } => {
            // using this repository as a hive, a flake that does not provide `wire`, or a file
            // called `hive.nix` that is not actually a hive
            if contains(logs.as_str(), "attribute 'inspect' missing") || contains(
                logs.as_str(),
                "does not provide attribute 'packages.x86_64-linux.wire'",
            ) || contains(logs.as_str(), "attribute 'inspect' in selection path") {
                Some(
                    "Double check this `--path` or `--flake` is a wire hive. You may be pointing to the wrong directory.".to_owned(),
                )
            } else {
                None
            }
        },
        _ => None,
    }
}

/// The path that is copied.
pub open spec fn pushed_path(push: Push) -> Seq<char> {
    match push {
        Push::Derivation(path) => path@,
        Push::Path(path) => path@,
    }
}

/// What is copied, as an argument of `nix copy`.
pub open spec fn push_argument(push: Push) -> Seq<char> {
    match push {
        Push::Derivation(path) => path@ + " --derivation"@,
        Push::Path(path) => path@,
    }
}

/// The command line that copies a path to a host.
pub open spec fn copy_command(
    user: Seq<char>,
    host: Seq<char>,
    push: Push,
    substitute_on_destination: bool,
) -> Seq<char> {
    with_args(
        "nix"@,
        seq!["--extra-experimental-features"@, "nix-command"@, "copy"@] + (
        if substitute_on_destination {
            seq!["--substitute-on-destination"@]
        } else {
            Seq::empty()
        }) + seq!["--to"@, "ssh://"@ + user + "@"@ + host, push_argument(push)],
    )
}

/// The command that copies a path to the target, with the variables to set for it.
pub fn push_command(
    target: &Target,
    push: &Push,
    substitute_on_destination: bool,
    modifiers: SubCommandModifiers,
) -> (r: Result<(CommandArguments, Vec<(String, String)>), HiveLibError>)
    ensures
        match r {
            Ok((command, variables)) => {
                &&& target@.current_host < target@.hosts.len()
                &&& command@ == (CommandView {
                    output_mode: ChildOutputMode::Nix,
                    ..CommandView::plain(
                        copy_command(
                            target@.user,
                            target@.hosts[target@.current_host as int],
                            *push,
                            substitute_on_destination,
                        ),
                        modifiers,
                    )
                })
                &&& variables@.len() == 1
                &&& variables@[0].0@ == "NIX_SSHOPTS"@
                &&& variables@[0].1@ == joined(
                    ssh_args(target@.user, target@.port, modifiers, false),
                    " "@,
                )
            },
            Err(error) => target@.current_host >= target@.hosts.len() && error
                == HiveLibError::NetworkError(NetworkError::HostsExhausted),
        },
{
    let host = match target.get_preferred_host() {
        Ok(host) => host,
        Err(error) => {
            return Err(error);
        },
    };
    let mut destination = "ssh://".to_owned();
    destination.push_str(target.user.as_str());
    destination.push_str("@");
    destination.push_str(host.as_str());

    let mut pushed = String::new();
    match push {
        Push::Derivation(path) => {
            pushed.push_str(path.to_absolute_path().as_str());
            pushed.push_str(" --derivation");
        },
        Push::Path(path) => {
            pushed.push_str(path.to_absolute_path().as_str());
        },
    }
    assert(pushed@ =~= push_argument(*push));

    let mut command_string = CommandStringBuilder::nix();
    command_string.args(&["--extra-experimental-features", "nix-command", "copy"]);
    command_string.opt_arg(substitute_on_destination, "--substitute-on-destination");
    command_string.arg("--to");
    command_string.arg(destination.as_str());
    command_string.arg(pushed.as_str());
    proof {
        let first = seq!["--extra-experimental-features"@, "nix-command"@, "copy"@];
        let substitute = if substitute_on_destination {
            seq!["--substitute-on-destination"@]
        } else {
            Seq::empty()
        };
        assert(slice_texts(
            seq!["--extra-experimental-features", "nix-command", "copy"],
        ) =~= first);
        with_args_appends("nix"@, first, substitute);
        with_args_appends("nix"@, first + substitute, seq!["--to"@]);
        with_args_appends(
            "nix"@,
            first + substitute + seq!["--to"@],
            seq![destination@],
        );
        with_args_appends(
            "nix"@,
            first + substitute + seq!["--to"@] + seq![destination@],
            seq![pushed@],
        );
        assert(first + substitute + seq!["--to"@] + seq![destination@] + seq![pushed@] =~= first
            + substitute + seq!["--to"@, destination@, pushed@]);
    }

    let options = match target.create_ssh_opts(modifiers) {
        Ok(options) => options,
        Err(error) => {
            return Err(error);
        },
    };
    let mut variables: Vec<(String, String)> = Vec::new();
    variables.push(("NIX_SSHOPTS".to_owned(), options));

    Ok(
        (
            CommandArguments::new(command_string.as_str(), modifiers).mode(ChildOutputMode::Nix),
            variables,
        ),
    )
}

/// What a copy comes to.
pub fn conclude_push(
    status: Result<(), CommandError>,
    name: &Name,
    push: &Push,
) -> (r: Result<(), HiveLibError>)
    ensures
        match (status, r) {
            (Ok(()), Ok(())) => true,
            (
                Err(status_error),
                Err(HiveLibError::NixCopyCliError { name: shown_name, path, error, help }),
            ) => {
                &&& shown_name == *name
                &&& path@ == pushed_path(*push)
                &&& error == status_error
                &&& match help {
                    Some(text) => (status_error matches CommandError::CommandFailed { logs, .. }
                        && shows_distrust(logs@)) && text@ == untrusted_help(),
                    None => status_error matches CommandError::CommandFailed { logs, .. }
                        ==> !shows_distrust(logs@),
                }
            },
            _ => false,
        },
{
    match status {
        Ok(()) => Ok(()),
        Err(error) => {
            let help = get_common_copy_path_help(&error);
            let path: SafeStorePath = match push {
                Push::Derivation(path) => (*path).clone(),
                Push::Path(path) => (*path).clone(),
            };
            Err(HiveLibError::NixCopyCliError { name: name.clone(), path, error, help })
        },
    }
}

/// What is evaluated, as seen from the hive.
pub open spec fn goal_text(goal: EvalGoal) -> Seq<char> {
    match goal {
        EvalGoal::Inspect => "inspect"@,
        EvalGoal::Names => "names"@,
        EvalGoal::GetTopLevel(node) => "topLevels."@ + node@,
    }
}

/// The argument of `nix eval` that names what is evaluated.
pub open spec fn attribute_text(location: HiveLocation, goal: EvalGoal) -> Seq<char> {
    match location {
        HiveLocation::Flake { uri, .. } => uri@ + "#wire --apply \"hive: "@ + "hive."@
            + goal_text(goal) + "\""@,
        HiveLocation::HiveNix(path) => "--file "@ + path@ + " "@ + goal_text(goal),
    }
}

/// Writes the argument of `nix eval` that names what is evaluated.
pub fn hive_attribute(location: &HiveLocation, goal: &EvalGoal) -> (s: String)
    ensures
        s@ == attribute_text(*location, *goal),
{
    let mut wanted = String::new();
    match goal {
        EvalGoal::Inspect => {
            wanted.push_str("inspect");
        },
        EvalGoal::Names => {
            wanted.push_str("names");
        },
        EvalGoal::GetTopLevel(node) => {
            wanted.push_str("topLevels.");
            wanted.push_str(node.0.as_str());
        },
    }
    assert(wanted@ =~= goal_text(*goal));
    let mut s = String::new();
    match location {
        HiveLocation::Flake { uri, .. } => {
            s.push_str(uri.as_str());
            s.push_str("#wire --apply \"hive: ");
            s.push_str("hive.");
            s.push_str(wanted.as_str());
            s.push_str("\"");
        },
        HiveLocation::HiveNix(path) => {
            s.push_str("--file ");
            s.push_str(path.as_str());
            s.push_str(" ");
            s.push_str(wanted.as_str());
        },
    }
    assert(s@ =~= attribute_text(*location, *goal));
    s
}

/// The command line that evaluates an attribute.
pub open spec fn eval_command(attribute: Seq<char>, show_trace: bool) -> Seq<char> {
    with_args(
        "nix"@,
        seq![
            "--extra-experimental-features"@,
            "nix-command"@,
            "--extra-experimental-features"@,
            "flakes"@,
            "eval"@,
            "--json"@,
        ] + (if show_trace {
            seq!["--show-trace"@]
        } else {
            Seq::empty()
        }) + seq![attribute],
    )
}

/// The command that evaluates an attribute of a hive.
pub fn evaluate_command(attribute: &str, modifiers: SubCommandModifiers) -> (r: CommandArguments)
    ensures
        r@ == (CommandView {
            output_mode: ChildOutputMode::Nix,
            ..CommandView::plain(eval_command(attribute@, modifiers.show_trace), modifiers)
        }),
{
    let mut command_string = CommandStringBuilder::nix();
    command_string.args(
        &[
            "--extra-experimental-features",
            "nix-command",
            "--extra-experimental-features",
            "flakes",
            "eval",
            "--json",
        ],
    );
    command_string.opt_arg(modifiers.show_trace, "--show-trace");
    command_string.arg(attribute);
    proof {
        let first = seq![
            "--extra-experimental-features"@,
            "nix-command"@,
            "--extra-experimental-features"@,
            "flakes"@,
            "eval"@,
            "--json"@,
        ];
        let trace = if modifiers.show_trace {
            seq!["--show-trace"@]
        } else {
            Seq::empty()
        };
        assert(slice_texts(
            seq![
                "--extra-experimental-features",
                "nix-command",
                "--extra-experimental-features",
                "flakes",
                "eval",
                "--json",
            ],
        ) =~= first);
        with_args_appends("nix"@, first, trace);
        with_args_appends("nix"@, first + trace, seq![attribute@]);
    }
    CommandArguments::new(command_string.as_str(), modifiers).mode(ChildOutputMode::Nix)
}

/// What an evaluation comes to: the standard output of the command.
pub fn conclude_evaluation(
    status: Result<String, CommandError>,
    attribute: String,
) -> (r: Result<String, HiveLibError>)
    ensures
        match (status, r) {
            (Ok(stdout), Ok(result)) => result == stdout,
            (
                Err(status_error),
                Err(HiveLibError::NixEvalError { attribute: shown, source, help }),
            ) => {
                &&& shown == attribute
                &&& source == status_error
                &&& match help {
                    Some(text) => (status_error matches CommandError::CommandFailed { logs, .. }
                        && shows_no_hive(logs@)) && text@ == no_hive_help(),
                    None => status_error matches CommandError::CommandFailed { logs, .. }
                        ==> !shows_no_hive(logs@),
                }
            },
            _ => false,
        },
{
    match status {
        Ok(stdout) => Ok(stdout),
        Err(source) => {
            let help = get_common_command_help(&source);
            Err(HiveLibError::NixEvalError { attribute, source, help })
        },
    }
}

/// Hands on the names of nodes as they were read.
pub fn read_node_names(parsed: Result<Vec<String>, String>) -> (r: Result<
    Vec<String>,
    HiveLibError,
>)
    ensures
        match (parsed, r) {
            (Ok(names), Ok(result)) => result == names,
            (
                Err(error),
                Err(
                    HiveLibError::HiveInitialisationError(
                        HiveInitialisationError::ParseEvaluateError(shown),
                    ),
                ),
            ) => shown == error,
            _ => false,
        },
{
    match parsed {
        Ok(names) => Ok(names),
        Err(error) => Err(
            HiveLibError::HiveInitialisationError(
                HiveInitialisationError::ParseEvaluateError(error),
            ),
        ),
    }
}

/// Reads the names of the nodes of a hive out of what their evaluation printed.
pub fn get_hive_node_names(output: &str) -> (r: Result<Vec<String>, HiveLibError>)
    ensures
        match (json_texts(output@), r) {
            (Ok(names), Ok(result)) => texts(result@) == names,
            (
                Err(error),
                Err(
                    HiveLibError::HiveInitialisationError(
                        HiveInitialisationError::ParseEvaluateError(shown),
                    ),
                ),
            ) => shown@ == error,
            _ => false,
        },
{
    read_node_names(parse_texts(output))
}

/// The names of nodes as they are shown: as a JSON array, or one to a line.
pub fn show_node_names(names: &Vec<String>, json: bool) -> (s: String)
    ensures
        s@ == if json {
            texts_json(texts(names@))
        } else {
            joined(texts(names@), "\n"@)
        },
{
    if json {
        write_texts(names)
    } else {
        join(names, "\n")
    }
}

} // verus!
