//! What users are told of errors.
use crate::commands::common::{no_hive_help, shows_distrust, shows_no_hive, untrusted_help};
use crate::errors::{
    ActivationError, CommandError, HiveInitialisationError, HiveLibError, HiveLocationError,
    KeyError, NetworkError,
};
use crate::hive::steps::build_node::no_output_text;
use crate::laws::text::texts_are_found_inside;
use crate::nix_client::{version_text, NixDaemonClientError};
use crate::text::quoted;
use vstd::prelude::*;

verus! {

/// What is said of a key, why, and what to do about it.
pub proof fn keys_say_what_is_wrong_with_them(error: KeyError)
    ensures
        error matches KeyError::File(cause) ==> error.text() == "error reading file"@
            && error.cause_text() == Some(cause@) && error.help_text() is None,
        error matches KeyError::CommandSpawnError { error: cause, .. } ==> error.text()
            == "error spawning key command"@ && error.cause_text() == Some(cause@)
            && error.help_text() == Some("Ensure wire has the correct $PATH for this command"@),
        error matches KeyError::CommandResolveError { error: cause, .. } ==> error.text()
            == "Error resolving key command child process"@ && error.cause_text() == Some(cause@)
            && error.help_text() is None,
        error matches KeyError::CommandError(status, stderr) ==> error.text()
            == "key command failed with status "@ + status@ + ": "@ + stderr@
            && error.cause_text() is None && error.help_text() is None,
        error is Empty ==> error.text() == "Command list empty"@ && error.cause_text() is None
            && error.help_text() is None,
        error matches KeyError::ParseKeyPermissions(cause) ==> error.text()
            == "Failed to parse key permissions"@ && error.cause_text() == Some(cause@)
            && error.help_text() == Some(
            "Refer to the documentation for the format of key file permissions."@,
        ),
{
}

/// A failed activation names what the configuration was to be switched to, and the node.
pub proof fn activations_name_goal_and_node(error: ActivationError)
    ensures
        error matches ActivationError::SwitchToConfigurationError(goal, name, _) ==> {
            &&& goal is Switch ==> error.text()
                == "failed to run switch-to-configuration Switch on node "@ + name@
            &&& goal is Boot ==> error.text()
                == "failed to run switch-to-configuration Boot on node "@ + name@
            &&& goal is Test ==> error.text()
                == "failed to run switch-to-configuration Test on node "@ + name@
            &&& goal is DryActivate ==> error.text()
                == "failed to run switch-to-configuration DryActivate on node "@ + name@
        },
{
    reveal_strlit("failed to run switch-to-configuration ");
    reveal_strlit(" on node ");
    reveal_strlit("Switch");
    reveal_strlit("Boot");
    reveal_strlit("Test");
    reveal_strlit("DryActivate");
    reveal_strlit("failed to run switch-to-configuration Switch on node ");
    reveal_strlit("failed to run switch-to-configuration Boot on node ");
    reveal_strlit("failed to run switch-to-configuration Test on node ");
    reveal_strlit("failed to run switch-to-configuration DryActivate on node ");
    let start = "failed to run switch-to-configuration "@;
    let end = " on node "@;
    assert(start + "Switch"@ + end
        =~= "failed to run switch-to-configuration Switch on node "@);
    assert(start + "Boot"@ + end =~= "failed to run switch-to-configuration Boot on node "@);
    assert(start + "Test"@ + end =~= "failed to run switch-to-configuration Test on node "@);
    assert(start + "DryActivate"@ + end
        =~= "failed to run switch-to-configuration DryActivate on node "@);
}

/// What is said of hosts that do not answer.
pub proof fn hosts_are_named(error: NetworkError)
    ensures
        error matches NetworkError::HostUnreachable { host, .. } ==> error.text()
            == "Cannot reach host "@ + host@,
        error matches NetworkError::HostUnreachableAfterReboot(host) ==> error.text()
            == "Failed to get regain connection to "@ + host@ + " after activation."@,
        error is HostsExhausted ==> error.text() == "Ran out of contactable hosts"@,
{
}

/// What is said of hives that cannot be read, and what to do about it.
pub proof fn hives_say_what_is_wrong_with_them(
    error: HiveInitialisationError,
    location: HiveLocationError,
)
    ensures
        error matches HiveInitialisationError::NoHiveFound(path) ==> error.text()
            == "No hive could be found in "@ + path@ && error.help_text()
            == "Double check the path is correct. You can adjust the hive path with `--path` when the hive lies outside of the CWD."@,
        error is ParseEvaluateError ==> error.text() == "Failed to parse internal wire json."@
            && error.help_text() == "If you cannot resolve this problem, please create an issue."@,
        error is ParsePrefetchError ==> error.text()
            == "Failed to parse `nix flake prefetch --json`."@ && error.help_text()
            == "please create an issue."@,
        error matches HiveInitialisationError::NodeDoesNotExist(name) ==> error.text() == "node "@
            + name@ + " not exist in hive"@ && error.help_text() == "Please create an issue!"@,
        location matches HiveLocationError::MalformedPath(path) ==> location.text()
            == "Path was malformed: "@ + path@,
        location is Malformed ==> location.text() == "--path was malformed"@,
        location matches HiveLocationError::TypeUnsupported(shown) ==> location.text()
            == "The flakref had an unsupported type: "@ + shown@,
{
}

/// A command that failed says which it was, why, with which code, and what it printed last.
pub proof fn commands_say_why_they_failed(error: CommandError)
    ensures
        error is NoHandle ==> error.text() == "There was no handle to child io"@,
        error is WaitForStatus ==> error.text() == "Failed to wait for the child's status"@,
        error matches CommandError::CommandFailed { command_ran, logs, code, reason }
            ==> error.text() == command_ran@ + " failed ("@ + reason@ + ") with "@ + code@
            + " (last 20 lines):\n"@ + logs@,
{
}

/// What is said of the daemon, and why.
pub proof fn daemons_say_what_is_wrong(error: NixDaemonClientError)
    ensures
        error matches NixDaemonClientError::NixDaemonIO(cause) ==> error.text()
            == "nix daemon io error"@ && error.cause_text() == Some(cause@),
        error matches NixDaemonClientError::NixDaemonInvalidResponse(text) ==> error.text()
            == "nix daemon returned an invalid response: "@ + text@ && error.cause_text() is None,
        error matches NixDaemonClientError::NixDaemonOperationFailed(text) ==> error.text()
            == "nix daemon operation failed: "@ + text@ && error.cause_text() is None,
        error matches NixDaemonClientError::NixDaemonConnectionFailure(cause) ==> error.text()
            == "failed to connect to nix daemon"@ && error.cause_text() == Some(cause@),
        error matches NixDaemonClientError::NixDaemonProtocolVersion { wanted, have, operation }
            ==> error.text() == "the nix daemon protocol version is too old for wire to perform "@
            + quoted(operation@) + "! want atleast "@ + version_text(wanted) + ", have "@
            + version_text(have) && error.cause_text() is None,
        error matches NixDaemonClientError::NixDaemonOperationError { name, msg } ==> error.text()
            == name@ + ": "@ + msg@ && error.cause_text() is None,
        error is Sigint ==> error.text() == "SIGINT received, shut down"@ && error.cause_text()
            is None,
{
}

/// What is said of an error of the library: what it wraps says it for itself, and what failed for
/// a node names the node, and what was built, copied or evaluated.
pub proof fn errors_say_what_failed(error: HiveLibError)
    ensures
        error matches HiveLibError::HiveInitialisationError(source) ==> error.text()
            == source.text(),
        error matches HiveLibError::NetworkError(source) ==> error.text() == source.text(),
        error matches HiveLibError::ActivationError(source) ==> error.text() == source.text(),
        error matches HiveLibError::CommandError(source) ==> error.text() == source.text(),
        error matches HiveLibError::HiveLocationError(source) ==> error.text() == source.text(),
        error matches HiveLibError::NixDaemonClientError(source) ==> error.text()
            == source.text(),
        error matches HiveLibError::StorePath(text) ==> error.text() == text@,
        error matches HiveLibError::KeyError(name, _) ==> error.text() == "Failed to apply key "@
            + name@,
        error matches HiveLibError::NixBuildError { name, .. } ==> error.text()
            == "failed to build node "@ + name@,
        error matches HiveLibError::NixBuildCliError { name, .. } ==> error.text()
            == "failed to build node "@ + name@,
        error matches HiveLibError::NixCopyError { name, path, .. } ==> error.text()
            == "failed to copy path "@ + path@ + " to node "@ + name@,
        error matches HiveLibError::NixCopyCliError { name, path, .. } ==> error.text()
            == "failed to copy path "@ + path@ + " to node "@ + name@,
        error matches HiveLibError::NixEvalError { attribute, .. } ==> error.text()
            == "failed to evaluate `"@ + attribute@ + "` from the context of a hive."@,
        error matches HiveLibError::KeyArchitectureNotFound { arg_name } ==> error.text()
            == arg_name@
            + " environment variable not set! \n\n                wire was not built with the ability to deploy keys to this platform. \n\n                Please create an issue: https://github.com/forallsys/wire/issues/new?template=bug_report.md"@,
        error is Encoding ==> error.text() == "error encoding length delimited data"@,
        error is Sigint ==> error.text() == "SIGINT received, shut down"@,
{
}

/// What led to an error is said where something did.
pub proof fn errors_say_what_led_to_them(error: HiveLibError)
    ensures
        error matches HiveLibError::HiveInitialisationError(
            HiveInitialisationError::ParseEvaluateError(cause),
        ) ==> error.cause_text() == Some(cause@),
        error matches HiveLibError::HiveInitialisationError(
            HiveInitialisationError::ParsePrefetchError(cause),
        ) ==> error.cause_text() == Some(cause@),
        error matches HiveLibError::NetworkError(NetworkError::HostUnreachable { source, .. })
            ==> error.cause_text() == Some(source.text()),
        error matches HiveLibError::ActivationError(
            ActivationError::SwitchToConfigurationError(_, _, source),
        ) ==> error.cause_text() == Some(source.text()),
        error matches HiveLibError::CommandError(CommandError::WaitForStatus(cause))
            ==> error.cause_text() == Some(cause@),
        error matches HiveLibError::HiveLocationError(HiveLocationError::Malformed(cause))
            ==> error.cause_text() == Some(cause@),
        error matches HiveLibError::NixDaemonClientError(source) ==> error.cause_text()
            == source.cause_text(),
        error matches HiveLibError::KeyError(_, source) ==> error.cause_text() == Some(
            source.text(),
        ),
        error matches HiveLibError::NixBuildError { source, .. } ==> error.cause_text() == Some(
            source.text(),
        ),
        error matches HiveLibError::NixBuildCliError { source, .. } ==> error.cause_text()
            == Some(source.text()),
        error matches HiveLibError::NixCopyError { error: source, .. } ==> error.cause_text()
            == Some(source.text()),
        error matches HiveLibError::NixCopyCliError { error: source, .. } ==> error.cause_text()
            == Some(source.text()),
        error matches HiveLibError::NixEvalError { source, .. } ==> error.cause_text() == Some(
            source.text(),
        ),
        error matches HiveLibError::Encoding(cause) ==> error.cause_text() == Some(cause@),
        error is StorePath || error is KeyArchitectureNotFound || error is Sigint
            ==> error.cause_text() is None,
{
}

/// Help is given where there is some, and where an error carries help it is that.
pub proof fn errors_help_where_they_can(error: HiveLibError)
    ensures
        error matches HiveLibError::HiveInitialisationError(source) ==> error.help_text() == Some(
            source.help_text(),
        ),
        error matches HiveLibError::NetworkError(NetworkError::HostUnreachable { .. })
            ==> error.help_text() == Some(
            "If you failed due to a fault in DNS, note that a node can have multiple targets defined."@,
        ),
        error matches HiveLibError::CommandError(CommandError::NoHandle) ==> error.help_text()
            == Some("This should never happen, please create an issue!"@),
        error matches HiveLibError::CommandError(CommandError::CommandFailed { .. })
            ==> error.help_text() == Some(
            "`nix` commands are filtered, run with -vvv to view all"@,
        ),
        error matches HiveLibError::NixCopyError { help, .. } ==> (match help {
            Some(help) => error.help_text() == Some(help@),
            None => error.help_text() is None,
        }),
        error matches HiveLibError::NixCopyCliError { help, .. } ==> (match help {
            Some(help) => error.help_text() == Some(help@),
            None => error.help_text() is None,
        }),
        error matches HiveLibError::NixEvalError { help, .. } ==> (match help {
            Some(help) => error.help_text() == Some(help@),
            None => error.help_text() is None,
        }),
        error is ActivationError || error is HiveLocationError || error is NixDaemonClientError
            || error is StorePath || error is KeyError || error is NixBuildError || error
            is NixBuildCliError || error is Encoding || error is Sigint ==> error.help_text()
            is None,
{
}

/// What a failed copy printed tells whether the node does not trust the user, and what a failed
/// evaluation printed whether there is no hive, wherever in it that stands, and in no other way.
pub proof fn logs_tell_what_help_is_needed(logs: Seq<char>, top_level: Seq<char>)
    ensures
        shows_distrust(logs) <==> exists|before: Seq<char>, after: Seq<char>|
            logs == #[trigger] (before + "error: unexpected end-of-file"@ + after),
        shows_no_hive(logs) <==> ((exists|before: Seq<char>, after: Seq<char>|
            logs == #[trigger] (before + "attribute 'inspect' missing"@ + after)) || (exists|
            before: Seq<char>,
            after: Seq<char>,
        |
            logs == #[trigger] (before + "does not provide attribute 'packages.x86_64-linux.wire'"@
                + after)) || (exists|before: Seq<char>, after: Seq<char>|
            logs == #[trigger] (before + "attribute 'inspect' in selection path"@ + after))),
        untrusted_help()
            == "wire requires the deploying user or wire binary cache is trusted on the remote server. if you're attempting to make that change, skip keys with --no-keys. please read https://wire.forall.systems/guides/keys for more information"@,
        no_hive_help()
            == "Double check this `--path` or `--flake` is a wire hive. You may be pointing to the wrong directory."@,
        no_output_text(top_level) == "Derivation "@ + top_level
            + " did not have output \"out\""@,
{
    texts_are_found_inside(logs, "error: unexpected end-of-file"@);
    texts_are_found_inside(logs, "attribute 'inspect' missing"@);
    texts_are_found_inside(logs, "does not provide attribute 'packages.x86_64-linux.wire'"@);
    texts_are_found_inside(logs, "attribute 'inspect' in selection path"@);
}

} // verus!
