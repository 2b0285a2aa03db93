use wire::errors::{
    ActivationError, CommandError, HiveInitialisationError, HiveLibError, HiveLocationError,
    KeyError, NetworkError,
};
use wire::hive::node::{Name, SwitchToConfigurationGoal};
use wire::nix_client::{NixDaemonClientError, ProtocolVersion};
use wire::store_path::SafeStorePath;

fn name() -> Name {
    Name("node-a".to_string())
}

fn failed() -> CommandError {
    CommandError::CommandFailed {
        command_ran: "nix build".to_string(),
        logs: "boom".to_string(),
        code: "code 1".to_string(),
        reason: "known-status".to_string(),
    }
}

#[test]
fn errors_say_what_went_wrong() {
    let path = SafeStorePath::of_absolute_path("/nix/store/x".to_string());
    let errors = [
        (HiveLibError::Sigint, "SIGINT received, shut down"),
        (HiveLibError::CommandError(CommandError::NoHandle), "There was no handle to child io"),
        (
            HiveLibError::CommandError(failed()),
            "nix build failed (known-status) with code 1 (last 20 lines):\nboom",
        ),
        (HiveLibError::NetworkError(NetworkError::HostsExhausted), "Ran out of contactable hosts"),
        (
            HiveLibError::NetworkError(NetworkError::HostUnreachableAfterReboot("h".to_string())),
            "Failed to get regain connection to h after activation.",
        ),
        (
            HiveLibError::ActivationError(ActivationError::SwitchToConfigurationError(
                SwitchToConfigurationGoal::DryActivate,
                name(),
                failed(),
            )),
            "failed to run switch-to-configuration DryActivate on node node-a",
        ),
        (
            HiveLibError::HiveInitialisationError(HiveInitialisationError::NodeDoesNotExist(
                "x".to_string(),
            )),
            "node x not exist in hive",
        ),
        (
            HiveLibError::HiveInitialisationError(HiveInitialisationError::NoHiveFound(
                "/x".to_string(),
            )),
            "No hive could be found in /x",
        ),
        (
            HiveLibError::HiveLocationError(HiveLocationError::MalformedPath("/".to_string())),
            "Path was malformed: /",
        ),
        (HiveLibError::KeyError("k".to_string(), KeyError::Empty), "Failed to apply key k"),
        (
            HiveLibError::NixBuildCliError { name: name(), source: failed() },
            "failed to build node node-a",
        ),
        (
            HiveLibError::NixCopyCliError { name: name(), path, error: failed(), help: None },
            "failed to copy path /nix/store/x to node node-a",
        ),
        (
            HiveLibError::NixEvalError {
                attribute: "a".to_string(),
                source: failed(),
                help: None,
            },
            "failed to evaluate `a` from the context of a hive.",
        ),
        (
            HiveLibError::NixDaemonClientError(NixDaemonClientError::NixDaemonProtocolVersion {
                wanted: ProtocolVersion::from_parts(1, 23),
                have: ProtocolVersion::from_parts(1, 9),
                operation: "AddToStoreNar".to_string(),
            }),
            "the nix daemon protocol version is too old for wire to perform \"AddToStoreNar\"! want atleast 1.23, have 1.9",
        ),
    ];
    for (error, text) in errors {
        assert_eq!(error.to_string(), text);
    }
    let missing = HiveLibError::KeyArchitectureNotFound { arg_name: "VAR".to_string() };
    assert!(missing.to_string().starts_with("VAR environment variable not set! \n\n"));
}

#[test]
fn errors_name_their_causes_and_may_help() {
    let error = HiveLibError::NixEvalError {
        attribute: "a".to_string(),
        source: failed(),
        help: Some("look there".to_string()),
    };
    assert_eq!(error.source().unwrap(), failed().to_string());
    assert_eq!(error.help().unwrap(), "look there");

    let error = HiveLibError::NetworkError(NetworkError::HostUnreachable {
        host: "h".to_string(),
        source: CommandError::NoHandle,
    });
    assert_eq!(error.to_string(), "Cannot reach host h");
    assert_eq!(error.source().unwrap(), "There was no handle to child io");
    assert_eq!(
        error.help().unwrap(),
        "If you failed due to a fault in DNS, note that a node can have multiple targets defined."
    );

    let error =
        HiveLibError::NixDaemonClientError(NixDaemonClientError::NixDaemonIO("eof".to_string()));
    assert_eq!(error.to_string(), "nix daemon io error");
    assert_eq!(error.source().unwrap(), "eof");
    assert!(HiveLibError::Sigint.source().is_none() && HiveLibError::Sigint.help().is_none());
}

#[test]
fn key_errors_say_what_went_wrong() {
    let failed = KeyError::CommandError("exit status: 1".to_string(), "denied".to_string());
    assert_eq!(failed.to_string(), "key command failed with status exit status: 1: denied");
    assert_eq!(KeyError::Empty.to_string(), "Command list empty");
    assert_eq!(KeyError::File("x".to_string()).to_string(), "error reading file");
    assert_eq!(KeyError::File("x".to_string()).source().unwrap(), "x");
    assert!(KeyError::File("x".to_string()).help().is_none());
    assert!(failed.source().is_none() && failed.help().is_none());
    let unstarted = KeyError::CommandSpawnError {
        error: "no such file".to_string(),
        command: "pass show".to_string(),
        program_length: 4,
    };
    assert_eq!(unstarted.source().unwrap(), "no such file");
    assert_eq!(unstarted.help().unwrap(), "Ensure wire has the correct $PATH for this command");
    let permissions = KeyError::ParseKeyPermissions("invalid digit".to_string());
    assert_eq!(permissions.source().unwrap(), "invalid digit");
    assert_eq!(
        permissions.help().unwrap(),
        "Refer to the documentation for the format of key file permissions."
    );
}
