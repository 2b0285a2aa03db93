//! What can go wrong while a hive is read, planned or deployed.
use crate::hive::node::{switch_name, Name, SwitchToConfigurationGoal};
use crate::nix_client::NixDaemonClientError;
use crate::store_path::SafeStorePath;
use vstd::prelude::*;

verus! {

/// Why a key could not be read.
#[derive(Debug)]
pub enum KeyError {
    /// The file could not be read.
    File(String),
    /// The command of a key could not be started.
    CommandSpawnError { error: String, command: String, program_length: usize },
    /// The command of a key could not be waited for.
    CommandResolveError { error: String, command: String },
    /// The command of a key failed: its status and what it wrote to its standard error.
    CommandError(String, String),
    /// The command of a key has no program.
    Empty,
    /// The permissions are no octal number.
    ParseKeyPermissions(String),
}

/// Why an activation failed.
#[derive(Debug)]
pub enum ActivationError {
    SwitchToConfigurationError(SwitchToConfigurationGoal, Name, CommandError),
}

/// Why a host could not be reached.
#[derive(Debug)]
pub enum NetworkError {
    HostUnreachable { host: String, source: CommandError },
    HostUnreachableAfterReboot(String),
    HostsExhausted,
}

/// Why a hive could not be read.
#[derive(Debug)]
pub enum HiveInitialisationError {
    NoHiveFound(String),
    ParseEvaluateError(String),
    ParsePrefetchError(String),
    NodeDoesNotExist(String),
}

/// Why the place of a hive was not understood.
#[derive(Debug)]
pub enum HiveLocationError {
    MalformedPath(String),
    Malformed(String),
    TypeUnsupported(String),
}

/// Why a command failed.
#[derive(Debug)]
pub enum CommandError {
    /// An input or output stream of the child is missing.
    NoHandle,
    /// The child could not be waited for.
    WaitForStatus(String),
    /// The child ran and did not succeed.
    CommandFailed { command_ran: String, logs: String, code: String, reason: String },
}

/// Why a deployment failed.
#[allow(inconsistent_fields)]
#[derive(Debug)]
pub enum HiveLibError {
    HiveInitialisationError(HiveInitialisationError),
    NetworkError(NetworkError),
    ActivationError(ActivationError),
    CommandError(CommandError),
    HiveLocationError(HiveLocationError),
    NixDaemonClientError(NixDaemonClientError),
    /// A text that is not a store path.
    StorePath(String),
    KeyError(String, KeyError),
    NixBuildError { name: Name, source: NixDaemonClientError },
    NixBuildCliError { name: Name, source: CommandError },
    NixCopyError {
        name: Name,
        path: SafeStorePath,
        error: NixDaemonClientError,
        help: Option<String>,
    },
    NixCopyCliError { name: Name, path: SafeStorePath, error: CommandError, help: Option<String> },
    NixEvalError { attribute: String, source: CommandError, help: Option<String> },
    KeyArchitectureNotFound { arg_name: String },
    Encoding(String),
    /// A step needs the output of a step that is not among its inputs.
    MissingStepOutput,
    /// The user asked for an early end.
    Sigint,
}

impl KeyError {
    /// What is said of the error.
    pub open spec fn text(self) -> Seq<char> {
        match self {
            KeyError::File(_) => "error reading file"@,
            KeyError::CommandSpawnError { .. } => "error spawning key command"@,
            KeyError::CommandResolveError { .. } => "Error resolving key command child process"@,
            KeyError::CommandError(status, stderr) => "key command failed with status "@ + status@
                + ": "@ + stderr@,
            KeyError::Empty => "Command list empty"@,
            KeyError::ParseKeyPermissions(_) => "Failed to parse key permissions"@,
        }
    }

    /// What is said of the error.
    pub fn to_string(&self) -> (s: String)
        ensures
            s@ == self.text(),
    {
        match self {
            KeyError::File(_) => "error reading file".to_owned(),
            KeyError::CommandSpawnError { .. } => "error spawning key command".to_owned(),
            KeyError::CommandResolveError { .. } => {
                "Error resolving key command child process".to_owned()
            },
            KeyError::CommandError(status, stderr) => {
                let mut s = "key command failed with status ".to_owned();
                s.push_str(status.as_str());
                s.push_str(": ");
                s.push_str(stderr.as_str());
                s
            },
            KeyError::Empty => "Command list empty".to_owned(),
            KeyError::ParseKeyPermissions(_) => "Failed to parse key permissions".to_owned(),
        }
    }

    /// What is said of the error that led to this one, where there is one.
    pub open spec fn cause_text(self) -> Option<Seq<char>> {
        match self {
            KeyError::File(cause) => Some(cause@),
            KeyError::CommandSpawnError { error, .. } => Some(error@),
            KeyError::CommandResolveError { error, .. } => Some(error@),
            KeyError::ParseKeyPermissions(cause) => Some(cause@),
            KeyError::CommandError(..) | KeyError::Empty => None,
        }
    }

    /// What is said of the error that led to this one, where there is one.
    pub fn source(&self) -> (r: Option<String>)
        ensures
            match r {
                Some(s) => self.cause_text() == Some(s@),
                None => self.cause_text() is None,
            },
    {
        match self {
            KeyError::File(cause) => Some(cause.clone()),
            KeyError::CommandSpawnError { error, .. } => Some(error.clone()),
            KeyError::CommandResolveError { error, .. } => Some(error.clone()),
            KeyError::ParseKeyPermissions(cause) => Some(cause.clone()),
            KeyError::CommandError(..) | KeyError::Empty => None,
        }
    }

    /// What may help, where anything does.
    pub open spec fn help_text(self) -> Option<Seq<char>> {
        match self {
            KeyError::CommandSpawnError { .. } => Some(
                "Ensure wire has the correct $PATH for this command"@,
            ),
            KeyError::ParseKeyPermissions(_) => Some(
                "Refer to the documentation for the format of key file permissions."@,
            ),
            _ => None,
        }
    }

    /// What may help, where anything does.
    pub fn help(&self) -> (r: Option<String>)
        ensures
            match r {
                Some(s) => self.help_text() == Some(s@),
                None => self.help_text() is None,
            },
    {
        match self {
            KeyError::CommandSpawnError { .. } => Some(
                "Ensure wire has the correct $PATH for this command".to_owned(),
            ),
            KeyError::ParseKeyPermissions(_) => Some(
                "Refer to the documentation for the format of key file permissions.".to_owned(),
            ),
            _ => None,
        }
    }
}

impl ActivationError {
    /// What is said of the error.
    pub open spec fn text(self) -> Seq<char> {
        match self {
            ActivationError::SwitchToConfigurationError(goal, name, _) => {
                "failed to run switch-to-configuration "@ + switch_name(goal) + " on node "@ + name@
            },
        }
    }

    /// What is said of the error.
    pub fn to_string(&self) -> (s: String)
        ensures
            s@ == self.text(),
    {
        match self {
            ActivationError::SwitchToConfigurationError(goal, name, _) => {
                let mut s = "failed to run switch-to-configuration ".to_owned();
                s.push_str(goal.to_string().as_str());
                s.push_str(" on node ");
                s.push_str(name.0.as_str());
                s
            },
        }
    }
}

impl NetworkError {
    /// What is said of the error.
    pub open spec fn text(self) -> Seq<char> {
        match self {
            NetworkError::HostUnreachable { host, .. } => "Cannot reach host "@ + host@,
            NetworkError::HostUnreachableAfterReboot(host) => {
                "Failed to get regain connection to "@ + host@ + " after activation."@
            },
            NetworkError::HostsExhausted => "Ran out of contactable hosts"@,
        }
    }

    /// What is said of the error.
    pub fn to_string(&self) -> (s: String)
        ensures
            s@ == self.text(),
    {
        match self {
            NetworkError::HostUnreachable { host, .. } => {
                let mut s = "Cannot reach host ".to_owned();
                s.push_str(host.as_str());
                s
            },
            NetworkError::HostUnreachableAfterReboot(host) => {
                let mut s = "Failed to get regain connection to ".to_owned();
                s.push_str(host.as_str());
                s.push_str(" after activation.");
                s
            },
            NetworkError::HostsExhausted => "Ran out of contactable hosts".to_owned(),
        }
    }
}

impl HiveInitialisationError {
    /// What is said of the error.
    pub open spec fn text(self) -> Seq<char> {
        match self {
            HiveInitialisationError::NoHiveFound(path) => "No hive could be found in "@ + path@,
            HiveInitialisationError::ParseEvaluateError(_) => {
                "Failed to parse internal wire json."@
            },
            HiveInitialisationError::ParsePrefetchError(_) => {
                "Failed to parse `nix flake prefetch --json`."@
            },
            HiveInitialisationError::NodeDoesNotExist(name) => "node "@ + name@
                + " not exist in hive"@,
        }
    }

    /// What is said of the error.
    pub fn to_string(&self) -> (s: String)
        ensures
            s@ == self.text(),
    {
        match self {
            HiveInitialisationError::NoHiveFound(path) => {
                let mut s = "No hive could be found in ".to_owned();
                s.push_str(path.as_str());
                s
            },
            HiveInitialisationError::ParseEvaluateError(_) => {
                "Failed to parse internal wire json.".to_owned()
            },
            HiveInitialisationError::ParsePrefetchError(_) => {
                "Failed to parse `nix flake prefetch --json`.".to_owned()
            },
            HiveInitialisationError::NodeDoesNotExist(name) => {
                let mut s = "node ".to_owned();
                s.push_str(name.as_str());
                s.push_str(" not exist in hive");
                s
            },
        }
    }

    /// What may help.
    pub open spec fn help_text(self) -> Seq<char> {
        match self {
            HiveInitialisationError::NoHiveFound(_) => {
                "Double check the path is correct. You can adjust the hive path with `--path` when the hive lies outside of the CWD."@
            },
            HiveInitialisationError::ParseEvaluateError(_) => {
                "If you cannot resolve this problem, please create an issue."@
            },
            HiveInitialisationError::ParsePrefetchError(_) => "please create an issue."@,
            HiveInitialisationError::NodeDoesNotExist(_) => "Please create an issue!"@,
        }
    }

    /// What may help.
    pub fn help(&self) -> (s: String)
        ensures
            s@ == self.help_text(),
    {
        match self {
            HiveInitialisationError::NoHiveFound(_) => {
                "Double check the path is correct. You can adjust the hive path with `--path` when the hive lies outside of the CWD.".to_owned()
            },
            HiveInitialisationError::ParseEvaluateError(_) => {
                "If you cannot resolve this problem, please create an issue.".to_owned()
            },
            HiveInitialisationError::ParsePrefetchError(_) => {
                "please create an issue.".to_owned()
            },
            HiveInitialisationError::NodeDoesNotExist(_) => "Please create an issue!".to_owned(),
        }
    }
}

impl HiveLocationError {
    /// What is said of the error.
    pub open spec fn text(self) -> Seq<char> {
        match self {
            HiveLocationError::MalformedPath(path) => "Path was malformed: "@ + path@,
            HiveLocationError::Malformed(_) => "--path was malformed"@,
            HiveLocationError::TypeUnsupported(shown) => {
                "The flakref had an unsupported type: "@ + shown@
            },
        }
    }

    /// What is said of the error.
    pub fn to_string(&self) -> (s: String)
        ensures
            s@ == self.text(),
    {
        match self {
            HiveLocationError::MalformedPath(path) => {
                let mut s = "Path was malformed: ".to_owned();
                s.push_str(path.as_str());
                s
            },
            HiveLocationError::Malformed(_) => "--path was malformed".to_owned(),
            HiveLocationError::TypeUnsupported(shown) => {
                let mut s = "The flakref had an unsupported type: ".to_owned();
                s.push_str(shown.as_str());
                s
            },
        }
    }
}

impl CommandError {
    /// What is said of the error.
    pub open spec fn text(self) -> Seq<char> {
        match self {
            CommandError::NoHandle => "There was no handle to child io"@,
            CommandError::WaitForStatus(_) => "Failed to wait for the child's status"@,
            CommandError::CommandFailed { command_ran, logs, code, reason } => command_ran@
                + " failed ("@ + reason@ + ") with "@ + code@ + " (last 20 lines):\n"@ + logs@,
        }
    }

    /// What is said of the error.
    pub fn to_string(&self) -> (s: String)
        ensures
            s@ == self.text(),
    {
        match self {
            CommandError::NoHandle => "There was no handle to child io".to_owned(),
            CommandError::WaitForStatus(_) => "Failed to wait for the child's status".to_owned(),
            CommandError::CommandFailed { command_ran, logs, code, reason } => {
                let mut s = command_ran.clone();
                s.push_str(" failed (");
                s.push_str(reason.as_str());
                s.push_str(") with ");
                s.push_str(code.as_str());
                s.push_str(" (last 20 lines):\n");
                s.push_str(logs.as_str());
                s
            },
        }
    }
}

/// What is said of a platform that no key agent was built for.
pub open spec fn no_agent_text(arg_name: Seq<char>) -> Seq<char> {
    arg_name
        + " environment variable not set! \n\n                wire was not built with the ability to deploy keys to this platform. \n\n                Please create an issue: https://github.com/forallsys/wire/issues/new?template=bug_report.md"@
}

/// What is said of a path that was not copied.
pub open spec fn copy_text(path: Seq<char>, name: Seq<char>) -> Seq<char> {
    "failed to copy path "@ + path + " to node "@ + name
}

fn copy_failure(path: &SafeStorePath, name: &Name) -> (s: String)
    ensures
        s@ == copy_text(path@, name@),
{
    let mut s = "failed to copy path ".to_owned();
    s.push_str(path.to_absolute_path().as_str());
    s.push_str(" to node ");
    s.push_str(name.0.as_str());
    s
}

fn build_failure(name: &Name) -> (s: String)
    ensures
        s@ == "failed to build node "@ + name@,
{
    let mut s = "failed to build node ".to_owned();
    s.push_str(name.0.as_str());
    s
}

impl HiveLibError {
    /// What is said of the error.
    pub open spec fn text(self) -> Seq<char> {
        match self {
            HiveLibError::HiveInitialisationError(error) => error.text(),
            HiveLibError::NetworkError(error) => error.text(),
            HiveLibError::ActivationError(error) => error.text(),
            HiveLibError::CommandError(error) => error.text(),
            HiveLibError::HiveLocationError(error) => error.text(),
            HiveLibError::NixDaemonClientError(error) => error.text(),
            HiveLibError::StorePath(text) => text@,
            HiveLibError::KeyError(name, _) => "Failed to apply key "@ + name@,
            HiveLibError::NixBuildError { name, .. } => "failed to build node "@ + name@,
            HiveLibError::NixBuildCliError { name, .. } => "failed to build node "@ + name@,
            HiveLibError::NixCopyError { name, path, .. } => copy_text(path@, name@),
            HiveLibError::NixCopyCliError { name, path, .. } => copy_text(path@, name@),
            HiveLibError::NixEvalError { attribute, .. } => "failed to evaluate `"@ + attribute@
                + "` from the context of a hive."@,
            HiveLibError::KeyArchitectureNotFound { arg_name } => no_agent_text(arg_name@),
            HiveLibError::Encoding(_) => "error encoding length delimited data"@,
            HiveLibError::MissingStepOutput => {
                "the output of a step was needed that was never planned"@
            },
            HiveLibError::Sigint => "SIGINT received, shut down"@,
        }
    }

    /// What is said of the error.
    pub fn to_string(&self) -> (s: String)
        ensures
            s@ == self.text(),
    {
        match self {
            HiveLibError::HiveInitialisationError(error) => error.to_string(),
            HiveLibError::NetworkError(error) => error.to_string(),
            HiveLibError::ActivationError(error) => error.to_string(),
            HiveLibError::CommandError(error) => error.to_string(),
            HiveLibError::HiveLocationError(error) => error.to_string(),
            HiveLibError::NixDaemonClientError(error) => error.to_string(),
            HiveLibError::StorePath(text) => text.clone(),
            HiveLibError::KeyError(name, _) => {
                let mut s = "Failed to apply key ".to_owned();
                s.push_str(name.as_str());
                s
            },
            HiveLibError::NixBuildError { name, .. } => build_failure(name),
            HiveLibError::NixBuildCliError { name, .. } => build_failure(name),
            HiveLibError::NixCopyError { name, path, .. } => copy_failure(path, name),
            HiveLibError::NixCopyCliError { name, path, .. } => copy_failure(path, name),
            HiveLibError::NixEvalError { attribute, .. } => {
                let mut s = "failed to evaluate `".to_owned();
                s.push_str(attribute.as_str());
                s.push_str("` from the context of a hive.");
                s
            },
            HiveLibError::KeyArchitectureNotFound { arg_name } => {
                let mut s = arg_name.clone();
                s.push_str(
                    " environment variable not set! \n\n                wire was not built with the ability to deploy keys to this platform. \n\n                Please create an issue: https://github.com/forallsys/wire/issues/new?template=bug_report.md",
                );
                s
            },
            HiveLibError::Encoding(_) => "error encoding length delimited data".to_owned(),
            HiveLibError::MissingStepOutput => {
                "the output of a step was needed that was never planned".to_owned()
            },
            HiveLibError::Sigint => "SIGINT received, shut down".to_owned(),
        }
    }

    /// What is said of the error that led to this one, where there is one.
    pub open spec fn cause_text(self) -> Option<Seq<char>> {
        match self {
            HiveLibError::HiveInitialisationError(
                HiveInitialisationError::ParseEvaluateError(cause),
            ) => Some(cause@),
            HiveLibError::HiveInitialisationError(
                HiveInitialisationError::ParsePrefetchError(cause),
            ) => Some(cause@),
            HiveLibError::NetworkError(NetworkError::HostUnreachable { source, .. }) => Some(
                source.text(),
            ),
            HiveLibError::ActivationError(
                ActivationError::SwitchToConfigurationError(_, _, source),
            ) => Some(source.text()),
            HiveLibError::CommandError(CommandError::WaitForStatus(cause)) => Some(cause@),
            HiveLibError::HiveLocationError(HiveLocationError::Malformed(cause)) => Some(cause@),
            HiveLibError::NixDaemonClientError(error) => error.cause_text(),
            HiveLibError::KeyError(_, source) => Some(source.text()),
            HiveLibError::NixBuildError { source, .. } => Some(source.text()),
            HiveLibError::NixBuildCliError { source, .. } => Some(source.text()),
            HiveLibError::NixCopyError { error, .. } => Some(error.text()),
            HiveLibError::NixCopyCliError { error, .. } => Some(error.text()),
            HiveLibError::NixEvalError { source, .. } => Some(source.text()),
            HiveLibError::Encoding(cause) => Some(cause@),
            _ => None,
        }
    }

    /// What is said of the error that led to this one, where there is one.
    pub fn source(&self) -> (r: Option<String>)
        ensures
            match r {
                Some(s) => self.cause_text() == Some(s@),
                None => self.cause_text() is None,
            },
    {
        match self {
            HiveLibError::HiveInitialisationError(
                HiveInitialisationError::ParseEvaluateError(cause),
            ) => Some(cause.clone()),
            HiveLibError::HiveInitialisationError(
                HiveInitialisationError::ParsePrefetchError(cause),
            ) => Some(cause.clone()),
            HiveLibError::NetworkError(NetworkError::HostUnreachable { source, .. }) => Some(
                source.to_string(),
            ),
            HiveLibError::ActivationError(
                ActivationError::SwitchToConfigurationError(_, _, source),
            ) => Some(source.to_string()),
            HiveLibError::CommandError(CommandError::WaitForStatus(cause)) => Some(cause.clone()),
            HiveLibError::HiveLocationError(HiveLocationError::Malformed(cause)) => Some(
                cause.clone(),
            ),
            HiveLibError::NixDaemonClientError(error) => error.source(),
            HiveLibError::KeyError(_, source) => Some(source.to_string()),
            HiveLibError::NixBuildError { source, .. } => Some(source.to_string()),
            HiveLibError::NixBuildCliError { source, .. } => Some(source.to_string()),
            HiveLibError::NixCopyError { error, .. } => Some(error.to_string()),
            HiveLibError::NixCopyCliError { error, .. } => Some(error.to_string()),
            HiveLibError::NixEvalError { source, .. } => Some(source.to_string()),
            HiveLibError::Encoding(cause) => Some(cause.clone()),
            _ => None,
        }
    }

    /// What may help, where anything does.
    pub open spec fn help_text(self) -> Option<Seq<char>> {
        match self {
            HiveLibError::HiveInitialisationError(error) => Some(error.help_text()),
            HiveLibError::NetworkError(NetworkError::HostUnreachable { .. }) => Some(
                "If you failed due to a fault in DNS, note that a node can have multiple targets defined."@,
            ),
            HiveLibError::CommandError(CommandError::NoHandle) => Some(
                "This should never happen, please create an issue!"@,
            ),
            HiveLibError::CommandError(CommandError::CommandFailed { .. }) => Some(
                "`nix` commands are filtered, run with -vvv to view all"@,
            ),
            HiveLibError::NixCopyError { help: Some(help), .. } => Some(help@),
            HiveLibError::NixCopyCliError { help: Some(help), .. } => Some(help@),
            HiveLibError::NixEvalError { help: Some(help), .. } => Some(help@),
            _ => None,
        }
    }

    /// What may help, where anything does.
    pub fn help(&self) -> (r: Option<String>)
        ensures
            match r {
                Some(s) => self.help_text() == Some(s@),
                None => self.help_text() is None,
            },
    {
        match self {
            HiveLibError::HiveInitialisationError(error) => Some(error.help()),
            HiveLibError::NetworkError(NetworkError::HostUnreachable { .. }) => Some(
                "If you failed due to a fault in DNS, note that a node can have multiple targets defined.".to_owned(),
            ),
            HiveLibError::CommandError(CommandError::NoHandle) => Some(
                "This should never happen, please create an issue!".to_owned(),
            ),
            HiveLibError::CommandError(CommandError::CommandFailed { .. }) => Some(
                "`nix` commands are filtered, run with -vvv to view all".to_owned(),
            ),
            HiveLibError::NixCopyError { help: Some(help), .. } => Some(help.clone()),
            HiveLibError::NixCopyCliError { help: Some(help), .. } => Some(help.clone()),
            HiveLibError::NixEvalError { help: Some(help), .. } => Some(help.clone()),
            _ => None,
        }
    }
}

} // verus!
