//! Building the system of a node.
use crate::commands::builder::{slice_texts, with_args, with_args_appends, CommandStringBuilder};
use crate::commands::{ChildOutputMode, CommandArguments, CommandView};
use crate::errors::{CommandError, HiveLibError};
use crate::hive::node::{Name, Target};
use crate::hive::outputs::{
    has_none_of, is_first_output, AnyNodeOutput, AnyNodeOutputSliceExt, EvaluationNodeOutput,
    PushDerivationOutput,
};
use crate::modifiers::SubCommandModifiers;
use crate::nix_client::NixDaemonClientError;
use crate::store_path::SafeStorePath;
use crate::text::same;
use vstd::prelude::*;

verus! {

/// Where the nix command builds.
#[derive(Clone, Copy, Debug, PartialEq, Eq, Structural)]
pub enum NixCommandBuildMetadata {
    Locally,
    Remotely,
}

/// How a node is built.
#[derive(Clone, Copy, Debug, PartialEq, Eq, Structural)]
pub enum BuildMetadata {
    BuildWithNixDaemon,
    NixCommand(NixCommandBuildMetadata),
}

/// Builds the node.
#[derive(Debug)]
pub struct Build {
    pub metadata: BuildMetadata,
}

impl Build {
    /// The step as it is shown to the user.
    pub fn to_string(&self) -> (s: String)
        ensures
            s@ == "Build the node"@,
    {
        "Build the node".to_owned()
    }

    /// The derivation to build: what was evaluated, else what was copied. Where neither is handed on,
    /// it has to be evaluated first.
    pub fn derivation(&self, inputs: &Vec<AnyNodeOutput>) -> (r: Option<SafeStorePath>)
        ensures
            match r {
                Some(path) => is_first_output(inputs@, EvaluationNodeOutput(path)) || has_none_of::<
                    EvaluationNodeOutput,
                >(inputs@) && is_first_output(inputs@, PushDerivationOutput(path)),
                None => has_none_of::<EvaluationNodeOutput>(inputs@) && has_none_of::<
                    PushDerivationOutput,
                >(inputs@),
            },
    {
        match inputs.require::<EvaluationNodeOutput>() {
            Ok(found) => Some(found.0),
            Err(_) => match inputs.require::<PushDerivationOutput>() {
                Ok(found) => Some(found.0),
                Err(_) => None,
            },
        }
    }

    /// Where to build: on the node that answered, unless it is this machine that builds.
    pub fn place(&self, inputs: &Vec<AnyNodeOutput>) -> (r: Option<Target>)
        ensures
            match r {
                Some(target) => self.metadata != BuildMetadata::NixCommand(
                    NixCommandBuildMetadata::Locally,
                ) && is_first_output(inputs@, target),
                None => self.metadata == BuildMetadata::NixCommand(
                    NixCommandBuildMetadata::Locally,
                ) || has_none_of::<Target>(inputs@),
            },
    {
        if self.metadata == BuildMetadata::NixCommand(NixCommandBuildMetadata::Locally) {
            return None;
        }
        match inputs.require::<Target>() {
            Ok(target) => Some(target),
            Err(_) => None,
        }
    }
}

/// The command line that builds a derivation: its output `out`, and no other.
pub open spec fn build_command_line(top_level: Seq<char>, print_build_logs: bool) -> Seq<char> {
    with_args(
        "nix"@,
        seq![
            "--extra-experimental-features"@,
            "nix-command"@,
            "build"@,
            "--no-link"@,
            "--print-out-paths"@,
        ] + (if print_build_logs {
            seq!["--print-build-logs"@]
        } else {
            Seq::empty()
        }) + seq![top_level + "^out"@],
    )
}

/// The command that builds a derivation, on the target where there is one.
pub fn build_command(
    top_level: &SafeStorePath,
    target: Option<Target>,
    modifiers: SubCommandModifiers,
) -> (r: CommandArguments)
    ensures
        r@ == (CommandView {
            target: match target {
                Some(target) => Some(target@),
                None => None,
            },
            output_mode: ChildOutputMode::Nix,
            log_stdout: true,
            ..CommandView::plain(
                build_command_line(top_level@, modifiers.print_build_logs),
                modifiers,
            )
        }),
{
    let mut installable = top_level.to_absolute_path();
    installable.push_str("^out");

    let mut command_string = CommandStringBuilder::nix();
    command_string.args(
        &[
            "--extra-experimental-features",
            "nix-command",
            "build",
            "--no-link",
            "--print-out-paths",
        ],
    );
    command_string.opt_arg(modifiers.print_build_logs, "--print-build-logs");
    command_string.arg(installable.as_str());
    proof {
        let first = seq![
            "--extra-experimental-features"@,
            "nix-command"@,
            "build"@,
            "--no-link"@,
            "--print-out-paths"@,
        ];
        let logs = if modifiers.print_build_logs {
            seq!["--print-build-logs"@]
        } else {
            Seq::empty()
        };
        assert(slice_texts(
            seq![
                "--extra-experimental-features",
                "nix-command",
                "build",
                "--no-link",
                "--print-out-paths",
            ],
        ) =~= first);
        with_args_appends("nix"@, first, logs);
        with_args_appends("nix"@, first + logs, seq![installable@]);
    }
    CommandArguments::new(command_string.as_str(), modifiers).execute_on_remote(target).mode(
        ChildOutputMode::Nix,
    ).log_stdout()
}

/// What a build with the nix command comes to: the path that it printed.
pub fn conclude_build(
    status: Result<String, CommandError>,
    name: &Name,
) -> (r: Result<String, HiveLibError>)
    ensures
        match (status, r) {
            (Ok(stdout), Ok(printed)) => printed == stdout,
            (Err(error), Err(HiveLibError::NixBuildCliError { name: shown, source })) => shown
                == *name && source == error,
            _ => false,
        },
{
    match status {
        Ok(stdout) => Ok(stdout),
        Err(source) => Err(HiveLibError::NixBuildCliError { name: name.clone(), source }),
    }
}

/// Whether the output at `i` is the first under the given name.
pub open spec fn first_named(
    outputs: Seq<(String, Option<SafeStorePath>)>,
    name: Seq<char>,
    i: int,
) -> bool {
    &&& 0 <= i < outputs.len() && outputs[i].0@ == name
    &&& forall|k: int| 0 <= k < i ==> (#[trigger] outputs[k]).0@ != name
}

/// What is said of a derivation without a system.
pub open spec fn no_output_text(top_level: Seq<char>) -> Seq<char> {
    "Derivation "@ + top_level + " did not have output \"out\""@
}

/// The path of the system among the outputs of a derivation, by name.
pub fn system_output(
    outputs: Vec<(String, Option<SafeStorePath>)>,
    top_level: &SafeStorePath,
    name: &Name,
) -> (r: Result<SafeStorePath, HiveLibError>)
    ensures
        match r {
            Ok(path) => exists|i: int| #[trigger]
                first_named(outputs@, "out"@, i) && outputs@[i].1 == Some(path),
            Err(
                HiveLibError::NixBuildError {
                    name: shown,
                    source: NixDaemonClientError::NixDaemonInvalidResponse(text),
                },
            ) => {
                &&& shown == *name
                &&& text@ == no_output_text(top_level@)
                &&& forall|i: int| #[trigger]
                    first_named(outputs@, "out"@, i) ==> outputs@[i].1 is None
            },
            Err(_) => false,
        },
{
    let mut i: usize = 0;
    let len: usize = outputs.len();
    while i < len && !same(outputs[i].0.as_str(), "out")
        invariant
            i <= len == outputs@.len(),
            forall|k: int| 0 <= k < i ==> (#[trigger] outputs@[k]).0@ != "out"@,
        decreases len - i,
    {
        i = i + 1;
    }
    if i < len {
        assert(first_named(outputs@, "out"@, i as int));
        if let Some(path) = &outputs[i].1 {
            return Ok(path.clone());
        }
    }
    let mut text = "Derivation ".to_owned();
    text.push_str(top_level.to_absolute_path().as_str());
    text.push_str(" did not have output \"out\"");
    assert forall|k: int| #[trigger]
        first_named(outputs@, "out"@, k) implies outputs@[k].1 is None by {
        assert(k == i);
    }
    Err(
        HiveLibError::NixBuildError {
            name: name.clone(),
            source: NixDaemonClientError::NixDaemonInvalidResponse(text),
        },
    )
}

} // verus!
