//! Copying an output of a plan to the node.
use crate::errors::HiveLibError;
use crate::hive::node::{Push, Target};
use crate::hive::outputs::{
    first_of_kind, AnyNodeOutput, AnyNodeOutputSliceExt, BuildNodeOutput, EvaluationNodeOutput,
    NodeOutput, PushBuildOutput, PushDerivationOutput,
};
use crate::store_path::SafeStorePath;
use vstd::prelude::*;

verus! {

/// Which output is copied.
#[derive(Clone, Copy, Debug, PartialEq, Eq, Structural)]
pub enum PushOutputKind {
    Evaluation,
    Build,
}

/// Copies the evaluated derivation or the built system to the node.
#[derive(Debug)]
pub struct PushOutput {
    pub substitute_on_destination: bool,
    pub kind: PushOutputKind,
}

impl PushOutput {
    /// How the step reads to the user.
    pub open spec fn shown(self) -> Seq<char> {
        "Push "@ + match self.kind {
            PushOutputKind::Evaluation => "evaluation"@,
            PushOutputKind::Build => "build"@,
        } + " output"@
    }

    /// The step as it is shown to the user.
    pub fn to_string(&self) -> (s: String)
        ensures
            s@ == self.shown(),
    {
        let mut s = "Push ".to_owned();
        s.push_str(
            match self.kind {
                PushOutputKind::Evaluation => "evaluation",
                PushOutputKind::Build => "build",
            },
        );
        s.push_str(" output");
        s
    }

    /// Whether `path` is what the inputs give this step to copy: the first output of its kind.
    pub open spec fn copies(self, inputs: Seq<AnyNodeOutput>, path: SafeStorePath) -> bool {
        match self.kind {
            PushOutputKind::Evaluation => exists|i: int| #[trigger]
                first_of_kind::<EvaluationNodeOutput>(inputs, i) && EvaluationNodeOutput(
                    path,
                ).copies(inputs[i]),
            PushOutputKind::Build => exists|i: int| #[trigger]
                first_of_kind::<BuildNodeOutput>(inputs, i) && BuildNodeOutput(path).copies(
                    inputs[i],
                ),
        }
    }

    /// Whether the inputs give this step something to copy.
    pub open spec fn has_source(self, inputs: Seq<AnyNodeOutput>) -> bool {
        exists|i: int|
            0 <= i < inputs.len() && match self.kind {
                PushOutputKind::Evaluation => (#[trigger] inputs[i]) is Derivation,
                PushOutputKind::Build => inputs[i] is Build,
            }
    }

    /// The path to copy and the target to copy it to, both from the inputs.
    pub fn select(
        &self,
        inputs: &Vec<AnyNodeOutput>,
    ) -> (r: Result<(SafeStorePath, Target), HiveLibError>)
        ensures
            match r {
                Ok((path, target)) => self.copies(inputs@, path) && exists|i: int| #[trigger]
                    first_of_kind::<Target>(inputs@, i) && target.copies(inputs@[i]),
                Err(error) => error == HiveLibError::MissingStepOutput && (!self.has_source(inputs@)
                    || forall|i: int|
                    0 <= i < inputs@.len() ==> !((#[trigger] inputs@[i]) is Ping)),
            },
    {
        let path = match self.kind {
            PushOutputKind::Evaluation => match inputs.require::<EvaluationNodeOutput>() {
                Ok(output) => output.0,
                Err(error) => {
                    assert forall|i: int| 0 <= i < inputs@.len() implies !((
                    #[trigger] inputs@[i]) is Derivation) by {
                        assert(!EvaluationNodeOutput::is_kind_of(inputs.inputs()[i]));
                    }
                    return Err(error);
                },
            },
            PushOutputKind::Build => match inputs.require::<BuildNodeOutput>() {
                Ok(output) => output.0,
                Err(error) => {
                    assert forall|i: int| 0 <= i < inputs@.len() implies !((
                    #[trigger] inputs@[i]) is Build) by {
                        assert(!BuildNodeOutput::is_kind_of(inputs.inputs()[i]));
                    }
                    return Err(error);
                },
            },
        };
        match inputs.require::<Target>() {
            Ok(target) => Ok((path, target)),
            Err(error) => {
                assert forall|i: int| 0 <= i < inputs@.len() implies !((
                #[trigger] inputs@[i]) is Ping) by {
                    assert(!<Target as NodeOutput>::is_kind_of(inputs.inputs()[i]));
                }
                Err(error)
            },
        }
    }

    /// How the path is copied: with a derivation comes what it is built from.
    pub fn push_of<'a>(&self, path: &'a SafeStorePath) -> (r: Push<'a>)
        ensures
            r == match self.kind {
                PushOutputKind::Evaluation => Push::Derivation(path),
                PushOutputKind::Build => Push::Path(path),
            },
    {
        match self.kind {
            PushOutputKind::Evaluation => Push::Derivation(path),
            PushOutputKind::Build => Push::Path(path),
        }
    }

    /// What the step hands on once the path was copied.
    pub fn output_of(&self, path: SafeStorePath) -> (r: AnyNodeOutput)
        ensures
            r == match self.kind {
                PushOutputKind::Evaluation => AnyNodeOutput::PushDerivation(
                    PushDerivationOutput(path),
                ),
                PushOutputKind::Build => AnyNodeOutput::PushBuildOutput(PushBuildOutput(path)),
            },
    {
        match self.kind {
            PushOutputKind::Evaluation => AnyNodeOutput::PushDerivation(
                PushDerivationOutput(path),
            ),
            PushOutputKind::Build => AnyNodeOutput::PushBuildOutput(PushBuildOutput(path)),
        }
    }
}

} // verus!
