//! What steps hand on to the steps that wait for them.
use crate::errors::HiveLibError;
use crate::hive::node::Target;
use crate::store_path::SafeStorePath;
use vstd::prelude::*;

verus! {

/// Where a pushed path comes from.
#[derive(Clone, Copy, Debug, PartialEq, Eq, Structural)]
pub enum PushSource {
    Evaluation,
    Build,
    KeyAgent,
}

/// The derivation that an evaluation found.
#[derive(Debug)]
pub struct EvaluationNodeOutput(pub SafeStorePath);

/// The system that was copied.
#[derive(Debug)]
pub struct PushBuildOutput(pub SafeStorePath);

/// The derivation that was copied.
#[derive(Debug)]
pub struct PushDerivationOutput(pub SafeStorePath);

/// The key agent that was copied.
#[derive(Debug)]
pub struct PushKeyAgentOutput(pub SafeStorePath);

/// The system that was built.
#[derive(Debug)]
pub struct BuildNodeOutput(pub SafeStorePath);

/// That a system was activated.
#[derive(Clone, Copy, Debug)]
pub struct SwitchToConfigurationOutput(pub ());

/// That keys were uploaded.
#[derive(Clone, Copy, Debug)]
pub struct KeysOutput(pub ());

/// The output of any step.
#[derive(Debug)]
pub enum AnyNodeOutput {
    Ping(Target),
    Derivation(EvaluationNodeOutput),
    PushKeyAgent(PushKeyAgentOutput),
    PushDerivation(PushDerivationOutput),
    PushBuildOutput(PushBuildOutput),
    Build(BuildNodeOutput),
    SwitchToConfiguration(SwitchToConfigurationOutput),
    Keys(KeysOutput),
}

/// A kind of output that a step can ask for.
pub trait NodeOutput: Sized {
    /// Whether `output` is of this kind and `self` is a copy of it.
    spec fn copies(self, output: AnyNodeOutput) -> bool;

    /// Whether `output` is of this kind.
    spec fn is_kind_of(output: AnyNodeOutput) -> bool;

    /// A copy of the output, where it is of this kind.
    fn from_output(output: &AnyNodeOutput) -> (r: Option<Self>)
        ensures
            match r {
                Some(found) => Self::is_kind_of(*output) && found.copies(*output),
                None => !Self::is_kind_of(*output),
            },
    ;
}

impl NodeOutput for Target {
    open spec fn copies(self, output: AnyNodeOutput) -> bool {
        output matches AnyNodeOutput::Ping(target) && self@ == target@
    }

    open spec fn is_kind_of(output: AnyNodeOutput) -> bool {
        output is Ping
    }

    fn from_output(output: &AnyNodeOutput) -> (r: Option<Self>) {
        match output {
            AnyNodeOutput::Ping(target) => Some(target.clone()),
            _ => None,
        }
    }
}

impl NodeOutput for EvaluationNodeOutput {
    open spec fn copies(self, output: AnyNodeOutput) -> bool {
        output == AnyNodeOutput::Derivation(self)
    }

    open spec fn is_kind_of(output: AnyNodeOutput) -> bool {
        output is Derivation
    }

    fn from_output(output: &AnyNodeOutput) -> (r: Option<Self>) {
        match output {
            AnyNodeOutput::Derivation(found) => Some(EvaluationNodeOutput(found.0.clone())),
            _ => None,
        }
    }
}

impl NodeOutput for PushKeyAgentOutput {
    open spec fn copies(self, output: AnyNodeOutput) -> bool {
        output == AnyNodeOutput::PushKeyAgent(self)
    }

    open spec fn is_kind_of(output: AnyNodeOutput) -> bool {
        output is PushKeyAgent
    }

    fn from_output(output: &AnyNodeOutput) -> (r: Option<Self>) {
        match output {
            AnyNodeOutput::PushKeyAgent(found) => Some(PushKeyAgentOutput(found.0.clone())),
            _ => None,
        }
    }
}

impl NodeOutput for PushDerivationOutput {
    open spec fn copies(self, output: AnyNodeOutput) -> bool {
        output == AnyNodeOutput::PushDerivation(self)
    }

    open spec fn is_kind_of(output: AnyNodeOutput) -> bool {
        output is PushDerivation
    }

    fn from_output(output: &AnyNodeOutput) -> (r: Option<Self>) {
        match output {
            AnyNodeOutput::PushDerivation(found) => Some(PushDerivationOutput(found.0.clone())),
            _ => None,
        }
    }
}

impl NodeOutput for PushBuildOutput {
    open spec fn copies(self, output: AnyNodeOutput) -> bool {
        output == AnyNodeOutput::PushBuildOutput(self)
    }

    open spec fn is_kind_of(output: AnyNodeOutput) -> bool {
        output is PushBuildOutput
    }

    fn from_output(output: &AnyNodeOutput) -> (r: Option<Self>) {
        match output {
            AnyNodeOutput::PushBuildOutput(found) => Some(PushBuildOutput(found.0.clone())),
            _ => None,
        }
    }
}

impl NodeOutput for BuildNodeOutput {
    open spec fn copies(self, output: AnyNodeOutput) -> bool {
        output == AnyNodeOutput::Build(self)
    }

    open spec fn is_kind_of(output: AnyNodeOutput) -> bool {
        output is Build
    }

    fn from_output(output: &AnyNodeOutput) -> (r: Option<Self>) {
        match output {
            AnyNodeOutput::Build(found) => Some(BuildNodeOutput(found.0.clone())),
            _ => None,
        }
    }
}

impl NodeOutput for SwitchToConfigurationOutput {
    open spec fn copies(self, output: AnyNodeOutput) -> bool {
        output == AnyNodeOutput::SwitchToConfiguration(self)
    }

    open spec fn is_kind_of(output: AnyNodeOutput) -> bool {
        output is SwitchToConfiguration
    }

    fn from_output(output: &AnyNodeOutput) -> (r: Option<Self>) {
        match output {
            AnyNodeOutput::SwitchToConfiguration(found) => Some(*found),
            _ => None,
        }
    }
}

impl NodeOutput for KeysOutput {
    open spec fn copies(self, output: AnyNodeOutput) -> bool {
        output == AnyNodeOutput::Keys(self)
    }

    open spec fn is_kind_of(output: AnyNodeOutput) -> bool {
        output is Keys
    }

    fn from_output(output: &AnyNodeOutput) -> (r: Option<Self>) {
        match output {
            AnyNodeOutput::Keys(found) => Some(*found),
            _ => None,
        }
    }
}

/// Whether the output at `i` is the first of its kind.
pub open spec fn first_of_kind<T: NodeOutput>(outputs: Seq<AnyNodeOutput>, i: int) -> bool {
    &&& 0 <= i < outputs.len() && T::is_kind_of(outputs[i])
    &&& forall|k: int| 0 <= k < i ==> !T::is_kind_of(#[trigger] outputs[k])
}

/// Whether this is the first of its kind among the outputs.
pub open spec fn is_first_output<T: NodeOutput>(outputs: Seq<AnyNodeOutput>, found: T) -> bool {
    exists|i: int| #[trigger] first_of_kind::<T>(outputs, i) && found.copies(outputs[i])
}

/// Whether no output is of the kind.
pub open spec fn has_none_of<T: NodeOutput>(outputs: Seq<AnyNodeOutput>) -> bool {
    forall|i: int| 0 <= i < outputs.len() ==> !T::is_kind_of(#[trigger] outputs[i])
}

/// Asking the inputs of a step for an output of a given kind.
pub trait AnyNodeOutputSliceExt {
    /// The inputs.
    spec fn inputs(&self) -> Seq<AnyNodeOutput>;

    /// A copy of the first output of the kind, or an error where there is none.
    fn require<T: NodeOutput>(&self) -> (r: Result<T, HiveLibError>)
        ensures
            match r {
                Ok(found) => is_first_output(self.inputs(), found),
                Err(error) => error == HiveLibError::MissingStepOutput && has_none_of::<T>(
                    self.inputs(),
                ),
            },
    ;
}

impl AnyNodeOutputSliceExt for Vec<AnyNodeOutput> {
    open spec fn inputs(&self) -> Seq<AnyNodeOutput> {
        self@
    }

    fn require<T: NodeOutput>(&self) -> (r: Result<T, HiveLibError>) {
        for i in 0..self.len()
            invariant
                forall|k: int| 0 <= k < i ==> !T::is_kind_of(#[trigger] self@[k]),
        {
            if let Some(found) = T::from_output(&self[i]) {
                assert(first_of_kind::<T>(self.inputs(), i as int));
                return Ok(found);
            }
        }
        Err(HiveLibError::MissingStepOutput)
    }
}

} // verus!
