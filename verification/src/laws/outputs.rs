//! What the steps of a plan hand on to each other.
use crate::hive::node::Target;
use crate::hive::outputs::{
    first_of_kind, has_none_of, is_first_output, AnyNodeOutput, BuildNodeOutput,
    EvaluationNodeOutput, KeysOutput, NodeOutput, PushBuildOutput, PushDerivationOutput,
    PushKeyAgentOutput, SwitchToConfigurationOutput,
};
use crate::hive::steps::push::PushOutput;
use crate::store_path::SafeStorePath;
use vstd::prelude::*;

verus! {

/// What a step hands on is found by what the step does.
pub proof fn outputs_are_told_apart(output: AnyNodeOutput)
    ensures
        <Target as NodeOutput>::is_kind_of(output) <==> output is Ping,
        EvaluationNodeOutput::is_kind_of(output) <==> output is Derivation,
        PushKeyAgentOutput::is_kind_of(output) <==> output is PushKeyAgent,
        PushDerivationOutput::is_kind_of(output) <==> output is PushDerivation,
        PushBuildOutput::is_kind_of(output) <==> output is PushBuildOutput,
        BuildNodeOutput::is_kind_of(output) <==> output is Build,
        SwitchToConfigurationOutput::is_kind_of(output) <==> output is SwitchToConfiguration,
        KeysOutput::is_kind_of(output) <==> output is Keys,
{
}

/// What is found among the inputs of a step is what was handed on, unchanged.
pub proof fn outputs_are_handed_on_unchanged(
    output: AnyNodeOutput,
    target: Target,
    path: SafeStorePath,
)
    ensures
        target.copies(output) <==> output is Ping && target@ == output->Ping_0@,
        EvaluationNodeOutput(path).copies(output) <==> output is Derivation
            && output->Derivation_0.0 == path,
        PushKeyAgentOutput(path).copies(output) <==> output is PushKeyAgent
            && output->PushKeyAgent_0.0 == path,
        PushDerivationOutput(path).copies(output) <==> output is PushDerivation
            && output->PushDerivation_0.0 == path,
        PushBuildOutput(path).copies(output) <==> output is PushBuildOutput
            && output->PushBuildOutput_0.0 == path,
        BuildNodeOutput(path).copies(output) <==> output is Build && output->Build_0.0 == path,
{
}

/// Of several outputs of a kind the first is found, and none only where there is none.
pub proof fn first_outputs_are_found<T: NodeOutput>(outputs: Seq<AnyNodeOutput>, at: int, found: T)
    requires
        0 <= at < outputs.len(),
        T::is_kind_of(outputs[at]),
        forall|k: int| 0 <= k < at ==> !T::is_kind_of(#[trigger] outputs[k]),
    ensures
        is_first_output(outputs, found) <==> found.copies(outputs[at]),
        !has_none_of::<T>(outputs),
        has_none_of::<T>(outputs.take(at)),
{
    assert(first_of_kind::<T>(outputs, at));
    if is_first_output(outputs, found) {
        let i = choose|i: int| #[trigger]
            first_of_kind::<T>(outputs, i) && found.copies(outputs[i]);
        if i < at {
            assert(!T::is_kind_of(outputs[i]));
        } else if i > at {
            assert(!T::is_kind_of(outputs[at]));
        }
    }
    assert forall|k: int| 0 <= k < at implies !T::is_kind_of(
        #[trigger] outputs.take(at)[k],
    ) by {
        assert(outputs.take(at)[k] == outputs[k]);
    }
}

/// An evaluation is copied where the evaluation is to be copied, and a build where that is: the
/// first among the inputs.
pub proof fn outputs_are_copied_as_asked(
    step: PushOutput,
    inputs: Seq<AnyNodeOutput>,
    at: int,
    path: SafeStorePath,
)
    requires
        0 <= at < inputs.len(),
    ensures
        step.kind is Evaluation && inputs[at] is Derivation && (forall|k: int|
            0 <= k < at ==> !(#[trigger] inputs[k] is Derivation)) ==> (step.copies(inputs, path)
            <==> inputs[at]->Derivation_0.0 == path),
        step.kind is Build && inputs[at] is Build && (forall|k: int|
            0 <= k < at ==> !(#[trigger] inputs[k] is Build)) ==> (step.copies(inputs, path)
            <==> inputs[at]->Build_0.0 == path),
        step.kind is Evaluation && inputs[at] is Derivation ==> step.has_source(inputs),
        step.kind is Build && inputs[at] is Build ==> step.has_source(inputs),
        step.kind is Evaluation && (forall|k: int|
            0 <= k < inputs.len() ==> !(#[trigger] inputs[k] is Derivation)) ==> !step.has_source(
            inputs,
        ),
        step.kind is Build && (forall|k: int|
            0 <= k < inputs.len() ==> !(#[trigger] inputs[k] is Build)) ==> !step.has_source(
            inputs,
        ),
{
    if step.kind is Evaluation && inputs[at] is Derivation && (forall|k: int|
        0 <= k < at ==> !(#[trigger] inputs[k] is Derivation)) {
        let first = EvaluationNodeOutput(path);
        assert forall|k: int| 0 <= k < at implies !EvaluationNodeOutput::is_kind_of(
            #[trigger] inputs[k],
        ) by {
            assert(!(inputs[k] is Derivation));
        }
        first_outputs_are_found(inputs, at, first);
    }
    if step.kind is Build && inputs[at] is Build && (forall|k: int|
        0 <= k < at ==> !(#[trigger] inputs[k] is Build)) {
        let first = BuildNodeOutput(path);
        assert forall|k: int| 0 <= k < at implies !BuildNodeOutput::is_kind_of(
            #[trigger] inputs[k],
        ) by {
            assert(!(inputs[k] is Build));
        }
        first_outputs_are_found(inputs, at, first);
    }
}

} // verus!
