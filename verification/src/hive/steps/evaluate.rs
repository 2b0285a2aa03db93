//! Evaluating the system of a node.
use crate::errors::{HiveInitialisationError, HiveLibError};
use crate::hive::outputs::{AnyNodeOutput, EvaluationNodeOutput};
use crate::json::{json_text, parse_text};
use crate::store_path::SafeStorePath;
use vstd::prelude::*;

verus! {

/// Evaluates the top level of the node, unless an evaluation is at hand already.
#[derive(Debug)]
pub struct Evaluate {
    pub cached_evaluation: Option<SafeStorePath>,
}

impl Evaluate {
    /// The step as it is shown to the user.
    pub fn to_string(&self) -> (s: String)
        ensures
            s@ == "Evaluate"@,
    {
        "Evaluate".to_owned()
    }

    /// The output of the step where nothing has to be evaluated.
    pub fn known_output(&self) -> (r: Option<AnyNodeOutput>)
        ensures
            match (self.cached_evaluation, r) {
                (Some(path), Some(AnyNodeOutput::Derivation(output))) => output.0 == path,
                (None, None) => true,
                _ => false,
            },
    {
        match &self.cached_evaluation {
            Some(path) => Some(AnyNodeOutput::Derivation(EvaluationNodeOutput(path.clone()))),
            None => None,
        }
    }
}

/// What an evaluation that printed JSON found: the text of a store path.
pub fn evaluated_text(text: Result<String, String>) -> (r: Result<String, HiveLibError>)
    ensures
        match (text, r) {
            (Ok(path), Ok(found)) => found == path,
            (
                Err(error),
                Err(
                    HiveLibError::HiveInitialisationError(
                        HiveInitialisationError::ParseEvaluateError(shown),
                    ),
                ),
            ) => shown == error,
            _ => false,
        },
{
    match text {
        Ok(path) => Ok(path),
        Err(error) => Err(
            HiveLibError::HiveInitialisationError(
                HiveInitialisationError::ParseEvaluateError(error),
            ),
        ),
    }
}

/// Reads what an evaluation printed.
pub fn read_evaluation(output: &str) -> (r: Result<String, HiveLibError>)
    ensures
        match (json_text(output@), r) {
            (Ok(path), Ok(found)) => found@ == path,
            (
                Err(error),
                Err(
                    HiveLibError::HiveInitialisationError(
                        HiveInitialisationError::ParseEvaluateError(shown),
                    ),
                ),
            ) => shown@ == error,
            _ => false,
        },
{
    evaluated_text(parse_text(output))
}

} // verus!
