//! The steps of a plan that is carried out one step after the other. Each step names the
//! target that it works on.
pub mod activate;

use crate::execute::activate::SwitchToConfiguration;
use crate::hive::node::{SwitchToConfigurationGoal, Target, TargetView};
use crate::hive::steps::keys::{key_views, Key, KeyView};
use crate::text::texts;
use vstd::prelude::*;

verus! {

/// Finds a host that answers.
#[derive(Debug)]
pub struct Ping;

/// Finds the key agent, and copies it to the target where there is one.
#[derive(Debug)]
pub struct PushKeyAgent {
    pub substitute_on_destination: bool,
    pub host_platform: String,
    pub target: Option<Target>,
}

/// Uploads keys.
#[derive(Debug)]
pub struct Keys {
    pub keys: Vec<Key>,
    pub target: Option<Target>,
    pub privilege_escalation_command: Vec<String>,
}

/// Waits for the evaluation.
#[derive(Debug)]
pub struct Evaluate;

/// Copies the evaluated derivation to the target.
#[derive(Debug)]
pub struct PushEvaluatedOutput {
    pub substitute_on_destination: bool,
    pub target: Target,
}

/// Builds the system, on the target where there is one.
#[derive(Debug)]
pub struct Build {
    pub target: Option<Target>,
}

/// Copies the built system to the target.
#[derive(Debug)]
pub struct PushBuildOutput {
    pub substitute_on_destination: bool,
    pub target: Target,
}

/// A step.
#[allow(inconsistent_fields)]
#[derive(Debug)]
pub enum Step {
    Ping(Ping),
    PushKeyAgent(PushKeyAgent),
    Keys(Keys),
    Evaluate(Evaluate),
    PushEvaluatedOutput(PushEvaluatedOutput),
    Build(Build),
    PushBuildOutput(PushBuildOutput),
    SwitchToConfiguration(SwitchToConfiguration),
}

/// What a step holds.
#[allow(inconsistent_fields)]
#[verifier::ext_equal]
pub ghost enum StepView {
    Ping,
    PushKeyAgent {
        substitute_on_destination: bool,
        host_platform: Seq<char>,
        target: Option<TargetView>,
    },
    Keys {
        keys: Seq<KeyView>,
        target: Option<TargetView>,
        privilege_escalation_command: Seq<Seq<char>>,
    },
    Evaluate,
    PushEvaluatedOutput { substitute_on_destination: bool, target: TargetView },
    Build { target: Option<TargetView> },
    PushBuildOutput { substitute_on_destination: bool, target: TargetView },
    SwitchToConfiguration {
        goal: SwitchToConfigurationGoal,
        reboot: bool,
        target: Option<TargetView>,
        privilege_escalation_command: Seq<Seq<char>>,
    },
}

/// What a target holds, where there is one.
pub open spec fn target_view(target: Option<Target>) -> Option<TargetView> {
    match target {
        Some(target) => Some(target@),
        None => None,
    }
}

impl View for Step {
    type V = StepView;

    open spec fn view(&self) -> StepView {
        match *self {
            Step::Ping(_) => StepView::Ping,
            Step::PushKeyAgent(step) => StepView::PushKeyAgent {
                substitute_on_destination: step.substitute_on_destination,
                host_platform: step.host_platform@,
                target: target_view(step.target),
            },
            Step::Keys(step) => StepView::Keys {
                keys: key_views(step.keys@),
                target: target_view(step.target),
                privilege_escalation_command: texts(step.privilege_escalation_command@),
            },
            Step::Evaluate(_) => StepView::Evaluate,
            Step::PushEvaluatedOutput(step) => StepView::PushEvaluatedOutput {
                substitute_on_destination: step.substitute_on_destination,
                target: step.target@,
            },
            Step::Build(step) => StepView::Build { target: target_view(step.target) },
            Step::PushBuildOutput(step) => StepView::PushBuildOutput {
                substitute_on_destination: step.substitute_on_destination,
                target: step.target@,
            },
            Step::SwitchToConfiguration(step) => StepView::SwitchToConfiguration {
                goal: step.goal,
                reboot: step.reboot,
                target: target_view(step.target),
                privilege_escalation_command: texts(step.privilege_escalation_command@),
            },
        }
    }
}

/// What a sequence of steps holds.
pub open spec fn step_views(steps: Seq<Step>) -> Seq<StepView> {
    steps.map_values(|step: Step| step@)
}

} // verus!
