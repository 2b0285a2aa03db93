//! Making a built system the one that a target runs.
use crate::hive::node::{Name, SwitchToConfigurationGoal, Target};
use crate::hive::steps::activate::Activation;
use crate::modifiers::SubCommandModifiers;
use crate::store_path::SafeStorePath;
use vstd::prelude::*;

verus! {

/// Runs `switch-to-configuration`, on the target where there is one.
#[derive(Debug)]
pub struct SwitchToConfiguration {
    pub goal: SwitchToConfigurationGoal,
    pub reboot: bool,
    pub target: Option<Target>,
    pub privilege_escalation_command: Vec<String>,
}

impl SwitchToConfiguration {
    /// The activation that the step is carried out by, once the system was built.
    pub fn execute(
        self,
        built_path: SafeStorePath,
        name: Name,
        modifiers: SubCommandModifiers,
    ) -> (r: Activation)
        ensures
            r == (Activation {
                step: crate::hive::steps::activate::SwitchToConfiguration {
                    goal: self.goal,
                    reboot: self.reboot,
                    privilege_escalation_command: self.privilege_escalation_command,
                },
                target: self.target,
                built_path,
                name,
                modifiers,
            }),
    {
        Activation {
            step: crate::hive::steps::activate::SwitchToConfiguration {
                goal: self.goal,
                reboot: self.reboot,
                privilege_escalation_command: self.privilege_escalation_command,
            },
            target: self.target,
            built_path,
            name,
            modifiers,
        }
    }
}

} // verus!
