//! Making a built system the one that a node runs.
use crate::commands::builder::{slice_texts, with_args, with_args_appends, CommandStringBuilder};
use crate::commands::{ChildOutputMode, CommandArguments, CommandView};
use crate::errors::{ActivationError, CommandError, HiveLibError, NetworkError};
use crate::hive::node::{Name, SwitchToConfigurationGoal, Target};
use crate::hive::outputs::{
    has_none_of, is_first_output, AnyNodeOutput, AnyNodeOutputSliceExt, BuildNodeOutput,
    PushBuildOutput,
};
use crate::modifiers::SubCommandModifiers;
use crate::store_path::SafeStorePath;
use crate::text::{decimal, decimal_of, joined, texts, trimmed};
use vstd::prelude::*;

verus! {

/// Runs `switch-to-configuration`.
#[derive(Debug)]
pub struct SwitchToConfiguration {
    pub goal: SwitchToConfigurationGoal,
    pub reboot: bool,
    pub privilege_escalation_command: Vec<String>,
}

impl SwitchToConfiguration {
    /// The step as it is shown to the user.
    pub fn to_string(&self) -> (s: String)
        ensures
            s@ == "Activation"@,
    {
        "Activation".to_owned()
    }

    /// The system to activate: what was copied, else what was built.
    pub fn built_path(&self, inputs: &Vec<AnyNodeOutput>) -> (r: Result<
        SafeStorePath,
        HiveLibError,
    >)
        ensures
            match r {
                Ok(path) => is_first_output(inputs@, PushBuildOutput(path)) || has_none_of::<
                    PushBuildOutput,
                >(inputs@) && is_first_output(inputs@, BuildNodeOutput(path)),
                Err(error) => error == HiveLibError::MissingStepOutput && has_none_of::<
                    PushBuildOutput,
                >(inputs@) && has_none_of::<BuildNodeOutput>(inputs@),
            },
    {
        match inputs.require::<PushBuildOutput>() {
            Ok(found) => Ok(found.0),
            Err(_) => match inputs.require::<BuildNodeOutput>() {
                Ok(found) => Ok(found.0),
                Err(error) => Err(error),
            },
        }
    }
}

/// How often a lost node is pinged before it is given up.
pub const MAX_ATTEMPTS: u32 = 10;

/// How many seconds pass between two pings of a lost node.
pub const PING_INTERVAL: u64 = 30;

/// An activation: what is activated, where, and with which settings. Without a target this
/// machine is meant.
#[derive(Debug)]
pub struct Activation {
    pub step: SwitchToConfiguration,
    pub target: Option<Target>,
    pub built_path: SafeStorePath,
    pub name: Name,
    pub modifiers: SubCommandModifiers,
}

/// Why a node has to answer again.
#[derive(Debug)]
pub enum Lost {
    /// It was restarted.
    Rebooted,
    /// Its activation failed.
    Failed(CommandError),
}

/// What is said before a lost node is pinged.
pub open spec fn ping_text(host: Seq<char>, attempt: u32) -> Seq<char> {
    "Trying to ping "@ + host + " (attempt "@ + decimal(attempt as nat) + "/"@ + decimal(
        MAX_ATTEMPTS as nat,
    ) + ")"@
}

/// What is said before a lost node is pinged.
pub fn ping_note(host: &str, attempt: u32) -> (s: String)
    ensures
        s@ == ping_text(host@, attempt),
{
    let mut s = "Trying to ping ".to_owned();
    s.push_str(host);
    s.push_str(" (attempt ");
    s.push_str(decimal_of(attempt as u64).as_str());
    s.push_str("/");
    s.push_str(decimal_of(MAX_ATTEMPTS as u64).as_str());
    s.push_str(")");
    s
}

/// What is said when a lost node answers.
pub open spec fn regained_text(name: Seq<char>, host: Seq<char>) -> Seq<char> {
    "Regained connection to "@ + name + " via "@ + host
}

/// What is said when a lost node answers.
pub fn regained_note(name: &Name, host: &str) -> (s: String)
    ensures
        s@ == regained_text(name@, host@),
{
    let mut s = "Regained connection to ".to_owned();
    s.push_str(name.0.as_str());
    s.push_str(" via ");
    s.push_str(host);
    s
}

/// How far an activation is.
#[derive(Debug)]
pub enum ActivationState {
    /// The system profile is being set.
    SettingProfile,
    /// `switch-to-configuration` runs.
    Activating,
    /// The node is told to restart.
    Rebooting,
    /// The node is being pinged, for the given time.
    Pinging(Lost, u32),
    /// The node did not answer for the given time, and is left alone for a while.
    Resting(Lost, u32),
    /// The activation is over.
    Done,
}

/// What happened.
#[derive(Debug)]
pub enum ActivationEvent {
    /// The command could not be run.
    NotRun(HiveLibError),
    /// The command ended.
    Ended(Result<(), CommandError>),
    /// The ping ended, with or without an answer.
    Pinged(bool),
    /// The while has passed.
    Rested,
}

/// What to do next.
#[derive(Debug)]
pub enum ActivationAction {
    Run(CommandArguments),
    /// Ping the node, for the given time.
    Ping(u32),
    /// Wait for so many seconds.
    Rest(u64),
    Finish(Result<(), HiveLibError>),
}

/// What an action holds.
pub ghost enum ActionView {
    Run(CommandView),
    Ping(u32),
    Rest(u64),
    Finish(Result<(), HiveLibError>),
}

impl View for ActivationAction {
    type V = ActionView;

    open spec fn view(&self) -> ActionView {
        match *self {
            ActivationAction::Run(command) => ActionView::Run(command@),
            ActivationAction::Ping(attempt) => ActionView::Ping(attempt),
            ActivationAction::Rest(seconds) => ActionView::Rest(seconds),
            ActivationAction::Finish(result) => ActionView::Finish(result),
        }
    }
}

impl ActivationState {
    /// Whether an event can happen in this state.
    pub open spec fn awaits(self, event: ActivationEvent) -> bool {
        match self {
            ActivationState::SettingProfile | ActivationState::Activating
            | ActivationState::Rebooting => event is NotRun || event is Ended,
            ActivationState::Pinging(_, _) => event is Pinged,
            ActivationState::Resting(_, _) => event is Rested,
            ActivationState::Done => false,
        }
    }
}

impl SwitchToConfigurationGoal {
    /// How `switch-to-configuration` names the goal.
    pub open spec fn word(self) -> Seq<char> {
        match self {
            SwitchToConfigurationGoal::Switch => "switch"@,
            SwitchToConfigurationGoal::Boot => "boot"@,
            SwitchToConfigurationGoal::Test => "test"@,
            SwitchToConfigurationGoal::DryActivate => "dry-activate"@,
        }
    }
}

impl Activation {
    /// A privileged command on the node.
    pub open spec fn privileged(self, command: Seq<char>) -> CommandView {
        CommandView {
            target: match self.target {
                Some(target) => Some(target@),
                None => None,
            },
            privilege_escalation_command: Some(
                joined(texts(self.step.privilege_escalation_command@), " "@),
            ),
            ..CommandView::plain(command, self.modifiers)
        }
    }

    /// The command that sets the system profile.
    pub open spec fn profile_command(self) -> CommandView {
        CommandView {
            output_mode: ChildOutputMode::Nix,
            ..self.privileged(
                with_args(
                    trimmed("nix-env"@),
                    seq!["-p"@, "/nix/var/nix/profiles/system"@, "--set"@, self.built_path@],
                ),
            )
        }
    }

    /// The command that activates the system.
    pub open spec fn switch_command(self) -> CommandView {
        CommandView {
            log_stdout: true,
            ..self.privileged(
                with_args(
                    trimmed(self.built_path@ + "/bin/switch-to-configuration"@),
                    seq![self.step.goal.word()],
                ),
            )
        }
    }

    /// The command that restarts the node.
    pub open spec fn reboot_command(self) -> CommandView {
        CommandView { log_stdout: true, ..self.privileged("reboot now"@) }
    }

    /// The error of an activation that failed on a node that answers.
    pub open spec fn failure(self, error: CommandError) -> HiveLibError {
        HiveLibError::ActivationError(
            ActivationError::SwitchToConfigurationError(self.step.goal, self.name, error),
        )
    }

    /// The error of a node that no longer answers.
    pub open spec fn unreachable(self) -> HiveLibError {
        let target = self.target->0;
        if target.current_host < target.hosts@.len() {
            HiveLibError::NetworkError(
                NetworkError::HostUnreachableAfterReboot(
                    target.hosts@[target.current_host as int],
                ),
            )
        } else {
            HiveLibError::NetworkError(NetworkError::HostsExhausted)
        }
    }

    /// How the activation begins: a system that is to survive a restart becomes the system
    /// profile first.
    pub open spec fn first(self) -> (ActivationState, ActionView) {
        if self.step.goal == SwitchToConfigurationGoal::Switch || self.step.goal
            == SwitchToConfigurationGoal::Boot {
            (ActivationState::SettingProfile, ActionView::Run(self.profile_command()))
        } else {
            (ActivationState::Activating, ActionView::Run(self.switch_command()))
        }
    }

    /// How a lost node is looked for: with a ping, unless it has no host left.
    pub open spec fn look_for(self, lost: Lost) -> (ActivationState, ActionView) {
        if self.target->0.current_host < self.target->0.hosts@.len() {
            (ActivationState::Pinging(lost, 1), ActionView::Ping(1))
        } else {
            (ActivationState::Done, ActionView::Finish(Err(self.unreachable())))
        }
    }

    /// How the activation goes on after an event.
    pub open spec fn after(
        self,
        state: ActivationState,
        event: ActivationEvent,
    ) -> (ActivationState, ActionView) {
        match (state, event) {
            (_, ActivationEvent::NotRun(error)) => (
                ActivationState::Done,
                ActionView::Finish(Err(error)),
            ),
            (ActivationState::SettingProfile, ActivationEvent::Ended(Ok(()))) => (
                ActivationState::Activating,
                ActionView::Run(self.switch_command()),
            ),
            (ActivationState::SettingProfile, ActivationEvent::Ended(Err(error))) => (
                ActivationState::Done,
                ActionView::Finish(Err(HiveLibError::CommandError(error))),
            ),
            (ActivationState::Activating, ActivationEvent::Ended(Ok(()))) => {
                // this machine is never restarted
                if self.step.reboot && self.target is Some {
                    (ActivationState::Rebooting, ActionView::Run(self.reboot_command()))
                } else {
                    (ActivationState::Done, ActionView::Finish(Ok(())))
                }
            },
            (ActivationState::Activating, ActivationEvent::Ended(Err(error))) => {
                // a dry activation cannot break the system, and this machine cannot be lost
                if self.target is Some && self.step.goal
                    != SwitchToConfigurationGoal::DryActivate {
                    self.look_for(Lost::Failed(error))
                } else {
                    (ActivationState::Done, ActionView::Finish(Err(self.failure(error))))
                }
            },
            (ActivationState::Rebooting, ActivationEvent::Ended(Ok(()))) => self.look_for(
                Lost::Rebooted,
            ),
            (ActivationState::Rebooting, ActivationEvent::Ended(Err(error))) => (
                ActivationState::Done,
                ActionView::Finish(Err(HiveLibError::CommandError(error))),
            ),
            (ActivationState::Pinging(lost, _), ActivationEvent::Pinged(true)) => (
                ActivationState::Done,
                ActionView::Finish(
                    match lost {
                        Lost::Rebooted => Ok(()),
                        Lost::Failed(error) => Err(self.failure(error)),
                    },
                ),
            ),
            (ActivationState::Pinging(lost, attempt), ActivationEvent::Pinged(false)) => {
                if attempt < MAX_ATTEMPTS {
                    (ActivationState::Resting(lost, attempt), ActionView::Rest(PING_INTERVAL))
                } else {
                    (ActivationState::Done, ActionView::Finish(Err(self.unreachable())))
                }
            },
            (ActivationState::Resting(lost, attempt), ActivationEvent::Rested) => (
                ActivationState::Pinging(lost, (attempt + 1) as u32),
                ActionView::Ping((attempt + 1) as u32),
            ),
            (state, _) => (state, ActionView::Finish(Ok(()))),
        }
    }

    /// Whether the activation can be in a state: only a node that is not this machine is restarted
    /// or looked for, and it is given up after the last ping.
    pub open spec fn can_be_in(self, state: ActivationState) -> bool {
        match state {
            ActivationState::Rebooting => self.target is Some && self.step.reboot,
            ActivationState::Pinging(lost, attempt) => self.target is Some && 1 <= attempt
                <= MAX_ATTEMPTS && (lost is Rebooted ==> self.step.reboot),
            ActivationState::Resting(lost, attempt) => self.target is Some && 1 <= attempt
                < MAX_ATTEMPTS && (lost is Rebooted ==> self.step.reboot),
            _ => true,
        }
    }

    fn on_target(&self) -> (r: Option<Target>)
        ensures
            match r {
                Some(target) => self.target matches Some(own) && target@ == own@,
                None => self.target is None,
            },
    {
        match &self.target {
            Some(target) => Some(target.clone()),
            None => None,
        }
    }

    fn set_profile(&self) -> (r: CommandArguments)
        ensures
            r@ == self.profile_command(),
    {
        let mut command_string = CommandStringBuilder::new("nix-env");
        command_string.args(&["-p", "/nix/var/nix/profiles/system", "--set"]);
        command_string.arg(self.built_path.to_absolute_path().as_str());
        proof {
            let first = seq!["-p"@, "/nix/var/nix/profiles/system"@, "--set"@];
            assert(slice_texts(seq!["-p", "/nix/var/nix/profiles/system", "--set"]) =~= first);
            with_args_appends(trimmed("nix-env"@), first, seq![self.built_path@]);
            assert(first + seq![self.built_path@] =~= seq![
                "-p"@,
                "/nix/var/nix/profiles/system"@,
                "--set"@,
                self.built_path@,
            ]);
        }
        CommandArguments::new(command_string.as_str(), self.modifiers).mode(
            ChildOutputMode::Nix,
        ).execute_on_remote(self.on_target()).privileged(&self.step.privilege_escalation_command)
    }

    fn switch(&self) -> (r: CommandArguments)
        ensures
            r@ == self.switch_command(),
    {
        let mut program = self.built_path.to_absolute_path();
        program.push_str("/bin/switch-to-configuration");
        let mut command_string = CommandStringBuilder::new(program.as_str());
        command_string.arg(
            match self.step.goal {
                SwitchToConfigurationGoal::Switch => "switch",
                SwitchToConfigurationGoal::Boot => "boot",
                SwitchToConfigurationGoal::Test => "test",
                SwitchToConfigurationGoal::DryActivate => "dry-activate",
            },
        );
        CommandArguments::new(command_string.as_str(), self.modifiers).execute_on_remote(
            self.on_target(),
        ).privileged(&self.step.privilege_escalation_command).log_stdout()
    }

    fn restart(&self) -> (r: CommandArguments)
        ensures
            r@ == self.reboot_command(),
    {
        CommandArguments::new("reboot now", self.modifiers).log_stdout().execute_on_remote(
            self.on_target(),
        ).privileged(&self.step.privilege_escalation_command)
    }

    fn give_up(&self) -> (r: HiveLibError)
        requires
            self.target is Some,
        ensures
            r == self.unreachable(),
    {
        match &self.target {
            Some(target) => match target.get_preferred_host() {
                Ok(_) => HiveLibError::NetworkError(
                    NetworkError::HostUnreachableAfterReboot(
                        target.hosts[target.current_host].clone(),
                    ),
                ),
                Err(error) => error,
            },
            None => HiveLibError::NetworkError(NetworkError::HostsExhausted),
        }
    }

    fn start_looking(&self, lost: Lost) -> (r: (ActivationState, ActivationAction))
        requires
            self.target is Some,
        ensures
            (r.0, r.1@) == self.look_for(lost),
    {
        let answers: bool = match &self.target {
            Some(target) => target.get_preferred_host().is_ok(),
            None => false,
        };
        if answers {
            (ActivationState::Pinging(lost, 1), ActivationAction::Ping(1))
        } else {
            (ActivationState::Done, ActivationAction::Finish(Err(self.give_up())))
        }
    }

    /// Begins the activation.
    pub fn start(&self) -> (r: (ActivationState, ActivationAction))
        ensures
            (r.0, r.1@) == self.first(),
            self.can_be_in(r.0),
    {
        match self.step.goal {
            SwitchToConfigurationGoal::Switch | SwitchToConfigurationGoal::Boot => (
                ActivationState::SettingProfile,
                ActivationAction::Run(self.set_profile()),
            ),
            _ => (ActivationState::Activating, ActivationAction::Run(self.switch())),
        }
    }

    /// Goes on after an event.
    pub fn next(
        &self,
        state: ActivationState,
        event: ActivationEvent,
    ) -> (r: (ActivationState, ActivationAction))
        requires
            self.can_be_in(state),
            state.awaits(event),
        ensures
            (r.0, r.1@) == self.after(state, event),
            self.can_be_in(r.0),
    {
        match (state, event) {
            (_, ActivationEvent::NotRun(error)) => (
                ActivationState::Done,
                ActivationAction::Finish(Err(error)),
            ),
            (ActivationState::SettingProfile, ActivationEvent::Ended(result)) => match result {
                Ok(()) => (ActivationState::Activating, ActivationAction::Run(self.switch())),
                Err(error) => (
                    ActivationState::Done,
                    ActivationAction::Finish(Err(HiveLibError::CommandError(error))),
                ),
            },
            (ActivationState::Activating, ActivationEvent::Ended(result)) => match result {
                Ok(()) => if self.step.reboot && self.target.is_some() {
                    (ActivationState::Rebooting, ActivationAction::Run(self.restart()))
                } else {
                    (ActivationState::Done, ActivationAction::Finish(Ok(())))
                },
                Err(error) => if self.target.is_some() && self.step.goal
                    != SwitchToConfigurationGoal::DryActivate {
                    self.start_looking(Lost::Failed(error))
                } else {
                    (
                        ActivationState::Done,
                        ActivationAction::Finish(Err(self.fail(error))),
                    )
                },
            },
            (ActivationState::Rebooting, ActivationEvent::Ended(result)) => match result {
                Ok(()) => self.start_looking(Lost::Rebooted),
                Err(error) => (
                    ActivationState::Done,
                    ActivationAction::Finish(Err(HiveLibError::CommandError(error))),
                ),
            },
            (ActivationState::Pinging(lost, attempt), ActivationEvent::Pinged(answered)) => {
                if answered {
                    let result = match lost {
                        Lost::Rebooted => Ok(()),
                        Lost::Failed(error) => Err(self.fail(error)),
                    };
                    (ActivationState::Done, ActivationAction::Finish(result))
                } else if attempt < MAX_ATTEMPTS {
                    (
                        ActivationState::Resting(lost, attempt),
                        ActivationAction::Rest(PING_INTERVAL),
                    )
                } else {
                    (ActivationState::Done, ActivationAction::Finish(Err(self.give_up())))
                }
            },
            (ActivationState::Resting(lost, attempt), ActivationEvent::Rested) => (
                ActivationState::Pinging(lost, attempt + 1),
                ActivationAction::Ping(attempt + 1),
            ),
            (state, _) => (state, ActivationAction::Finish(Ok(()))),
        }
    }

    fn fail(&self, error: CommandError) -> (r: HiveLibError)
        ensures
            r == self.failure(error),
    {
        HiveLibError::ActivationError(
            ActivationError::SwitchToConfigurationError(self.step.goal, self.name.clone(), error),
        )
    }
}

/// This machine is never restarted and never looked for.
pub proof fn this_machine_is_left_alone(
    activation: Activation,
    state: ActivationState,
    event: ActivationEvent,
)
    requires
        activation.target is None,
        activation.can_be_in(state),
        state.awaits(event),
    ensures
        ({
            let (next, action) = activation.after(state, event);
            !(next is Rebooting) && !(next is Pinging) && !(next is Resting)
        }),
{
}

/// An activation succeeds only after `switch-to-configuration` did, and a node that had to
/// restart has answered again.
pub proof fn success_is_earned(
    activation: Activation,
    state: ActivationState,
    event: ActivationEvent,
)
    requires
        activation.can_be_in(state),
        state.awaits(event),
        activation.after(state, event).1 matches ActionView::Finish(result) && result is Ok,
    ensures
        if state is Activating {
            (event matches ActivationEvent::Ended(result) && result is Ok) && !(
            activation.step.reboot && activation.target is Some)
        } else {
            (state matches ActivationState::Pinging(lost, _) && lost is Rebooted) && event
                == ActivationEvent::Pinged(true)
        },
{
}

/// A bound on how many events an activation still takes.
pub open spec fn events_left(state: ActivationState) -> int {
    match state {
        ActivationState::SettingProfile => 2 * MAX_ATTEMPTS + 3,
        ActivationState::Activating => 2 * MAX_ATTEMPTS + 2,
        ActivationState::Rebooting => 2 * MAX_ATTEMPTS + 1,
        ActivationState::Pinging(_, attempt) => 2 * (MAX_ATTEMPTS - attempt) + 1,
        ActivationState::Resting(_, attempt) => 2 * (MAX_ATTEMPTS - attempt),
        ActivationState::Done => 0,
    }
}

/// Every event brings the end of an activation closer, and the end comes with a result.
pub proof fn every_activation_ends(
    activation: Activation,
    state: ActivationState,
    event: ActivationEvent,
)
    requires
        activation.can_be_in(state),
        state.awaits(event),
    ensures
        0 <= events_left(activation.after(state, event).0) < events_left(state),
        activation.after(state, event).0 is Done <==> activation.after(state, event).1 is Finish,
{
}

} // verus!
