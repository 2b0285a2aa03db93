//! What an activation does to a node.
use crate::commands::builder::with_args;
use crate::commands::{ChildOutputMode, CommandView};
use crate::errors::{ActivationError, CommandError, HiveLibError, NetworkError};
use crate::hive::node::SwitchToConfigurationGoal;
use crate::hive::steps::activate::{
    ping_text, regained_text, ActionView, Activation, ActivationAction, ActivationEvent,
    ActivationState, Lost,
};
use crate::laws::commands::command_lines_are_their_words;
use crate::laws::text::trimmed_texts_stay;
use crate::text::{decimal, joined, texts, trimmed};
use vstd::prelude::*;

verus! {

/// Whether a goal makes the system the one that the node starts with.
pub open spec fn outlives_a_restart(goal: SwitchToConfigurationGoal) -> bool {
    goal is Switch || goal is Boot
}

proof fn lemma_profile_line(path: Seq<char>)
    ensures
        with_args(
            trimmed("nix-env"@),
            seq!["-p"@, "/nix/var/nix/profiles/system"@, "--set"@, path],
        ) == joined(
            seq!["nix-env"@, "-p"@, "/nix/var/nix/profiles/system"@, "--set"@, trimmed(path)],
            " "@,
        ),
{
    reveal_strlit("nix-env");
    reveal_strlit("-p");
    reveal_strlit("/nix/var/nix/profiles/system");
    reveal_strlit("--set");
    trimmed_texts_stay("nix-env"@);
    trimmed_texts_stay("-p"@);
    trimmed_texts_stay("/nix/var/nix/profiles/system"@);
    trimmed_texts_stay("--set"@);
    let trim = |argument: Seq<char>| trimmed(argument);
    let arguments = seq!["-p"@, "/nix/var/nix/profiles/system"@, "--set"@, path];
    command_lines_are_their_words(trimmed("nix-env"@), arguments);
    assert(seq![trimmed("nix-env"@)] + arguments.map_values(trim) =~= seq![
        "nix-env"@,
        "-p"@,
        "/nix/var/nix/profiles/system"@,
        "--set"@,
        trimmed(path),
    ]);
}

proof fn lemma_switch_line(program: Seq<char>, word: Seq<char>)
    requires
        trimmed(word) == word,
    ensures
        with_args(trimmed(program), seq![word]) == joined(seq![trimmed(program), word], " "@),
{
    let trim = |argument: Seq<char>| trimmed(argument);
    command_lines_are_their_words(trimmed(program), seq![word]);
    assert(seq![trimmed(program)] + seq![word].map_values(trim) =~= seq![trimmed(program), word]);
}

proof fn lemma_words_are_trim()
    ensures
        trimmed("switch"@) == "switch"@,
        trimmed("boot"@) == "boot"@,
        trimmed("test"@) == "test"@,
        trimmed("dry-activate"@) == "dry-activate"@,
{
    reveal_strlit("switch");
    reveal_strlit("boot");
    reveal_strlit("test");
    reveal_strlit("dry-activate");
    trimmed_texts_stay("switch"@);
    trimmed_texts_stay("boot"@);
    trimmed_texts_stay("test"@);
    trimmed_texts_stay("dry-activate"@);
}

/// Whether a command sets the system profile to a path.
pub open spec fn sets_profile(command: CommandView, path: Seq<char>) -> bool {
    command.command_string == joined(
        seq!["nix-env"@, "-p"@, "/nix/var/nix/profiles/system"@, "--set"@, trimmed(path)],
        " "@,
    )
}

/// Whether a command has a system switch to a goal.
pub open spec fn switches(
    command: CommandView,
    path: Seq<char>,
    goal: SwitchToConfigurationGoal,
) -> bool {
    let program = trimmed(path + "/bin/switch-to-configuration"@);
    &&& goal is Switch ==> command.command_string == joined(seq![program, "switch"@], " "@)
    &&& goal is Boot ==> command.command_string == joined(seq![program, "boot"@], " "@)
    &&& goal is Test ==> command.command_string == joined(seq![program, "test"@], " "@)
    &&& goal is DryActivate ==> command.command_string == joined(
        seq![program, "dry-activate"@],
        " "@,
    )
}

/// An activation whose system outlives a restart begins by making the system the profile, any other
/// with the switch itself.
pub proof fn profiles_are_set_first(activation: Activation)
    ensures
        ({
            let (state, action) = activation.first();
            let path = activation.built_path@;
            if outlives_a_restart(activation.step.goal) {
                state is SettingProfile && (action matches ActionView::Run(command)
                    && sets_profile(command, path))
            } else {
                state is Activating && (action matches ActionView::Run(command) && switches(
                    command,
                    path,
                    activation.step.goal,
                ))
            }
        }),
{
    lemma_words_are_trim();
    lemma_profile_line(activation.built_path@);
    lemma_switch_line(
        activation.built_path@ + "/bin/switch-to-configuration"@,
        activation.step.goal.word(),
    );
}

/// After the beginning, a command is run only when the one before it succeeded: the switch after
/// the profile was set, and a restart after the switch, where one is asked for and the node is not
/// this machine. So the profile is never set late, and nothing is switched to twice.
pub proof fn commands_follow_success(
    activation: Activation,
    state: ActivationState,
    event: ActivationEvent,
)
    ensures
        ({
            let (next, action) = activation.after(state, event);
            let succeeded = event matches ActivationEvent::Ended(result) && result is Ok;
            let restarts = activation.step.reboot && activation.target is Some;
            &&& action is Run <==> succeeded && (state is SettingProfile || state is Activating
                && restarts)
            &&& succeeded && state is SettingProfile ==> next is Activating && (action matches
                ActionView::Run(command) && switches(
                command,
                activation.built_path@,
                activation.step.goal,
            ))
            &&& succeeded && state is Activating && restarts ==> next is Rebooting && (
            action matches ActionView::Run(command) && command.command_string == "reboot now"@)
            &&& succeeded && state is Activating && !restarts ==> next is Done && action
                == ActionView::Finish(Ok(()))
        }),
{
    lemma_words_are_trim();
    lemma_switch_line(
        activation.built_path@ + "/bin/switch-to-configuration"@,
        activation.step.goal.word(),
    );
}

/// Whether a command runs where an activation is meant to happen, with its settings, through its
/// escalation command.
pub open spec fn runs_there(command: CommandView, activation: Activation) -> bool {
    &&& command.modifiers == activation.modifiers
    &&& activation.target is None ==> command.target is None
    &&& activation.target matches Some(target) ==> (command.target matches Some(shown)
        && shown.user == target.user@ && shown.port == target.port && shown.current_host
        == target.current_host && shown.hosts.len() == target.hosts@.len() && forall|i: int|
        0 <= i < shown.hosts.len() ==> #[trigger] shown.hosts[i] == target.hosts@[i]@)
    &&& command.privilege_escalation_command == Some(
        joined(texts(activation.step.privilege_escalation_command@), " "@),
    )
    &&& !command.keep_stdin_open
}

/// Every command of an activation runs on its target, with privileges. That which sets the profile
/// is read as a command of nix, and the output of the others is logged.
pub proof fn activations_run_on_their_target(
    activation: Activation,
    state: ActivationState,
    event: ActivationEvent,
)
    ensures
        activation.first().1 matches ActionView::Run(command) && runs_there(command, activation)
            && (if outlives_a_restart(activation.step.goal) {
            command.output_mode == ChildOutputMode::Nix && !command.log_stdout
        } else {
            command.output_mode == ChildOutputMode::Generic && command.log_stdout
        }),
        activation.after(state, event).1 matches ActionView::Run(command) ==> runs_there(
            command,
            activation,
        ) && command.output_mode == ChildOutputMode::Generic && command.log_stdout,
{
}

/// The error that an activation ends with where the switch failed on a node that answers.
pub open spec fn is_switch_error(
    result: Result<(), HiveLibError>,
    activation: Activation,
    error: CommandError,
) -> bool {
    result matches Err(
        HiveLibError::ActivationError(ActivationError::SwitchToConfigurationError(goal, name, source)),
    ) && goal == activation.step.goal && name == activation.name && source == error
}

/// Every failure ends an activation with the error that came, but for a switch that failed on a
/// node elsewhere: that one may have been lost, and is looked for.
pub proof fn failures_are_told(
    activation: Activation,
    state: ActivationState,
    error: CommandError,
    reason: HiveLibError,
)
    ensures
        activation.after(state, ActivationEvent::NotRun(reason)).1 == ActionView::Finish(
            Err(reason),
        ),
        state is SettingProfile || state is Rebooting ==> activation.after(
            state,
            ActivationEvent::Ended(Err(error)),
        ).1 == ActionView::Finish(Err(HiveLibError::CommandError(error))),
        state is Activating && (activation.target is None || activation.step.goal is DryActivate)
            ==> (activation.after(state, ActivationEvent::Ended(Err(error))).1 matches
            ActionView::Finish(result) && is_switch_error(result, activation, error)),
        state is Activating && !(activation.step.goal is DryActivate) ==> (
        activation.target matches Some(target) ==> {
            let (next, action) = activation.after(state, ActivationEvent::Ended(Err(error)));
            if target.current_host < target.hosts@.len() {
                next == ActivationState::Pinging(Lost::Failed(error), 1) && action
                    == ActionView::Ping(1)
            } else {
                action == ActionView::Finish(
                    Err(HiveLibError::NetworkError(NetworkError::HostsExhausted)),
                )
            }
        }),
{
}

/// A node that is lost is pinged ten times, thirty seconds apart, and then given up under the host
/// that was tried. One that answers has come back from a restart, or shows that the switch itself
/// failed.
pub proof fn lost_nodes_are_pinged_ten_times(activation: Activation, lost: Lost, attempt: u32)
    requires
        1 <= attempt <= 10,
        activation.target is Some,
        activation.target->0.current_host < activation.target->0.hosts@.len(),
    ensures
        ({
            let pinging = ActivationState::Pinging(lost, attempt);
            let target = activation.target->0;
            let answered = activation.after(pinging, ActivationEvent::Pinged(true)).1;
            let (next, action) = activation.after(pinging, ActivationEvent::Pinged(false));
            &&& lost is Rebooted ==> answered == ActionView::Finish(Ok(()))
            &&& lost matches Lost::Failed(error) ==> (answered matches ActionView::Finish(result)
                && is_switch_error(result, activation, error))
            &&& attempt < 10 ==> action == ActionView::Rest(30) && activation.after(
                next,
                ActivationEvent::Rested,
            ) == (
                ActivationState::Pinging(lost, (attempt + 1) as u32),
                ActionView::Ping((attempt + 1) as u32),
            )
            &&& attempt == 10 ==> action == ActionView::Finish(
                Err(
                    HiveLibError::NetworkError(
                        NetworkError::HostUnreachableAfterReboot(
                            target.hosts@[target.current_host as int],
                        ),
                    ),
                ),
            )
            &&& activation.after(
                ActivationState::Rebooting,
                ActivationEvent::Ended(Ok(())),
            ) == (ActivationState::Pinging(Lost::Rebooted, 1), ActionView::Ping(1))
        }),
{
}

/// What is said of a lost node names its host, how often it was pinged and how often it will be.
pub proof fn pings_are_announced(name: Seq<char>, host: Seq<char>, attempt: u32)
    ensures
        ping_text(host, attempt) == "Trying to ping "@ + host + " (attempt "@ + decimal(
            attempt as nat,
        ) + "/10)"@,
        regained_text(name, host) == "Regained connection to "@ + name + " via "@ + host,
{
    reveal_strlit("/");
    reveal_strlit(")");
    reveal_strlit("/10)");
    reveal_with_fuel(decimal, 3);
    assert(decimal(10) =~= seq!['1', '0']);
    let front = "Trying to ping "@ + host + " (attempt "@ + decimal(attempt as nat);
    assert(front + "/"@ + decimal(10) + ")"@ =~= front + "/10)"@);
}

/// What an activation does first, when it is started, is to make the system the profile where it
/// is to outlive a restart, and to switch to it where it is not.
pub proof fn activations_start_with_the_profile(
    activation: &Activation,
    r: (ActivationState, ActivationAction),
)
    requires
        call_ensures(Activation::start, (activation,), r),
    ensures
        activation.step.goal is Switch || activation.step.goal is Boot ==> r.0 is SettingProfile
            && (r.1@ matches ActionView::Run(command) && sets_profile(
            command,
            activation.built_path@,
        )),
        activation.step.goal is Test || activation.step.goal is DryActivate ==> r.0 is Activating
            && (r.1@ matches ActionView::Run(command) && switches(
            command,
            activation.built_path@,
            activation.step.goal,
        )),
{
    profiles_are_set_first(*activation);
}

} // verus!
