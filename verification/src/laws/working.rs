//! What the steps of a plan work on, and what is made of what they come to.
use crate::commands::CommandArguments;
use crate::errors::{CommandError, HiveInitialisationError, HiveLibError, KeyError};
use crate::execute::activate::SwitchToConfiguration as LinearSwitch;
use crate::hive::executor::{app_shutdown_guard, ExecutorAction, NodePlan};
use crate::hive::node::{Name, Push, Target};
use crate::hive::outputs::{AnyNodeOutput, NodeOutput};
use crate::hive::plan::{after_activation, before_activation, split_keys};
use crate::hive::steps::activate::Activation;
use crate::hive::steps::build_node::{
    build_command, conclude_build, system_output, Build, BuildMetadata, NixCommandBuildMetadata,
};
use crate::hive::steps::cleanup::CleanUp;
use crate::hive::steps::evaluate::{read_evaluation, Evaluate};
use crate::hive::steps::keys::{
    agent_variable, command_contents, create_reader, key_views, process_key, sha256, Key,
    KeyCommandOutcome, KeyReader, KeySpec, KeyView, Keys, PushKeyAgent, Source,
};
use crate::hive::steps::push::PushOutput;
use crate::json::json_text;
use crate::key_agent::{check_key, KeyAgentError};
use crate::modifiers::SubCommandModifiers;
use crate::nix_client::NixDaemonClientError;
use crate::status::UiMessage;
use crate::store_path::SafeStorePath;
use crate::text::{joined, number_value, path_below, texts, trimmed};
use vstd::prelude::*;
use vstd::utf8::encode_utf8;

verus! {

/// A step that fails ends the plan with its error, and the node is shown to have failed. A ping
/// may fail where that is to be ignored: then the plan ends well, and nothing is shown.
pub proof fn failed_steps_end_the_plan(
    plan: &NodePlan,
    position: usize,
    error: HiveLibError,
    should_quit: bool,
    action: ExecutorAction,
)
    requires
        position < plan.steps@.len(),
        call_ensures(NodePlan::next, (plan, position, Err(error), should_quit), action),
    ensures
        plan.steps@[position as int] is Ping && plan.ignore_failed_ping ==> (action
            matches ExecutorAction::Finish { message, result } && message is None && result
            is Ok),
        !(plan.steps@[position as int] is Ping) || !plan.ignore_failed_ping ==> (action
            matches ExecutorAction::Finish {
            message: Some(UiMessage::SetStatus(name, status)),
            result,
        } && name == plan.context.name && status@ is Failed && result == Err::<(), HiveLibError>(
            error,
        )),
{
}

/// A step that was done is followed by the next, and a plan begins with the first.
pub proof fn done_steps_are_followed_by_the_next(
    plan: &NodePlan,
    position: usize,
    action: ExecutorAction,
)
    requires
        position + 1 < plan.steps@.len(),
    ensures
        call_ensures(NodePlan::next, (plan, position, Ok(()), false), action) ==> action is Execute
            && action->position == position + 1,
        call_ensures(NodePlan::next, (plan, position, Ok(()), true), action) ==> (action
            matches ExecutorAction::Finish { message, result } && message is None && result
            == Err::<(), HiveLibError>(HiveLibError::Sigint)),
        call_ensures(NodePlan::start, (plan, false), action) ==> action is Execute
            && action->position == 0,
        call_ensures(NodePlan::start, (plan, true), action) ==> (action
            matches ExecutorAction::Finish { message, result } && message is None && result
            == Err::<(), HiveLibError>(HiveLibError::Sigint)),
{
}

/// Work stops where it is to be stopped, and only there.
pub proof fn work_stops_when_told(should_quit: bool, r: Result<(), HiveLibError>)
    requires
        call_ensures(app_shutdown_guard, (should_quit,), r),
    ensures
        r is Ok <==> !should_quit,
        should_quit ==> r->Err_0 == HiveLibError::Sigint,
{
}

/// An evaluation that is known already is handed on as it is, and one that is not is not.
pub proof fn known_evaluations_are_handed_on(step: &Evaluate, r: Option<AnyNodeOutput>)
    requires
        call_ensures(Evaluate::known_output, (step,), r),
    ensures
        step.cached_evaluation is None ==> r is None,
        step.cached_evaluation matches Some(path) ==> (r matches Some(
            AnyNodeOutput::Derivation(output),
        ) && output.0 == path),
{
}

/// An evaluation is what nix printed, or it could not be read.
pub proof fn evaluations_are_read(output: &str, r: Result<String, HiveLibError>)
    requires
        call_ensures(read_evaluation, (output,), r),
    ensures
        json_text(output@) is Ok <==> r is Ok,
        r is Ok ==> r->Ok_0@ == json_text(output@)->Ok_0,
        r is Err ==> (r matches Err(
            HiveLibError::HiveInitialisationError(
                HiveInitialisationError::ParseEvaluateError(shown),
            ),
        ) && shown@ == json_text(output@)->Err_0),
{
}

/// What is built here is built on no target, and what is built elsewhere on the host that was
/// found.
pub proof fn builds_run_in_their_place(step: &Build, inputs: &Vec<AnyNodeOutput>, r: Option<Target>)
    requires
        call_ensures(Build::place, (step, inputs), r),
    ensures
        step.metadata == BuildMetadata::NixCommand(NixCommandBuildMetadata::Locally) ==> r is None,
        inputs@.len() == 1 && inputs@[0] is Ping && step.metadata != BuildMetadata::NixCommand(
            NixCommandBuildMetadata::Locally,
        ) ==> r is Some && r->0@ == inputs@[0]->Ping_0@,
{
    if inputs@.len() == 1 && inputs@[0] is Ping && step.metadata != BuildMetadata::NixCommand(
        NixCommandBuildMetadata::Locally,
    ) {
        if r is None {
            assert(!<Target as NodeOutput>::is_kind_of(inputs@[0]));
        }
    }
}

/// A build is a command of nix that runs on the target, with the rights of the user.
pub proof fn builds_are_commands_of_nix(
    top_level: &SafeStorePath,
    target: Option<Target>,
    modifiers: SubCommandModifiers,
    command: CommandArguments,
)
    requires
        call_ensures(build_command, (top_level, target, modifiers), command),
    ensures
        target is None ==> command@.target is None,
        target is Some ==> command@.target == Some(target->0@),
        command@.output_mode is Nix,
        command@.log_stdout,
        command@.modifiers == modifiers,
        command@.privilege_escalation_command is None,
        !command@.keep_stdin_open,
{
}

/// A build that fails names the node, and why.
pub proof fn failed_builds_are_told(
    status: Result<String, CommandError>,
    name: &Name,
    r: Result<String, HiveLibError>,
)
    requires
        call_ensures(conclude_build, (status, name), r),
    ensures
        status is Ok ==> r == Ok::<String, HiveLibError>(status->Ok_0),
        status is Err ==> (r matches Err(HiveLibError::NixBuildCliError { name: shown, source })
            && shown == *name && source == status->Err_0),
{
}

/// The system is the output `out` of its derivation.
pub proof fn systems_are_outputs(
    outputs: Vec<(String, Option<SafeStorePath>)>,
    top_level: &SafeStorePath,
    name: &Name,
    r: Result<SafeStorePath, HiveLibError>,
)
    requires
        call_ensures(system_output, (outputs, top_level, name), r),
    ensures
        r matches Ok(path) ==> exists|i: int|
            0 <= i < outputs@.len() && (#[trigger] outputs@[i]).0@ == "out"@ && outputs@[i].1
                == Some(path),
        r is Err ==> (r matches Err(
            HiveLibError::NixBuildError {
                name: shown,
                source: NixDaemonClientError::NixDaemonInvalidResponse(text),
            },
        ) && shown == *name && text@ == "Derivation "@ + top_level@
            + " did not have output \"out\""@),
{
}

/// With a derivation comes what it is built from, and with a build comes only that. What was
/// copied is handed on as what it is.
pub proof fn pushes_hand_on_what_they_copied<'a>(
    step: &PushOutput,
    borrowed: &'a SafeStorePath,
    push: Push<'a>,
    path: SafeStorePath,
    output: AnyNodeOutput,
)
    ensures
        call_ensures(PushOutput::push_of, (step, borrowed), push) ==> {
            &&& step.kind is Evaluation ==> push == Push::Derivation(borrowed)
            &&& step.kind is Build ==> push == Push::Path(borrowed)
        },
        call_ensures(PushOutput::output_of, (step, path), output) ==> {
            &&& step.kind is Evaluation ==> (output matches AnyNodeOutput::PushDerivation(copied)
                && copied.0 == path)
            &&& step.kind is Build ==> (output matches AnyNodeOutput::PushBuildOutput(copied)
                && copied.0 == path)
        },
{
}

/// A step that cleans up does so on nodes other than this machine.
pub proof fn other_nodes_are_cleaned_up(step: &CleanUp, locally: bool, r: bool)
    requires
        call_ensures(CleanUp::should_execute, (step, locally), r),
    ensures
        r <==> !locally,
{
}

/// Keys are told apart by when they are uploaded, and none is lost.
pub proof fn keys_are_uploaded_in_time(keys: &Vec<Key>, r: (Vec<Key>, Vec<Key>), key: KeyView)
    requires
        call_ensures(split_keys, (keys,), r),
    ensures
        key_views(r.0@).contains(key) <==> key_views(keys@).contains(key) && key.upload_at
            is PreActivation,
        key_views(r.1@).contains(key) <==> key_views(keys@).contains(key) && !(key.upload_at
            is PreActivation),
{
    let all = key_views(keys@);
    if all.filter(before_activation()).contains(key) {
        let i = choose|i: int|
            0 <= i < all.filter(before_activation()).len() && all.filter(before_activation())[i]
                == key;
        all.lemma_filter_pred(before_activation(), i);
        all.lemma_filter_contains_rev(before_activation(), key);
    }
    if all.filter(after_activation()).contains(key) {
        let i = choose|i: int|
            0 <= i < all.filter(after_activation()).len() && all.filter(after_activation())[i]
                == key;
        all.lemma_filter_pred(after_activation(), i);
        all.lemma_filter_contains_rev(after_activation(), key);
    }
    if all.contains(key) {
        let i = choose|i: int| 0 <= i < all.len() && all[i] == key;
        if key.upload_at is PreActivation {
            all.lemma_filter_contains(before_activation(), i);
        } else {
            all.lemma_filter_contains(after_activation(), i);
        }
    }
}

/// A key goes below its directory under its name, to its user and group, with its permissions
/// and the length and digest of what it holds.
pub proof fn keys_go_where_they_belong(
    key: &Key,
    contents: &Vec<u8>,
    r: Result<KeySpec, KeyError>,
)
    requires
        contents@.len() <= i32::MAX,
        call_ensures(process_key, (key, contents), r),
    ensures
        r is Ok <==> (number_value(key@.permissions, 8) matches Some(mode) && mode <= u32::MAX),
        r matches Ok(spec) ==> {
            &&& spec@.destination == path_below(key@.dest_dir, key@.name)
            &&& spec@.user == key@.user
            &&& spec@.group == key@.group
            &&& number_value(key@.permissions, 8) == Some(spec@.unix_mode as nat)
            &&& spec@.length == contents@.len()
            &&& spec@.digest == sha256(contents@)
            &&& !spec@.last
        },
        r is Err ==> r->Err_0 is ParseKeyPermissions,
{
}

/// A key is read from where it comes from.
pub proof fn keys_are_read_from_their_source<'a>(
    key: &'a Key,
    r: Result<KeyReader<'a>, KeyError>,
)
    requires
        call_ensures(create_reader, (key,), r),
    ensures
        key.source matches Source::Path(path) ==> (r matches Ok(KeyReader::File(at)) && *at
            == path),
        key.source matches Source::String(text) ==> (r matches Ok(KeyReader::Literal(bytes))
            && bytes@ == encode_utf8(text@)),
        key.source matches Source::Command(command) ==> {
            &&& command@.len() == 0 ==> r is Err && r->Err_0 is Empty
            &&& command@.len() > 0 ==> (r matches Ok(KeyReader::Command { args, environment })
                && *args == command && *environment == key.environment)
        },
{
}

/// What a command for a key prints is the key, unless it fails, and then why is told.
pub proof fn commands_print_keys(
    args: &Vec<String>,
    outcome: KeyCommandOutcome,
    r: Result<Vec<u8>, KeyError>,
)
    requires
        args@.len() > 0,
        call_ensures(command_contents, (args, outcome), r),
    ensures
        outcome matches KeyCommandOutcome::NotStarted(cause) ==> (r matches Err(
            KeyError::CommandSpawnError { error, command, .. },
        ) && error == cause && command@ == joined(texts(args@), " "@)),
        outcome matches KeyCommandOutcome::NotResolved(cause) ==> (r matches Err(
            KeyError::CommandResolveError { error, command },
        ) && error == cause && command@ == joined(texts(args@), " "@)),
        outcome matches KeyCommandOutcome::Ended { success, status, stdout, .. } ==> {
            &&& success ==> r == Ok::<Vec<u8>, KeyError>(stdout)
            &&& !success ==> (r matches Err(KeyError::CommandError(shown, _)) && shown == status)
        },
{
}

/// The agent is the program in its directory. It runs on the target, with the rights that were
/// asked for, and waits for the keys.
pub proof fn agents_wait_for_keys(
    step: &Keys,
    directory: &SafeStorePath,
    target: Option<Target>,
    modifiers: SubCommandModifiers,
    command: CommandArguments,
)
    requires
        call_ensures(Keys::agent_command, (step, directory, target, modifiers), command),
    ensures
        command@.command_string == trimmed(directory@ + "/bin/wire-key-agent"@),
        target is None ==> command@.target is None,
        target is Some ==> command@.target == Some(target->0@),
        command@.privilege_escalation_command == Some(
            joined(texts(step.privilege_escalation_command@), " "@),
        ),
        command@.keep_stdin_open,
        command@.log_stdout,
        command@.output_mode is Generic,
        command@.modifiers == modifiers,
{
}

/// The agent for a platform is where the environment says. Where it does not, no keys can be
/// deployed there.
pub proof fn agents_are_where_they_were_built(
    step: &PushKeyAgent,
    value: Option<String>,
    r: Result<String, HiveLibError>,
)
    requires
        call_ensures(PushKeyAgent::agent_directory, (step, value), r),
    ensures
        value is Some ==> r == Ok::<String, HiveLibError>(value->0),
        value is None ==> (r matches Err(HiveLibError::KeyArchitectureNotFound { arg_name })
            && arg_name@ == agent_variable(step.host_platform@)),
{
}

/// The agent takes a key only if it has the digest that was announced.
pub proof fn agents_check_digests(
    spec: &KeySpec,
    contents: Vec<u8>,
    r: Result<Vec<u8>, KeyAgentError>,
)
    requires
        call_ensures(check_key, (spec, contents), r),
    ensures
        r is Ok <==> spec@.digest == sha256(contents@),
        r is Ok ==> r->Ok_0 == contents,
{
}

/// A step of a plan that is carried out in order activates as any other: the same goal, on the
/// same target, with the same rights.
pub proof fn activations_are_told_what_was_planned(
    step: LinearSwitch,
    path: SafeStorePath,
    name: Name,
    modifiers: SubCommandModifiers,
    activation: Activation,
)
    requires
        call_ensures(LinearSwitch::execute, (step, path, name, modifiers), activation),
    ensures
        activation.step.goal == step.goal,
        activation.step.reboot == step.reboot,
        activation.step.privilege_escalation_command == step.privilege_escalation_command,
        activation.target == step.target,
        activation.built_path == path,
        activation.name == name,
        activation.modifiers == modifiers,
{
}

} // verus!
