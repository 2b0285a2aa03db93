//! Which steps a plan has, and which of them wait for which.
use crate::hive::location::HiveLocation;
use crate::hive::node::{ApplyGoal, Name, Node, NodeView, StepView, SwitchToConfigurationGoal};
use crate::hive::plan::{
    after_activation, apply_plan, before_activation, build_at, build_plan, builds,
    builds_on_target, edge_if, evaluate_at, evaluates, first_keys, key_edges, key_steps, keys_at,
    leading_edges, leading_steps, one_if, ping_index, push_build_at, push_derivation_at,
    pushes_build, pushes_derivation, second_keys, uploads_first, uploads_keys, uploads_second,
    ApplyGoalArgs, Goal, PlanGraph, PlanView,
};
use crate::hive::steps::build_node::{BuildMetadata, NixCommandBuildMetadata};
use crate::hive::steps::keys::{KeyView, UploadKeyAt};
use crate::hive::steps::push::PushOutputKind;
use crate::modifiers::SubCommandModifiers;
use crate::store_path::SafeStorePath;
use vstd::prelude::*;

verus! {

/// The steps by their places.
spec fn is_at(
    args: ApplyGoalArgs,
    node: NodeView,
    modifiers: SubCommandModifiers,
    cached: Option<Seq<char>>,
    index: int,
    step: StepView,
) -> bool {
    let first = uploads_first(args, node);
    let second = uploads_second(args, node);
    let keys_at = keys_at(args, node, modifiers, cached);
    ||| !args.should_apply_locally && index == 0 && step == StepView::Ping { target: node.target }
    ||| evaluates(args, node, modifiers, cached) && index == evaluate_at(args) && step
        == StepView::Evaluate { cached_evaluation: cached }
    ||| pushes_derivation(args, node) && index == push_derivation_at(args, node, modifiers, cached)
        && step == StepView::PushOutput {
        substitute_on_destination: args.substitute_on_destination,
        kind: PushOutputKind::Evaluation,
    }
    ||| builds(args) && index == build_at(args, node, modifiers, cached) && step is Build
    ||| pushes_build(args, node) && index == push_build_at(args, node, modifiers, cached) && step
        == StepView::PushOutput {
        substitute_on_destination: args.substitute_on_destination,
        kind: PushOutputKind::Build,
    }
    ||| (first || second) && index == keys_at && step == StepView::PushKeyAgent {
        substitute_on_destination: args.substitute_on_destination,
        host_platform: args.host_platform@,
    }
    ||| first && index == keys_at + 1 && step == StepView::Keys {
        keys: first_keys(args.goal, node.keys),
        privilege_escalation_command: node.privilege_escalation_command,
    }
    ||| second && index == keys_at + 1 + one_if(first) && step == StepView::Keys {
        keys: second_keys(args.goal, node.keys),
        privilege_escalation_command: node.privilege_escalation_command,
    }
    ||| args.goal is SwitchToConfiguration && index == keys_at + one_if(first || second) + one_if(
        first,
    ) + one_if(second) && step == StepView::SwitchToConfiguration {
        goal: args.goal->SwitchToConfiguration_0,
        reboot: args.reboot,
        privilege_escalation_command: node.privilege_escalation_command,
    }
}

proof fn lemma_is_at(
    args: ApplyGoalArgs,
    node: NodeView,
    modifiers: SubCommandModifiers,
    cached: Option<Seq<char>>,
    index: int,
)
    requires
        0 <= index < apply_plan(args, node, modifiers, cached).steps.len(),
    ensures
        is_at(
            args,
            node,
            modifiers,
            cached,
            index,
            apply_plan(args, node, modifiers, cached).steps[index],
        ),
{
    reveal(leading_steps);
    reveal(key_steps);
}

proof fn lemma_length(
    args: ApplyGoalArgs,
    node: NodeView,
    modifiers: SubCommandModifiers,
    cached: Option<Seq<char>>,
)
    ensures
        apply_plan(args, node, modifiers, cached).steps.len() == keys_at(
            args,
            node,
            modifiers,
            cached,
        ) + one_if(uploads_first(args, node) || uploads_second(args, node)) + one_if(
            uploads_first(args, node),
        ) + one_if(uploads_second(args, node)) + one_if(args.goal is SwitchToConfiguration),
{
    reveal(leading_steps);
    reveal(key_steps);
}

/// The system is built through the daemon where that is asked for, else by the node itself where it
/// asks for that and is not this machine, and else here.
pub proof fn systems_are_built_where_they_are_asked_for(
    args: ApplyGoalArgs,
    node: NodeView,
    modifiers: SubCommandModifiers,
    cached: Option<Seq<char>>,
    index: int,
)
    requires
        0 <= index < apply_plan(args, node, modifiers, cached).steps.len(),
        apply_plan(args, node, modifiers, cached).steps[index] is Build,
    ensures
        ({
            let metadata = apply_plan(
                args,
                node,
                modifiers,
                cached,
            ).steps[index]->Build_metadata;
            &&& modifiers.experimental_nix_client <==> metadata == BuildMetadata::BuildWithNixDaemon
            &&& !modifiers.experimental_nix_client ==> {
                &&& metadata == BuildMetadata::NixCommand(NixCommandBuildMetadata::Remotely)
                    <==> node.build_remotely && !args.should_apply_locally
                &&& metadata == BuildMetadata::NixCommand(NixCommandBuildMetadata::Locally)
                    <==> !node.build_remotely || args.should_apply_locally
            }
        }),
{
    reveal(leading_steps);
    reveal(key_steps);
}

/// Whether a plan has a step of a kind.
pub open spec fn has_step(plan: PlanView, kind: spec_fn(StepView) -> bool) -> bool {
    exists|i: int| 0 <= i < plan.steps.len() && kind(#[trigger] plan.steps[i])
}

proof fn lemma_places(
    args: ApplyGoalArgs,
    node: NodeView,
    modifiers: SubCommandModifiers,
    cached: Option<Seq<char>>,
)
    ensures
        ({
            let steps = apply_plan(args, node, modifiers, cached).steps;
            let first = uploads_first(args, node);
            let second = uploads_second(args, node);
            let keys_at = keys_at(args, node, modifiers, cached);
            &&& !args.should_apply_locally ==> steps[0] is Ping
            &&& evaluates(args, node, modifiers, cached) ==> steps[evaluate_at(args)] is Evaluate
            &&& pushes_derivation(args, node) ==> {
                let step = steps[push_derivation_at(args, node, modifiers, cached)];
                step is PushOutput && step->PushOutput_kind == PushOutputKind::Evaluation
            }
            &&& builds(args) ==> steps[build_at(args, node, modifiers, cached)] is Build
            &&& pushes_build(args, node) ==> {
                let step = steps[push_build_at(args, node, modifiers, cached)];
                step is PushOutput && step->PushOutput_kind == PushOutputKind::Build
            }
            &&& first || second ==> steps[keys_at] is PushKeyAgent
            &&& first ==> steps[keys_at + 1] is Keys && steps[keys_at + 1]->Keys_keys
                == first_keys(args.goal, node.keys)
            &&& second ==> {
                let step = steps[keys_at + 1 + one_if(first)];
                step is Keys && step->Keys_keys == second_keys(args.goal, node.keys)
            }
            &&& args.goal is SwitchToConfiguration ==> steps.last() is SwitchToConfiguration
        }),
{
    let first = uploads_first(args, node);
    let keys_at = keys_at(args, node, modifiers, cached);
    lemma_length(args, node, modifiers, cached);
    if !args.should_apply_locally {
        lemma_is_at(args, node, modifiers, cached, 0);
    }
    if evaluates(args, node, modifiers, cached) {
        lemma_is_at(args, node, modifiers, cached, evaluate_at(args));
    }
    if pushes_derivation(args, node) {
        let at = push_derivation_at(args, node, modifiers, cached);
        lemma_is_at(args, node, modifiers, cached, at);
    }
    if builds(args) {
        lemma_is_at(args, node, modifiers, cached, build_at(args, node, modifiers, cached));
    }
    if pushes_build(args, node) {
        lemma_is_at(args, node, modifiers, cached, push_build_at(args, node, modifiers, cached));
    }
    if first || uploads_second(args, node) {
        lemma_is_at(args, node, modifiers, cached, keys_at);
    }
    if first {
        lemma_is_at(args, node, modifiers, cached, keys_at + 1);
    }
    if uploads_second(args, node) {
        lemma_is_at(args, node, modifiers, cached, keys_at + 1 + one_if(first));
    }
    if args.goal is SwitchToConfiguration {
        let steps = apply_plan(args, node, modifiers, cached).steps;
        lemma_is_at(args, node, modifiers, cached, steps.len() - 1);
    }
}

/// A step is planned exactly where it is needed: the ping and the copies for nodes elsewhere, the
/// evaluation where a derivation has to be known, the build and the activation as the goal says.
pub proof fn steps_are_planned_where_they_are_needed(
    args: ApplyGoalArgs,
    node: NodeView,
    modifiers: SubCommandModifiers,
    cached: Option<Seq<char>>,
)
    ensures
        ({
            let plan = apply_plan(args, node, modifiers, cached);
            let local = args.should_apply_locally;
            let works = !(args.goal is Keys);
            let makes = works && !(args.goal is Push);
            &&& has_step(plan, |step: StepView| step is Ping) <==> !local
            &&& has_step(plan, |step: StepView| step is Evaluate) <==> works && (args.goal is Push
                || modifiers.experimental_nix_client || cached is Some || node.build_remotely
                && !local)
            &&& has_step(
                plan,
                |step: StepView|
                    step is PushOutput && step->PushOutput_kind == PushOutputKind::Evaluation,
            ) <==> works && !local && (node.build_remotely || args.goal is Push)
            &&& has_step(plan, |step: StepView| step is Build) <==> makes
            &&& has_step(
                plan,
                |step: StepView|
                    step is PushOutput && step->PushOutput_kind == PushOutputKind::Build,
            ) <==> makes && !local && !node.build_remotely
            &&& has_step(plan, |step: StepView| step is SwitchToConfiguration)
                <==> args.goal is SwitchToConfiguration
        }),
{
    let plan = apply_plan(args, node, modifiers, cached);
    lemma_places(args, node, modifiers, cached);
    lemma_length(args, node, modifiers, cached);
    assert forall|i: int| 0 <= i < plan.steps.len() implies is_at(
        args,
        node,
        modifiers,
        cached,
        i,
        #[trigger] plan.steps[i],
    ) by {
        lemma_is_at(args, node, modifiers, cached, i);
    }
    let keys_at = keys_at(args, node, modifiers, cached);
    if !args.should_apply_locally {
        assert(plan.steps[0] is Ping);
    }
    if evaluates(args, node, modifiers, cached) {
        assert(plan.steps[evaluate_at(args)] is Evaluate);
    }
    if pushes_derivation(args, node) {
        assert(plan.steps[push_derivation_at(args, node, modifiers, cached)] is PushOutput);
    }
    if builds(args) {
        assert(plan.steps[build_at(args, node, modifiers, cached)] is Build);
    }
    if pushes_build(args, node) {
        assert(plan.steps[push_build_at(args, node, modifiers, cached)] is PushOutput);
    }
    if args.goal is SwitchToConfiguration {
        assert(plan.steps[plan.steps.len() - 1] is SwitchToConfiguration);
    }
}

proof fn lemma_classes(keys: Seq<KeyView>, k: int)
    ensures
        0 <= k < keys.filter(before_activation()).len() ==> keys.filter(
            before_activation(),
        )[k].upload_at == UploadKeyAt::PreActivation,
        0 <= k < keys.filter(after_activation()).len() ==> keys.filter(
            after_activation(),
        )[k].upload_at != UploadKeyAt::PreActivation,
{
    if 0 <= k < keys.filter(before_activation()).len() {
        keys.lemma_filter_pred(before_activation(), k);
    }
    if 0 <= k < keys.filter(after_activation()).len() {
        keys.lemma_filter_pred(after_activation(), k);
    }
}

proof fn lemma_split(keys: Seq<KeyView>)
    ensures
        keys.filter(before_activation()).len() + keys.filter(after_activation()).len()
            == keys.len(),
    decreases keys.len(),
{
    reveal(Seq::filter);
    if keys.len() > 0 {
        lemma_split(keys.drop_last());
    }
}

/// Keys are planned for where they are asked for and the node has any, with the agent that takes
/// them: all at once where nothing else is wanted, else those that come before the activation apart
/// from the others.
pub proof fn keys_are_planned_where_they_are_asked_for(
    args: ApplyGoalArgs,
    node: NodeView,
    modifiers: SubCommandModifiers,
    cached: Option<Seq<char>>,
)
    ensures
        ({
            let plan = apply_plan(args, node, modifiers, cached);
            let early = node.keys.filter(
                |key: KeyView| key.upload_at == UploadKeyAt::PreActivation,
            );
            let late = node.keys.filter(
                |key: KeyView| key.upload_at != UploadKeyAt::PreActivation,
            );
            let switches = args.goal == ApplyGoal::SwitchToConfiguration(
                SwitchToConfigurationGoal::Switch,
            );
            let all_at_once = !args.no_keys && args.goal is Keys;
            let in_two = !args.no_keys && switches;
            &&& has_step(plan, |step: StepView| step is PushKeyAgent) <==> (all_at_once || in_two)
                && node.keys.len() > 0
            &&& all_at_once ==> (has_step(
                plan,
                |step: StepView| step is Keys && step->Keys_keys == node.keys,
            ) <==> node.keys.len() > 0)
            &&& in_two ==> (has_step(
                plan,
                |step: StepView| step is Keys && step->Keys_keys == early,
            ) <==> early.len() > 0)
            &&& in_two ==> (has_step(
                plan,
                |step: StepView| step is Keys && step->Keys_keys == late,
            ) <==> late.len() > 0)
            &&& forall|i: int|
                0 <= i < plan.steps.len() && (#[trigger] plan.steps[i]) is Keys ==> (all_at_once
                    && plan.steps[i]->Keys_keys == node.keys || in_two && (
                plan.steps[i]->Keys_keys == early || plan.steps[i]->Keys_keys == late))
        }),
{
    let plan = apply_plan(args, node, modifiers, cached);
    let is_early = |key: KeyView| key.upload_at == UploadKeyAt::PreActivation;
    let is_late = |key: KeyView| key.upload_at != UploadKeyAt::PreActivation;
    assert(before_activation() =~= is_early);
    assert(after_activation() =~= is_late);
    let early = node.keys.filter(is_early);
    let late = node.keys.filter(is_late);
    lemma_split(node.keys);
    lemma_places(args, node, modifiers, cached);
    lemma_length(args, node, modifiers, cached);
    assert forall|i: int| 0 <= i < plan.steps.len() implies is_at(
        args,
        node,
        modifiers,
        cached,
        i,
        #[trigger] plan.steps[i],
    ) by {
        lemma_is_at(args, node, modifiers, cached, i);
    }
    let keys_at = keys_at(args, node, modifiers, cached);
    let first = uploads_first(args, node);
    lemma_classes(node.keys, 0);
    if first || uploads_second(args, node) {
        assert(plan.steps[keys_at] is PushKeyAgent);
    }
    if first {
        assert(plan.steps[keys_at + 1] is Keys);
    }
    if uploads_second(args, node) {
        assert(plan.steps[keys_at + 1 + one_if(first)] is Keys);
    }
}

/// Every step is told what was asked for: where to ping, what is known already, whether the node may
/// substitute, which platform its agent is for, how privileges are gained, what to activate and
/// whether to restart.
pub proof fn steps_are_told_what_was_asked_for(
    args: ApplyGoalArgs,
    node: NodeView,
    modifiers: SubCommandModifiers,
    cached: Option<Seq<char>>,
    index: int,
)
    requires
        0 <= index < apply_plan(args, node, modifiers, cached).steps.len(),
    ensures
        match apply_plan(args, node, modifiers, cached).steps[index] {
            StepView::Ping { target } => target == node.target,
            StepView::Evaluate { cached_evaluation } => cached_evaluation == cached,
            StepView::PushOutput { substitute_on_destination, .. } => substitute_on_destination
                == args.substitute_on_destination,
            StepView::PushKeyAgent { substitute_on_destination, host_platform } => {
                substitute_on_destination == args.substitute_on_destination && host_platform
                    == args.host_platform@
            },
            StepView::Keys { privilege_escalation_command, .. } => privilege_escalation_command
                == node.privilege_escalation_command,
            StepView::SwitchToConfiguration { goal, reboot, privilege_escalation_command } => {
                args.goal == ApplyGoal::SwitchToConfiguration(goal) && reboot == args.reboot
                    && privilege_escalation_command == node.privilege_escalation_command
            },
            StepView::Build { .. } => true,
        },
{
    lemma_is_at(args, node, modifiers, cached, index);
}

proof fn lemma_has_one_more(
    edges: Seq<(usize, usize)>,
    wanted: bool,
    from: int,
    to: int,
    edge: (usize, usize),
)
    ensures
        (edges + edge_if(wanted, from, to)).contains(edge) <==> edges.contains(edge) || wanted
            && edge == (from as usize, to as usize),
{
    lemma_has_both(edges, edge_if(wanted, from, to), edge);
    if wanted {
        assert(edge_if(wanted, from, to)[0] == (from as usize, to as usize));
    }
}

proof fn lemma_has_both(
    first: Seq<(usize, usize)>,
    second: Seq<(usize, usize)>,
    edge: (usize, usize),
)
    ensures
        (first + second).contains(edge) <==> first.contains(edge) || second.contains(edge),
{
    let both = first + second;
    if first.contains(edge) {
        assert(both[first.index_of(edge)] == edge);
    }
    if second.contains(edge) {
        assert(both[first.len() + second.index_of(edge)] == edge);
    }
    if both.contains(edge) {
        let i = both.index_of(edge);
        if i < first.len() {
            assert(first[i] == edge);
        } else {
            assert(second[i - first.len()] == edge);
        }
    }
}

spec fn is_leading_edge(
    args: ApplyGoalArgs,
    node: NodeView,
    modifiers: SubCommandModifiers,
    cached: Option<Seq<char>>,
    edge: (usize, usize),
) -> bool {
    let pings = !args.should_apply_locally;
    let derivation = push_derivation_at(args, node, modifiers, cached) as usize;
    let build = build_at(args, node, modifiers, cached) as usize;
    let copy = push_build_at(args, node, modifiers, cached) as usize;
    ||| evaluates(args, node, modifiers, cached) && pushes_derivation(args, node) && edge == (
        evaluate_at(args) as usize,
        derivation,
    )
    ||| pings && pushes_derivation(args, node) && edge == (0usize, derivation)
    ||| pushes_derivation(args, node) && builds(args) && edge == (derivation, build)
    ||| pings && builds(args) && builds_on_target(args, node) && edge == (0usize, build)
    ||| pushes_build(args, node) && edge == (0usize, copy)
    ||| pushes_build(args, node) && edge == (build, copy)
}

proof fn lemma_leading(
    args: ApplyGoalArgs,
    node: NodeView,
    modifiers: SubCommandModifiers,
    cached: Option<Seq<char>>,
    edge: (usize, usize),
)
    ensures
        leading_edges(args, node, modifiers, cached).contains(edge) <==> is_leading_edge(
            args,
            node,
            modifiers,
            cached,
            edge,
        ),
{
    reveal(leading_edges);
    let pings = !args.should_apply_locally;
    let derivation_at = push_derivation_at(args, node, modifiers, cached);
    let build_at = build_at(args, node, modifiers, cached);
    let copy_at = push_build_at(args, node, modifiers, cached);
    let w1 = evaluates(args, node, modifiers, cached) && pushes_derivation(args, node);
    let w2 = pings && pushes_derivation(args, node);
    let w3 = pushes_derivation(args, node) && builds(args);
    let w4 = pings && builds(args) && builds_on_target(args, node);
    let w5 = pushes_build(args, node);
    let e0 = Seq::<(usize, usize)>::empty();
    let e1 = edge_if(w1, evaluate_at(args), derivation_at);
    let e2 = e1 + edge_if(w2, 0, derivation_at);
    let e3 = e2 + edge_if(w3, derivation_at, build_at);
    let e4 = e3 + edge_if(w4, 0, build_at);
    let e5 = e4 + edge_if(w5, 0, copy_at);
    assert(e0 + e1 =~= e1);
    lemma_has_one_more(e0, w1, evaluate_at(args), derivation_at, edge);
    lemma_has_one_more(e1, w2, 0, derivation_at, edge);
    lemma_has_one_more(e2, w3, derivation_at, build_at, edge);
    lemma_has_one_more(e3, w4, 0, build_at, edge);
    lemma_has_one_more(e4, w5, 0, copy_at, edge);
    lemma_has_one_more(e5, w5, build_at, copy_at, edge);
}

proof fn lemma_keys(
    args: ApplyGoalArgs,
    node: NodeView,
    ping: Option<usize>,
    base: int,
    edge: (usize, usize),
)
    ensures
        key_edges(args, node, ping, base).contains(edge) <==> {
            let first = first_keys(args.goal, node.keys).len() > 0;
            let second = second_keys(args.goal, node.keys).len() > 0;
            let agent = base as usize;
            let first_at = (base + 1) as usize;
            let second_at = (base + 1 + one_if(first)) as usize;
            ||| (first || second) && ping is Some && edge == (ping->0, agent)
            ||| first && ping is Some && edge == (ping->0, first_at)
            ||| first && edge == (agent, first_at)
            ||| second && ping is Some && edge == (ping->0, second_at)
            ||| second && edge == (agent, second_at)
        },
{
    reveal(key_edges);
    let first = first_keys(args.goal, node.keys).len() > 0;
    let second = second_keys(args.goal, node.keys).len() > 0;
    let from = ping->0 as int;
    let second_at = base + 1 + one_if(first);
    let e0 = Seq::<(usize, usize)>::empty();
    let e1 = edge_if((first || second) && ping is Some, from, base);
    let e2 = e1 + edge_if(first && ping is Some, from, base + 1);
    let e3 = e2 + edge_if(first, base, base + 1);
    let e4 = e3 + edge_if(second && ping is Some, from, second_at);
    assert(e0 + e1 =~= e1);
    lemma_has_one_more(e0, (first || second) && ping is Some, from, base, edge);
    lemma_has_one_more(e1, first && ping is Some, from, base + 1, edge);
    lemma_has_one_more(e2, first, base, base + 1, edge);
    lemma_has_one_more(e3, second && ping is Some, from, second_at, edge);
    lemma_has_one_more(e4, second, base, second_at, edge);
}

spec fn is_edge(
    args: ApplyGoalArgs,
    node: NodeView,
    modifiers: SubCommandModifiers,
    cached: Option<Seq<char>>,
    edge: (usize, usize),
) -> bool {
    let first = uploads_first(args, node);
    let second = uploads_second(args, node);
    let pings = !args.should_apply_locally;
    let activates = args.goal is SwitchToConfiguration;
    let build = build_at(args, node, modifiers, cached) as usize;
    let copy = push_build_at(args, node, modifiers, cached) as usize;
    let keys_at = keys_at(args, node, modifiers, cached);
    let agent = keys_at as usize;
    let first_at = (keys_at + 1) as usize;
    let second_at = (keys_at + 1 + one_if(first)) as usize;
    let active = (keys_at + one_if(first || second) + one_if(first) + one_if(second)) as usize;
    ||| is_leading_edge(args, node, modifiers, cached, edge)
    ||| (first || second) && pings && edge == (0usize, agent)
    ||| first && pings && edge == (0usize, first_at)
    ||| first && edge == (agent, first_at)
    ||| second && pings && edge == (0usize, second_at)
    ||| second && edge == (agent, second_at)
    ||| first && pushes_build(args, node) && edge == (copy, first_at)
    ||| first && builds(args) && edge == (build, first_at)
    ||| activates && pings && edge == (0usize, active)
    ||| activates && edge == (
        if pushes_build(args, node) {
            copy
        } else {
            build
        },
        active,
    )
    ||| activates && first && edge == (first_at, active)
    ||| activates && second && edge == (active, second_at)
}

proof fn lemma_edges(
    args: ApplyGoalArgs,
    node: NodeView,
    modifiers: SubCommandModifiers,
    cached: Option<Seq<char>>,
    edge: (usize, usize),
)
    ensures
        apply_plan(args, node, modifiers, cached).edges.contains(edge) <==> is_edge(
            args,
            node,
            modifiers,
            cached,
            edge,
        ),
{
    let first = uploads_first(args, node);
    let second = uploads_second(args, node);
    let activates = args.goal is SwitchToConfiguration;
    let build_at = build_at(args, node, modifiers, cached);
    let copy_at = push_build_at(args, node, modifiers, cached);
    let keys_at = keys_at(args, node, modifiers, cached);
    let first_at = keys_at + 1;
    let second_at = keys_at + 1 + one_if(first);
    let activate_at = keys_at + one_if(first || second) + one_if(first) + one_if(second);
    let built_at = if pushes_build(args, node) {
        copy_at
    } else {
        build_at
    };
    let pings = !args.should_apply_locally;
    let leading = leading_edges(args, node, modifiers, cached);
    let keys = if uploads_keys(args) {
        key_edges(args, node, ping_index(args), keys_at)
    } else {
        Seq::empty()
    };
    lemma_leading(args, node, modifiers, cached, edge);
    lemma_keys(args, node, ping_index(args), keys_at, edge);
    let w1 = first && pushes_build(args, node);
    let w2 = first && builds(args);
    let e0 = leading + keys;
    let e1 = e0 + edge_if(w1, copy_at, first_at);
    let e2 = e1 + edge_if(w2, build_at, first_at);
    let e3 = e2 + edge_if(activates && pings, 0, activate_at);
    let e4 = e3 + edge_if(activates, built_at, activate_at);
    let e5 = e4 + edge_if(activates && first, first_at, activate_at);
    lemma_has_both(leading, keys, edge);
    lemma_has_one_more(e0, w1, copy_at, first_at, edge);
    lemma_has_one_more(e1, w2, build_at, first_at, edge);
    lemma_has_one_more(e2, activates && pings, 0, activate_at, edge);
    lemma_has_one_more(e3, activates, built_at, activate_at, edge);
    lemma_has_one_more(e4, activates && first, first_at, activate_at, edge);
    lemma_has_one_more(e5, activates && second, activate_at, second_at, edge);
    assert(apply_plan(args, node, modifiers, cached).edges == e5 + edge_if(
        activates && second,
        activate_at,
        second_at,
    ));
}

/// Whether keys are uploaded before an activation.
pub open spec fn are_early(keys: Seq<KeyView>) -> bool {
    forall|k: int|
        0 <= k < keys.len() ==> (#[trigger] keys[k]).upload_at == UploadKeyAt::PreActivation
}

/// Whether one step has to come before another, by what they do. Whatever reaches a node elsewhere
/// comes after its ping, a derivation is evaluated before it is copied and copied before it is built
/// there, a system is built before it is copied and copied before it is activated, the agent is there
/// before the keys, and the keys stand around the activation as they ask to.
pub open spec fn comes_first(node: NodeView, local: bool, first: StepView, second: StepView) -> bool {
    match (first, second) {
        (StepView::Ping { .. }, StepView::Ping { .. }) => false,
        (StepView::Ping { .. }, StepView::Evaluate { .. }) => false,
        (StepView::Ping { .. }, StepView::Build { .. }) => node.build_remotely,
        (StepView::Ping { .. }, _) => true,
        (StepView::Evaluate { .. }, StepView::PushOutput { kind, .. }) => kind
            == PushOutputKind::Evaluation,
        (StepView::PushOutput { kind, .. }, StepView::Build { .. }) => kind
            == PushOutputKind::Evaluation,
        (StepView::Build { .. }, StepView::PushOutput { kind, .. }) => kind
            == PushOutputKind::Build,
        (StepView::Build { .. }, StepView::SwitchToConfiguration { .. }) => local
            || node.build_remotely,
        (StepView::PushOutput { kind, .. }, StepView::SwitchToConfiguration { .. }) => kind
            == PushOutputKind::Build,
        (StepView::Build { .. }, StepView::Keys { keys, .. }) => are_early(keys),
        (StepView::PushOutput { kind, .. }, StepView::Keys { keys, .. }) => kind
            == PushOutputKind::Build && are_early(keys),
        (StepView::PushKeyAgent { .. }, StepView::Keys { .. }) => true,
        (StepView::Keys { keys, .. }, StepView::SwitchToConfiguration { .. }) => are_early(keys),
        (StepView::SwitchToConfiguration { .. }, StepView::Keys { keys, .. }) => !are_early(keys),
        _ => false,
    }
}

/// A step waits for another exactly where what they do says so.
#[verifier::rlimit(60)]
#[verifier::spinoff_prover]
pub proof fn steps_wait_for_what_comes_first(
    args: ApplyGoalArgs,
    node: NodeView,
    modifiers: SubCommandModifiers,
    cached: Option<Seq<char>>,
    a: usize,
    b: usize,
)
    requires
        a < apply_plan(args, node, modifiers, cached).steps.len(),
        b < apply_plan(args, node, modifiers, cached).steps.len(),
    ensures
        apply_plan(args, node, modifiers, cached).edges.contains((a, b)) <==> comes_first(
            node,
            args.should_apply_locally,
            apply_plan(args, node, modifiers, cached).steps[a as int],
            apply_plan(args, node, modifiers, cached).steps[b as int],
        ),
{
    lemma_edges(args, node, modifiers, cached, (a, b));
    lemma_is_at(args, node, modifiers, cached, a as int);
    lemma_is_at(args, node, modifiers, cached, b as int);
    lemma_length(args, node, modifiers, cached);
    let early = node.keys.filter(before_activation());
    let late = node.keys.filter(after_activation());
    assert(are_early(early)) by {
        assert forall|k: int| 0 <= k < early.len() implies (#[trigger] early[k]).upload_at
            == UploadKeyAt::PreActivation by {
            lemma_classes(node.keys, k);
        }
    }
    lemma_classes(node.keys, 0);
    if late.len() > 0 {
        assert(late[0].upload_at != UploadKeyAt::PreActivation);
        assert(!are_early(late));
    }
}

/// No step is planned twice.
pub proof fn no_step_is_planned_twice(
    args: ApplyGoalArgs,
    node: NodeView,
    modifiers: SubCommandModifiers,
    cached: Option<Seq<char>>,
    a: int,
    b: int,
)
    requires
        0 <= a < b < apply_plan(args, node, modifiers, cached).steps.len(),
    ensures
        apply_plan(args, node, modifiers, cached).steps[a] != apply_plan(
            args,
            node,
            modifiers,
            cached,
        ).steps[b],
{
    lemma_is_at(args, node, modifiers, cached, a);
    lemma_is_at(args, node, modifiers, cached, b);
    lemma_length(args, node, modifiers, cached);
    lemma_classes(node.keys, 0);
}

/// Whatever is activated was made where it is activated, or copied there: without a copy of the
/// system the activation waits for a build on the same machine.
pub proof fn activated_systems_are_there(
    args: ApplyGoalArgs,
    node: NodeView,
    modifiers: SubCommandModifiers,
    cached: Option<Seq<char>>,
    a: usize,
    b: usize,
)
    requires
        a < apply_plan(args, node, modifiers, cached).steps.len(),
        b < apply_plan(args, node, modifiers, cached).steps.len(),
        apply_plan(args, node, modifiers, cached).edges.contains((a, b)),
        apply_plan(args, node, modifiers, cached).steps[a as int] is Build,
        apply_plan(args, node, modifiers, cached).steps[b as int] is SwitchToConfiguration,
    ensures
        ({
            let metadata = apply_plan(
                args,
                node,
                modifiers,
                cached,
            ).steps[a as int]->Build_metadata;
            if args.should_apply_locally {
                metadata != BuildMetadata::NixCommand(NixCommandBuildMetadata::Remotely)
            } else {
                metadata != BuildMetadata::NixCommand(NixCommandBuildMetadata::Locally)
                    && node.build_remotely
            }
        }),
{
    steps_wait_for_what_comes_first(args, node, modifiers, cached, a, b);
    systems_are_built_where_they_are_asked_for(args, node, modifiers, cached, a as int);
}

/// A plan for a build alone evaluates first where a derivation has to be known or is known already,
/// and then builds it, through the daemon where that is asked for and else here.
pub proof fn builds_evaluate_what_they_need(
    modifiers: SubCommandModifiers,
    cached: Option<Seq<char>>,
)
    ensures
        ({
            let plan = build_plan(modifiers, cached);
            let known_first = modifiers.experimental_nix_client || cached is Some;
            let place = if modifiers.experimental_nix_client {
                BuildMetadata::BuildWithNixDaemon
            } else {
                BuildMetadata::NixCommand(NixCommandBuildMetadata::Locally)
            };
            &&& plan.steps.last() == StepView::Build { metadata: place }
            &&& known_first ==> plan.steps.len() == 2 && plan.steps[0] == StepView::Evaluate {
                cached_evaluation: cached,
            } && plan.edges.len() == 1 && plan.edges[0] == (0usize, 1usize)
            &&& !known_first ==> plan.steps.len() == 1 && plan.edges.len() == 0
        }),
{
}

/// A plan is made for the node that it is given, of what is asked for, and nothing of what was
/// said of the run is lost.
pub proof fn plans_are_made_for_their_node(
    node: &Node,
    name: Name,
    goal: &Goal,
    location: HiveLocation,
    modifiers: SubCommandModifiers,
    cached: Option<&SafeStorePath>,
    plan: PlanGraph,
)
    requires
        call_ensures(PlanGraph::new, (node, name, goal, location, modifiers, cached), plan),
    ensures
        plan.context.name == name,
        plan.context.hive_location == location,
        plan.context.modifiers == modifiers,
        *goal matches Goal::Apply(args) ==> {
            &&& cached is None ==> plan@ == apply_plan(args, node@, modifiers, None)
            &&& cached matches Some(path) ==> plan@ == apply_plan(
                args,
                node@,
                modifiers,
                Some(path@),
            )
        },
        *goal is Build ==> {
            &&& cached is None ==> plan@ == build_plan(modifiers, None)
            &&& cached matches Some(path) ==> plan@ == build_plan(modifiers, Some(path@))
        },
{
}

} // verus!
