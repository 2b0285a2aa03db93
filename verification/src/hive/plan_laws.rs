//! What holds of every plan.
use crate::hive::graph::is_sink;
use crate::hive::node::{ApplyGoal, NodeView, StepView};
use crate::hive::plan::{
    after_activation, apply_plan, before_activation, build_at, build_plan, builds,
    builds_on_target, evaluate_at, evaluates, first_keys, key_edges, key_steps, keys_at,
    leading_edges, leading_steps, one_if, only_sink, ping_index, push_build_at,
    push_derivation_at, pushes_build, pushes_derivation, second_keys, uploads_first, uploads_keys,
    uploads_second, ApplyGoalArgs, PlanView,
};
use crate::hive::steps::build_node::{BuildMetadata, NixCommandBuildMetadata};
use crate::hive::steps::keys::KeyView;
use crate::hive::steps::push::PushOutputKind;
use crate::modifiers::SubCommandModifiers;
use vstd::prelude::*;

verus! {

/// A plan for building a node ends in the build: it is the one step that no other waits for.
pub proof fn build_plan_ends_in_build(
    modifiers: SubCommandModifiers,
    cached_evaluation: Option<Seq<char>>,
)
    ensures
        ({
            let plan = build_plan(modifiers, cached_evaluation);
            only_sink(plan, (plan.steps.len() - 1) as usize) && plan.steps.last() is Build
        }),
{
    let plan = build_plan(modifiers, cached_evaluation);
    let last = (plan.steps.len() - 1) as usize;
    assert(is_sink(plan.edges, last));
    assert forall|other: usize|
        other < plan.steps.len() && #[trigger] is_sink(plan.edges, other) implies other
        == last by {
        if other != last {
            assert(plan.edges[0].0 == other);
        }
    }
}

proof fn lemma_filters_make_whole(keys: Seq<KeyView>)
    ensures
        keys.filter(before_activation()).to_multiset().add(
            keys.filter(after_activation()).to_multiset(),
        ) =~= keys.to_multiset(),
    decreases keys.len(),
{
    broadcast use vstd::seq_lib::group_to_multiset_ensures;

    reveal(Seq::filter);
    if keys.len() > 0 {
        lemma_filters_make_whole(keys.drop_last());
        assert(keys =~= keys.drop_last().push(keys.last()));
    }
}

/// A goal that uploads keys uploads every key of the node, each once.
pub proof fn every_key_is_uploaded_once(args: ApplyGoalArgs, node: NodeView)
    requires
        uploads_keys(args),
    ensures
        first_keys(args.goal, node.keys).to_multiset().add(
            second_keys(args.goal, node.keys).to_multiset(),
        ) =~= node.keys.to_multiset(),
{
    broadcast use vstd::seq_lib::group_to_multiset_ensures;

    lemma_filters_make_whole(node.keys);
}

/// Whether a step is about keys.
pub open spec fn handles_keys(step: StepView) -> bool {
    step is Keys || step is PushKeyAgent
}

/// Whether a step needs the node to be reachable by itself.
pub open spec fn needs_the_network(step: StepView) -> bool {
    step is Ping || step is PushOutput
}

proof fn lemma_steps_of_plan(
    args: ApplyGoalArgs,
    node: NodeView,
    modifiers: SubCommandModifiers,
    cached_evaluation: Option<Seq<char>>,
    index: int,
)
    requires
        0 <= index < apply_plan(args, node, modifiers, cached_evaluation).steps.len(),
    ensures
        ({
            let plan = apply_plan(args, node, modifiers, cached_evaluation);
            let leading = leading_steps(args, node, modifiers, cached_evaluation);
            let keys_at = keys_at(args, node, modifiers, cached_evaluation);
            &&& leading.len() == keys_at
            &&& index < keys_at ==> plan.steps[index] == leading[index]
            &&& index >= keys_at ==> !needs_the_network(plan.steps[index])
            &&& index >= keys_at && handles_keys(plan.steps[index]) ==> uploads_keys(args)
        }),
{
    reveal(leading_steps);
    reveal(key_steps);
}

/// Without keys no step is about keys.
pub proof fn no_keys_means_no_key_steps(
    args: ApplyGoalArgs,
    node: NodeView,
    modifiers: SubCommandModifiers,
    cached_evaluation: Option<Seq<char>>,
    index: int,
)
    requires
        args.no_keys,
        0 <= index < apply_plan(args, node, modifiers, cached_evaluation).steps.len(),
    ensures
        !handles_keys(apply_plan(args, node, modifiers, cached_evaluation).steps[index]),
{
    reveal(leading_steps);
    lemma_steps_of_plan(args, node, modifiers, cached_evaluation, index);
}

/// A goal that is applied locally neither pings nor copies anything.
pub proof fn local_plans_stay_local(
    args: ApplyGoalArgs,
    node: NodeView,
    modifiers: SubCommandModifiers,
    cached_evaluation: Option<Seq<char>>,
    index: int,
)
    requires
        args.should_apply_locally,
        0 <= index < apply_plan(args, node, modifiers, cached_evaluation).steps.len(),
    ensures
        !needs_the_network(apply_plan(args, node, modifiers, cached_evaluation).steps[index]),
{
    reveal(leading_steps);
    lemma_steps_of_plan(args, node, modifiers, cached_evaluation, index);
}

/// Whether the step at `index` waits for one that satisfies `wanted`.
pub open spec fn waits_for(
    plan: PlanView,
    index: int,
    wanted: spec_fn(StepView) -> bool,
) -> bool {
    exists|i: int|
        0 <= i < plan.edges.len() && (#[trigger] plan.edges[i]).1 == index && wanted(
            plan.steps[plan.edges[i].0 as int],
        )
}

proof fn lemma_leading_steps(
    args: ApplyGoalArgs,
    node: NodeView,
    modifiers: SubCommandModifiers,
    cached_evaluation: Option<Seq<char>>,
    index: int,
)
    requires
        0 <= index < keys_at(args, node, modifiers, cached_evaluation),
    ensures
        ({
            let leading = leading_steps(args, node, modifiers, cached_evaluation);
            let derivation_at = push_derivation_at(args, node, modifiers, cached_evaluation);
            let push_build_at = push_build_at(args, node, modifiers, cached_evaluation);
            &&& leading[index] is PushOutput && leading[index]->PushOutput_kind
                == PushOutputKind::Evaluation ==> pushes_derivation(args, node) && index
                == derivation_at
            &&& leading[index] is PushOutput && leading[index]->PushOutput_kind
                == PushOutputKind::Build ==> pushes_build(args, node) && index == push_build_at
            &&& !args.should_apply_locally ==> leading[0] is Ping
            &&& pushes_build(args, node) ==> leading[push_build_at] is PushOutput
            &&& evaluates(args, node, modifiers, cached_evaluation)
                ==> leading[evaluate_at(args)] is Evaluate
            &&& builds(args) ==> leading[build_at(
                args,
                node,
                modifiers,
                cached_evaluation,
            )] is Build
        }),
{
    reveal(leading_steps);
}

proof fn lemma_leading_edges(
    args: ApplyGoalArgs,
    node: NodeView,
    modifiers: SubCommandModifiers,
    cached_evaluation: Option<Seq<char>>,
)
    ensures
        ({
            let edges = leading_edges(args, node, modifiers, cached_evaluation);
            let derivation_at = push_derivation_at(args, node, modifiers, cached_evaluation);
            let build_at = build_at(args, node, modifiers, cached_evaluation);
            let push_build_at = push_build_at(args, node, modifiers, cached_evaluation);
            let n = edges.len() as int;
            &&& pushes_derivation(args, node) ==> n >= 2 && edges[0] == (
                evaluate_at(args) as usize,
                derivation_at as usize,
            ) && edges[1] == (0usize, derivation_at as usize)
            &&& pushes_build(args, node) ==> n >= 2 && edges[n - 2] == (
                0usize,
                push_build_at as usize,
            ) && edges[n - 1] == (build_at as usize, push_build_at as usize)
        }),
{
    reveal(leading_edges);
}

proof fn lemma_leading_edges_come_first(
    args: ApplyGoalArgs,
    node: NodeView,
    modifiers: SubCommandModifiers,
    cached_evaluation: Option<Seq<char>>,
    i: int,
)
    requires
        0 <= i < leading_edges(args, node, modifiers, cached_evaluation).len(),
    ensures
        i < apply_plan(args, node, modifiers, cached_evaluation).edges.len(),
        apply_plan(args, node, modifiers, cached_evaluation).edges[i] == leading_edges(
            args,
            node,
            modifiers,
            cached_evaluation,
        )[i],
{
}

/// A step that copies an output waits for the step that makes the output, and for the ping that
/// finds the host to copy to.
pub proof fn pushes_find_what_they_need(
    args: ApplyGoalArgs,
    node: NodeView,
    modifiers: SubCommandModifiers,
    cached_evaluation: Option<Seq<char>>,
    index: int,
)
    requires
        0 <= index < apply_plan(args, node, modifiers, cached_evaluation).steps.len(),
        apply_plan(args, node, modifiers, cached_evaluation).steps[index] is PushOutput,
    ensures
        ({
            let plan = apply_plan(args, node, modifiers, cached_evaluation);
            &&& waits_for(plan, index, |step: StepView| step is Ping)
            &&& plan.steps[index]->PushOutput_kind == PushOutputKind::Evaluation ==> waits_for(
                plan,
                index,
                |step: StepView| step is Evaluate,
            )
            &&& plan.steps[index]->PushOutput_kind == PushOutputKind::Build ==> waits_for(
                plan,
                index,
                |step: StepView| step is Build,
            )
        }),
{
    let plan = apply_plan(args, node, modifiers, cached_evaluation);
    let leading = leading_edges(args, node, modifiers, cached_evaluation);
    let n = leading.len() as int;
    lemma_steps_of_plan(args, node, modifiers, cached_evaluation, index);
    lemma_steps_of_plan(args, node, modifiers, cached_evaluation, 0);
    lemma_leading_steps(args, node, modifiers, cached_evaluation, index);
    lemma_leading_edges(args, node, modifiers, cached_evaluation);
    if plan.steps[index]->PushOutput_kind == PushOutputKind::Evaluation {
        lemma_steps_of_plan(args, node, modifiers, cached_evaluation, evaluate_at(args));
        lemma_leading_edges_come_first(args, node, modifiers, cached_evaluation, 0);
        lemma_leading_edges_come_first(args, node, modifiers, cached_evaluation, 1);
        assert(plan.edges[0].1 == index);
        assert(plan.edges[1].1 == index);
    } else {
        let build = build_at(args, node, modifiers, cached_evaluation);
        lemma_steps_of_plan(args, node, modifiers, cached_evaluation, build);
        lemma_leading_edges_come_first(args, node, modifiers, cached_evaluation, n - 2);
        lemma_leading_edges_come_first(args, node, modifiers, cached_evaluation, n - 1);
        assert(plan.edges[n - 2].1 == index);
        assert(plan.edges[n - 1].1 == index);
    }
}

/// Wherever a goal activates a system, the activation waits for the build or for the copy of
/// what was built, for the ping where there is one, and for the keys that come before it. The
/// keys that come after it wait for it.
pub proof fn activation_stands_between_the_keys(
    args: ApplyGoalArgs,
    node: NodeView,
    modifiers: SubCommandModifiers,
    cached_evaluation: Option<Seq<char>>,
)
    requires
        args.goal is SwitchToConfiguration,
    ensures
        ({
            let plan = apply_plan(args, node, modifiers, cached_evaluation);
            let activate = plan.steps.len() - 1;
            let second_at = keys_at(args, node, modifiers, cached_evaluation) + 1 + one_if(
                uploads_first(args, node),
            );
            &&& plan.steps[activate] is SwitchToConfiguration
            &&& waits_for(
                plan,
                activate,
                |step: StepView|
                    if pushes_build(args, node) {
                        step is PushOutput
                    } else {
                        step is Build
                    },
            )
            &&& !args.should_apply_locally ==> waits_for(
                plan,
                activate,
                |step: StepView| step is Ping,
            )
            &&& uploads_first(args, node) ==> waits_for(
                plan,
                activate,
                |step: StepView|
                    step is Keys && step->Keys_keys == first_keys(args.goal, node.keys),
            )
            &&& uploads_second(args, node) ==> plan.steps[second_at] is Keys
                && plan.steps[second_at]->Keys_keys == second_keys(args.goal, node.keys)
                && waits_for(plan, second_at, |step: StepView| step is SwitchToConfiguration)
        }),
{
    reveal(key_steps);
    let plan = apply_plan(args, node, modifiers, cached_evaluation);
    let activate = plan.steps.len() - 1;
    let n = plan.edges.len() as int;
    let first = uploads_first(args, node);
    let second = uploads_second(args, node);
    let built_at = if pushes_build(args, node) {
        push_build_at(args, node, modifiers, cached_evaluation)
    } else {
        build_at(args, node, modifiers, cached_evaluation)
    };
    let keys_edge = n - 1 - one_if(second);
    let built_edge = n - 1 - one_if(second) - one_if(first);
    lemma_steps_of_plan(args, node, modifiers, cached_evaluation, activate);
    lemma_steps_of_plan(args, node, modifiers, cached_evaluation, built_at);
    lemma_leading_steps(args, node, modifiers, cached_evaluation, built_at);
    assert(plan.edges[built_edge] == (built_at as usize, activate as usize));
    if !args.should_apply_locally {
        lemma_steps_of_plan(args, node, modifiers, cached_evaluation, 0);
        assert(plan.edges[built_edge - 1] == (0usize, activate as usize));
    }
    if first {
        let first_at = keys_at(args, node, modifiers, cached_evaluation) + 1;
        assert(plan.edges[keys_edge] == (first_at as usize, activate as usize));
        assert(plan.steps[first_at] is Keys);
    }
    if second {
        let second_at = keys_at(args, node, modifiers, cached_evaluation) + 1 + one_if(first);
        assert(plan.edges[n - 1] == (activate as usize, second_at as usize));
        assert(plan.steps[second_at] is Keys);
    }
}

/// A plan for building a node never reaches it: it does not ping, copy, upload or activate, and it
/// builds on this machine or through its daemon.
pub proof fn builds_stay_offline(
    modifiers: SubCommandModifiers,
    cached_evaluation: Option<Seq<char>>,
    index: int,
)
    requires
        0 <= index < build_plan(modifiers, cached_evaluation).steps.len(),
    ensures
        match build_plan(modifiers, cached_evaluation).steps[index] {
            StepView::Evaluate { .. } => true,
            StepView::Build { metadata } => metadata != BuildMetadata::NixCommand(
                NixCommandBuildMetadata::Remotely,
            ),
            _ => false,
        },
{
}

/// Uploads are planned only where there are keys to upload.
pub proof fn planned_uploads_have_keys(
    args: ApplyGoalArgs,
    node: NodeView,
    modifiers: SubCommandModifiers,
    cached_evaluation: Option<Seq<char>>,
    index: int,
)
    requires
        0 <= index < apply_plan(args, node, modifiers, cached_evaluation).steps.len(),
        apply_plan(args, node, modifiers, cached_evaluation).steps[index] is Keys,
    ensures
        apply_plan(args, node, modifiers, cached_evaluation).steps[index]->Keys_keys.len() > 0,
{
    reveal(leading_steps);
    reveal(key_steps);
}

proof fn lemma_key_edges(args: ApplyGoalArgs, node: NodeView, ping: Option<usize>, base: int)
    requires
        first_keys(args.goal, node.keys).len() > 0 || second_keys(args.goal, node.keys).len() > 0,
        0 <= base < usize::MAX - 2,
    ensures
        ({
            let edges = key_edges(args, node, ping, base);
            let first = first_keys(args.goal, node.keys).len() > 0;
            let second = second_keys(args.goal, node.keys).len() > 0;
            let first_at = base + 1;
            let second_at = base + 1 + one_if(first);
            let pings = one_if(ping is Some);
            let last = edges.len() - 1;
            &&& edges.len() == pings + one_if(first) * (1 + pings) + one_if(second) * (1 + pings)
            &&& ping is Some ==> edges[0] == (ping->0, base as usize)
            &&& first ==> edges[2 * pings] == (base as usize, first_at as usize)
            &&& first && ping is Some ==> edges[1] == (ping->0, first_at as usize)
            &&& second ==> edges[last] == (base as usize, second_at as usize)
            &&& second && ping is Some ==> edges[last - 1] == (ping->0, second_at as usize)
        }),
{
    reveal(key_edges);
}

proof fn lemma_own_key_steps(args: ApplyGoalArgs, node: NodeView)
    requires
        first_keys(args.goal, node.keys).len() > 0 || second_keys(args.goal, node.keys).len() > 0,
    ensures
        ({
            let steps = key_steps(args, node);
            let first = first_keys(args.goal, node.keys).len() > 0;
            let second = second_keys(args.goal, node.keys).len() > 0;
            &&& steps.len() == 1 + one_if(first) + one_if(second)
            &&& steps[0] is PushKeyAgent
            &&& first ==> steps[1] is Keys
            &&& second ==> steps[1 + one_if(first)] is Keys
        }),
{
    reveal(key_steps);
}

proof fn lemma_key_steps(
    args: ApplyGoalArgs,
    node: NodeView,
    modifiers: SubCommandModifiers,
    cached_evaluation: Option<Seq<char>>,
)
    requires
        uploads_first(args, node) || uploads_second(args, node),
    ensures
        ({
            let plan = apply_plan(args, node, modifiers, cached_evaluation);
            let agent_at = keys_at(args, node, modifiers, cached_evaluation);
            let second_at = agent_at + 1 + one_if(uploads_first(args, node));
            &&& plan.steps[agent_at] is PushKeyAgent
            &&& agent_at + one_if(uploads_first(args, node)) + one_if(uploads_second(args, node))
                < plan.steps.len()
            &&& uploads_first(args, node) ==> plan.steps[agent_at + 1] is Keys
            &&& uploads_second(args, node) ==> plan.steps[second_at] is Keys
            &&& !args.should_apply_locally ==> plan.steps[0] is Ping
            &&& builds(args) ==> plan.steps[build_at(
                args,
                node,
                modifiers,
                cached_evaluation,
            )] is Build
        }),
{
    let plan = apply_plan(args, node, modifiers, cached_evaluation);
    let leading = leading_steps(args, node, modifiers, cached_evaluation);
    let keys = key_steps(args, node);
    let agent_at = keys_at(args, node, modifiers, cached_evaluation);
    let build = build_at(args, node, modifiers, cached_evaluation);
    lemma_own_key_steps(args, node);
    assert(plan.steps.len() >= leading.len() + keys.len());
    lemma_steps_of_plan(args, node, modifiers, cached_evaluation, 0);
    assert(plan.steps[agent_at] == keys[0]);
    if uploads_first(args, node) {
        assert(plan.steps[agent_at + 1] == keys[1]);
    }
    if uploads_second(args, node) {
        let second = 1 + one_if(uploads_first(args, node));
        assert(plan.steps[agent_at + second] == keys[second]);
    }
    if !args.should_apply_locally {
        lemma_leading_steps(args, node, modifiers, cached_evaluation, 0);
    }
    if builds(args) {
        lemma_leading_steps(args, node, modifiers, cached_evaluation, build);
        lemma_steps_of_plan(args, node, modifiers, cached_evaluation, build);
    }
}

proof fn lemma_key_edges_in_plan(
    args: ApplyGoalArgs,
    node: NodeView,
    modifiers: SubCommandModifiers,
    cached_evaluation: Option<Seq<char>>,
    i: int,
)
    requires
        uploads_keys(args),
    ensures
        ({
            let plan = apply_plan(args, node, modifiers, cached_evaluation);
            let agent_at = keys_at(args, node, modifiers, cached_evaluation);
            let leading = leading_edges(args, node, modifiers, cached_evaluation).len() as int;
            let keys = key_edges(args, node, ping_index(args), agent_at);
            let build_edge = leading + keys.len() + one_if(pushes_build(args, node));
            &&& 0 <= i < keys.len() ==> leading + i < plan.edges.len() && plan.edges[leading + i]
                == keys[i]
            &&& uploads_first(args, node) && builds(args) ==> build_edge < plan.edges.len()
                && plan.edges[build_edge] == (
                build_at(args, node, modifiers, cached_evaluation) as usize,
                (agent_at + 1) as usize,
            )
        }),
{
}

/// The agent waits for the ping where there is one. An upload waits for the agent, and for the ping
/// too; one before the activation also waits for the build, and so for the evaluation before it,
/// wherever something is built.
pub proof fn uploads_find_the_agent(
    args: ApplyGoalArgs,
    node: NodeView,
    modifiers: SubCommandModifiers,
    cached_evaluation: Option<Seq<char>>,
)
    requires
        uploads_first(args, node) || uploads_second(args, node),
    ensures
        ({
            let plan = apply_plan(args, node, modifiers, cached_evaluation);
            let agent_at = keys_at(args, node, modifiers, cached_evaluation);
            let first_at = agent_at + 1;
            let second_at = agent_at + 1 + one_if(uploads_first(args, node));
            let ping = |step: StepView| step is Ping;
            let agent = |step: StepView| step is PushKeyAgent;
            &&& plan.steps[agent_at] is PushKeyAgent
            &&& !args.should_apply_locally ==> waits_for(plan, agent_at, ping)
            &&& uploads_first(args, node) ==> {
                &&& plan.steps[first_at] is Keys
                &&& waits_for(plan, first_at, agent)
                &&& !args.should_apply_locally ==> waits_for(plan, first_at, ping)
                &&& builds(args) ==> waits_for(plan, first_at, |step: StepView| step is Build)
            }
            &&& uploads_second(args, node) ==> {
                &&& plan.steps[second_at] is Keys
                &&& waits_for(plan, second_at, agent)
                &&& !args.should_apply_locally ==> waits_for(plan, second_at, ping)
            }
        }),
{
    let plan = apply_plan(args, node, modifiers, cached_evaluation);
    let agent_at = keys_at(args, node, modifiers, cached_evaluation);
    let first = uploads_first(args, node);
    let second = uploads_second(args, node);
    let pings = !args.should_apply_locally;
    let leading = leading_edges(args, node, modifiers, cached_evaluation).len() as int;
    let keys = key_edges(args, node, ping_index(args), agent_at);
    let last = keys.len() - 1;
    lemma_key_edges(args, node, ping_index(args), agent_at);
    lemma_key_steps(args, node, modifiers, cached_evaluation);
    lemma_key_edges_in_plan(args, node, modifiers, cached_evaluation, 0);
    if pings {
        assert(plan.edges[leading].1 == agent_at);
    }
    if first {
        let agent_edge = 2 * one_if(pings);
        lemma_key_edges_in_plan(args, node, modifiers, cached_evaluation, agent_edge);
        assert(plan.edges[leading + agent_edge].1 == agent_at + 1);
        if pings {
            lemma_key_edges_in_plan(args, node, modifiers, cached_evaluation, 1);
            assert(plan.edges[leading + 1].1 == agent_at + 1);
        }
        if builds(args) {
            let build_edge = leading + keys.len() + one_if(pushes_build(args, node));
            assert(plan.edges[build_edge].1 == agent_at + 1);
        }
    }
    if second {
        let second_at = agent_at + 1 + one_if(first);
        lemma_key_edges_in_plan(args, node, modifiers, cached_evaluation, last);
        assert(plan.edges[leading + last].1 == second_at);
        if pings {
            lemma_key_edges_in_plan(args, node, modifiers, cached_evaluation, last - 1);
            assert(plan.edges[leading + last - 1].1 == second_at);
        }
    }
}

proof fn lemma_remote_build_edges(
    args: ApplyGoalArgs,
    node: NodeView,
    modifiers: SubCommandModifiers,
    cached_evaluation: Option<Seq<char>>,
)
    requires
        builds(args),
        builds_on_target(args, node),
    ensures
        ({
            let edges = leading_edges(args, node, modifiers, cached_evaluation);
            let derivation_at = push_derivation_at(args, node, modifiers, cached_evaluation);
            let build_at = build_at(args, node, modifiers, cached_evaluation);
            &&& edges.len() >= 4
            &&& edges[2] == (derivation_at as usize, build_at as usize)
            &&& edges[3] == (0usize, build_at as usize)
        }),
{
    reveal(leading_edges);
}

proof fn lemma_pushed_derivation(
    args: ApplyGoalArgs,
    node: NodeView,
    modifiers: SubCommandModifiers,
    cached_evaluation: Option<Seq<char>>,
)
    requires
        pushes_derivation(args, node),
    ensures
        leading_steps(args, node, modifiers, cached_evaluation)[push_derivation_at(
            args,
            node,
            modifiers,
            cached_evaluation,
        )] is PushOutput,
        leading_steps(args, node, modifiers, cached_evaluation).len() > 0,
{
    reveal(leading_steps);
}

/// A build on the node waits for the ping, and for the derivation to be copied there.
pub proof fn remote_builds_find_what_they_need(
    args: ApplyGoalArgs,
    node: NodeView,
    modifiers: SubCommandModifiers,
    cached_evaluation: Option<Seq<char>>,
)
    requires
        builds(args),
        builds_on_target(args, node),
    ensures
        ({
            let plan = apply_plan(args, node, modifiers, cached_evaluation);
            let build_at = build_at(args, node, modifiers, cached_evaluation);
            &&& plan.steps[build_at] is Build
            &&& waits_for(plan, build_at, |step: StepView| step is Ping)
            &&& waits_for(plan, build_at, |step: StepView| step is PushOutput)
        }),
{
    let plan = apply_plan(args, node, modifiers, cached_evaluation);
    let build = build_at(args, node, modifiers, cached_evaluation);
    let derivation = push_derivation_at(args, node, modifiers, cached_evaluation);
    lemma_remote_build_edges(args, node, modifiers, cached_evaluation);
    lemma_pushed_derivation(args, node, modifiers, cached_evaluation);
    lemma_steps_of_plan(args, node, modifiers, cached_evaluation, 0);
    lemma_steps_of_plan(args, node, modifiers, cached_evaluation, build);
    lemma_steps_of_plan(args, node, modifiers, cached_evaluation, derivation);
    lemma_leading_steps(args, node, modifiers, cached_evaluation, build);
    lemma_leading_edges_come_first(args, node, modifiers, cached_evaluation, 2);
    lemma_leading_edges_come_first(args, node, modifiers, cached_evaluation, 3);
    assert(plan.edges[2].1 == build);
    assert(plan.edges[3].1 == build);
}

/// A plan for keys does nothing else: it finds the host, pushes the agent and uploads.
pub proof fn key_plans_do_nothing_else(
    args: ApplyGoalArgs,
    node: NodeView,
    modifiers: SubCommandModifiers,
    cached_evaluation: Option<Seq<char>>,
    index: int,
)
    requires
        args.goal == ApplyGoal::Keys,
        0 <= index < apply_plan(args, node, modifiers, cached_evaluation).steps.len(),
    ensures
        ({
            let step = apply_plan(args, node, modifiers, cached_evaluation).steps[index];
            step is Ping || handles_keys(step)
        }),
{
    reveal(leading_steps);
    reveal(key_steps);
}

} // verus!
