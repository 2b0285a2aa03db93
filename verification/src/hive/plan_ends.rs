//! Where plans end.
use crate::hive::graph::is_sink;
use crate::hive::node::NodeView;
use crate::hive::plan::{
    apply_plan, build_at, builds, builds_on_target, edge_if, evaluate_at, evaluates, first_keys,
    key_edges, key_steps, keys_at, leading_edges, leading_steps, one_if, only_sink, ping_index,
    push_build_at, push_derivation_at, pushes_build, pushes_derivation, second_keys,
    uploads_first, uploads_keys, uploads_second, ApplyGoalArgs,
};
use crate::modifiers::SubCommandModifiers;
use vstd::prelude::*;

verus! {

proof fn lemma_sinks_of_both(
    first: Seq<(usize, usize)>,
    second: Seq<(usize, usize)>,
    index: usize,
)
    ensures
        is_sink(first + second, index) <==> is_sink(first, index) && is_sink(second, index),
{
    let both = first + second;
    if is_sink(both, index) {
        assert forall|i: int| 0 <= i < first.len() implies (#[trigger] first[i]).0 != index by {
            assert(both[i] == first[i]);
        }
        assert forall|i: int| 0 <= i < second.len() implies (#[trigger] second[i]).0 != index by {
            assert(both[first.len() + i] == second[i]);
        }
    }
    if is_sink(first, index) && is_sink(second, index) {
        assert forall|i: int| 0 <= i < both.len() implies (#[trigger] both[i]).0 != index by {
            if i < first.len() {
                assert(both[i] == first[i]);
            } else {
                assert(both[i] == second[i - first.len()]);
            }
        }
    }
}

proof fn lemma_sinks_of_edge(wanted: bool, from: int, to: int, index: usize)
    ensures
        is_sink(edge_if(wanted, from, to), index) <==> !(wanted && from as usize == index),
{
    if wanted {
        assert(edge_if(wanted, from, to)[0].0 == from as usize);
    }
}

proof fn lemma_sinks_of_one_more(
    edges: Seq<(usize, usize)>,
    wanted: bool,
    from: int,
    to: int,
    index: usize,
)
    ensures
        is_sink(edges + edge_if(wanted, from, to), index) <==> is_sink(edges, index) && !(wanted
            && from as usize == index),
{
    lemma_sinks_of_both(edges, edge_if(wanted, from, to), index);
    lemma_sinks_of_edge(wanted, from, to, index);
}

proof fn lemma_sinks_of_leading_edges(
    args: ApplyGoalArgs,
    node: NodeView,
    modifiers: SubCommandModifiers,
    cached_evaluation: Option<Seq<char>>,
    index: usize,
)
    ensures
        is_sink(leading_edges(args, node, modifiers, cached_evaluation), index) <==> {
            let evaluated = evaluates(args, node, modifiers, cached_evaluation);
            let pushed = pushes_derivation(args, node);
            let pings = !args.should_apply_locally;
            &&& !(evaluated && pushed && evaluate_at(args) == index)
            &&& !(pings && (pushed || builds(args) && builds_on_target(args, node)) && index == 0)
            &&& !(pushes_build(args, node) && index == 0)
            &&& !(pushed && builds(args) && push_derivation_at(
                args,
                node,
                modifiers,
                cached_evaluation,
            ) == index)
            &&& !(pushes_build(args, node) && build_at(args, node, modifiers, cached_evaluation)
                == index)
        },
{
    reveal(leading_edges);
    let pings = !args.should_apply_locally;
    let derivation_at = push_derivation_at(args, node, modifiers, cached_evaluation);
    let build_at = build_at(args, node, modifiers, cached_evaluation);
    let copy_at = push_build_at(args, node, modifiers, cached_evaluation);
    let evaluated = evaluates(args, node, modifiers, cached_evaluation);
    let pushed = pushes_derivation(args, node);
    let w4 = pings && builds(args) && builds_on_target(args, node);
    let w5 = pushes_build(args, node);
    let e1 = edge_if(evaluated && pushed, evaluate_at(args), derivation_at);
    let e2 = e1 + edge_if(pings && pushed, 0, derivation_at);
    let e3 = e2 + edge_if(pushed && builds(args), derivation_at, build_at);
    let e4 = e3 + edge_if(w4, 0, build_at);
    let e5 = e4 + edge_if(w5, 0, copy_at);
    lemma_sinks_of_edge(evaluated && pushed, evaluate_at(args), derivation_at, index);
    lemma_sinks_of_one_more(e1, pings && pushed, 0, derivation_at, index);
    lemma_sinks_of_one_more(e2, pushed && builds(args), derivation_at, build_at, index);
    lemma_sinks_of_one_more(e3, w4, 0, build_at, index);
    lemma_sinks_of_one_more(e4, w5, 0, copy_at, index);
    lemma_sinks_of_one_more(e5, w5, build_at, copy_at, index);
}

proof fn lemma_sinks_of_key_edges(
    args: ApplyGoalArgs,
    node: NodeView,
    ping: Option<usize>,
    base: int,
    index: usize,
)
    requires
        0 <= base <= 5,
    ensures
        is_sink(key_edges(args, node, ping, base), index) <==> {
            let any = first_keys(args.goal, node.keys).len() > 0 || second_keys(
                args.goal,
                node.keys,
            ).len() > 0;
            !(any && ping == Some(index)) && !(any && base == index)
        },
{
    reveal(key_edges);
    let first = first_keys(args.goal, node.keys).len() > 0;
    let second = second_keys(args.goal, node.keys).len() > 0;
    let from = ping->0 as int;
    let second_at = base + 1 + one_if(first);
    let e1 = edge_if((first || second) && ping is Some, from, base);
    let e2 = e1 + edge_if(first && ping is Some, from, base + 1);
    let e3 = e2 + edge_if(first, base, base + 1);
    let e4 = e3 + edge_if(second && ping is Some, from, second_at);
    lemma_sinks_of_edge((first || second) && ping is Some, from, base, index);
    lemma_sinks_of_one_more(e1, first && ping is Some, from, base + 1, index);
    lemma_sinks_of_one_more(e2, first, base, base + 1, index);
    lemma_sinks_of_one_more(e3, second && ping is Some, from, second_at, index);
    lemma_sinks_of_one_more(e4, second, base, second_at, index);
}

proof fn lemma_sinks_of_plan(
    args: ApplyGoalArgs,
    node: NodeView,
    modifiers: SubCommandModifiers,
    cached_evaluation: Option<Seq<char>>,
    index: usize,
)
    ensures
        is_sink(apply_plan(args, node, modifiers, cached_evaluation).edges, index) <==> {
            let first = uploads_first(args, node);
            let second = uploads_second(args, node);
            let activates = args.goal is SwitchToConfiguration;
            let build_at = build_at(args, node, modifiers, cached_evaluation);
            let copy_at = push_build_at(args, node, modifiers, cached_evaluation);
            let keys_at = keys_at(args, node, modifiers, cached_evaluation);
            let activate_at = keys_at + one_if(first || second) + one_if(first) + one_if(second);
            &&& is_sink(leading_edges(args, node, modifiers, cached_evaluation), index)
            &&& !((first || second) && (keys_at == index || !args.should_apply_locally && index
                == 0))
            &&& !(first && (pushes_build(args, node) && copy_at == index || builds(args)
                && build_at == index))
            &&& !(activates && !args.should_apply_locally && index == 0)
            &&& !(activates && index == if pushes_build(args, node) {
                copy_at
            } else {
                build_at
            })
            &&& !(activates && first && keys_at + 1 == index)
            &&& !(activates && second && activate_at == index)
        },
{
    let first = uploads_first(args, node);
    let second = uploads_second(args, node);
    let activates = args.goal is SwitchToConfiguration;
    let build_at = build_at(args, node, modifiers, cached_evaluation);
    let copy_at = push_build_at(args, node, modifiers, cached_evaluation);
    let keys_at = keys_at(args, node, modifiers, cached_evaluation);
    let first_at = keys_at + 1;
    let second_at = keys_at + 1 + one_if(first);
    let activate_at = keys_at + one_if(first || second) + one_if(first) + one_if(second);
    let built_at = if pushes_build(args, node) {
        copy_at
    } else {
        build_at
    };
    let pings = !args.should_apply_locally;
    let leading = leading_edges(args, node, modifiers, cached_evaluation);
    let keys = if uploads_keys(args) {
        key_edges(args, node, ping_index(args), keys_at)
    } else {
        Seq::empty()
    };
    lemma_sinks_of_key_edges(args, node, ping_index(args), keys_at, index);
    let w1 = first && pushes_build(args, node);
    let w2 = first && builds(args);
    let e0 = leading + keys;
    let e1 = e0 + edge_if(w1, copy_at, first_at);
    let e2 = e1 + edge_if(w2, build_at, first_at);
    let e3 = e2 + edge_if(activates && pings, 0, activate_at);
    let e4 = e3 + edge_if(activates, built_at, activate_at);
    let e5 = e4 + edge_if(activates && first, first_at, activate_at);
    lemma_sinks_of_both(leading, keys, index);
    lemma_sinks_of_one_more(e0, w1, copy_at, first_at, index);
    lemma_sinks_of_one_more(e1, w2, build_at, first_at, index);
    lemma_sinks_of_one_more(e2, activates && pings, 0, activate_at, index);
    lemma_sinks_of_one_more(e3, activates, built_at, activate_at, index);
    lemma_sinks_of_one_more(e4, activates && first, first_at, activate_at, index);
    lemma_sinks_of_one_more(e5, activates && second, activate_at, second_at, index);
    assert(apply_plan(args, node, modifiers, cached_evaluation).edges == e5 + edge_if(
        activates && second,
        activate_at,
        second_at,
    ));
}

/// The step that a plan ends in: the upload after the activation, else the activation, else the
/// only upload, else the last of the steps before the keys.
pub open spec fn end_of_plan(
    args: ApplyGoalArgs,
    node: NodeView,
    modifiers: SubCommandModifiers,
    cached_evaluation: Option<Seq<char>>,
) -> int {
    let first = uploads_first(args, node);
    let second = uploads_second(args, node);
    let keys_at = keys_at(args, node, modifiers, cached_evaluation);
    if second {
        keys_at + 1 + one_if(first)
    } else if args.goal is SwitchToConfiguration {
        keys_at + one_if(first) + one_if(first)
    } else if first {
        keys_at + 1
    } else {
        keys_at - 1
    }
}

/// Whether something is evaluated beside the build: nothing waits for the evaluation then.
pub open spec fn evaluates_aside(
    args: ApplyGoalArgs,
    node: NodeView,
    modifiers: SubCommandModifiers,
    cached_evaluation: Option<Seq<char>>,
) -> bool {
    evaluates(args, node, modifiers, cached_evaluation) && builds(args) && !pushes_derivation(
        args,
        node,
    )
}

/// Every plan for applying a goal ends in one step, all others are waited for, unless something is
/// evaluated beside the build. Only a plan without steps ends in none.
pub proof fn apply_plan_ends_in_one_step(
    args: ApplyGoalArgs,
    node: NodeView,
    modifiers: SubCommandModifiers,
    cached_evaluation: Option<Seq<char>>,
)
    requires
        apply_plan(args, node, modifiers, cached_evaluation).steps.len() > 0,
        !evaluates_aside(args, node, modifiers, cached_evaluation),
    ensures
        only_sink(
            apply_plan(args, node, modifiers, cached_evaluation),
            end_of_plan(args, node, modifiers, cached_evaluation) as usize,
        ),
{
    let plan = apply_plan(args, node, modifiers, cached_evaluation);
    let end = end_of_plan(args, node, modifiers, cached_evaluation) as usize;
    lemma_length_of_plan(args, node, modifiers, cached_evaluation);
    lemma_sinks_of_plan(args, node, modifiers, cached_evaluation, end);
    lemma_sinks_of_leading_edges(args, node, modifiers, cached_evaluation, end);
    assert forall|other: usize|
        other < plan.steps.len() && #[trigger] is_sink(plan.edges, other) implies other
        == end by {
        lemma_sinks_of_plan(args, node, modifiers, cached_evaluation, other);
        lemma_sinks_of_leading_edges(args, node, modifiers, cached_evaluation, other);
    }
}

/// A plan that evaluates something beside the build ends in two steps: the evaluation, and the one
/// that it would end in anyway.
pub proof fn evaluations_aside_end_on_their_own(
    args: ApplyGoalArgs,
    node: NodeView,
    modifiers: SubCommandModifiers,
    cached_evaluation: Option<Seq<char>>,
    index: usize,
)
    requires
        evaluates_aside(args, node, modifiers, cached_evaluation),
        index < apply_plan(args, node, modifiers, cached_evaluation).steps.len(),
    ensures
        is_sink(apply_plan(args, node, modifiers, cached_evaluation).edges, index) <==> index
            == evaluate_at(args) || index == end_of_plan(args, node, modifiers, cached_evaluation),
{
    lemma_length_of_plan(args, node, modifiers, cached_evaluation);
    lemma_sinks_of_plan(args, node, modifiers, cached_evaluation, index);
    lemma_sinks_of_leading_edges(args, node, modifiers, cached_evaluation, index);
}

proof fn lemma_length_of_plan(
    args: ApplyGoalArgs,
    node: NodeView,
    modifiers: SubCommandModifiers,
    cached_evaluation: Option<Seq<char>>,
)
    ensures
        apply_plan(args, node, modifiers, cached_evaluation).steps.len() == keys_at(
            args,
            node,
            modifiers,
            cached_evaluation,
        ) + one_if(uploads_first(args, node) || uploads_second(args, node)) + one_if(
            uploads_first(args, node),
        ) + one_if(uploads_second(args, node)) + one_if(args.goal is SwitchToConfiguration),
{
    reveal(leading_steps);
    reveal(key_steps);
}

} // verus!
