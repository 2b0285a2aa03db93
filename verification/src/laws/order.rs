//! In which order the steps of a plan are carried out, and what an upload turns to next.
use crate::commands::common::{shows_distrust, untrusted_help};
use crate::hive::graph::sources_into;
use crate::hive::plan::{carries_out, indices, PlanGraph, PlanView, PlannedStep};
use crate::nix_client::push::{get_common_copy_path_help, DaemonPush, PushAction};
use crate::nix_client::NixDaemonClientError;
use vstd::prelude::*;

verus! {

proof fn lemma_last_source(edges: Seq<(usize, usize)>, index: usize)
    ensures
        edges.len() == 0 ==> sources_into(edges, index).len() == 0,
        edges.len() > 0 && edges.last().1 != index ==> sources_into(edges, index) == sources_into(
            edges.drop_last(),
            index,
        ),
        edges.len() > 0 && edges.last().1 == index ==> sources_into(edges, index) == seq![
            edges.last().0,
        ] + sources_into(edges.drop_last(), index),
{
    reveal(Seq::filter);
}

proof fn lemma_sources(edges: Seq<(usize, usize)>, index: usize, from: usize)
    ensures
        sources_into(edges, index).contains(from) <==> edges.contains((from, index)),
    decreases edges.len(),
{
    lemma_last_source(edges, index);
    if edges.len() > 0 {
        let front = edges.drop_last();
        lemma_sources(front, index, from);
        let before = sources_into(front, index);
        let after = sources_into(edges, index);
        if edges.last() == (from, index) {
            assert(after[0] == from);
            assert(edges[edges.len() - 1] == (from, index));
        }
        if before.contains(from) {
            let k = choose|k: int| 0 <= k < before.len() && before[k] == from;
            if edges.last().1 == index {
                assert(after[k + 1] == from);
            }
        }
        if after.contains(from) && edges.last() != (from, index) {
            let k = choose|k: int| 0 <= k < after.len() && after[k] == from;
            if edges.last().1 == index {
                assert(before[k - 1] == from);
            }
        }
        if front.contains((from, index)) {
            let k = choose|k: int| 0 <= k < front.len() && front[k] == (from, index);
            assert(edges[k] == (from, index));
        }
        if edges.contains((from, index)) && edges.last() != (from, index) {
            let k = choose|k: int| 0 <= k < edges.len() && edges[k] == (from, index);
            assert(front[k] == (from, index));
        }
    }
}

/// A plan is carried out as a whole: each step of it is there once, as it was planned, behind the
/// steps that it waits for, and it is handed what exactly these came to.
pub proof fn steps_come_after_what_they_wait_for(
    steps: Seq<PlannedStep>,
    plan: PlanView,
    at: int,
    from: usize,
)
    requires
        carries_out(steps, plan),
        0 <= at < steps.len(),
    ensures
        steps.len() == plan.steps.len(),
        steps[at].index < plan.steps.len(),
        steps[at].step@ == plan.steps[steps[at].index as int],
        forall|i: int, j: int|
            0 <= i < j < steps.len() ==> (#[trigger] steps[i]).index != (
            #[trigger] steps[j]).index,
        steps[at].parents@.contains(from) <==> plan.edges.contains((from, steps[at].index)),
        forall|before: int|
            0 <= before < steps.len() && plan.edges.contains(
                ((#[trigger] steps[before]).index, steps[at].index),
            ) ==> before < at,
{
    let order = indices(steps);
    assert(order[at] == steps[at].index);
    lemma_sources(plan.edges, steps[at].index, from);
    assert forall|i: int, j: int| 0 <= i < j < steps.len() implies (#[trigger] steps[i]).index != (
    #[trigger] steps[j]).index by {
        assert(order[i] != order[j]);
    }
    assert forall|before: int|
        0 <= before < steps.len() && plan.edges.contains(
            ((#[trigger] steps[before]).index, steps[at].index),
        ) implies before < at by {
        let edge = (steps[before].index, steps[at].index);
        let k = choose|k: int| 0 <= k < plan.edges.len() && plan.edges[k] == edge;
        assert(order.index_of(plan.edges[k].0) < order.index_of(plan.edges[k].1));
        lemma_place(order, before);
        lemma_place(order, at);
        assert(order[before] == edge.0);
    }
}

proof fn lemma_place(order: Seq<usize>, at: int)
    requires
        order.no_duplicates(),
        0 <= at < order.len(),
    ensures
        order.index_of(order[at]) == at,
{
    let found = order.index_of(order[at]);
    assert(order[at] == order[at]);
    assert(0 <= found < order.len() && order[found] == order[at]);
}

/// A plan that can be carried out is carried out step by step.
pub proof fn plans_are_carried_out_whole(plan: PlanGraph, steps: Vec<PlannedStep>)
    requires
        plan.wf(),
        call_ensures(PlanGraph::compile, (plan,), steps),
    ensures
        steps@.len() == plan@.steps.len(),
        forall|i: int|
            0 <= i < steps@.len() ==> (#[trigger] steps@[i]).index < plan@.steps.len()
                && steps@[i].step@ == plan@.steps[steps@[i].index as int],
{
    assert forall|i: int| 0 <= i < steps@.len() implies (#[trigger] steps@[i]).index
        < plan@.steps.len() && steps@[i].step@ == plan@.steps[steps@[i].index as int] by {
        steps_come_after_what_they_wait_for(steps@, plan@, i, 0);
    }
}

/// An upload turns to the paths in order, announcing each with where it is copied to, and is done
/// when none is left.
pub proof fn uploads_go_path_by_path(upload: DaemonPush, action: PushAction)
    requires
        upload.is_turn(action),
    ensures
        upload.done < upload.uploads@.len() ==> (action matches PushAction::Query { path, note }
            && path == upload.uploads@[upload.done as int]),
        upload.done >= upload.uploads@.len() ==> (action matches PushAction::Finish(result)
            && result is Ok),
{
}

/// A daemon that stops in the middle of its answer does not trust the user, who is told so.
pub proof fn distrust_is_explained(error: &NixDaemonClientError, r: Option<String>)
    requires
        call_ensures(get_common_copy_path_help, (error,), r),
    ensures
        error matches NixDaemonClientError::NixDaemonOperationError { msg, .. } ==> (r is Some
            <==> shows_distrust(msg@)),
        !(error is NixDaemonOperationError) ==> r is None,
        r is Some ==> r->0@ == untrusted_help(),
{
}

} // verus!
