//! Which steps a plan has that is carried out one step after the other.
use crate::execute::StepView;
use crate::hive::node::{NodeView, SwitchToConfigurationGoal};
use crate::hive::plan::{after_activation, before_activation};
use crate::hive::steps::keys::{KeyView, UploadKeyAt};
use crate::plan::{
    first_keys, plans_keep_one_order, second_keys, step_if, steps_for, ApplyGoal, Goal,
};
use vstd::prelude::*;

verus! {

proof fn lemma_has_one_more(steps: Seq<StepView>, wanted: bool, step: StepView, other: StepView)
    ensures
        (steps + step_if(wanted, step)).contains(other) <==> steps.contains(other) || wanted
            && other == step,
{
    let more = steps + step_if(wanted, step);
    if steps.contains(other) {
        assert(more[steps.index_of(other)] == other);
    }
    if wanted {
        assert(more[steps.len() as int] == step);
    }
    if more.contains(other) {
        let i = more.index_of(other);
        if i < steps.len() {
            assert(steps[i] == other);
        }
    }
}

/// Whether a step belongs to a plan for applying a goal, by what it does and is told. What is
/// applied locally has no target, whatever it does.
pub open spec fn belongs(node: NodeView, goal: Goal, step: StepView) -> bool {
    match goal {
        Goal::Build => step == StepView::Evaluate || step == StepView::Build { target: None },
        Goal::Apply {
            goal,
            should_apply_locally: local,
            no_keys,
            substitute_on_destination: substitutes,
            reboot,
            host_platform,
        } => {
            let place = if local {
                None
            } else {
                Some(node.target)
            };
            let works = !(goal is Keys);
            let makes = works && !(goal is Push);
            let switches = goal == ApplyGoal::SwitchToConfiguration(
                SwitchToConfigurationGoal::Switch,
            );
            let uploads = !no_keys && (goal is Keys || switches);
            let is_early = |key: KeyView| key.upload_at == UploadKeyAt::PreActivation;
            let is_late = |key: KeyView| key.upload_at != UploadKeyAt::PreActivation;
            match step {
                StepView::Ping => !local,
                StepView::Evaluate => works,
                StepView::PushKeyAgent { substitute_on_destination, host_platform: platform, target } => {
                    uploads && (!local || node.keys.len() > 0) && substitute_on_destination
                        == substitutes && platform == host_platform@ && target == place
                },
                StepView::Keys { keys, target, privilege_escalation_command } => {
                    &&& uploads && keys.len() > 0 && target == place
                    &&& privilege_escalation_command == node.privilege_escalation_command
                    &&& goal is Keys ==> keys == node.keys
                    &&& switches ==> keys == node.keys.filter(is_early) || keys
                        == node.keys.filter(is_late)
                },
                StepView::PushEvaluatedOutput { substitute_on_destination, target } => {
                    works && !local && (node.build_remotely || goal is Push)
                        && substitute_on_destination == substitutes && target == node.target
                },
                StepView::Build { target } => makes && target == if node.build_remotely {
                    place
                } else {
                    None
                },
                StepView::PushBuildOutput { substitute_on_destination, target } => {
                    makes && !local && !node.build_remotely && substitute_on_destination
                        == substitutes && target == node.target
                },
                StepView::SwitchToConfiguration {
                    goal: asked,
                    reboot: restarts,
                    target,
                    privilege_escalation_command,
                } => {
                    goal == ApplyGoal::SwitchToConfiguration(asked) && restarts == reboot && target
                        == place && privilege_escalation_command
                        == node.privilege_escalation_command
                },
            }
        },
    }
}

/// A plan has exactly the steps that belong to it.
pub proof fn plans_have_what_belongs(node: NodeView, goal: Goal, step: StepView)
    ensures
        steps_for(node, goal).contains(step) <==> belongs(node, goal, step),
{
    let steps = steps_for(node, goal);
    match goal {
        Goal::Build => {
            assert(steps[0] == StepView::Evaluate);
            assert(steps[1] == StepView::Build { target: None });
        },
        Goal::Apply {
            goal: apply_goal,
            should_apply_locally,
            no_keys,
            substitute_on_destination,
            reboot,
            host_platform,
        } => {
            let is_early = |key: KeyView| key.upload_at == UploadKeyAt::PreActivation;
            let is_late = |key: KeyView| key.upload_at != UploadKeyAt::PreActivation;
            assert(before_activation() =~= is_early);
            assert(after_activation() =~= is_late);
            let uploads = !no_keys && (apply_goal == ApplyGoal::Keys || apply_goal
                == ApplyGoal::SwitchToConfiguration(SwitchToConfigurationGoal::Switch));
            let builds = apply_goal != ApplyGoal::Keys && apply_goal != ApplyGoal::Push;
            let target = if should_apply_locally {
                None
            } else {
                Some(node.target)
            };
            let agent = StepView::PushKeyAgent {
                substitute_on_destination,
                host_platform: host_platform@,
                target,
            };
            let first = StepView::Keys {
                keys: first_keys(apply_goal, node),
                target,
                privilege_escalation_command: node.privilege_escalation_command,
            };
            let pushed = StepView::PushEvaluatedOutput {
                substitute_on_destination,
                target: node.target,
            };
            let built = StepView::Build {
                target: if node.build_remotely {
                    target
                } else {
                    None
                },
            };
            let copied = StepView::PushBuildOutput {
                substitute_on_destination,
                target: node.target,
            };
            let active = StepView::SwitchToConfiguration {
                goal: apply_goal->SwitchToConfiguration_0,
                reboot,
                target,
                privilege_escalation_command: node.privilege_escalation_command,
            };
            let second = StepView::Keys {
                keys: second_keys(apply_goal, node),
                target,
                privilege_escalation_command: node.privilege_escalation_command,
            };
            let pushes = apply_goal != ApplyGoal::Keys && !should_apply_locally && (
            node.build_remotely || apply_goal == ApplyGoal::Push);
            let w3 = uploads && (!should_apply_locally || node.keys.len() > 0);
            let w4 = uploads && first_keys(apply_goal, node).len() > 0;
            let w7 = builds && !node.build_remotely && !should_apply_locally;
            let w8 = apply_goal is SwitchToConfiguration;
            let w9 = uploads && second_keys(apply_goal, node).len() > 0;
            let s0 = Seq::<StepView>::empty();
            let s1 = step_if(!should_apply_locally, StepView::Ping);
            let s2 = s1 + step_if(apply_goal != ApplyGoal::Keys, StepView::Evaluate);
            let s3 = s2 + step_if(w3, agent);
            let s4 = s3 + step_if(w4, first);
            let s5 = s4 + step_if(pushes, pushed);
            let s6 = s5 + step_if(builds, built);
            let s7 = s6 + step_if(w7, copied);
            let s8 = s7 + step_if(w8, active);
            assert(s0 + s1 =~= s1);
            lemma_has_one_more(s0, !should_apply_locally, StepView::Ping, step);
            lemma_has_one_more(s1, apply_goal != ApplyGoal::Keys, StepView::Evaluate, step);
            lemma_has_one_more(s2, w3, agent, step);
            lemma_has_one_more(s3, w4, first, step);
            lemma_has_one_more(s4, pushes, pushed, step);
            lemma_has_one_more(s5, builds, built, step);
            lemma_has_one_more(s6, w7, copied, step);
            lemma_has_one_more(s7, w8, active, step);
            lemma_has_one_more(s8, w9, second, step);
            assert(steps == s8 + step_if(w9, second));
        },
    }
}

/// Keys that come before the activation stand before it in the plan, and the others behind it.
pub proof fn keys_stand_around_the_activation(node: NodeView, goal: Goal, i: int, j: int)
    requires
        0 <= i < j < steps_for(node, goal).len(),
    ensures
        steps_for(node, goal)[i] is Keys && steps_for(node, goal)[j] is SwitchToConfiguration
            ==> forall|k: int|
            0 <= k < steps_for(node, goal)[i]->Keys_keys.len() ==> (#[trigger] steps_for(
                node,
                goal,
            )[i]->Keys_keys[k]).upload_at == UploadKeyAt::PreActivation,
        steps_for(node, goal)[i] is SwitchToConfiguration ==> steps_for(node, goal)[j] is Keys
            && forall|k: int|
            0 <= k < steps_for(node, goal)[j]->Keys_keys.len() ==> (#[trigger] steps_for(
                node,
                goal,
            )[j]->Keys_keys[k]).upload_at != UploadKeyAt::PreActivation,
{
    if goal is Apply {
        let early = node.keys.filter(before_activation());
        let late = node.keys.filter(after_activation());
        assert forall|k: int| 0 <= k < early.len() implies (#[trigger] early[k]).upload_at
            == UploadKeyAt::PreActivation by {
            node.keys.lemma_filter_pred(before_activation(), k);
        }
        assert forall|k: int| 0 <= k < late.len() implies (#[trigger] late[k]).upload_at
            != UploadKeyAt::PreActivation by {
            node.keys.lemma_filter_pred(after_activation(), k);
        }
        lemma_around(node, goal, i, j);
    }
}

proof fn lemma_around(node: NodeView, goal: Goal, i: int, j: int)
    requires
        goal is Apply,
        0 <= i < j < steps_for(node, goal).len(),
    ensures
        steps_for(node, goal)[i] is Keys && steps_for(node, goal)[j] is SwitchToConfiguration
            ==> steps_for(node, goal)[i]->Keys_keys == node.keys.filter(before_activation()),
        steps_for(node, goal)[i] is SwitchToConfiguration ==> steps_for(node, goal)[j] is Keys
            && steps_for(node, goal)[j]->Keys_keys == node.keys.filter(after_activation()),
{
    let steps = steps_for(node, goal);
    plans_have_what_belongs(node, goal, steps[i]);
    plans_have_what_belongs(node, goal, steps[j]);
    assert(steps.contains(steps[i]));
    assert(steps.contains(steps[j]));
    if steps[i] is SwitchToConfiguration || steps[j] is SwitchToConfiguration {
        lemma_front(node, goal, i);
        lemma_front(node, goal, j);
        lemma_last(node, goal);
        lemma_order(node, goal, i, j);
    }
}

proof fn lemma_order(node: NodeView, goal: Goal, i: int, j: int)
    requires
        0 <= i < j < steps_for(node, goal).len(),
    ensures
        steps_for(node, goal)[i] is SwitchToConfiguration ==> steps_for(node, goal)[j] is Keys,
{
    plans_keep_one_order(node, goal, i, j);
}

proof fn lemma_last(node: NodeView, goal: Goal)
    requires
        goal matches Goal::Apply { goal: apply_goal, .. } && apply_goal is SwitchToConfiguration,
    ensures
        steps_for(node, goal).len() > 0,
        steps_for(node, goal).last() is Keys ==> steps_for(node, goal).last()->Keys_keys
            == node.keys.filter(after_activation()),
{
}

proof fn lemma_front(node: NodeView, goal: Goal, i: int)
    requires
        goal matches Goal::Apply { goal: apply_goal, .. } && apply_goal is SwitchToConfiguration,
        0 <= i < steps_for(node, goal).len(),
    ensures
        steps_for(node, goal)[i] is SwitchToConfiguration ==> i + 2 >= steps_for(
            node,
            goal,
        ).len(),
        steps_for(node, goal)[i] is Keys && i + 2 < steps_for(node, goal).len() ==> steps_for(
            node,
            goal,
        )[i]->Keys_keys == node.keys.filter(before_activation()),
        steps_for(node, goal)[i] is Keys && i + 2 == steps_for(node, goal).len() ==> steps_for(
            node,
            goal,
        )[i]->Keys_keys == node.keys.filter(before_activation()),
{
}

} // verus!
