//! Plans whose steps are carried out one after the other.
use crate::execute::activate::SwitchToConfiguration;
use crate::execute::{
    step_views, target_view, Build, Evaluate, Keys, Ping, PushBuildOutput, PushEvaluatedOutput,
    PushKeyAgent, Step, StepView,
};
use crate::hive::location::HiveLocation;
use crate::hive::node::{Context, Name, Node, NodeView, SwitchToConfigurationGoal, Target};
use crate::hive::plan::{after_activation, before_activation, copy_keys, split_keys};
use crate::hive::steps::keys::{key_views, KeyView};
use crate::modifiers::SubCommandModifiers;
use crate::text::copy_texts;
use vstd::prelude::*;

verus! {

/// What is wanted of a node.
#[derive(Clone, Copy, Debug, PartialEq, Eq, Structural)]
pub enum ApplyGoal {
    SwitchToConfiguration(SwitchToConfigurationGoal),
    Push,
    Build,
    Keys,
}

/// What is to be done with a node.
#[derive(Debug)]
pub enum Goal {
    Apply {
        goal: ApplyGoal,
        should_apply_locally: bool,
        no_keys: bool,
        substitute_on_destination: bool,
        reboot: bool,
        host_platform: String,
    },
    Build,
}

/// A plan for a node.
#[derive(Debug)]
pub struct NodePlan {
    pub context: Context,
    pub steps: Vec<Step>,
    pub node: Node,
}

/// One step where it is wanted, else none.
pub open spec fn step_if(wanted: bool, step: StepView) -> Seq<StepView> {
    if wanted {
        seq![step]
    } else {
        Seq::empty()
    }
}

/// The keys that are uploaded before the activation: all of them where nothing but keys is
/// wanted.
pub open spec fn first_keys(goal: ApplyGoal, node: NodeView) -> Seq<KeyView> {
    if goal == ApplyGoal::Keys {
        node.keys
    } else {
        node.keys.filter(before_activation())
    }
}

/// The keys that are uploaded after the activation.
pub open spec fn second_keys(goal: ApplyGoal, node: NodeView) -> Seq<KeyView> {
    if goal == ApplyGoal::Keys {
        Seq::empty()
    } else {
        node.keys.filter(after_activation())
    }
}

/// The steps that carry out a goal, in order. What is applied locally has no target. Where nothing
/// but keys is wanted, nothing is evaluated.
pub open spec fn steps_for(node: NodeView, goal: Goal) -> Seq<StepView> {
    match goal {
        Goal::Build => seq![StepView::Evaluate, StepView::Build { target: None }],
        Goal::Apply {
            goal,
            should_apply_locally,
            no_keys,
            substitute_on_destination,
            reboot,
            host_platform,
        } => {
            let uploads = !no_keys && (goal == ApplyGoal::Keys || goal
                == ApplyGoal::SwitchToConfiguration(SwitchToConfigurationGoal::Switch));
            let builds = goal != ApplyGoal::Keys && goal != ApplyGoal::Push;
            let target = if should_apply_locally {
                None
            } else {
                Some(node.target)
            };
            step_if(!should_apply_locally, StepView::Ping) + step_if(
                goal != ApplyGoal::Keys,
                StepView::Evaluate,
            ) + step_if(
                uploads && (!should_apply_locally || node.keys.len() > 0),
                StepView::PushKeyAgent {
                    substitute_on_destination,
                    host_platform: host_platform@,
                    target,
                },
            ) + step_if(
                uploads && first_keys(goal, node).len() > 0,
                StepView::Keys {
                    keys: first_keys(goal, node),
                    target,
                    privilege_escalation_command: node.privilege_escalation_command,
                },
            ) + step_if(
                goal != ApplyGoal::Keys && !should_apply_locally && (node.build_remotely || goal
                    == ApplyGoal::Push),
                StepView::PushEvaluatedOutput { substitute_on_destination, target: node.target },
            ) + step_if(
                builds,
                StepView::Build {
                    target: if node.build_remotely {
                        target
                    } else {
                        None
                    },
                },
            ) + step_if(
                builds && !node.build_remotely && !should_apply_locally,
                StepView::PushBuildOutput { substitute_on_destination, target: node.target },
            ) + step_if(
                goal is SwitchToConfiguration,
                StepView::SwitchToConfiguration {
                    goal: goal->SwitchToConfiguration_0,
                    reboot,
                    target,
                    privilege_escalation_command: node.privilege_escalation_command,
                },
            ) + step_if(
                uploads && second_keys(goal, node).len() > 0,
                StepView::Keys {
                    keys: second_keys(goal, node),
                    target,
                    privilege_escalation_command: node.privilege_escalation_command,
                },
            )
        },
    }
}

fn push_if(steps: &mut Vec<Step>, wanted: bool, step: Step)
    ensures
        step_views(final(steps)@) == step_views(old(steps)@) + step_if(wanted, step@),
{
    if wanted {
        steps.push(step);
    }
    assert(step_views(steps@) =~= step_views(old(steps)@) + step_if(wanted, step@));
}

/// The target of what is not applied locally.
fn target_unless(local: bool, node: &Node) -> (r: Option<Target>)
    ensures
        target_view(r) == if local {
            None
        } else {
            Some(node@.target)
        },
{
    if local {
        None
    } else {
        Some(node.target.clone())
    }
}

/// Plans a goal for a node.
pub fn plan_for_node(
    node: Node,
    name: Name,
    goal: &Goal,
    hive_location: HiveLocation,
    modifiers: &SubCommandModifiers,
) -> (plan: NodePlan)
    ensures
        plan.context == (Context { hive_location, modifiers: *modifiers, name }),
        plan.node == node,
        step_views(plan.steps@) == steps_for(node@, *goal),
{
    let mut steps: Vec<Step> = Vec::new();
    assert(step_views(steps@) =~= Seq::empty());
    match goal {
        Goal::Build => {
            steps.push(Step::Evaluate(Evaluate));
            steps.push(Step::Build(Build { target: None }));
            assert(step_views(steps@) =~= steps_for(node@, *goal));
        },
        Goal::Apply {
            goal: apply_goal,
            should_apply_locally,
            no_keys,
            substitute_on_destination,
            reboot,
            host_platform,
        } => {
            let local: bool = *should_apply_locally;
            let is_keys: bool = *apply_goal == ApplyGoal::Keys;
            let is_push: bool = *apply_goal == ApplyGoal::Push;
            let uploads: bool = !*no_keys && (is_keys || *apply_goal
                == ApplyGoal::SwitchToConfiguration(SwitchToConfigurationGoal::Switch));
            let (pre_keys, post_keys) = if is_keys {
                (copy_keys(&node.keys), Vec::new())
            } else {
                split_keys(&node.keys)
            };
            assert(key_views(pre_keys@) =~= first_keys(*apply_goal, node@));
            assert(key_views(post_keys@) =~= second_keys(*apply_goal, node@));
            let has_pre: bool = pre_keys.len() > 0;
            let has_post: bool = post_keys.len() > 0;

            push_if(&mut steps, !local, Step::Ping(Ping));
            push_if(&mut steps, !is_keys, Step::Evaluate(Evaluate));
            push_if(
                &mut steps,
                uploads && (!local || node.keys.len() > 0),
                Step::PushKeyAgent(
                    PushKeyAgent {
                        substitute_on_destination: *substitute_on_destination,
                        host_platform: host_platform.clone(),
                        target: target_unless(local, &node),
                    },
                ),
            );
            push_if(
                &mut steps,
                uploads && has_pre,
                Step::Keys(
                    Keys {
                        keys: pre_keys,
                        target: target_unless(local, &node),
                        privilege_escalation_command: copy_texts(
                            &node.privilege_escalation_command,
                        ),
                    },
                ),
            );
            push_if(
                &mut steps,
                !is_keys && !local && (node.build_remotely || is_push),
                Step::PushEvaluatedOutput(
                    PushEvaluatedOutput {
                        substitute_on_destination: *substitute_on_destination,
                        target: node.target.clone(),
                    },
                ),
            );
            push_if(
                &mut steps,
                !is_keys && !is_push,
                Step::Build(
                    Build {
                        target: if node.build_remotely {
                            target_unless(local, &node)
                        } else {
                            None
                        },
                    },
                ),
            );
            push_if(
                &mut steps,
                !node.build_remotely && !local && !is_keys && !is_push,
                Step::PushBuildOutput(
                    PushBuildOutput {
                        substitute_on_destination: *substitute_on_destination,
                        target: node.target.clone(),
                    },
                ),
            );
            if let ApplyGoal::SwitchToConfiguration(switch_goal) = *apply_goal {
                push_if(
                    &mut steps,
                    true,
                    Step::SwitchToConfiguration(
                        SwitchToConfiguration {
                            goal: switch_goal,
                            reboot: *reboot,
                            target: target_unless(local, &node),
                            privilege_escalation_command: copy_texts(
                                &node.privilege_escalation_command,
                            ),
                        },
                    ),
                );
            }
            push_if(
                &mut steps,
                uploads && has_post,
                Step::Keys(
                    Keys {
                        keys: post_keys,
                        target: target_unless(local, &node),
                        privilege_escalation_command: copy_texts(
                            &node.privilege_escalation_command,
                        ),
                    },
                ),
            );
            assert(step_views(steps@) =~= steps_for(node@, *goal));
        },
    }

    NodePlan { context: Context { hive_location, modifiers: *modifiers, name }, steps, node }
}

/// The part of a deployment that a step belongs to.
pub open spec fn stage(step: StepView) -> int {
    match step {
        StepView::Ping => 0,
        StepView::Evaluate => 1,
        StepView::PushKeyAgent { .. } => 2,
        StepView::Keys { .. } => 3,
        StepView::PushEvaluatedOutput { .. } => 4,
        StepView::Build { .. } => 5,
        StepView::PushBuildOutput { .. } => 6,
        StepView::SwitchToConfiguration { .. } => 7,
    }
}

/// Whether steps belong to these parts of a deployment, each to a later one than the step before.
#[verifier::opaque]
spec fn rises(steps: Seq<StepView>, low: int, high: int) -> bool {
    &&& low <= high
    &&& forall|i: int| 0 <= i < steps.len() ==> low <= stage(#[trigger] steps[i]) < high
    &&& forall|i: int, j: int|
        0 <= i < j < steps.len() ==> stage(#[trigger] steps[i]) < stage(#[trigger] steps[j])
}

proof fn lemma_rises_further(steps: Seq<StepView>, wanted: bool, step: StepView)
    requires
        rises(steps, 0, stage(step)),
    ensures
        rises(steps + step_if(wanted, step), 0, stage(step) + 1),
{
    reveal(rises);
    let longer = steps + step_if(wanted, step);
    assert forall|i: int| 0 <= i < longer.len() implies 0 <= stage(#[trigger] longer[i]) < stage(
        step,
    ) + 1 by {
        if i < steps.len() {
            assert(longer[i] == steps[i]);
        }
    }
    assert forall|i: int, j: int| 0 <= i < j < longer.len() implies stage(#[trigger] longer[i])
        < stage(#[trigger] longer[j]) by {
        assert(longer[i] == steps[i]);
        if j < steps.len() {
            assert(longer[j] == steps[j]);
        }
    }
}

/// Every plan keeps one order: ping, evaluate, push the agent, upload keys, push the
/// derivation, build, push the system, activate. Only an upload of keys may follow the
/// activation.
pub proof fn plans_keep_one_order(node: NodeView, goal: Goal, i: int, j: int)
    requires
        0 <= i < j < steps_for(node, goal).len(),
    ensures
        ({
            let steps = steps_for(node, goal);
            stage(steps[i]) < stage(steps[j]) || j == steps.len() - 1 && steps[j] is Keys
                && steps[j - 1] is SwitchToConfiguration
        }),
{
    if let Goal::Apply {
        goal: apply_goal,
        should_apply_locally,
        no_keys,
        substitute_on_destination,
        reboot,
        host_platform,
    } = goal {
        let uploads = !no_keys && (apply_goal == ApplyGoal::Keys || apply_goal
            == ApplyGoal::SwitchToConfiguration(SwitchToConfigurationGoal::Switch));
        let builds = apply_goal != ApplyGoal::Keys && apply_goal != ApplyGoal::Push;
        let target = if should_apply_locally {
            None
        } else {
            Some(node.target)
        };
        let agent = StepView::PushKeyAgent {
            substitute_on_destination,
            host_platform: host_platform@,
            target,
        };
        let first = StepView::Keys {
            keys: first_keys(apply_goal, node),
            target,
            privilege_escalation_command: node.privilege_escalation_command,
        };
        let pushed = StepView::PushEvaluatedOutput {
            substitute_on_destination,
            target: node.target,
        };
        let built = StepView::Build {
            target: if node.build_remotely {
                target
            } else {
                None
            },
        };
        let copied = StepView::PushBuildOutput { substitute_on_destination, target: node.target };
        let active = StepView::SwitchToConfiguration {
            goal: apply_goal->SwitchToConfiguration_0,
            reboot,
            target,
            privilege_escalation_command: node.privilege_escalation_command,
        };
        let second = StepView::Keys {
            keys: second_keys(apply_goal, node),
            target,
            privilege_escalation_command: node.privilege_escalation_command,
        };
        let pushes = apply_goal != ApplyGoal::Keys && !should_apply_locally && (node.build_remotely
            || apply_goal == ApplyGoal::Push);
        let w3 = uploads && (!should_apply_locally || node.keys.len() > 0);
        let w4 = uploads && first_keys(apply_goal, node).len() > 0;
        let w7 = builds && !node.build_remotely && !should_apply_locally;
        let w9 = uploads && second_keys(apply_goal, node).len() > 0;
        let s1 = step_if(!should_apply_locally, StepView::Ping);
        let s2 = s1 + step_if(apply_goal != ApplyGoal::Keys, StepView::Evaluate);
        let s3 = s2 + step_if(w3, agent);
        let s4 = s3 + step_if(w4, first);
        let s5 = s4 + step_if(pushes, pushed);
        let s6 = s5 + step_if(builds, built);
        let s7 = s6 + step_if(w7, copied);
        let s8 = s7 + step_if(apply_goal is SwitchToConfiguration, active);
        assert(rises(s1, 0, 1)) by {
            reveal(rises);
        }
        lemma_rises_further(s1, apply_goal != ApplyGoal::Keys, StepView::Evaluate);
        lemma_rises_further(s2, w3, agent);
        lemma_rises_further(s3, w4, first);
        lemma_rises_further(s4, pushes, pushed);
        lemma_rises_further(s5, builds, built);
        lemma_rises_further(s6, w7, copied);
        lemma_rises_further(s7, apply_goal is SwitchToConfiguration, active);
        lemma_last_upload_follows(s7, apply_goal is SwitchToConfiguration, active, w9, second, i, j);
    }
}

proof fn lemma_last_upload_follows(
    steps: Seq<StepView>,
    activates: bool,
    active: StepView,
    uploads: bool,
    second: StepView,
    i: int,
    j: int,
)
    requires
        rises(steps + step_if(activates, active), 0, 8),
        uploads ==> activates,
        active is SwitchToConfiguration,
        second is Keys,
        0 <= i < j < (steps + step_if(activates, active) + step_if(uploads, second)).len(),
    ensures
        ({
            let all = steps + step_if(activates, active) + step_if(uploads, second);
            stage(all[i]) < stage(all[j]) || j == all.len() - 1 && all[j] is Keys
                && all[j - 1] is SwitchToConfiguration
        }),
{
    reveal(rises);
    let front = steps + step_if(activates, active);
    let all = front + step_if(uploads, second);
    assert(all[i] == front[i]);
    if j < front.len() {
        assert(all[j] == front[j]);
    } else {
        assert(all[j - 1] == front[j - 1]);
    }
}

/// Every plan evaluates unless nothing but keys is wanted, and a plan that copies or activates a
/// built system builds it first.
pub proof fn plans_evaluate_and_build_first(node: NodeView, goal: Goal, i: int)
    requires
        0 <= i < steps_for(node, goal).len(),
    ensures
        steps_for(node, goal).contains(StepView::Evaluate) <==> !(goal matches Goal::Apply {
            goal: apply_goal,
            ..
        } && apply_goal == ApplyGoal::Keys),
        stage(steps_for(node, goal)[i]) > 5 ==> exists|k: int|
            0 <= k < i && #[trigger] steps_for(node, goal)[k] is Build,
{
    let steps = steps_for(node, goal);
    match goal {
        Goal::Build => {
            assert(steps[0] == StepView::Evaluate);
        },
        Goal::Apply { goal: apply_goal, should_apply_locally, no_keys, .. } => {
            let uploads = !no_keys && (apply_goal == ApplyGoal::Keys || apply_goal
                == ApplyGoal::SwitchToConfiguration(SwitchToConfigurationGoal::Switch));
            let evaluate_at: int = if should_apply_locally {
                0
            } else {
                1
            };
            if apply_goal != ApplyGoal::Keys {
                assert(steps[evaluate_at] == StepView::Evaluate);
            }
            let build_at = evaluate_at + 1 + (if uploads && (!should_apply_locally
                || node.keys.len() > 0) {
                1int
            } else {
                0
            }) + (if uploads && first_keys(apply_goal, node).len() > 0 {
                1int
            } else {
                0
            }) + (if apply_goal != ApplyGoal::Keys && !should_apply_locally && (node.build_remotely
                || apply_goal == ApplyGoal::Push) {
                1int
            } else {
                0
            });
            if apply_goal != ApplyGoal::Keys && apply_goal != ApplyGoal::Push {
                assert(steps[build_at] is Build);
            }
        },
    }
}

/// A plan for keys does nothing else: it finds the host, finds the agent and uploads.
pub proof fn key_plans_do_nothing_else(node: NodeView, goal: Goal, i: int)
    requires
        goal matches Goal::Apply { goal: apply_goal, .. } && apply_goal == ApplyGoal::Keys,
        0 <= i < steps_for(node, goal).len(),
    ensures
        steps_for(node, goal)[i] is Ping || steps_for(node, goal)[i] is PushKeyAgent || steps_for(
            node,
            goal,
        )[i] is Keys,
{
}

/// An upload of keys comes after the agent that takes it, on this machine too.
pub proof fn uploads_follow_the_agent(node: NodeView, goal: Goal, i: int)
    requires
        0 <= i < steps_for(node, goal).len(),
        steps_for(node, goal)[i] is Keys,
    ensures
        exists|k: int| 0 <= k < i && #[trigger] steps_for(node, goal)[k] is PushKeyAgent,
{
    let steps = steps_for(node, goal);
    if let Goal::Apply { goal: apply_goal, should_apply_locally, no_keys, .. } = goal {
        if node.keys.len() == 0 {
            reveal(Seq::filter);
        }
        let agent_at: int = (if should_apply_locally {
            0int
        } else {
            1
        }) + (if apply_goal == ApplyGoal::Keys {
            0int
        } else {
            1
        });
        assert(steps[agent_at] is PushKeyAgent);
    }
}

/// What is applied locally never names a target, so that this machine is never reached, and
/// never restarted, through one.
pub proof fn local_plans_have_no_target(node: NodeView, goal: Goal, i: int)
    requires
        goal matches Goal::Apply { should_apply_locally, .. } && should_apply_locally,
        0 <= i < steps_for(node, goal).len(),
    ensures
        match steps_for(node, goal)[i] {
            StepView::Evaluate => true,
            StepView::PushKeyAgent { target, .. } => target is None,
            StepView::Keys { target, .. } => target is None,
            StepView::Build { target } => target is None,
            StepView::SwitchToConfiguration { target, .. } => target is None,
            _ => false,
        },
{
}

} // verus!
