use wire::errors::HiveLibError;
use wire::execute;
use wire::hive::executor::{
    app_shutdown_guard, evaluates_early, ExecutorAction, NodePlan, OutputHandle,
};
use wire::hive::location::HiveLocation;
use wire::hive::node::{
    ApplyGoal, HandleUnreachable, Name, Node, Step, SwitchToConfigurationGoal,
};
use wire::hive::plan::{ApplyGoalArgs, Goal, PlanGraph, PlannedStep};
use wire::hive::steps::keys::{Key, UploadKeyAt};
use wire::hive::steps::push::PushOutputKind;
use wire::modifiers::SubCommandModifiers;
use wire::plan;
use wire::status::{NodeStatus, UiMessage};
use wire::store_path::SafeStorePath;

fn modifiers() -> SubCommandModifiers {
    SubCommandModifiers::for_terminal(true)
}

fn location() -> HiveLocation {
    HiveLocation::HiveNix("/hive.nix".to_string())
}

fn name() -> Name {
    Name("node".to_string())
}

fn args(goal: ApplyGoal, should_apply_locally: bool, no_keys: bool) -> ApplyGoalArgs {
    ApplyGoalArgs {
        goal,
        should_apply_locally,
        no_keys,
        substitute_on_destination: true,
        reboot: false,
        host_platform: "x86_64-linux".to_string(),
        handle_unreachable: HandleUnreachable::default(),
    }
}

const SWITCH: ApplyGoal = ApplyGoal::SwitchToConfiguration(SwitchToConfigurationGoal::Switch);

fn keyed() -> Node {
    let mut node = Node::default();
    node.keys = vec![
        Key { name: "early".to_string(), upload_at: UploadKeyAt::PreActivation, ..Key::default() },
        Key { name: "late".to_string(), upload_at: UploadKeyAt::PostActivation, ..Key::default() },
    ];
    node
}

fn shown(node: &Node, goal: Goal) -> Vec<String> {
    let plan = PlanGraph::new(node, name(), &goal, location(), modifiers(), None);
    let text = plan.to_string();
    let steps = plan.compile();
    for (position, step) in steps.iter().enumerate() {
        for parent in &step.parents {
            assert!(steps[..position].iter().any(|earlier| earlier.index == *parent));
        }
    }
    let lines: Vec<String> = steps.iter().map(|step| step.step.to_string()).collect();
    assert_eq!(text.lines().collect::<Vec<_>>(), lines);
    lines
}

fn place(lines: &[String], line: &str) -> usize {
    lines.iter().position(|other| other == line).unwrap()
}

#[test]
fn plan_executor_quits_sigint() {
    let goal = Goal::Apply(args(SWITCH, true, true));
    let graph = PlanGraph::new(&Node::default(), name(), &goal, location(), modifiers(), None);
    let steps: Vec<Step> = graph.compile().into_iter().map(|step| step.step).collect();
    assert!(!steps.is_empty());
    let plan = NodePlan {
        context: wire::hive::node::Context {
            hive_location: location(),
            modifiers: modifiers(),
            name: name(),
        },
        greedy_evaluate: evaluates_early(&steps),
        steps,
        ignore_failed_ping: false,
    };
    assert!(matches!(
        plan.start(true),
        ExecutorAction::Finish { message: None, result: Err(HiveLibError::Sigint) }
    ));
    assert!(matches!(app_shutdown_guard(true), Err(HiveLibError::Sigint)));
    assert!(app_shutdown_guard(false).is_ok());
}

#[test]
fn builds_evaluate_and_build() {
    assert_eq!(shown(&Node::default(), Goal::Build), ["Build the node"]);

    let daemon = SubCommandModifiers { experimental_nix_client: true, ..modifiers() };
    let plan = PlanGraph::new(&Node::default(), name(), &Goal::Build, location(), daemon, None);
    let steps = plan.compile();
    assert_eq!(steps.len(), 2);
    assert!(matches!(steps[0].step, Step::Evaluate(_)));
    assert!(matches!(steps[1].step, Step::Build(_)));
    assert_eq!(steps[1].parents, [steps[0].index]);
}

#[test]
fn local_plans_stay_local() {
    let lines = shown(&Node::default(), Goal::Apply(args(SWITCH, true, true)));
    assert!(!lines.contains(&"Ping".to_string()));
    assert!(!lines.iter().any(|line| line.starts_with("Push")));
    assert_eq!(lines.last().unwrap(), "Activation");
}

#[test]
fn remote_plans_ping_first_and_push() {
    let lines = shown(&Node::default(), Goal::Apply(args(SWITCH, false, true)));
    assert!(place(&lines, "Ping") < place(&lines, "Push build output"));
    assert!(place(&lines, "Build the node") < place(&lines, "Push build output"));
    assert!(place(&lines, "Push build output") < place(&lines, "Activation"));
    assert_eq!(lines.iter().filter(|line| *line == "Activation").count(), 1);
}

#[test]
fn activation_stands_between_the_keys() {
    let lines = shown(&keyed(), Goal::Apply(args(SWITCH, false, false)));
    let uploads: Vec<usize> = (0..lines.len())
        .filter(|place| lines[*place] == "Upload key @ ??")
        .collect();
    assert_eq!(uploads.len(), 2);
    let activation = place(&lines, "Activation");
    assert!(uploads[0] < activation && activation < uploads[1]);
    assert!(place(&lines, "Push the key agent") < uploads[0]);

    let lines = shown(&keyed(), Goal::Apply(args(SWITCH, false, true)));
    assert!(!lines.contains(&"Upload key @ ??".to_string()));
}

#[test]
fn steps_wait_for_what_they_need() {
    let mut node = keyed();
    for build_remotely in [false, true] {
        node.build_remotely = build_remotely;
        let goal = Goal::Apply(args(SWITCH, false, false));
        let plan = PlanGraph::new(&node, name(), &goal, location(), modifiers(), None);
        let steps = plan.compile();
        let waits = |step: &PlannedStep, wanted: &str| {
            step.parents.iter().any(|parent| {
                steps.iter().any(|other| {
                    other.index == *parent && other.step.to_string() == wanted
                })
            })
        };
        for step in &steps {
            match &step.step {
                Step::Ping(_) | Step::Evaluate(_) => assert!(step.parents.is_empty()),
                Step::PushKeyAgent(_) => assert!(waits(step, "Ping")),
                Step::PushOutput(_) => assert!(waits(step, "Ping")),
                Step::Build(_) => assert_eq!(waits(step, "Ping"), build_remotely),
                Step::SwitchToConfiguration(_) => {
                    assert!(waits(step, "Ping") && waits(step, "Upload key @ ??"));
                    let built =
                        if build_remotely { "Build the node" } else { "Push build output" };
                    assert!(waits(step, built));
                }
                Step::Keys(keys) => {
                    assert_eq!(keys.keys.len(), 1);
                    assert!(waits(step, "Ping") && waits(step, "Push the key agent"));
                    if keys.keys[0].name == "early" {
                        assert!(waits(step, "Build the node"));
                    } else {
                        assert!(waits(step, "Activation"));
                    }
                }
            }
        }
    }
}

#[test]
fn plans_end_in_their_sink() {
    let cached = SafeStorePath::of_absolute_path("/nix/store/x.drv".to_string());
    let plan =
        PlanGraph::new(&Node::default(), name(), &Goal::Build, location(), modifiers(), Some(&cached));
    assert_eq!(plan.sinks().len(), 1);
    let (steps, sink) = plan.get_sink_step().unwrap();
    let last = steps.iter().find(|step| step.index == sink).unwrap();
    assert!(matches!(last.step, Step::Build(_)));
}

#[test]
fn plans_end_in_one_step_unless_they_evaluate_aside() {
    let cached = SafeStorePath::of_absolute_path("/nix/store/x.drv".to_string());
    let goals = [SWITCH, ApplyGoal::Build, ApplyGoal::Push, ApplyGoal::Keys];
    for goal in goals {
        for bits in 0..32 {
            let mut node = keyed();
            node.build_remotely = bits & 1 != 0;
            let mut modifiers = modifiers();
            modifiers.experimental_nix_client = bits & 2 != 0;
            let known = if bits & 4 != 0 { Some(&cached) } else { None };
            let goal = Goal::Apply(args(goal, bits & 8 != 0, bits & 16 != 0));
            let plan = PlanGraph::new(&node, name(), &goal, location(), modifiers, known);
            let sinks = plan.sinks();
            let steps = plan.compile();
            let evaluation = steps.iter().find(|step| matches!(step.step, Step::Evaluate(_)));
            let early = evaluation.is_some() && known.is_none();
            let copy = steps.iter().find(|step| {
                matches!(
                    &step.step,
                    Step::PushOutput(push) if push.kind == PushOutputKind::Evaluation
                )
            });
            let build = steps.iter().find(|step| matches!(step.step, Step::Build(_)));
            match (evaluation, copy, build) {
                (Some(evaluation), None, Some(_)) => {
                    assert_eq!(sinks.len(), 2);
                    assert!(sinks.contains(&evaluation.index));
                }
                _ => assert_eq!(sinks.len(), usize::from(!steps.is_empty())),
            }
            if let (Some(copy), Some(build)) = (copy, build) {
                assert!(build.parents.contains(&copy.index));
            }
            let steps: Vec<Step> = steps.into_iter().map(|step| step.step).collect();
            assert_eq!(evaluates_early(&steps), early);
        }
    }
}

fn linear(goal: plan::ApplyGoal, local: bool) -> Vec<execute::Step> {
    let goal = plan::Goal::Apply {
        goal,
        should_apply_locally: local,
        no_keys: false,
        substitute_on_destination: true,
        reboot: true,
        host_platform: "x86_64-linux".to_string(),
    };
    plan::plan_for_node(keyed(), name(), &goal, location(), &modifiers()).steps
}

#[test]
fn linear_plans_keep_their_order() {
    let steps = linear(
        plan::ApplyGoal::SwitchToConfiguration(SwitchToConfigurationGoal::Switch),
        false,
    );
    let kinds: Vec<&str> = steps
        .iter()
        .map(|step| match step {
            execute::Step::Ping(_) => "ping",
            execute::Step::PushKeyAgent(_) => "agent",
            execute::Step::Keys(_) => "keys",
            execute::Step::Evaluate(_) => "evaluate",
            execute::Step::PushEvaluatedOutput(_) => "push evaluation",
            execute::Step::Build(_) => "build",
            execute::Step::PushBuildOutput(_) => "push build",
            execute::Step::SwitchToConfiguration(_) => "activate",
        })
        .collect();
    let at = |kind: &str| kinds.iter().position(|other| *other == kind).unwrap();
    assert_eq!(kinds[0], "ping");
    assert!(at("evaluate") < at("keys") && at("keys") < at("activate"));
    assert!(at("evaluate") < at("build") && at("build") < at("activate"));
    assert_eq!(kinds.iter().filter(|kind| **kind == "keys").count(), 2);
    assert_eq!(*kinds.last().unwrap(), "keys");
}

#[test]
fn linear_local_plans_have_no_target() {
    let steps = linear(
        plan::ApplyGoal::SwitchToConfiguration(SwitchToConfigurationGoal::Switch),
        true,
    );
    for step in &steps {
        match step {
            execute::Step::Build(build) => assert!(build.target.is_none()),
            execute::Step::PushKeyAgent(agent) => assert!(agent.target.is_none()),
            execute::Step::Keys(keys) => assert!(keys.target.is_none()),
            execute::Step::SwitchToConfiguration(switch) => assert!(switch.target.is_none()),
            execute::Step::Evaluate(_) => {}
            other => panic!("{other:?}"),
        }
    }
}

#[test]
fn linear_uploads_follow_the_agent() {
    for local in [true, false] {
        let steps = linear(plan::ApplyGoal::Keys, local);
        let skipped = usize::from(!local);
        assert_eq!(steps.len(), skipped + 2);
        match (&steps[skipped], &steps[skipped + 1]) {
            (execute::Step::PushKeyAgent(agent), execute::Step::Keys(keys)) => {
                assert_eq!(agent.target.is_none(), local);
                assert_eq!(keys.target.is_none(), local);
                assert_eq!(keys.keys.len(), keyed().keys.len());
            }
            other => panic!("{other:?}"),
        }
    }
}

#[test]
fn steps_are_carried_out_one_after_the_other() {
    let cached = SafeStorePath::of_absolute_path("/nix/store/x.drv".to_string());
    let graph = PlanGraph::new(
        &Node::default(),
        name(),
        &Goal::Build,
        location(),
        modifiers(),
        Some(&cached),
    );
    let plan = NodePlan {
        context: wire::hive::node::Context {
            hive_location: location(),
            modifiers: modifiers(),
            name: name(),
        },
        steps: graph.compile().into_iter().map(|step| step.step).collect(),
        greedy_evaluate: false,
        ignore_failed_ping: false,
    };
    match plan.start(false) {
        ExecutorAction::Execute { position, progress, message } => {
            assert_eq!((position, progress.as_str()), (0, "1/2"));
            assert!(matches!(message, UiMessage::SetStatus(_, NodeStatus::Running { .. })));
        }
        other => panic!("{other:?}"),
    }
    assert!(matches!(
        plan.next(0, Ok(()), false),
        ExecutorAction::Execute { position: 1, .. }
    ));
    assert!(matches!(
        plan.next(0, Ok(()), true),
        ExecutorAction::Finish { message: None, result: Err(HiveLibError::Sigint) }
    ));
    assert!(matches!(
        plan.next(1, Ok(()), true),
        ExecutorAction::Finish {
            message: Some(UiMessage::SetStatus(_, NodeStatus::Succeeded)),
            result: Ok(())
        }
    ));
    assert!(matches!(
        plan.next(0, Err(HiveLibError::MissingStepOutput), false),
        ExecutorAction::Finish {
            message: Some(UiMessage::SetStatus(_, NodeStatus::Failed)),
            result: Err(HiveLibError::MissingStepOutput)
        }
    ));
}

#[test]
fn handles_hold_what_was_set() {
    let path = SafeStorePath::of_absolute_path("/nix/store/x".to_string());
    let mut handle = OutputHandle::new();
    assert!(handle.get().is_none());
    assert!(handle.require().is_err());
    handle.set(path.clone());
    assert_eq!(handle.require().unwrap(), path);
    assert_eq!(OutputHandle::new_known(path.clone()).get(), Some(path));
}
