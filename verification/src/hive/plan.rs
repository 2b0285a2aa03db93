//! Plans: which steps are taken for a node, and which of them wait for which.
use crate::errors::HiveLibError;
use crate::hive::graph::{
    acyclic, add_edge, add_node, ascends, graph_edges, graph_nodes, is_sink, lists_sinks,
    new_graph, parents, sinks, sources_into, topological, toposort, weight,
};
use crate::hive::location::HiveLocation;
use crate::hive::node::{
    ApplyGoal, Context, HandleUnreachable, Name, Node, NodeView, Step, StepView,
    SwitchToConfigurationGoal,
};
use crate::hive::steps::activate::SwitchToConfiguration;
use crate::hive::steps::build_node::{Build, BuildMetadata, NixCommandBuildMetadata};
use crate::hive::steps::evaluate::Evaluate;
use crate::hive::steps::keys::{key_views, Key, KeyView, Keys, PushKeyAgent, UploadKeyAt};
use crate::hive::steps::ping::Ping;
use crate::hive::steps::push::{PushOutput, PushOutputKind};
use crate::modifiers::SubCommandModifiers;
use crate::store_path::SafeStorePath;
use crate::text::copy_texts;
use petgraph::graph::DiGraph;
use vstd::prelude::*;

verus! {

/// How a goal is to be applied to a node.
#[derive(Debug)]
pub struct ApplyGoalArgs {
    pub goal: ApplyGoal,
    pub should_apply_locally: bool,
    pub no_keys: bool,
    pub substitute_on_destination: bool,
    pub reboot: bool,
    pub host_platform: String,
    pub handle_unreachable: HandleUnreachable,
}

/// What is to be done with a node.
#[derive(Debug)]
pub enum Goal {
    Apply(ApplyGoalArgs),
    Build,
}

/// A plan: its steps, by index, and its edges, each from the index of a step to the index of
/// one that waits for it.
#[verifier::ext_equal]
pub ghost struct PlanView {
    pub steps: Seq<StepView>,
    pub edges: Seq<(usize, usize)>,
}

/// Steps and the edges between them. The graph holds the number of each step as the weight of
/// its node.
pub struct StepGraph {
    graph: DiGraph<usize, ()>,
    steps: Vec<Option<Step>>,
}

/// The views of steps that are all there.
pub open spec fn step_views(steps: Seq<Option<Step>>) -> Seq<StepView> {
    steps.map_values(|step: Option<Step>| step->0@)
}

impl View for StepGraph {
    type V = PlanView;

    closed spec fn view(&self) -> PlanView {
        PlanView { steps: step_views(self.steps@), edges: graph_edges(self.graph) }
    }
}

impl StepGraph {
    /// Every step is there, under its own number, and every edge joins two of them.
    pub closed spec fn wf(&self) -> bool {
        let count = self.steps@.len();
        &&& graph_nodes(self.graph).len() == count <= u32::MAX
        &&& forall|i: int| 0 <= i < count ==> #[trigger] graph_nodes(self.graph)[i] == i
        &&& forall|i: int| 0 <= i < count ==> (#[trigger] self.steps@[i]) is Some
        &&& forall|i: int|
            0 <= i < graph_edges(self.graph).len() ==> (#[trigger] graph_edges(self.graph)[i]).0
                < count && graph_edges(self.graph)[i].1 < count
    }

    fn new() -> (r: Self)
        ensures
            r.wf(),
            r@ == (PlanView { steps: Seq::empty(), edges: Seq::empty() }),
    {
        let r = StepGraph { graph: new_graph(), steps: Vec::new() };
        assert(step_views(r.steps@) =~= Seq::empty());
        r
    }

    fn add(&mut self, step: Step) -> (index: usize)
        requires
            old(self).wf(),
            old(self)@.steps.len() < 100,
        ensures
            final(self).wf(),
            index == old(self)@.steps.len(),
            final(self)@ == (PlanView {
                steps: old(self)@.steps + seq![step@],
                edges: old(self)@.edges,
            }),
    {
        let number: usize = self.steps.len();
        let index: usize = add_node(&mut self.graph, number);
        self.steps.push(Some(step));
        assert(step_views(self.steps@) =~= step_views(old(self).steps@) + seq![step@]);
        index
    }

    fn connect(&mut self, from: usize, to: usize)
        requires
            old(self).wf(),
            from < old(self)@.steps.len(),
            to < old(self)@.steps.len(),
            old(self)@.edges.len() < 100,
        ensures
            final(self).wf(),
            final(self)@ == (PlanView {
                steps: old(self)@.steps,
                edges: old(self)@.edges + seq![(from, to)],
            }),
    {
        add_edge(&mut self.graph, from, to);
        assert(graph_edges(self.graph) =~= graph_edges(old(self).graph) + seq![(from, to)]);
    }
}

/// One step where it is wanted, else none.
pub open spec fn step_if(wanted: bool, step: StepView) -> Seq<StepView> {
    if wanted {
        seq![step]
    } else {
        Seq::empty()
    }
}

/// One edge where it is wanted, else none.
pub open spec fn edge_if(wanted: bool, from: int, to: int) -> Seq<(usize, usize)> {
    if wanted {
        seq![(from as usize, to as usize)]
    } else {
        Seq::empty()
    }
}

/// The text of a path, where there is one.
pub open spec fn path_text(path: Option<&SafeStorePath>) -> Option<Seq<char>> {
    match path {
        Some(path) => Some(path@),
        None => None,
    }
}

/// The plan for building a node: evaluate where the build needs a derivation, then build.
pub open spec fn build_plan(
    modifiers: SubCommandModifiers,
    cached_evaluation: Option<Seq<char>>,
) -> PlanView {
    let evaluates = modifiers.experimental_nix_client || cached_evaluation is Some;
    PlanView {
        steps: step_if(evaluates, StepView::Evaluate { cached_evaluation }) + seq![
            StepView::Build {
                metadata: if modifiers.experimental_nix_client {
                    BuildMetadata::BuildWithNixDaemon
                } else {
                    BuildMetadata::NixCommand(NixCommandBuildMetadata::Locally)
                },
            },
        ],
        edges: edge_if(evaluates, 0, 1),
    }
}

fn copy_path(path: Option<&SafeStorePath>) -> (r: Option<SafeStorePath>)
    ensures
        match r {
            Some(copy) => path_text(path) == Some(copy@),
            None => path_text(path) is None,
        },
{
    match path {
        Some(path) => Some(path.clone()),
        None => None,
    }
}

fn new_build_plan(
    modifiers: &SubCommandModifiers,
    cached_evaluation: Option<&SafeStorePath>,
) -> (graph: StepGraph)
    ensures
        graph.wf(),
        graph@ == build_plan(*modifiers, path_text(cached_evaluation)),
{
    let mut graph = StepGraph::new();

    let evaluate_idx: Option<usize> = if modifiers.experimental_nix_client
        || cached_evaluation.is_some() {
        Some(graph.add(Step::Evaluate(Evaluate { cached_evaluation: copy_path(cached_evaluation) })))
    } else {
        None
    };

    let build_idx: usize = graph.add(
        Step::Build(
            Build {
                metadata: if modifiers.experimental_nix_client {
                    BuildMetadata::BuildWithNixDaemon
                } else {
                    BuildMetadata::NixCommand(NixCommandBuildMetadata::Locally)
                },
            },
        ),
    );

    if let Some(evaluate_idx) = evaluate_idx {
        graph.connect(evaluate_idx, build_idx);
    }
    assert(graph@ =~= build_plan(*modifiers, path_text(cached_evaluation)));

    graph
}

/// Whether a key is uploaded before the activation.
pub open spec fn before_activation() -> spec_fn(KeyView) -> bool {
    |key: KeyView| key.upload_at == UploadKeyAt::PreActivation
}

/// Whether a key is uploaded after the activation.
pub open spec fn after_activation() -> spec_fn(KeyView) -> bool {
    |key: KeyView| key.upload_at != UploadKeyAt::PreActivation
}

/// Whether a goal has keys uploaded.
pub open spec fn uploads_keys(args: ApplyGoalArgs) -> bool {
    !args.no_keys && (args.goal == ApplyGoal::Keys || args.goal
        == ApplyGoal::SwitchToConfiguration(SwitchToConfigurationGoal::Switch))
}

/// The keys of the first upload: all of them where nothing but keys is wanted, else those that
/// come before the activation.
pub open spec fn first_keys(goal: ApplyGoal, keys: Seq<KeyView>) -> Seq<KeyView> {
    if goal == ApplyGoal::Keys {
        keys
    } else {
        keys.filter(before_activation())
    }
}

/// The keys of the upload after the activation.
pub open spec fn second_keys(goal: ApplyGoal, keys: Seq<KeyView>) -> Seq<KeyView> {
    if goal == ApplyGoal::Keys {
        Seq::empty()
    } else {
        keys.filter(after_activation())
    }
}

/// One for a step that is wanted, zero for one that is not.
pub open spec fn one_if(wanted: bool) -> int {
    if wanted {
        1
    } else {
        0
    }
}

/// The steps that upload keys: the agent, then one step for each upload that has any keys.
#[verifier::opaque]
pub open spec fn key_steps(args: ApplyGoalArgs, node: NodeView) -> Seq<StepView> {
    let first = first_keys(args.goal, node.keys);
    let second = second_keys(args.goal, node.keys);
    step_if(
        first.len() > 0 || second.len() > 0,
        StepView::PushKeyAgent {
            substitute_on_destination: args.substitute_on_destination,
            host_platform: args.host_platform@,
        },
    ) + step_if(
        first.len() > 0,
        StepView::Keys {
            keys: first,
            privilege_escalation_command: node.privilege_escalation_command,
        },
    ) + step_if(
        second.len() > 0,
        StepView::Keys {
            keys: second,
            privilege_escalation_command: node.privilege_escalation_command,
        },
    )
}

/// The edges of the steps that upload keys, where the first of them has index `base`: every
/// one waits for the ping, and the uploads wait for the agent.
#[verifier::opaque]
pub open spec fn key_edges(
    args: ApplyGoalArgs,
    node: NodeView,
    ping: Option<usize>,
    base: int,
) -> Seq<(usize, usize)> {
    let first = first_keys(args.goal, node.keys).len() > 0;
    let second = second_keys(args.goal, node.keys).len() > 0;
    edge_if((first || second) && ping is Some, ping->0 as int, base) + edge_if(
        first && ping is Some,
        ping->0 as int,
        base + 1,
    ) + edge_if(first, base, base + 1) + edge_if(
        second && ping is Some,
        ping->0 as int,
        base + 1 + one_if(first),
    ) + edge_if(second, base, base + 1 + one_if(first))
}

/// Copies of the keys, split by whether they come before the activation.
pub fn split_keys(keys: &Vec<Key>) -> (r: (Vec<Key>, Vec<Key>))
    ensures
        key_views(r.0@) == key_views(keys@).filter(before_activation()),
        key_views(r.1@) == key_views(keys@).filter(after_activation()),
{
    let mut pre: Vec<Key> = Vec::new();
    let mut post: Vec<Key> = Vec::new();
    let ghost all = key_views(keys@);
    proof {
        reveal(Seq::filter);
        assert(all.take(0) =~= Seq::empty());
        assert(key_views(pre@) =~= Seq::empty());
    }
    for i in 0..keys.len()
        invariant
            all == key_views(keys@),
            key_views(pre@) == all.take(i as int).filter(before_activation()),
            key_views(post@) == all.take(i as int).filter(after_activation()),
    {
        proof {
            let key = keys@[i as int]@;
            assert(all.take(i + 1) =~= all.take(i as int).push(key));
            all.take(i as int).lemma_filter_push(key, before_activation());
            all.take(i as int).lemma_filter_push(key, after_activation());
        }
        let key = keys[i].clone();
        let ghost pre_before = key_views(pre@);
        let ghost post_before = key_views(post@);
        if key.upload_at == UploadKeyAt::PreActivation {
            pre.push(key);
            assert(key_views(pre@) =~= pre_before.push(keys@[i as int]@));
        } else {
            post.push(key);
            assert(key_views(post@) =~= post_before.push(keys@[i as int]@));
        }
    }
    assert(all.take(keys@.len() as int) =~= all);
    (pre, post)
}

/// Copies of the keys.
pub(crate) fn copy_keys(keys: &Vec<Key>) -> (r: Vec<Key>)
    ensures
        key_views(r@) == key_views(keys@),
{
    let mut r: Vec<Key> = Vec::new();
    for i in 0..keys.len()
        invariant
            key_views(r@) == key_views(keys@).take(i as int),
    {
        let ghost before = key_views(r@);
        r.push(keys[i].clone());
        assert(key_views(r@) =~= before.push(keys@[i as int]@));
        assert(key_views(keys@).take(i + 1) =~= before.push(keys@[i as int]@));
    }
    assert(key_views(keys@).take(keys@.len() as int) =~= key_views(keys@));
    r
}

/// Adds the steps that upload keys and returns the indices of the two uploads.
fn add_key_nodes(
    args: &ApplyGoalArgs,
    node: &Node,
    ping_idx: Option<usize>,
    graph: &mut StepGraph,
) -> (r: (Option<usize>, Option<usize>))
    requires
        old(graph).wf(),
        old(graph)@.steps.len() < 50,
        old(graph)@.edges.len() < 50,
        ping_idx matches Some(index) ==> index < old(graph)@.steps.len(),
        args.goal == ApplyGoal::Keys || args.goal == ApplyGoal::SwitchToConfiguration(
            SwitchToConfigurationGoal::Switch,
        ),
    ensures
        final(graph).wf(),
        final(graph)@.steps == old(graph)@.steps + key_steps(*args, node@),
        final(graph)@.edges == old(graph)@.edges + key_edges(
            *args,
            node@,
            ping_idx,
            old(graph)@.steps.len() as int,
        ),
        r.0 == if first_keys(args.goal, node@.keys).len() > 0 {
            Some((old(graph)@.steps.len() + 1) as usize)
        } else {
            None
        },
        r.1 == if second_keys(args.goal, node@.keys).len() > 0 {
            Some(
                (old(graph)@.steps.len() + 1 + one_if(
                    first_keys(args.goal, node@.keys).len() > 0,
                )) as usize,
            )
        } else {
            None
        },
{
    proof {
        reveal(key_steps);
        reveal(key_edges);
    }
    let (pre_keys, post_keys) = if args.goal == ApplyGoal::Keys {
        (copy_keys(&node.keys), Vec::new())
    } else {
        split_keys(&node.keys)
    };
    let ghost first = first_keys(args.goal, node@.keys);
    let ghost second = second_keys(args.goal, node@.keys);
    assert(key_views(pre_keys@) =~= first);
    assert(key_views(post_keys@) =~= second);
    let has_pre: bool = pre_keys.len() > 0;
    let has_post: bool = post_keys.len() > 0;

    let push_agent_idx: Option<usize> = if has_pre || has_post {
        let idx: usize = graph.add(
            Step::PushKeyAgent(
                PushKeyAgent {
                    substitute_on_destination: args.substitute_on_destination,
                    host_platform: args.host_platform.clone(),
                },
            ),
        );
        if let Some(ping_idx) = ping_idx {
            graph.connect(ping_idx, idx);
        }
        Some(idx)
    } else {
        None
    };

    let pre_step: Option<usize> = if has_pre {
        let idx: usize = graph.add(
            Step::Keys(
                Keys {
                    keys: pre_keys,
                    privilege_escalation_command: copy_texts(&node.privilege_escalation_command),
                },
            ),
        );
        if let Some(ping_idx) = ping_idx {
            graph.connect(ping_idx, idx);
        }
        if let Some(push_agent_idx) = push_agent_idx {
            graph.connect(push_agent_idx, idx);
        }
        Some(idx)
    } else {
        None
    };

    let post_step: Option<usize> = if has_post {
        let idx: usize = graph.add(
            Step::Keys(
                Keys {
                    keys: post_keys,
                    privilege_escalation_command: copy_texts(&node.privilege_escalation_command),
                },
            ),
        );
        if let Some(ping_idx) = ping_idx {
            graph.connect(ping_idx, idx);
        }
        if let Some(push_agent_idx) = push_agent_idx {
            graph.connect(push_agent_idx, idx);
        }
        Some(idx)
    } else {
        None
    };
    assert(graph@.steps =~= old(graph)@.steps + key_steps(*args, node@));
    assert(graph@.edges =~= old(graph)@.edges + key_edges(
        *args,
        node@,
        ping_idx,
        old(graph)@.steps.len() as int,
    ));

    (pre_step, post_step)
}

/// Whether the node builds its own system.
pub open spec fn builds_on_target(args: ApplyGoalArgs, node: NodeView) -> bool {
    node.build_remotely && !args.should_apply_locally
}

/// Whether the system of the node is built at all.
pub open spec fn builds(args: ApplyGoalArgs) -> bool {
    args.goal != ApplyGoal::Keys && args.goal != ApplyGoal::Push
}

/// Whether the derivation must be known before the build: to be pushed, to be built through the
/// daemon or on the node, or because it is known already.
pub open spec fn evaluates(
    args: ApplyGoalArgs,
    node: NodeView,
    modifiers: SubCommandModifiers,
    cached_evaluation: Option<Seq<char>>,
) -> bool {
    args.goal == ApplyGoal::Push || args.goal != ApplyGoal::Keys && (
    modifiers.experimental_nix_client || cached_evaluation is Some || builds_on_target(args, node))
}

/// Whether the derivation is copied to the node.
pub open spec fn pushes_derivation(args: ApplyGoalArgs, node: NodeView) -> bool {
    args.goal != ApplyGoal::Keys && !args.should_apply_locally && (node.build_remotely || args.goal
        == ApplyGoal::Push)
}

/// Whether the built system is copied to the node.
pub open spec fn pushes_build(args: ApplyGoalArgs, node: NodeView) -> bool {
    builds(args) && !node.build_remotely && !args.should_apply_locally
}

/// The step that activates the system.
pub open spec fn activation(args: ApplyGoalArgs, node: NodeView) -> StepView {
    StepView::SwitchToConfiguration {
        goal: args.goal->SwitchToConfiguration_0,
        reboot: args.reboot,
        privilege_escalation_command: node.privilege_escalation_command,
    }
}

/// The steps before those for keys: ping, evaluate, push the derivation, build, push the
/// system, each where it is wanted.
#[verifier::opaque]
pub open spec fn leading_steps(
    args: ApplyGoalArgs,
    node: NodeView,
    modifiers: SubCommandModifiers,
    cached_evaluation: Option<Seq<char>>,
) -> Seq<StepView> {
    step_if(!args.should_apply_locally, StepView::Ping { target: node.target }) + step_if(
        evaluates(args, node, modifiers, cached_evaluation),
        StepView::Evaluate { cached_evaluation },
    ) + step_if(
        pushes_derivation(args, node),
        StepView::PushOutput {
            substitute_on_destination: args.substitute_on_destination,
            kind: PushOutputKind::Evaluation,
        },
    ) + step_if(
        builds(args),
        StepView::Build {
            metadata: if modifiers.experimental_nix_client {
                BuildMetadata::BuildWithNixDaemon
            } else if builds_on_target(args, node) {
                BuildMetadata::NixCommand(NixCommandBuildMetadata::Remotely)
            } else {
                BuildMetadata::NixCommand(NixCommandBuildMetadata::Locally)
            },
        },
    ) + step_if(
        pushes_build(args, node),
        StepView::PushOutput {
            substitute_on_destination: args.substitute_on_destination,
            kind: PushOutputKind::Build,
        },
    )
}

/// The index of the step that evaluates.
pub open spec fn evaluate_at(args: ApplyGoalArgs) -> int {
    one_if(!args.should_apply_locally)
}

/// The index of the step that pushes the derivation.
pub open spec fn push_derivation_at(
    args: ApplyGoalArgs,
    node: NodeView,
    modifiers: SubCommandModifiers,
    cached_evaluation: Option<Seq<char>>,
) -> int {
    evaluate_at(args) + one_if(evaluates(args, node, modifiers, cached_evaluation))
}

/// The index of the step that builds.
pub open spec fn build_at(
    args: ApplyGoalArgs,
    node: NodeView,
    modifiers: SubCommandModifiers,
    cached_evaluation: Option<Seq<char>>,
) -> int {
    push_derivation_at(args, node, modifiers, cached_evaluation) + one_if(
        pushes_derivation(args, node),
    )
}

/// The index of the step that pushes the system.
pub open spec fn push_build_at(
    args: ApplyGoalArgs,
    node: NodeView,
    modifiers: SubCommandModifiers,
    cached_evaluation: Option<Seq<char>>,
) -> int {
    build_at(args, node, modifiers, cached_evaluation) + one_if(builds(args))
}

/// The index of the first step for keys.
pub open spec fn keys_at(
    args: ApplyGoalArgs,
    node: NodeView,
    modifiers: SubCommandModifiers,
    cached_evaluation: Option<Seq<char>>,
) -> int {
    push_build_at(args, node, modifiers, cached_evaluation) + one_if(pushes_build(args, node))
}

/// The edges among the leading steps: the derivation is evaluated before it is pushed and
/// pushed before it is built, the system is built before it is pushed, and whatever uses the
/// node waits for the ping.
#[verifier::opaque]
pub open spec fn leading_edges(
    args: ApplyGoalArgs,
    node: NodeView,
    modifiers: SubCommandModifiers,
    cached_evaluation: Option<Seq<char>>,
) -> Seq<(usize, usize)> {
    let pings = !args.should_apply_locally;
    let push_derivation_at = push_derivation_at(args, node, modifiers, cached_evaluation);
    let build_at = build_at(args, node, modifiers, cached_evaluation);
    let push_build_at = push_build_at(args, node, modifiers, cached_evaluation);
    edge_if(
        evaluates(args, node, modifiers, cached_evaluation) && pushes_derivation(args, node),
        evaluate_at(args),
        push_derivation_at,
    ) + edge_if(pings && pushes_derivation(args, node), 0, push_derivation_at) + edge_if(
        pushes_derivation(args, node) && builds(args),
        push_derivation_at,
        build_at,
    ) + edge_if(pings && builds(args) && builds_on_target(args, node), 0, build_at) + edge_if(
        pushes_build(args, node),
        0,
        push_build_at,
    ) + edge_if(pushes_build(args, node), build_at, push_build_at)
}

/// The index of the ping, where there is one.
pub open spec fn ping_index(args: ApplyGoalArgs) -> Option<usize> {
    if args.should_apply_locally {
        None
    } else {
        Some(0)
    }
}

/// Whether there is a first upload of keys.
pub open spec fn uploads_first(args: ApplyGoalArgs, node: NodeView) -> bool {
    uploads_keys(args) && first_keys(args.goal, node.keys).len() > 0
}

/// Whether there is an upload of keys after the activation.
pub open spec fn uploads_second(args: ApplyGoalArgs, node: NodeView) -> bool {
    uploads_keys(args) && second_keys(args.goal, node.keys).len() > 0
}

/// The plan for applying a goal. The steps stand in the order: the leading steps, those for
/// keys, the activation. The activation waits for what it activates and for the keys that come
/// before it, and the keys that come after it wait for it.
pub open spec fn apply_plan(
    args: ApplyGoalArgs,
    node: NodeView,
    modifiers: SubCommandModifiers,
    cached_evaluation: Option<Seq<char>>,
) -> PlanView {
    let first = uploads_first(args, node);
    let second = uploads_second(args, node);
    let activates = args.goal is SwitchToConfiguration;
    let build_at = build_at(args, node, modifiers, cached_evaluation);
    let push_build_at = push_build_at(args, node, modifiers, cached_evaluation);
    let keys_at = keys_at(args, node, modifiers, cached_evaluation);
    let first_at = keys_at + 1;
    let second_at = keys_at + 1 + one_if(first);
    let activate_at = keys_at + one_if(first || second) + one_if(first) + one_if(second);
    PlanView {
        steps: leading_steps(args, node, modifiers, cached_evaluation) + (if uploads_keys(args) {
            key_steps(args, node)
        } else {
            Seq::empty()
        }) + step_if(activates, activation(args, node)),
        edges: leading_edges(args, node, modifiers, cached_evaluation) + (if uploads_keys(args) {
            key_edges(args, node, ping_index(args), keys_at)
        } else {
            Seq::empty()
        }) + edge_if(first && pushes_build(args, node), push_build_at, first_at) + edge_if(
            first && builds(args),
            build_at,
            first_at,
        ) + edge_if(activates && !args.should_apply_locally, 0, activate_at) + edge_if(
            activates,
            if pushes_build(args, node) {
                push_build_at
            } else {
                build_at
            },
            activate_at,
        ) + edge_if(activates && first, first_at, activate_at) + edge_if(
            activates && second,
            activate_at,
            second_at,
        ),
    }
}

/// The indices of leading steps that later steps wait for.
struct LeadingNodes {
    ping: Option<usize>,
    build: Option<usize>,
    push_output: Option<usize>,
}

/// Adds the leading steps to an empty graph.
#[verifier::rlimit(40)]
fn add_leading_nodes(
    args: &ApplyGoalArgs,
    node: &Node,
    modifiers: &SubCommandModifiers,
    cached_evaluation: Option<&SafeStorePath>,
    graph: &mut StepGraph,
) -> (r: LeadingNodes)
    requires
        old(graph).wf(),
        old(graph)@.steps.len() == 0,
        old(graph)@.edges.len() == 0,
    ensures
        final(graph).wf(),
        final(graph)@.steps == leading_steps(
            *args,
            node@,
            *modifiers,
            path_text(cached_evaluation),
        ),
        final(graph)@.edges == leading_edges(
            *args,
            node@,
            *modifiers,
            path_text(cached_evaluation),
        ),
        r.ping == ping_index(*args),
        r.build == if builds(*args) {
            Some(build_at(*args, node@, *modifiers, path_text(cached_evaluation)) as usize)
        } else {
            None
        },
        r.push_output == if pushes_build(*args, node@) {
            Some(push_build_at(*args, node@, *modifiers, path_text(cached_evaluation)) as usize)
        } else {
            None
        },
{
    proof {
        reveal(leading_steps);
        reveal(leading_edges);
    }
    let build_will_have_target: bool = node.build_remotely && !args.should_apply_locally;
    let is_keys: bool = args.goal == ApplyGoal::Keys;
    let is_push: bool = args.goal == ApplyGoal::Push;

    let ping: Option<usize> = if !args.should_apply_locally {
        Some(graph.add(Step::Ping(Ping { target: node.target.clone() })))
    } else {
        None
    };

    let needs_separate_eval: bool = match args.goal {
        ApplyGoal::Keys => false,
        // a `.drv` must be known before so it can be pushed
        ApplyGoal::Push => true,
        // the experimental nix client still requires the path to build, and otherwise only a
        // build on the remote system needs a real `.drv`
        _ => modifiers.experimental_nix_client || cached_evaluation.is_some()
            || build_will_have_target,
    };

    let evaluate_idx: Option<usize> = if needs_separate_eval {
        Some(graph.add(Step::Evaluate(Evaluate { cached_evaluation: copy_path(cached_evaluation) })))
    } else {
        None
    };

    let push_drv_idx: Option<usize> = if !is_keys && !args.should_apply_locally && (
    node.build_remotely || is_push) {
        Some(
            graph.add(
                Step::PushOutput(
                    PushOutput {
                        kind: PushOutputKind::Evaluation,
                        substitute_on_destination: args.substitute_on_destination,
                    },
                ),
            ),
        )
    } else {
        None
    };

    if let Some(push_drv_idx) = push_drv_idx {
        if let Some(evaluate_idx) = evaluate_idx {
            graph.connect(evaluate_idx, push_drv_idx);
        }
        if let Some(ping_idx) = ping {
            graph.connect(ping_idx, push_drv_idx);
        }
    }

    let build_idx: Option<usize> = if !is_keys && !is_push {
        let idx: usize = graph.add(
            Step::Build(
                Build {
                    metadata: if modifiers.experimental_nix_client {
                        BuildMetadata::BuildWithNixDaemon
                    } else if build_will_have_target {
                        BuildMetadata::NixCommand(NixCommandBuildMetadata::Remotely)
                    } else {
                        BuildMetadata::NixCommand(NixCommandBuildMetadata::Locally)
                    },
                },
            ),
        );
        if let Some(push_drv_idx) = push_drv_idx {
            graph.connect(push_drv_idx, idx);
        }
        Some(idx)
    } else {
        None
    };

    if let Some(ping_idx) = ping {
        if let Some(build_idx) = build_idx {
            if build_will_have_target {
                graph.connect(ping_idx, build_idx);
            }
        }
    }

    let push_output_idx: Option<usize> = if !node.build_remotely && !args.should_apply_locally
        && !is_keys && !is_push {
        Some(
            graph.add(
                Step::PushOutput(
                    PushOutput {
                        kind: PushOutputKind::Build,
                        substitute_on_destination: args.substitute_on_destination,
                    },
                ),
            ),
        )
    } else {
        None
    };

    if let Some(push_output_idx) = push_output_idx {
        if let Some(ping_idx) = ping {
            graph.connect(ping_idx, push_output_idx);
        }
        if let Some(build_idx) = build_idx {
            graph.connect(build_idx, push_output_idx);
        }
    }
    proof {
        let cached = path_text(cached_evaluation);
        assert(graph@.steps =~= leading_steps(*args, node@, *modifiers, cached));
        assert(graph@.edges =~= leading_edges(*args, node@, *modifiers, cached));
    }

    LeadingNodes { ping, build: build_idx, push_output: push_output_idx }
}

proof fn lemma_plan_lengths(
    args: ApplyGoalArgs,
    node: NodeView,
    modifiers: SubCommandModifiers,
    cached_evaluation: Option<Seq<char>>,
    base: int,
)
    ensures
        leading_steps(args, node, modifiers, cached_evaluation).len() == keys_at(
            args,
            node,
            modifiers,
            cached_evaluation,
        ),
        leading_edges(args, node, modifiers, cached_evaluation).len() <= 6,
        key_steps(args, node).len() == one_if(
            first_keys(args.goal, node.keys).len() > 0 || second_keys(args.goal, node.keys).len()
                > 0,
        ) + one_if(first_keys(args.goal, node.keys).len() > 0) + one_if(
            second_keys(args.goal, node.keys).len() > 0,
        ),
        key_edges(args, node, ping_index(args), base).len() <= 5,
{
    reveal(leading_steps);
    reveal(leading_edges);
    reveal(key_steps);
    reveal(key_edges);
}

#[verifier::rlimit(60)]
fn new_apply_plan(
    args: &ApplyGoalArgs,
    node: &Node,
    modifiers: &SubCommandModifiers,
    cached_evaluation: Option<&SafeStorePath>,
) -> (graph: StepGraph)
    ensures
        graph.wf(),
        graph@ == apply_plan(*args, node@, *modifiers, path_text(cached_evaluation)),
{
    let ghost cached = path_text(cached_evaluation);
    let ghost plan = apply_plan(*args, node@, *modifiers, cached);
    let ghost base = keys_at(*args, node@, *modifiers, cached);
    proof {
        lemma_plan_lengths(*args, node@, *modifiers, cached, base);
    }
    let mut graph = StepGraph::new();
    let leading = add_leading_nodes(args, node, modifiers, cached_evaluation, &mut graph);

    let mut pre: Option<usize> = None;
    let mut post: Option<usize> = None;
    if !args.no_keys && (args.goal == ApplyGoal::Keys || args.goal
        == ApplyGoal::SwitchToConfiguration(SwitchToConfigurationGoal::Switch)) {
        let (first, second) = add_key_nodes(args, node, leading.ping, &mut graph);
        pre = first;
        post = second;
        if let Some(pre_idx) = pre {
            if let Some(push_output_idx) = leading.push_output {
                graph.connect(push_output_idx, pre_idx);
            }
            if let Some(build_idx) = leading.build {
                graph.connect(build_idx, pre_idx);
            }
        }
    }

    let ghost first = uploads_first(*args, node@);
    let ghost second = uploads_second(*args, node@);
    let ghost steps_before = graph@.steps;
    let ghost edges_before = graph@.edges;
    assert(steps_before =~= leading_steps(*args, node@, *modifiers, cached) + (if uploads_keys(
        *args,
    ) {
        key_steps(*args, node@)
    } else {
        Seq::empty()
    }));
    assert(edges_before =~= leading_edges(*args, node@, *modifiers, cached) + (if uploads_keys(
        *args,
    ) {
        key_edges(*args, node@, ping_index(*args), base)
    } else {
        Seq::empty()
    }) + edge_if(
        first && pushes_build(*args, node@),
        push_build_at(*args, node@, *modifiers, cached),
        base + 1,
    ) + edge_if(
        first && builds(*args),
        build_at(*args, node@, *modifiers, cached),
        base + 1,
    ));

    if let ApplyGoal::SwitchToConfiguration(goal) = args.goal {
        let idx: usize = graph.add(
            Step::SwitchToConfiguration(
                SwitchToConfiguration {
                    privilege_escalation_command: copy_texts(&node.privilege_escalation_command),
                    goal,
                    reboot: args.reboot,
                },
            ),
        );

        if let Some(ping_idx) = leading.ping {
            graph.connect(ping_idx, idx);
        }
        // what is pushed was built before, so the build itself need only be waited for where
        // nothing is pushed
        if let Some(push_output_idx) = leading.push_output {
            graph.connect(push_output_idx, idx);
        } else if let Some(build_idx) = leading.build {
            graph.connect(build_idx, idx);
        }
        if let Some(pre_idx) = pre {
            graph.connect(pre_idx, idx);
        }
        if let Some(post_idx) = post {
            graph.connect(idx, post_idx);
        }
    }
    proof {
        assert(graph@.steps =~= plan.steps);
        assert(graph@.edges =~= plan.edges);
    }

    graph
}

proof fn lemma_ascends_add(
    first: Seq<(usize, usize)>,
    second: Seq<(usize, usize)>,
    rank: spec_fn(usize) -> int,
)
    requires
        ascends(first, rank),
        ascends(second, rank),
    ensures
        ascends(first + second, rank),
{
    assert forall|i: int| 0 <= i < (first + second).len() implies rank(
        (#[trigger] (first + second)[i]).0,
    ) < rank((first + second)[i].1) by {
        if i < first.len() {
            assert((first + second)[i] == first[i]);
        } else {
            assert((first + second)[i] == second[i - first.len()]);
        }
    }
}

/// A plan for building a node has no cycle.
pub proof fn build_plan_is_acyclic(
    modifiers: SubCommandModifiers,
    cached_evaluation: Option<Seq<char>>,
)
    ensures
        acyclic(build_plan(modifiers, cached_evaluation).edges),
{
    let rank = |index: usize| index as int;
    assert(ascends(build_plan(modifiers, cached_evaluation).edges, rank));
}

proof fn lemma_edge_ascends(wanted: bool, from: int, to: int, rank: spec_fn(usize) -> int)
    requires
        wanted ==> rank(from as usize) < rank(to as usize),
    ensures
        ascends(edge_if(wanted, from, to), rank),
{
}

proof fn lemma_leading_edges_ascend(
    args: ApplyGoalArgs,
    node: NodeView,
    modifiers: SubCommandModifiers,
    cached_evaluation: Option<Seq<char>>,
    rank: spec_fn(usize) -> int,
)
    requires
        forall|index: usize|
            index < keys_at(args, node, modifiers, cached_evaluation) ==> #[trigger] rank(index)
                == index,
    ensures
        ascends(leading_edges(args, node, modifiers, cached_evaluation), rank),
{
    reveal(leading_edges);
    let pings = !args.should_apply_locally;
    let push_derivation_at = push_derivation_at(args, node, modifiers, cached_evaluation);
    let build_at = build_at(args, node, modifiers, cached_evaluation);
    let push_build_at = push_build_at(args, node, modifiers, cached_evaluation);
    let w1 = evaluates(args, node, modifiers, cached_evaluation) && pushes_derivation(args, node);
    let w2 = pings && pushes_derivation(args, node);
    let w3 = pushes_derivation(args, node) && builds(args);
    let w4 = pings && builds(args) && builds_on_target(args, node);
    let w5 = pushes_build(args, node);
    lemma_edge_ascends(w1, evaluate_at(args), push_derivation_at, rank);
    lemma_edge_ascends(w2, 0, push_derivation_at, rank);
    lemma_edge_ascends(w3, push_derivation_at, build_at, rank);
    lemma_edge_ascends(w4, 0, build_at, rank);
    lemma_edge_ascends(w5, 0, push_build_at, rank);
    lemma_edge_ascends(w5, build_at, push_build_at, rank);
    let e1 = edge_if(w1, evaluate_at(args), push_derivation_at);
    let e2 = edge_if(w2, 0, push_derivation_at);
    let e3 = edge_if(w3, push_derivation_at, build_at);
    let e4 = edge_if(w4, 0, build_at);
    let e5 = edge_if(w5, 0, push_build_at);
    let e6 = edge_if(w5, build_at, push_build_at);
    lemma_ascends_add(e1, e2, rank);
    lemma_ascends_add(e1 + e2, e3, rank);
    lemma_ascends_add(e1 + e2 + e3, e4, rank);
    lemma_ascends_add(e1 + e2 + e3 + e4, e5, rank);
    lemma_ascends_add(e1 + e2 + e3 + e4 + e5, e6, rank);
}

proof fn lemma_key_edges_ascend(
    args: ApplyGoalArgs,
    node: NodeView,
    base: int,
    rank: spec_fn(usize) -> int,
)
    requires
        one_if(!args.should_apply_locally) <= base <= 5,
        rank(0) == 0 || args.should_apply_locally,
        rank(base as usize) == base,
        first_keys(args.goal, node.keys).len() > 0 ==> rank((base + 1) as usize) == base + 1,
        second_keys(args.goal, node.keys).len() > 0 ==> rank(
            (base + 1 + one_if(first_keys(args.goal, node.keys).len() > 0)) as usize,
        ) > base,
    ensures
        ascends(key_edges(args, node, ping_index(args), base), rank),
{
    reveal(key_edges);
    let pings = !args.should_apply_locally;
    let ping = ping_index(args)->0 as int;
    let first = first_keys(args.goal, node.keys).len() > 0;
    let second = second_keys(args.goal, node.keys).len() > 0;
    let second_at = base + 1 + one_if(first);
    lemma_edge_ascends((first || second) && pings, ping, base, rank);
    lemma_edge_ascends(first && pings, ping, base + 1, rank);
    lemma_edge_ascends(first, base, base + 1, rank);
    lemma_edge_ascends(second && pings, ping, second_at, rank);
    lemma_edge_ascends(second, base, second_at, rank);
    let k1 = edge_if((first || second) && pings, ping, base);
    let k2 = edge_if(first && pings, ping, base + 1);
    let k3 = edge_if(first, base, base + 1);
    let k4 = edge_if(second && pings, ping, second_at);
    let k5 = edge_if(second, base, second_at);
    lemma_ascends_add(k1, k2, rank);
    lemma_ascends_add(k1 + k2, k3, rank);
    lemma_ascends_add(k1 + k2 + k3, k4, rank);
    lemma_ascends_add(k1 + k2 + k3 + k4, k5, rank);
}

/// A plan for applying a goal has no cycle: every edge leads to a later step, but for the one
/// that lets the keys after the activation wait for it, and nothing waits for those.
pub proof fn apply_plan_is_acyclic(
    args: ApplyGoalArgs,
    node: NodeView,
    modifiers: SubCommandModifiers,
    cached_evaluation: Option<Seq<char>>,
)
    ensures
        acyclic(apply_plan(args, node, modifiers, cached_evaluation).edges),
{
    let plan = apply_plan(args, node, modifiers, cached_evaluation);
    let first = uploads_first(args, node);
    let second = uploads_second(args, node);
    let activates = args.goal is SwitchToConfiguration;
    let build_at = build_at(args, node, modifiers, cached_evaluation);
    let push_build_at = push_build_at(args, node, modifiers, cached_evaluation);
    let keys_at = keys_at(args, node, modifiers, cached_evaluation);
    let first_at = keys_at + 1;
    let second_at = keys_at + 1 + one_if(first);
    let activate_at = keys_at + one_if(first || second) + one_if(first) + one_if(second);
    let rank = |index: usize|
        if second && index == second_at {
            100int
        } else {
            index as int
        };
    let pings = !args.should_apply_locally;

    let leading = leading_edges(args, node, modifiers, cached_evaluation);
    lemma_leading_edges_ascend(args, node, modifiers, cached_evaluation, rank);
    let keys = if uploads_keys(args) {
        key_edges(args, node, ping_index(args), keys_at)
    } else {
        Seq::empty()
    };
    if uploads_keys(args) {
        lemma_key_edges_ascend(args, node, keys_at, rank);
    }
    let built_at = if pushes_build(args, node) {
        push_build_at
    } else {
        build_at
    };
    lemma_edge_ascends(first && pushes_build(args, node), push_build_at, first_at, rank);
    lemma_edge_ascends(first && builds(args), build_at, first_at, rank);
    lemma_edge_ascends(activates && pings, 0, activate_at, rank);
    lemma_edge_ascends(activates, built_at, activate_at, rank);
    lemma_edge_ascends(activates && first, first_at, activate_at, rank);
    lemma_edge_ascends(activates && second, activate_at, second_at, rank);
    let a1 = edge_if(first && pushes_build(args, node), push_build_at, first_at);
    let a2 = edge_if(first && builds(args), build_at, first_at);
    let a3 = edge_if(activates && pings, 0, activate_at);
    let a4 = edge_if(activates, built_at, activate_at);
    let a5 = edge_if(activates && first, first_at, activate_at);
    let a6 = edge_if(activates && second, activate_at, second_at);
    lemma_ascends_add(leading, keys, rank);
    lemma_ascends_add(leading + keys, a1, rank);
    lemma_ascends_add(leading + keys + a1, a2, rank);
    lemma_ascends_add(leading + keys + a1 + a2, a3, rank);
    lemma_ascends_add(leading + keys + a1 + a2 + a3, a4, rank);
    lemma_ascends_add(leading + keys + a1 + a2 + a3 + a4, a5, rank);
    lemma_ascends_add(leading + keys + a1 + a2 + a3 + a4 + a5, a6, rank);
    assert(ascends(plan.edges, rank));
}

/// A plan for a node.
pub struct PlanGraph {
    pub steps: StepGraph,
    pub context: Context,
}

/// A step of a plan, with the steps that it waits for: the last that was said to come before it
/// first.
pub struct PlannedStep {
    pub index: usize,
    pub step: Step,
    pub parents: Vec<usize>,
}

/// The indices of planned steps.
pub open spec fn indices(steps: Seq<PlannedStep>) -> Seq<usize> {
    steps.map_values(|step: PlannedStep| step.index)
}

/// Whether `steps` lists the whole plan in an order in which every step comes after those that
/// it waits for.
pub open spec fn carries_out(steps: Seq<PlannedStep>, plan: PlanView) -> bool {
    &&& topological(indices(steps), plan.steps.len(), plan.edges)
    &&& forall|i: int|
        0 <= i < steps.len() ==> (#[trigger] steps[i]).step@ == plan.steps[steps[i].index as int]
            && steps[i].parents@ == sources_into(plan.edges, steps[i].index)
}

/// The lines that show the steps in the given order.
pub open spec fn shown_lines(order: Seq<usize>, steps: Seq<StepView>) -> Seq<char>
    decreases order.len(),
{
    if order.len() == 0 {
        Seq::empty()
    } else {
        shown_lines(order.drop_last(), steps) + steps[order.last() as int].shown() + "\n"@
    }
}

impl View for PlanGraph {
    type V = PlanView;

    open spec fn view(&self) -> PlanView {
        self.steps@
    }
}

impl PlanGraph {
    /// The plan is whole and without cycles.
    pub open spec fn wf(&self) -> bool {
        self.steps.wf() && acyclic(self.steps@.edges)
    }

    /// Plans a goal for a node.
    pub fn new(
        node: &Node,
        name: Name,
        goal: &Goal,
        hive_location: HiveLocation,
        modifiers: SubCommandModifiers,
        cached_evaluation: Option<&SafeStorePath>,
    ) -> (r: Self)
        ensures
            r.wf(),
            r.context == (Context { hive_location, modifiers, name }),
            r@ == match *goal {
                Goal::Build => build_plan(modifiers, path_text(cached_evaluation)),
                Goal::Apply(args) => apply_plan(
                    args,
                    node@,
                    modifiers,
                    path_text(cached_evaluation),
                ),
            },
    {
        let steps = match goal {
            Goal::Build => {
                proof {
                    build_plan_is_acyclic(modifiers, path_text(cached_evaluation));
                }
                new_build_plan(&modifiers, cached_evaluation)
            },
            Goal::Apply(args) => {
                proof {
                    apply_plan_is_acyclic(*args, node@, modifiers, path_text(cached_evaluation));
                }
                new_apply_plan(args, node, &modifiers, cached_evaluation)
            },
        };
        PlanGraph { steps, context: Context { hive_location, modifiers, name } }
    }

    /// The steps that no other step waits for.
    pub fn sinks(&self) -> (r: Vec<usize>)
        requires
            self.wf(),
        ensures
            lists_sinks(r@, self@.steps.len(), self@.edges),
    {
        sinks(&self.steps.graph)
    }

    /// Lists the steps in an order in which they can be carried out.
    pub fn compile(self) -> (r: Vec<PlannedStep>)
        requires
            self.wf(),
        ensures
            carries_out(r@, self@),
    {
        let StepGraph { graph, steps } = self.steps;
        let mut steps: Vec<Option<Step>> = steps;
        let order: Vec<usize> = match toposort(&graph) {
            Some(order) => order,
            None => Vec::new(),
        };
        let ghost plan = self@;
        let ghost original = steps@;
        let mut built: Vec<PlannedStep> = Vec::new();
        for i in 0..order.len()
            invariant
                graph_nodes(graph).len() == original.len() == steps@.len() == plan.steps.len(),
                graph_nodes(graph).len() <= u32::MAX,
                graph_edges(graph) == plan.edges,
                plan.steps == step_views(original),
                forall|k: int|
                    0 <= k < original.len() ==> #[trigger] graph_nodes(graph)[k] == k,
                forall|k: int| 0 <= k < original.len() ==> (#[trigger] original[k]) is Some,
                topological(order@, plan.steps.len(), plan.edges),
                forall|k: int|
                    i <= k < order@.len() ==> steps@[(#[trigger] order@[k]) as int]
                        == original[order@[k] as int],
                built@.len() == i,
                forall|k: int|
                    0 <= k < i ==> (#[trigger] built@[k]).index == order@[k] && built@[k].step@
                        == plan.steps[order@[k] as int] && built@[k].parents@ == sources_into(
                        plan.edges,
                        order@[k],
                    ),
        {
            let index: usize = order[i];
            let number: usize = weight(&graph, index);
            let taken: Option<Step> = steps[number].take();
            let parents = parents(&graph, index);
            assert(steps@[index as int] is None);
            assert forall|k: int| i + 1 <= k < order@.len() implies steps@[(
            #[trigger] order@[k]) as int] == original[order@[k] as int] by {
                assert(order@[k] != order@[i as int]);
            }
            if let Some(step) = taken {
                built.push(PlannedStep { index, step, parents });
            }
        }
        assert(indices(built@) =~= order@);
        built
    }

    /// Lists the steps as `compile` does, with the one that no other waits for. A plan with
    /// several such steps, or without steps, has no single result.
    pub fn get_sink_step(self) -> (r: Result<(Vec<PlannedStep>, usize), HiveLibError>)
        requires
            self.wf(),
            exists|index: usize| #[trigger] only_sink(self@, index),
        ensures
            r matches Ok((steps, sink)) && carries_out(steps@, self@) && only_sink(self@, sink),
    {
        let sinks = self.sinks();
        let ghost witness = choose|index: usize| #[trigger] only_sink(self@, index);
        assert(sinks@.contains(witness));
        assert(sinks@.len() > 0);
        let first: usize = sinks[0];
        proof {
            assert(sinks@.contains(first));
            assert(is_sink(self@.edges, first));
        }
        Ok((self.compile(), first))
    }

    /// The steps, one on each line, in an order in which they can be carried out.
    pub fn to_string(&self) -> (s: String)
        requires
            self.wf(),
        ensures
            exists|order: Seq<usize>| #[trigger]
                topological(order, self@.steps.len(), self@.edges) && s@ == shown_lines(
                    order,
                    self@.steps,
                ),
    {
        let order: Vec<usize> = match toposort(&self.steps.graph) {
            Some(order) => order,
            None => Vec::new(),
        };
        let mut s = String::new();
        for i in 0..order.len()
            invariant
                self.wf(),
                topological(order@, self@.steps.len(), self@.edges),
                s@ == shown_lines(order@.take(i as int), self@.steps),
        {
            let number: usize = weight(&self.steps.graph, order[i]);
            if let Some(step) = &self.steps.steps[number] {
                s.push_str(step.to_string().as_str());
                s.push_str("\n");
            }
            assert(order@.take(i + 1).drop_last() =~= order@.take(i as int));
        }
        assert(order@.take(order@.len() as int) =~= order@);
        s
    }
}

/// Whether `index` is the one step that no other step waits for.
pub open spec fn only_sink(plan: PlanView, index: usize) -> bool {
    &&& index < plan.steps.len() && is_sink(plan.edges, index)
    &&& forall|other: usize|
        other < plan.steps.len() && #[trigger] is_sink(plan.edges, other) ==> other == index
}

} // verus!
