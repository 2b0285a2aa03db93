//! Where a hive is found, which hives are read, and how a plan for one of its nodes goes on.
use crate::errors::{HiveLibError, HiveLocationError};
use crate::hive::executor::{comes_before, ExecutorAction, NodePlan};
use crate::hive::inventory::{forced, known_names, names_of, Nodes};
use crate::hive::location::{is_path_action, prefetch_line, LocationAction};
use crate::hive::node::{plain_node, shown_hosts, StepView, TargetView};
use crate::hive::plan::shown_lines;
use crate::hive::schema::{
    parsed_semver, schema_check, semver_text, SchemaValue, SchemaView, SemverView,
};
use crate::hive::steps::ping::{after_answer, try_next, PingActionView};
use crate::laws::commands::command_lines_are_their_words;
use crate::laws::text::{paths_lie_below_directories, trimmed_texts_stay};
use crate::status::{NodeStatusView, UiMessage};
use crate::text::{decimal, joined, trimmed};
use vstd::prelude::*;

verus! {

/// A path to a file that is called `hive.nix` is the hive. Any other path is a directory in which
/// a `flake.nix` is looked for, and a path that names nothing is refused.
pub proof fn hives_are_found_by_their_file(
    action: LocationAction,
    path: Seq<char>,
    name: Seq<char>,
)
    ensures
        is_path_action(action, path, Some("hive.nix"@)) ==> action is Finish && action->Finish_0
            is Ok && action->Finish_0->Ok_0 is HiveNix && action->Finish_0->Ok_0->HiveNix_0@
            == path,
        name != "hive.nix"@ && is_path_action(action, path, Some(name)) ==> action
            is LookForFlake && action->path@ == path && (path.len() > 0 && path.last() != '/'
            ==> action->file@ == path + "/flake.nix"@) && (path.len() > 0 && path.last() == '/'
            ==> action->file@ == path + "flake.nix"@),
        is_path_action(action, path, None) ==> (action matches LocationAction::Finish(
            Err(HiveLibError::HiveLocationError(HiveLocationError::MalformedPath(shown))),
        ) && shown@ == path),
{
    reveal_strlit("flake.nix");
    reveal_strlit("/flake.nix");
    if path.len() > 0 && path.last() != '/' {
        paths_lie_below_directories(path, "flake.nix"@);
    }
    assert("/flake.nix"@ =~= seq!['/'] + "flake.nix"@);
    assert(path.push('/') + "flake.nix"@ =~= path + "/flake.nix"@);
}

/// A flake is fetched by its reference, and what came of it is told as JSON.
pub proof fn flakes_are_fetched_by_reference(uri: Seq<char>)
    ensures
        prefetch_line(uri) == joined(
            seq![
                "nix"@,
                "flake"@,
                "prefetch"@,
                "--extra-experimental-features"@,
                "nix-command"@,
                "--extra-experimental-features"@,
                "flakes"@,
                "--json"@,
                trimmed(uri),
            ],
            " "@,
        ),
{
    reveal_strlit("flake");
    reveal_strlit("prefetch");
    reveal_strlit("--extra-experimental-features");
    reveal_strlit("nix-command");
    reveal_strlit("flakes");
    reveal_strlit("--json");
    trimmed_texts_stay("flake"@);
    trimmed_texts_stay("prefetch"@);
    trimmed_texts_stay("--extra-experimental-features"@);
    trimmed_texts_stay("nix-command"@);
    trimmed_texts_stay("flakes"@);
    trimmed_texts_stay("--json"@);
    let words = seq![
        "flake"@,
        "prefetch"@,
        "--extra-experimental-features"@,
        "nix-command"@,
        "--extra-experimental-features"@,
        "flakes"@,
        "--json"@,
        uri,
    ];
    command_lines_are_their_words("nix"@, words);
    assert(seq!["nix"@] + words.map_values(|word: Seq<char>| trimmed(word)) =~= seq![
        "nix"@,
        "flake"@,
        "prefetch"@,
        "--extra-experimental-features"@,
        "nix-command"@,
        "--extra-experimental-features"@,
        "flakes"@,
        "--json"@,
        trimmed(uri),
    ]);
}

/// A hive is read if its version is the number one, or any release of the first major version,
/// and is told what it is otherwise. Its version is kept.
pub proof fn hives_of_the_first_version_are_read(value: SchemaValue)
    ensures
        schema_check(value) is Ok <==> (value == SchemaValue::Integer(1) || value is Text
            && parsed_semver(value->Text_0@) is Ok && parsed_semver(value->Text_0@)->Ok_0.major
            == 1 && parsed_semver(value->Text_0@)->Ok_0.pre.len() == 0),
        value == SchemaValue::Integer(1) ==> schema_check(value)->Ok_0
            == SchemaView::DeprecatedInteger(1),
        value is Text && schema_check(value) is Ok ==> schema_check(value)->Ok_0
            == SchemaView::Semver(parsed_semver(value->Text_0@)->Ok_0),
        value is Integer && value->Integer_0 != 1 ==> schema_check(value)->Err_0
            == "your `makeHive` function can't be read (schema verison "@ + decimal(
            value->Integer_0 as nat,
        ) + ", required 1). please upgrade it or downgrade this binary"@,
        value is OtherNumber ==> schema_check(value)->Err_0
            == "failed to read deprecated integer schema version into an u64"@,
        value is Other ==> schema_check(value)->Err_0
            == "failed to read schema version into a &str. this is likely a bug you should report"@,
        value is Text && parsed_semver(value->Text_0@) is Err ==> schema_check(value)->Err_0
            == "failed to parse schema semver. this is likely a bug you should report: "@
            + parsed_semver(value->Text_0@)->Err_0,
        value is Text && parsed_semver(value->Text_0@) is Ok && schema_check(value) is Err
            ==> schema_check(value)->Err_0 == "your `makeHive`'s version ("@ + semver_text(
            parsed_semver(value->Text_0@)->Ok_0,
        ) + ") did not match ^1.0.0. please upgrade it or downgrade this binary"@,
{
    reveal_strlit(", required ");
    reveal_strlit("). please upgrade it or downgrade this binary");
    reveal_strlit(", required 1). please upgrade it or downgrade this binary");
    reveal_strlit(") did not match ");
    reveal_strlit("^1.0.0");
    reveal_strlit(". please upgrade it or downgrade this binary");
    reveal_strlit(") did not match ^1.0.0. please upgrade it or downgrade this binary");
    assert(decimal(1) =~= seq!['1']);
    assert(", required "@ + seq!['1'] + "). please upgrade it or downgrade this binary"@
        =~= ", required 1). please upgrade it or downgrade this binary"@);
    assert(") did not match "@ + "^1.0.0"@ + ". please upgrade it or downgrade this binary"@
        =~= ") did not match ^1.0.0. please upgrade it or downgrade this binary"@);
    if value is Integer && value->Integer_0 != 1 {
        let start = "your `makeHive` function can't be read (schema verison "@ + decimal(
            value->Integer_0 as nat,
        );
        assert(start + ", required "@ + decimal(1)
            + "). please upgrade it or downgrade this binary"@ =~= start + (", required "@
            + decimal(1) + "). please upgrade it or downgrade this binary"@));
    }
    if value is Text && parsed_semver(value->Text_0@) is Ok {
        let start = "your `makeHive`'s version ("@ + semver_text(
            parsed_semver(value->Text_0@)->Ok_0,
        );
        assert(start + ") did not match "@ + "^1.0.0"@
            + ". please upgrade it or downgrade this binary"@ =~= start + (") did not match "@
            + "^1.0.0"@ + ". please upgrade it or downgrade this binary"@));
    }
}

/// A version is written by its three numbers, then what it comes before, then its build.
pub proof fn versions_are_written_in_order(major: u64, minor: u64, patch: u64, extra: Seq<char>)
    requires
        extra.len() > 0,
    ensures
        ({
            let numbers = decimal(major as nat) + "."@ + decimal(minor as nat) + "."@ + decimal(
                patch as nat,
            );
            let none = Seq::<char>::empty();
            &&& semver_text(SemverView { major, minor, patch, pre: none, build: none }) == numbers
            &&& semver_text(SemverView { major, minor, patch, pre: extra, build: none })
                == numbers + "-"@ + extra
            &&& semver_text(SemverView { major, minor, patch, pre: none, build: extra })
                == numbers + "+"@ + extra
            &&& semver_text(SemverView { major, minor, patch, pre: extra, build: extra })
                == numbers + "-"@ + extra + "+"@ + extra
        }),
{
    let numbers = decimal(major as nat) + "."@ + decimal(minor as nat) + "."@ + decimal(
        patch as nat,
    );
    let none = Seq::<char>::empty();
    assert(numbers + none + none =~= numbers);
    assert(numbers + ("-"@ + extra) + none =~= numbers + "-"@ + extra);
    assert(numbers + none + ("+"@ + extra) =~= numbers + "+"@ + extra);
    assert(numbers + ("-"@ + extra) + ("+"@ + extra) =~= numbers + "-"@ + extra + "+"@ + extra);
}

/// Forcing a node to be built here changes where it is built, and nothing else of it. Nodes that
/// are not named stay as they are.
pub proof fn forced_nodes_are_built_here(nodes: Nodes, names: Seq<Seq<char>>, at: int)
    requires
        0 <= at < nodes.len(),
    ensures
        ({
            let before = nodes[at].1;
            let after = forced(nodes, names)[at].1;
            &&& forced(nodes, names).len() == nodes.len()
            &&& forced(nodes, names)[at].0 == nodes[at].0
            &&& names.contains(nodes[at].0) ==> !after.build_remotely
            &&& !names.contains(nodes[at].0) ==> after == before
            &&& after.target == before.target
            &&& after.allow_local_deployment == before.allow_local_deployment
            &&& after.tags == before.tags
            &&& after.keys == before.keys
            &&& after.host_platform == before.host_platform
            &&& after.privilege_escalation_command == before.privilege_escalation_command
        }),
{
}

/// Names are looked up until one is not that of a node.
pub proof fn names_are_looked_up_in_order(nodes: Nodes, names: Seq<Seq<char>>)
    ensures
        ({
            let known = known_names(nodes, names);
            &&& 0 <= known <= names.len()
            &&& forall|k: int|
                0 <= k < known ==> exists|i: int|
                    0 <= i < nodes.len() && (#[trigger] nodes[i]).0 == #[trigger] names[k]
            &&& known < names.len() ==> forall|i: int|
                0 <= i < nodes.len() ==> (#[trigger] nodes[i]).0 != names[known]
        }),
    decreases names.len(),
{
    if names.len() > 0 {
        let all = names_of(nodes);
        if all.contains(names[0]) {
            let i = choose|i: int| 0 <= i < all.len() && all[i] == names[0];
            assert(nodes[i].0 == names[0]);
            let rest = names.skip(1);
            names_are_looked_up_in_order(nodes, rest);
            let known = known_names(nodes, names);
            assert forall|k: int| 0 <= k < known implies exists|i: int|
                0 <= i < nodes.len() && (#[trigger] nodes[i]).0 == #[trigger] names[k] by {
                if k > 0 {
                    assert(rest[k - 1] == names[k]);
                }
            }
            if known < names.len() {
                assert(rest[known - 1] == names[known]);
            }
        } else {
            assert forall|i: int| 0 <= i < nodes.len() implies (#[trigger] nodes[i]).0
                != names[0] by {
                assert(all[i] == nodes[i].0);
            }
        }
    }
}

/// A plan goes through its steps in order, each announced by what it is and by how far the plan
/// has come. It succeeds when no step is left, and ends before a step when it is interrupted.
pub proof fn plans_go_on_step_by_step(
    action: ExecutorAction,
    plan: NodePlan,
    position: int,
    should_quit: bool,
)
    requires
        0 <= position <= plan.steps@.len(),
        comes_before(action, plan, position, should_quit),
    ensures
        position == plan.steps@.len() ==> (action matches ExecutorAction::Finish {
            message: Some(UiMessage::SetStatus(name, status)),
            result: Ok(_),
        } && name == plan.context.name && status@ is Succeeded),
        position < plan.steps@.len() && should_quit ==> (action matches ExecutorAction::Finish {
            message: None,
            result: Err(HiveLibError::Sigint),
        }),
        position < plan.steps@.len() && !should_quit ==> (action matches ExecutorAction::Execute {
            position: at,
            progress,
            message: UiMessage::SetStatus(name, status),
        } && at == position && progress@ == decimal((position + 1) as nat) + "/"@ + decimal(
            plan.steps@.len(),
        ) && name == plan.context.name && status@ == (NodeStatusView::Running {
            status: plan.steps@[position]@.shown(),
            last_log: None,
        })),
{
}

/// Each kind of step is announced by a text of its own.
pub proof fn steps_are_announced(step: StepView)
    ensures
        step is Ping ==> step.shown() == "Ping"@,
        step is PushKeyAgent ==> step.shown() == "Push the key agent"@,
        step is Keys ==> step.shown() == "Upload key @ ??"@,
        step is Evaluate ==> step.shown() == "Evaluate"@,
        step is Build ==> step.shown() == "Build the node"@,
        step is SwitchToConfiguration ==> step.shown() == "Activation"@,
        step is PushOutput && step->kind is Evaluation ==> step.shown()
            == "Push evaluation output"@,
        step is PushOutput && step->kind is Build ==> step.shown() == "Push build output"@,
{
    reveal_strlit("Push ");
    reveal_strlit("evaluation");
    reveal_strlit("build");
    reveal_strlit(" output");
    reveal_strlit("Push evaluation output");
    reveal_strlit("Push build output");
    assert("Push "@ + "evaluation"@ + " output"@ =~= "Push evaluation output"@);
    assert("Push "@ + "build"@ + " output"@ =~= "Push build output"@);
}

/// A plan is shown by its steps, in the order in which they are done, each in a line of its own.
pub proof fn plans_are_shown_by_their_steps(order: Seq<usize>, next: usize, steps: Seq<StepView>)
    ensures
        shown_lines(Seq::empty(), steps) == Seq::<char>::empty(),
        shown_lines(order.push(next), steps) == shown_lines(order, steps)
            + steps[next as int].shown() + "\n"@,
{
    assert(order.push(next).drop_last() =~= order);
}

/// The hosts of a node are tried one after the other until one answers. That one is kept, and
/// where none is left the node cannot be reached.
pub proof fn hosts_are_tried_until_one_answers(target: TargetView)
    ensures
        target.current_host < target.hosts.len() ==> try_next(target) == PingActionView::Try(
            target.hosts[target.current_host as int],
        ),
        target.current_host >= target.hosts.len() ==> (try_next(target)
            matches PingActionView::Finish(Err(HiveLibError::NetworkError(error))) && error
            is HostsExhausted),
        after_answer(target, true) == target,
        after_answer(target, false).current_host == target.current_host + 1,
        after_answer(target, false).hosts == target.hosts,
        after_answer(target, false).user == target.user,
        after_answer(target, false).port == target.port,
{
}

/// Each host of a node is shown with the user and the port that it is connected to by.
pub proof fn hosts_are_shown_with_user_and_port(target: TargetView, at: int)
    requires
        0 <= at < target.hosts.len(),
    ensures
        shown_hosts(target).len() == target.hosts.len(),
        shown_hosts(target)[at] == target.user + "@"@ + target.hosts[at] + ":"@ + decimal(
            target.port as nat,
        ),
{
}

/// A node of which nothing but its target is said is built here, may be this machine, has no
/// tags and no keys, and is worked on through `sudo`.
pub proof fn nodes_start_out_plain(target: TargetView)
    ensures
        plain_node(target).target == target,
        !plain_node(target).build_remotely,
        plain_node(target).allow_local_deployment,
        plain_node(target).tags.is_empty(),
        plain_node(target).keys.len() == 0,
        plain_node(target).host_platform == "x86_64-linux"@,
        plain_node(target).privilege_escalation_command == seq!["sudo"@, "--"@],
{
}

} // verus!
