//! What the command line means.
use crate::cli::{
    around_slash, beginning_with, completions, goal_name, hive_goal, is_goal_for, less_than_3,
    more_than_zero, parse_partitions, target_of, target_text, ApplyArgs, ApplyTargetView, Cli,
    Commands, Goal, HandleUnreachableArg, Partitions, ToSubCommandModifiers,
};
use crate::hive::node::{switch_name, ApplyGoal, HandleUnreachable, SwitchToConfigurationGoal};
use crate::hive::plan::ApplyGoalArgs;
use crate::modifiers::{StrictHostKeyChecking, SubCommandModifiers};
use crate::text::{decimal, number_value, position_from};
use vstd::prelude::*;
use vstd::std_specs::convert::FromSpec;

verus! {

/// The name of what is wanted of a node.
pub open spec fn wanted_name(goal: ApplyGoal) -> Seq<char> {
    match goal {
        ApplyGoal::SwitchToConfiguration(switch) => switch_name(switch),
        ApplyGoal::Build => "Build"@,
        ApplyGoal::Push => "Push"@,
        ApplyGoal::Keys => "Keys"@,
    }
}

/// What is wanted of a node has the name of the goal on the command line, and so has the switch,
/// where the goal is one.
pub proof fn goals_keep_their_names(goal: Goal)
    ensures
        wanted_name(<ApplyGoal as FromSpec<Goal>>::from_spec(goal)) == goal_name(goal),
        <ApplyGoal as FromSpec<Goal>>::obeys_from_spec(),
        hive_goal(goal) == <ApplyGoal as FromSpec<Goal>>::from_spec(goal),
        goal is Switch ==> goal_name(goal) == "Switch"@ && hive_goal(goal)
            == ApplyGoal::SwitchToConfiguration(SwitchToConfigurationGoal::Switch),
        goal is Boot ==> goal_name(goal) == "Boot"@ && hive_goal(goal)
            == ApplyGoal::SwitchToConfiguration(SwitchToConfigurationGoal::Boot),
        goal is Test ==> goal_name(goal) == "Test"@ && hive_goal(goal)
            == ApplyGoal::SwitchToConfiguration(SwitchToConfigurationGoal::Test),
        goal is DryActivate ==> goal_name(goal) == "DryActivate"@ && hive_goal(goal)
            == ApplyGoal::SwitchToConfiguration(SwitchToConfigurationGoal::DryActivate),
        goal is Build ==> goal_name(goal) == "Build"@ && hive_goal(goal) is Build,
        goal is Push ==> goal_name(goal) == "Push"@ && hive_goal(goal) is Push,
        goal is Keys ==> goal_name(goal) == "Keys"@ && hive_goal(goal) is Keys,
{
}

/// Different goals want different things of a node.
pub proof fn goals_are_told_apart(a: Goal, b: Goal)
    ensures
        a != b ==> hive_goal(a) != hive_goal(b) && goal_name(a) != goal_name(b),
{
    reveal_strlit("Switch");
    reveal_strlit("Build");
    reveal_strlit("Push");
    reveal_strlit("Keys");
    reveal_strlit("Boot");
    reveal_strlit("Test");
    reveal_strlit("DryActivate");
    assert(a != b && goal_name(a) == goal_name(b) ==> goal_name(a)[0] == goal_name(b)[0]
        && goal_name(a)[1] == goal_name(b)[1]);
}

/// A switch is named as the goal that asks for it, in small letters, with a hyphen between the words
/// of a dry activation.
pub proof fn switches_are_named_as_goals(goal: SwitchToConfigurationGoal)
    ensures
        goal is Switch ==> goal.word() == "switch"@ && switch_name(goal) == "Switch"@,
        goal is Boot ==> goal.word() == "boot"@ && switch_name(goal) == "Boot"@,
        goal is Test ==> goal.word() == "test"@ && switch_name(goal) == "Test"@,
        goal is DryActivate ==> goal.word() == "dry-activate"@ && switch_name(goal)
            == "DryActivate"@,
{
}

/// A node is handed what the command line says, and keys are skipped only where something else is
/// wanted too.
pub proof fn nodes_are_handed_what_was_asked_for(
    r: ApplyGoalArgs,
    args: ApplyArgs,
    local: bool,
    platform: Seq<char>,
)
    requires
        is_goal_for(r, args, local, platform),
    ensures
        wanted_name(r.goal) == goal_name(args.goal),
        r.should_apply_locally == local,
        r.host_platform@ == platform,
        r.reboot == args.reboot,
        r.substitute_on_destination == args.substitute_on_destination,
        args.goal is Keys ==> !r.no_keys,
        !(args.goal is Keys) ==> r.no_keys == args.no_keys,
        args.handle_unreachable is Ignore <==> r.handle_unreachable is Ignore,
        args.handle_unreachable is FailNode <==> r.handle_unreachable is FailNode,
{
    goals_keep_their_names(args.goal);
}

/// Two runs that want different things of a node hand it different goals.
pub proof fn handed_goals_tell_runs_apart(
    r: ApplyGoalArgs,
    s: ApplyGoalArgs,
    a: ApplyArgs,
    b: ApplyArgs,
    local: bool,
    platform: Seq<char>,
)
    requires
        is_goal_for(r, a, local, platform),
        is_goal_for(s, b, local, platform),
        r.goal == s.goal,
    ensures
        a.goal == b.goal,
{
    goals_are_told_apart(a.goal, b.goal);
}

/// Unreachable nodes are handled as the command line says.
pub proof fn unreachable_nodes_are_handled_as_told(choice: HandleUnreachableArg)
    ensures
        <HandleUnreachable as FromSpec<HandleUnreachableArg>>::obeys_from_spec(),
        choice is Ignore <==> <HandleUnreachable as FromSpec<HandleUnreachableArg>>::from_spec(
            choice,
        ) is Ignore,
        choice is FailNode <==> <HandleUnreachable as FromSpec<HandleUnreachableArg>>::from_spec(
            choice,
        ) is FailNode,
{
}

/// The settings are those of the command line. What only `apply` can be told is as usual for every
/// other command.
pub proof fn settings_are_those_of_the_command_line(cli: Cli)
    ensures
        ({
            let settings = cli.modifiers();
            &&& settings.show_trace == cli.show_trace
            &&& settings.non_interactive == cli.non_interactive
            &&& settings.experimental_nix_client == cli.experimental_nix_client
            &&& settings.ssh_accept_host == StrictHostKeyChecking::No <==> (cli.command matches
                Commands::Apply(args) && args.ssh_accept_host)
            &&& cli.command matches Commands::Apply(args) ==> settings.print_build_logs
                == args.common.print_build_logs && settings.ssh_verbosity == args.ssh_verbose
            &&& cli.command matches Commands::Build(args) ==> settings.print_build_logs
                == args.common.print_build_logs && settings.ssh_verbosity == 0
            &&& cli.command is Inspect ==> !settings.print_build_logs && settings.ssh_verbosity
                == 0
        }),
{
}

/// Everything is worked on, but for a build that was told to take a part.
pub proof fn parts_are_those_asked_for(command: Commands)
    ensures
        match command {
            Commands::Build(args) => match args.partition {
                Some(part) => command.part() == part,
                None => command.part().current == 1 && command.part().maximum == 1,
            },
            _ => command.part().current == 1 && command.part().maximum == 1,
        },
{
}

/// The settings to start from are careful: nothing is traced, logged or accepted that was not asked
/// for, and without a terminal nobody is asked.
pub proof fn settings_start_out_careful(terminal: bool)
    ensures
        ({
            let settings = SubCommandModifiers::starting(terminal);
            &&& settings.non_interactive == !terminal
            &&& settings.ssh_accept_host == StrictHostKeyChecking::AcceptNew
            &&& !settings.show_trace && !settings.print_build_logs
                && !settings.experimental_nix_client
            &&& settings.ssh_verbosity == 0
        }),
{
}

/// A text is a target by how it begins: a hyphen alone is the standard input, an `@` makes a tag of
/// what follows, and anything else is a node.
pub proof fn targets_go_by_how_they_begin(s: Seq<char>)
    ensures
        target_of("-"@) == ApplyTargetView::Stdin,
        target_of(seq!['@'] + s) == ApplyTargetView::Tag(s),
        s != "-"@ && !seq!['@'].is_prefix_of(s) ==> target_of(s) == ApplyTargetView::Node(s),
        target_text(ApplyTargetView::Stdin) == "#stdin"@,
        target_text(ApplyTargetView::Node(s)) == s,
        target_text(ApplyTargetView::Tag(s)) == seq!['@'] + s,
{
    reveal_strlit("-");
    reveal_strlit("@");
    let tag = seq!['@'] + s;
    assert(tag[0] == '@');
    assert(tag.skip(1) =~= s);
    assert(tag != "-"@);
    assert("@"@ =~= seq!['@']);
    if s.len() > 0 && s[0] == '@' {
        assert(s.take(1) =~= seq!['@']);
        assert(seq!['@'].is_prefix_of(s));
    }
}

proof fn lemma_position(s: Seq<char>, c: char, from: int)
    requires
        0 <= from <= s.len(),
    ensures
        from <= position_from(s, c, from) <= s.len(),
        forall|k: int| from <= k < position_from(s, c, from) ==> s[k] != c,
        position_from(s, c, from) < s.len() ==> s[position_from(s, c, from)] == c,
    decreases s.len() - from,
{
    if from < s.len() && s[from] != c {
        lemma_position(s, c, from + 1);
    }
}

/// A part is written with one slash: what stands before it is which, what stands after it of how
/// many.
pub proof fn parts_are_written_with_one_slash(s: Seq<char>, left: Seq<char>, right: Seq<char>)
    ensures
        !left.contains('/') && !right.contains('/') ==> around_slash(left.push('/') + right)
            == Some((left, right)),
        match around_slash(s) {
            Some((before, after)) => s == before.push('/') + after && !before.contains('/')
                && !after.contains('/'),
            None => !(exists|before: Seq<char>, after: Seq<char>|
                #![trigger before.push('/') + after]
                s == before.push('/') + after && !before.contains('/') && !after.contains('/')),
        },
{
    if !left.contains('/') && !right.contains('/') {
        lemma_around(left, right);
    }
    let i = position_from(s, '/', 0);
    lemma_position(s, '/', 0);
    if i < s.len() {
        lemma_position(s, '/', i + 1);
        assert(s =~= s.take(i).push('/') + s.skip(i + 1));
    }
    if around_slash(s) is None {
        assert forall|before: Seq<char>, after: Seq<char>|
            #![trigger before.push('/') + after]
            !before.contains('/') && !after.contains('/') implies s != before.push('/') + after by {
            lemma_around(before, after);
        }
    }
}

proof fn lemma_around(left: Seq<char>, right: Seq<char>)
    requires
        !left.contains('/'),
        !right.contains('/'),
    ensures
        around_slash(left.push('/') + right) == Some((left, right)),
{
    let s = left.push('/') + right;
    lemma_position(s, '/', 0);
    let i = position_from(s, '/', 0);
    assert(s[left.len() as int] == '/');
    if i < left.len() {
        assert(left.contains(s[i]));
    }
    lemma_position(s, '/', i + 1);
    let j = position_from(s, '/', i + 1);
    if j < s.len() {
        assert(s[j] == right[j - i - 1]);
        assert(right.contains(s[j]));
    }
    assert(s.take(i) =~= left);
    assert(s.skip(i + 1) =~= right);
}

/// What is offered for a name that was begun are names that begin so, each of them that there is,
/// and the standard input where it may be meant.
pub proof fn names_that_begin_so_are_offered(
    current: Seq<char>,
    names: Seq<Seq<char>>,
    offered: Seq<char>,
)
    requires
        !seq!['@'].is_prefix_of(current),
    ensures
        completions(Some(current), true, Some(names)).contains(offered) <==> (names.contains(
            offered,
        ) && current.is_prefix_of(offered)) || offered == "-"@ && (current.len() == 0 || current
            == "-"@),
        completions(Some(seq!['@'] + current), true, Some(names)).len() == 0,
        completions(None, true, Some(names)).len() == 0,
        completions(Some(current), false, Some(names)).contains(offered) <==> offered == "-"@ && (
        current.len() == 0 || current == "-"@),
        completions(Some(current), true, None).contains(offered) <==> offered == "-"@ && (
        current.len() == 0 || current == "-"@),
{
    reveal_strlit("");
    reveal_strlit("-");
    assert(current.len() == 0 ==> current =~= ""@);
    let tag = seq!['@'] + current;
    assert(tag[0] == '@');
    assert("-"@[0] == '-');
    assert(tag.len() > 0 && ""@.len() == 0);
    if current.len() > 0 && current[0] == '@' {
        assert(current.take(1) =~= seq!['@']);
        assert(seq!['@'].is_prefix_of(current));
    }
    let begins = |name: Seq<char>| current.is_prefix_of(name);
    let found = beginning_with(names, current);
    let stdin = if current == ""@ || current == "-"@ {
        seq!["-"@]
    } else {
        Seq::empty()
    };
    assert(stdin.contains(offered) <==> offered == "-"@ && (current.len() == 0 || current
        == "-"@)) by {
        if stdin.len() > 0 {
            assert(stdin[0] == "-"@);
        }
    }
    assert(found.contains(offered) <==> names.contains(offered) && begins(offered)) by {
        if found.contains(offered) {
            names.lemma_filter_contains_rev(begins, offered);
            let k = found.index_of(offered);
            names.lemma_filter_pred(begins, k);
        }
        if names.contains(offered) && begins(offered) {
            let k = names.index_of(offered);
            names.lemma_filter_contains(begins, k);
        }
    }
    let all = stdin + found;
    assert(all.contains(offered) <==> stdin.contains(offered) || found.contains(offered)) by {
        if stdin.contains(offered) {
            assert(all[stdin.index_of(offered)] == offered);
        }
        if found.contains(offered) {
            assert(all[stdin.len() + found.index_of(offered)] == offered);
        }
        if all.contains(offered) {
            let k = all.index_of(offered);
            if k < stdin.len() {
                assert(stdin[k] == offered);
            } else {
                assert(found[k - stdin.len()] == offered);
            }
        }
    }
}

/// A number of things to do at a time is at least one, and a verbosity at most three. What is no
/// number is refused as such.
pub proof fn numbers_keep_their_bounds(
    s: &str,
    positive: Result<usize, String>,
    small: Result<u8, String>,
)
    ensures
        call_ensures(more_than_zero, (s,), positive) ==> {
            &&& positive is Ok <==> (number_value(s@, 10) matches Some(n) && 1 <= n <= usize::MAX)
            &&& positive is Ok ==> number_value(s@, 10) == Some(positive->Ok_0 as nat)
            &&& number_value(s@, 10) == Some(0nat) ==> positive->Err_0@
                == "less than minimum of "@ + decimal(1)
        },
        call_ensures(less_than_3, (s,), small) ==> {
            &&& small is Ok <==> (number_value(s@, 10) matches Some(n) && n <= 3)
            &&& small is Ok ==> number_value(s@, 10) == Some(small->Ok_0 as nat)
            &&& number_value(s@, 10) == Some(4nat) ==> small->Err_0@ == "exceeds maximum of "@
                + decimal(3)
        },
{
}

/// A part is asked for by its number and the number of parts. Parts are counted from one, and
/// there is no part after the last.
pub proof fn parts_are_counted_from_one(
    s: &str,
    left: Seq<char>,
    right: Seq<char>,
    r: Result<Partitions, String>,
)
    requires
        call_ensures(parse_partitions, (s,), r),
    ensures
        around_slash(s@) is None ==> r is Err && r->Err_0@
            == "partition must contain exactly one '/'"@,
        around_slash(s@) == Some((left, right)) ==> {
            &&& r is Ok <==> (number_value(left, 10) matches Some(current) && number_value(
                right,
                10,
            ) matches Some(maximum) && 1 <= current <= maximum <= usize::MAX)
            &&& r is Ok ==> number_value(left, 10) == Some(r->Ok_0.current as nat)
                && number_value(right, 10) == Some(r->Ok_0.maximum as nat)
            &&& number_value(left, 10) == Some(2nat) && number_value(right, 10) == Some(1nat)
                ==> r->Err_0@ == "current is more than total"@
            &&& number_value(left, 10) == Some(0nat) && number_value(right, 10) == Some(1nat)
                ==> r->Err_0@ == "partition segments cannot be 0."@
        },
{
}

/// Arguments are shown as they are written, and the bar is shown unless there is nothing to show
/// or it is not wanted.
pub proof fn arguments_are_shown_as_written(
    handling: &HandleUnreachableArg,
    shown: String,
    cli: &Cli,
    progress: bool,
)
    ensures
        call_ensures(HandleUnreachableArg::to_string, (handling,), shown) ==> {
            &&& handling is Ignore ==> shown@ == "ignore"@
            &&& handling is FailNode ==> shown@ == "fail-node"@
        },
        call_ensures(Cli::shows_progress, (cli,), progress) ==> (progress <==> !(cli.command
            is Inspect) && !cli.no_progress),
{
}

/// A goal on the command line is the goal of that name for a node.
pub proof fn goals_are_handed_on(goal: Goal, wanted: ApplyGoal)
    requires
        call_ensures(<ApplyGoal as From<Goal>>::from, (goal,), wanted),
    ensures
        goal is Switch <==> wanted == ApplyGoal::SwitchToConfiguration(
            SwitchToConfigurationGoal::Switch,
        ),
        goal is Boot <==> wanted == ApplyGoal::SwitchToConfiguration(
            SwitchToConfigurationGoal::Boot,
        ),
        goal is Test <==> wanted == ApplyGoal::SwitchToConfiguration(
            SwitchToConfigurationGoal::Test,
        ),
        goal is DryActivate <==> wanted == ApplyGoal::SwitchToConfiguration(
            SwitchToConfigurationGoal::DryActivate,
        ),
        goal is Build <==> wanted is Build,
        goal is Push <==> wanted is Push,
        goal is Keys <==> wanted is Keys,
{
}

} // verus!
