use wire::cli::{
    less_than_3, more_than_zero, node_names_completer, parse_partitions, ApplyArgs, ApplyTarget,
    BuildArgs, Cli, Commands, CommonVerbArgs, Goal, HandleUnreachableArg, Inspection, Partitions,
    ToSubCommandModifiers,
};
use wire::hive::node::{ApplyGoal, HandleUnreachable, SwitchToConfigurationGoal};
use wire::modifiers::StrictHostKeyChecking;

fn common() -> CommonVerbArgs {
    CommonVerbArgs { on: Vec::new(), parallel: 10, print_build_logs: false }
}

fn apply_args(goal: Goal) -> ApplyArgs {
    ApplyArgs {
        common: common(),
        goal,
        no_keys: true,
        always_build_local: Vec::new(),
        reboot: true,
        substitute_on_destination: true,
        handle_unreachable: HandleUnreachableArg::Ignore,
        ssh_accept_host: true,
        ssh_verbose: 2,
    }
}

fn cli(command: Commands) -> Cli {
    Cli {
        command,
        path: "/hive".to_string(),
        no_progress: false,
        non_interactive: true,
        show_trace: true,
        experimental_nix_client: true,
    }
}

#[test]
fn test_partition_parsing() {
    assert!(matches!(parse_partitions(""), Err(..)));
    assert!(matches!(parse_partitions("/"), Err(..)));
    assert!(matches!(parse_partitions(" / "), Err(..)));
    assert!(matches!(parse_partitions("abc/"), Err(..)));
    assert!(matches!(parse_partitions("abc"), Err(..)));
    assert!(matches!(parse_partitions("1/1"), Ok(Partitions {
        current,
        maximum
    }) if current == 1 && maximum == 1));
    assert!(matches!(parse_partitions("0/1"), Err(..)));
    assert!(matches!(parse_partitions("-11/1"), Err(..)));
    assert!(matches!(parse_partitions("100/99"), Err(..)));
    assert!(matches!(parse_partitions("5/10"), Ok(Partitions { current, maximum }) if current == 5 && maximum == 10));
}

#[test]
fn partition_errors_say_what_is_wrong() {
    assert_eq!(
        parse_partitions("1/2/3").unwrap_err(),
        "partition must contain exactly one '/'"
    );
    assert_eq!(parse_partitions("3/2").unwrap_err(), "current is more than total");
    assert_eq!(parse_partitions("0/0").unwrap_err(), "partition segments cannot be 0.");
    assert_eq!(parse_partitions("x/1").unwrap_err(), "invalid digit found in string");
    assert_eq!(parse_partitions("1/").unwrap_err(), "cannot parse integer from empty string");
}

#[test]
fn targets_are_told_apart() {
    assert!(matches!(ApplyTarget::from("-".to_string()), ApplyTarget::Stdin));
    assert!(matches!(ApplyTarget::from("@web".to_string()), ApplyTarget::Tag(tag) if tag == "web"));
    assert!(matches!(ApplyTarget::from("@".to_string()), ApplyTarget::Tag(tag) if tag.is_empty()));
    assert!(matches!(ApplyTarget::from("--".to_string()), ApplyTarget::Node(name) if name.0 == "--"));
    assert!(matches!(ApplyTarget::from(String::new()), ApplyTarget::Node(name) if name.0.is_empty()));
}

#[test]
fn targets_are_shown_as_they_were_written() {
    for text in ["node-a", "@web", "@", "", "ünïcode", "@@x"] {
        assert_eq!(ApplyTarget::from(text.to_string()).to_string(), text);
    }
    assert_eq!(ApplyTarget::Stdin.to_string(), "#stdin");
}

#[test]
fn numbers_keep_to_their_bounds() {
    assert_eq!(more_than_zero("1"), Ok(1));
    assert_eq!(more_than_zero("+7"), Ok(7));
    assert_eq!(more_than_zero("0").unwrap_err(), "less than minimum of 1");
    assert_eq!(more_than_zero("many").unwrap_err(), "invalid digit found in string");
    assert_eq!(less_than_3("0"), Ok(0));
    assert_eq!(less_than_3("3"), Ok(3));
    assert_eq!(less_than_3("4").unwrap_err(), "exceeds maximum of 3");
    assert_eq!(less_than_3("256").unwrap_err(), "number too large to fit in target type");
}

#[test]
fn modifiers_follow_the_command() {
    let apply = cli(Commands::Apply(apply_args(Goal::Switch))).to_subcommand_modifiers();
    assert!(apply.show_trace && apply.non_interactive && apply.experimental_nix_client);
    assert_eq!(apply.ssh_accept_host, StrictHostKeyChecking::No);
    assert_eq!(apply.ssh_verbosity, 2);
    assert!(!apply.print_build_logs);

    let mut args = common();
    args.print_build_logs = true;
    let build = cli(Commands::Build(BuildArgs { common: args, partition: None }));
    let modifiers = build.to_subcommand_modifiers();
    assert_eq!(modifiers.ssh_accept_host, StrictHostKeyChecking::AcceptNew);
    assert_eq!(modifiers.ssh_verbosity, 0);
    assert!(modifiers.print_build_logs);
    assert!(build.shows_progress());

    let inspect = cli(Commands::Inspect { selection: Inspection::default(), json: false });
    assert!(!inspect.to_subcommand_modifiers().print_build_logs);
    assert!(!inspect.shows_progress());
}

#[test]
fn only_builds_are_partitioned() {
    let partition = Partitions { current: 2, maximum: 3 };
    let build = Commands::Build(BuildArgs { common: common(), partition: Some(partition) });
    assert_eq!(build.partition(), partition);
    assert_eq!(Commands::Apply(apply_args(Goal::Build)).partition(), Partitions::default());
}

#[test]
fn goals_are_handed_to_nodes() {
    let args = apply_args(Goal::default()).goal_for(true, "x86_64-linux");
    assert_eq!(
        args.goal,
        ApplyGoal::SwitchToConfiguration(SwitchToConfigurationGoal::Switch)
    );
    assert!(args.no_keys && args.reboot && args.should_apply_locally);
    assert_eq!(args.handle_unreachable, HandleUnreachable::Ignore);
    assert_eq!(args.host_platform, "x86_64-linux");

    assert_eq!(ApplyGoal::from(Goal::Push), ApplyGoal::Push);
    assert_eq!(
        ApplyGoal::from(Goal::DryActivate),
        ApplyGoal::SwitchToConfiguration(SwitchToConfigurationGoal::DryActivate)
    );
}

#[test]
fn keys_are_not_skipped_where_keys_are_the_goal() {
    let args = apply_args(Goal::Keys).goal_for(false, "x86_64-linux");
    assert_eq!(args.goal, ApplyGoal::Keys);
    assert!(!args.no_keys);
}

#[test]
fn goals_have_names() {
    assert_eq!(Goal::DryActivate.to_string(), "DryActivate");
    assert_eq!(Inspection::Names.to_string(), "Names");
    assert_eq!(ApplyGoal::from(Goal::Boot).to_string(), "Boot");
    assert_eq!(ApplyGoal::Keys.to_string(), "Keys");
}

#[test]
fn unreachable_nodes_are_written_as_they_are_read() {
    assert_eq!(HandleUnreachableArg::Ignore.to_string(), "ignore");
    assert_eq!(HandleUnreachableArg::FailNode.to_string(), "fail-node");
}

#[test]
fn completions_begin_as_the_target_does() {
    let names = vec!["node-a".to_string(), "other".to_string(), "node-b".to_string()];
    assert_eq!(
        node_names_completer(Some("no"), true, Some(&names)),
        ["node-a", "node-b"]
    );
    assert_eq!(
        node_names_completer(Some(""), true, Some(&names)),
        ["-", "node-a", "other", "node-b"]
    );
    assert_eq!(node_names_completer(Some("-"), false, Some(&names)), ["-"]);
    assert!(node_names_completer(Some("@"), true, Some(&names)).is_empty());
    assert!(node_names_completer(None, true, Some(&names)).is_empty());
}
