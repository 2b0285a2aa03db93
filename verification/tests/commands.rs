use std::collections::{HashMap, VecDeque};
use wire::commands::builder::CommandStringBuilder;
use wire::commands::common::{
    conclude_evaluation, conclude_push, evaluate_command, get_common_command_help,
    get_common_copy_path_help, get_hive_node_names, hive_attribute, push_command, read_node_names,
    show_node_names,
};
use wire::commands::logs::{
    drv_path_to_build_name, is_traced, log_print, trace_nix_log_message, unparsed_line, ActivityType, Field,
    Level, LogMessage, ResultType, SliceTrace, VerbosityLevel,
};
use wire::commands::noninteractive::{
    collect_stderr, collect_stdout, collected_text, conclude, create_invocation,
    create_shell_command,
};
use wire::commands::{ChildOutputMode, CommandArguments};
use wire::errors::{CommandError, HiveInitialisationError, HiveLibError, NetworkError};
use wire::hive::location::{FlakePrefetch, HiveLocation};
use wire::hive::node::{Name, Push, Target};
use wire::modifiers::{EvalGoal, SubCommandModifiers};
use wire::store_path::SafeStorePath;

fn path(text: &str) -> SafeStorePath {
    SafeStorePath::of_absolute_path(text.to_string())
}

fn failed(logs: &str) -> CommandError {
    CommandError::CommandFailed {
        command_ran: "nix".to_string(),
        logs: logs.to_string(),
        code: "code 1".to_string(),
        reason: "known-status".to_string(),
    }
}

fn flake() -> HiveLocation {
    HiveLocation::Flake {
        uri: "github:foo/bar".to_string(),
        prefetch: FlakePrefetch { hash: String::new(), store_path: path("/nix/store/x") },
    }
}

#[test]
fn command_builder() {
    let mut builder = CommandStringBuilder::new("a");
    builder.arg("                 b ");
    builder.args(&["  c ", "d", "e"]);
    builder.opt_arg(false, "f");
    builder.opt_arg(true, "g");

    assert_eq!(
        builder.to_string(),
        std::convert::AsRef::<str>::as_ref(&builder)
    );
    assert_eq!(builder.to_string(), "a b c d e g");

    builder.literal(" ` h! ` ");

    assert_eq!(builder.to_string(), "a b c d e g ` h! ` ");
}

#[test]
fn arguments_are_trimmed_of_every_white_space() {
    let mut builder = CommandStringBuilder::new("\u{2003}a\u{a0}");
    builder.arg("\u{3000}b\t");
    assert_eq!(builder.to_string(), "a b");
}

#[test]
fn paths_are_copied_with_nix() {
    let modifiers = SubCommandModifiers::for_terminal(true);
    let target = Target::from_host("h");
    let drv = path("/nix/store/x.drv");
    let (command, variables) =
        push_command(&target, &Push::Derivation(&drv), true, modifiers).unwrap();
    assert_eq!(
        command.command_string,
        "nix --extra-experimental-features nix-command copy --substitute-on-destination --to ssh://root@h /nix/store/x.drv --derivation"
    );
    assert_eq!(variables.len(), 1);
    assert_eq!(variables[0].0, "NIX_SSHOPTS");
    assert_eq!(
        variables[0].1,
        "-l root -p 22 -o StrictHostKeyChecking=accept-new -o BatchMode=yes"
    );
    let (command, _) = push_command(&target, &Push::Path(&drv), false, modifiers).unwrap();
    assert_eq!(
        command.command_string,
        "nix --extra-experimental-features nix-command copy --to ssh://root@h /nix/store/x.drv"
    );
}

#[test]
fn copies_that_fail_may_come_with_help() {
    let name = Name("n".to_string());
    let out = path("/nix/store/x");
    assert!(conclude_push(Ok(()), &name, &Push::Path(&out)).is_ok());
    let error = conclude_push(
        Err(failed("error: unexpected end-of-file")),
        &name,
        &Push::Path(&out),
    )
    .unwrap_err();
    assert!(matches!(
        error,
        HiveLibError::NixCopyCliError { path, help: Some(help), .. }
            if path == out && help.starts_with("wire requires the deploying user")
    ));
    assert!(get_common_copy_path_help(&failed("something else")).is_none());
    assert!(get_common_copy_path_help(&CommandError::NoHandle).is_none());
}

#[test]
fn attributes_are_named_by_location() {
    let node = Name("node-a".to_string());
    let file = HiveLocation::HiveNix("/x/hive.nix".to_string());
    assert_eq!(
        hive_attribute(&flake(), &EvalGoal::Inspect),
        "github:foo/bar#wire --apply \"hive: hive.inspect\""
    );
    assert_eq!(
        hive_attribute(&flake(), &EvalGoal::GetTopLevel(&node)),
        "github:foo/bar#wire --apply \"hive: hive.topLevels.node-a\""
    );
    assert_eq!(hive_attribute(&file, &EvalGoal::Names), "--file /x/hive.nix names");
    let modifiers =
        SubCommandModifiers { show_trace: true, ..SubCommandModifiers::for_terminal(true) };
    let command = evaluate_command("--file /x/hive.nix names", modifiers);
    assert_eq!(
        command.command_string,
        "nix --extra-experimental-features nix-command --extra-experimental-features flakes eval --json --show-trace --file /x/hive.nix names"
    );
    assert_eq!(command.output_mode, ChildOutputMode::Nix);
}

#[test]
fn evaluations_that_fail_may_come_with_help() {
    assert_eq!(conclude_evaluation(Ok("{}".to_string()), "a".to_string()).unwrap(), "{}");
    for logs in [
        "attribute 'inspect' missing",
        "flake does not provide attribute 'packages.x86_64-linux.wire'",
        "attribute 'inspect' in selection path",
    ] {
        assert_eq!(
            get_common_command_help(&failed(logs)).unwrap(),
            "Double check this `--path` or `--flake` is a wire hive. You may be pointing to the wrong directory."
        );
    }
    let error = conclude_evaluation(Err(failed("boom")), "a".to_string()).unwrap_err();
    assert!(matches!(
        error,
        HiveLibError::NixEvalError { attribute, help: None, .. } if attribute == "a"
    ));
}

#[test]
fn names_are_read_and_shown() {
    let names = get_hive_node_names("[\"node-a\", \"node\\u002db\"]").unwrap();
    assert_eq!(names, ["node-a", "node-b"]);
    assert_eq!(show_node_names(&names, false), "node-a\nnode-b");
    assert_eq!(show_node_names(&names, true), "[\"node-a\",\"node-b\"]");
    assert!(matches!(
        get_hive_node_names("{}"),
        Err(HiveLibError::HiveInitialisationError(
            HiveInitialisationError::ParseEvaluateError(_)
        ))
    ));
    assert!(read_node_names(Err("eof".to_string())).is_err());
}

#[test]
fn commands_are_quoted_for_a_shell() {
    let modifiers = SubCommandModifiers::for_terminal(true);
    let command = CommandArguments::new("echo hi", modifiers);
    assert_eq!(create_shell_command(&command), "bash -c 'echo hi'");
    let command = command
        .mode(ChildOutputMode::Nix)
        .privileged(&vec!["sudo".to_string(), "--".to_string()]);
    assert!(command.is_elevated());
    assert_eq!(
        create_shell_command(&command),
        "sudo -- bash -c 'echo hi --log-format internal-json'"
    );
    assert_eq!(
        create_shell_command(&CommandArguments::new("a 'b'", modifiers)),
        "bash -c 'a '\''b'\'''"
    );
}

#[test]
fn commands_run_here_or_through_ssh() {
    let modifiers = SubCommandModifiers::for_terminal(true);
    let here = create_invocation(&CommandArguments::new("true", modifiers)).unwrap();
    assert_eq!(here.program, "bash");
    assert_eq!(here.args, ["-c", "bash -c 'true'"]);

    let mut target = Target::from_host("h");
    let command =
        CommandArguments::new("true", modifiers).execute_on_remote(Some(target.clone()));
    let there = create_invocation(&command).unwrap();
    assert_eq!(there.program, "ssh");
    assert_eq!(there.args[..2], ["-l".to_string(), "root".to_string()]);
    assert_eq!(
        there.args[there.args.len() - 2..],
        ["h".to_string(), "bash -c 'true'".to_string()]
    );

    target.host_failed();
    let command = CommandArguments::new("true", modifiers).execute_on_remote(Some(target));
    assert!(matches!(
        create_invocation(&command),
        Err(HiveLibError::NetworkError(NetworkError::HostsExhausted))
    ));
}

#[test]
fn the_last_messages_are_kept() {
    let mut errors = VecDeque::new();
    for i in 0..25 {
        collect_stderr(&mut errors, Some(format!("line {i}")));
        collect_stderr(&mut errors, None);
    }
    let text = collected_text(&errors);
    assert_eq!(text.lines().count(), 20);
    assert!(text.starts_with("line 5\nline 6\n") && text.ends_with("line 24"));
}

#[test]
fn commands_come_to_their_output_or_an_error() {
    let mut stdout = VecDeque::new();
    collect_stdout(&mut stdout, b"first");
    collect_stdout(&mut stdout, b"se\xffcond");
    let mut errors = VecDeque::new();
    collect_stderr(&mut errors, Some("oh no".to_string()));
    assert_eq!(
        conclude("cmd", true, Some(0), &stdout, &errors).unwrap(),
        "first\nse\u{fffd}cond"
    );
    match conclude("cmd", false, Some(-2), &stdout, &errors).unwrap_err() {
        CommandError::CommandFailed { command_ran, logs, code, reason } => {
            assert_eq!(
                (command_ran.as_str(), logs.as_str(), code.as_str(), reason.as_str()),
                ("cmd", "oh no", "code -2", "known-status")
            );
        }
        other => panic!("{other:?}"),
    }
    assert!(matches!(
        conclude("cmd", false, None, &stdout, &errors),
        Err(CommandError::CommandFailed { code, .. }) if code == "no exit code"
    ));
}

#[test]
fn builds_are_named_by_their_derivations() {
    assert_eq!(drv_path_to_build_name(b"/nix/store/abc-hello-1.0.drv"), "hello-1.0");
    assert_eq!(drv_path_to_build_name(b"/nix/store/nodash.drv"), "nodash");
    assert_eq!(drv_path_to_build_name(b""), "");
    assert_eq!(drv_path_to_build_name(b"\xff"), "\u{fffd}");
}

#[test]
fn build_logs_carry_the_build_name() {
    let mut names = HashMap::new();
    let start = LogMessage::Start {
        fields: Some(vec![Field::String(b"/nix/store/abc-hello.drv".to_vec())]),
        id: 7,
        level: VerbosityLevel::Info,
        parent: 0,
        text: "building hello".to_string(),
        activity: ActivityType::Build,
    };
    let line = trace_nix_log_message(start, &mut names).unwrap();
    assert_eq!(line.text, "building hello");
    assert_eq!(names.get(&7).map(|name| name.as_str()), Some("hello"));

    let log = LogMessage::Result {
        fields: vec![Field::String(b"\x1b[31mcompiling\x1b[0m".to_vec())],
        id: 7,
        result: ResultType::BuildLogLine,
    };
    let line = trace_nix_log_message(log, &mut names).unwrap();
    assert_eq!(line.build.as_deref(), Some("hello"));
    assert_eq!(line.text, "compiling");

    assert!(trace_nix_log_message(LogMessage::Stop { id: 7 }, &mut names).is_none());
    assert!(names.is_empty());
}

#[test]
fn build_logs_are_traced_where_they_are_asked_for() {
    let log = LogMessage::Result {
        fields: vec![Field::String(b"line".to_vec())],
        id: 1,
        result: ResultType::BuildLogLine,
    };
    assert!(is_traced(&log, true));
    assert!(!is_traced(&log, false));
    let other = LogMessage::Msg { level: VerbosityLevel::Info, msg: "m".to_string() };
    assert!(is_traced(&other, false));
}

#[test]
fn commands_without_a_prompt_run_non_interactively() {
    let asks = SubCommandModifiers::for_terminal(true);
    let never = SubCommandModifiers::for_terminal(false);
    assert!(CommandArguments::new("true", asks).runs_non_interactively());
    let elevated = || CommandArguments::new("true", asks).privileged(&vec!["sudo".to_string()]);
    assert!(!elevated().runs_non_interactively());
    let remote = CommandArguments::new("true", asks)
        .execute_on_remote(Some(Target::from_host("h")));
    assert!(!remote.runs_non_interactively());
    assert!(CommandArguments::new("true", never)
        .privileged(&vec!["sudo".to_string()])
        .runs_non_interactively());
    assert_eq!(
        Target::from_host("h").ping_command(asks).unwrap().command_string,
        "ssh root@h -l root -p 22 -o StrictHostKeyChecking=accept-new -o BatchMode=yes exit"
    );
}

#[test]
fn levels_follow_verbosity() {
    let levels = [
        (VerbosityLevel::Error, Level::Error),
        (VerbosityLevel::Warn, Level::Warn),
        (VerbosityLevel::Notice, Level::Warn),
        (VerbosityLevel::Info, Level::Info),
        (VerbosityLevel::Debug, Level::Debug),
        (VerbosityLevel::Talkative, Level::Trace),
        (VerbosityLevel::Chatty, Level::Trace),
        (VerbosityLevel::Vomit, Level::Trace),
    ];
    for (verbosity, level) in levels {
        let line = log_print(&verbosity, None, "m".to_string());
        assert_eq!(line.level, level);
        let notable = level == Level::Error || level == Level::Warn;
        assert_eq!(line.kept_message().is_some(), notable);
    }
}

#[test]
fn output_is_traced_by_mode() {
    match ChildOutputMode::Nix.trace_slice(b"noise @nix {\"action\":\"msg\"} @nix ") {
        SliceTrace::Message(start) => assert_eq!(start, 11),
        other => panic!("{other:?}"),
    }
    match ChildOutputMode::Nix.trace_slice(b"Warning: ssh") {
        SliceTrace::Line(line, None) => assert_eq!(line.text, "Warning: ssh"),
        other => panic!("{other:?}"),
    }
    match ChildOutputMode::Generic.trace_slice(b"\x1b[1mbold\x1b[0m") {
        SliceTrace::Line(line, Some(kept)) => {
            assert_eq!(line.text, "bold");
            assert_eq!(line.level, Level::Warn);
            assert_eq!(kept, "\x1b[1mbold\x1b[0m");
        }
        other => panic!("{other:?}"),
    }
    assert_eq!(unparsed_line(b"x").text, "x");
}
