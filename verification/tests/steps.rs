use wire::commands::logs::Level;
use wire::errors::{
    ActivationError, CommandError, HiveInitialisationError, HiveLibError, KeyError, NetworkError,
};
use wire::execute;
use wire::hive::node::{Name, Push, SwitchToConfigurationGoal, Target};
use wire::hive::outputs::{
    AnyNodeOutput, BuildNodeOutput, EvaluationNodeOutput, PushBuildOutput, PushDerivationOutput,
};
use wire::hive::steps::activate::{
    ping_note, regained_note, Activation, ActivationAction, ActivationEvent, ActivationState, SwitchToConfiguration,
};
use wire::hive::steps::build_node::{
    build_command, conclude_build, system_output, Build, BuildMetadata, NixCommandBuildMetadata,
};
use wire::hive::steps::cleanup::CleanUp;
use wire::hive::steps::evaluate::{evaluated_text, read_evaluation};
use wire::hive::steps::keys::{
    command_contents, create_reader, get_u32_unix_mode, mark_last, process_key, write_keys, Key,
    KeyCommandOutcome, KeyReader, Keys, PushKeyAgent, SimpleLengthDelimWriter, Source,
    UploadKeyAt, MAX_FRAME, MAX_SENT,
};
use wire::hive::steps::ping::{Ping, PingAction};
use wire::hive::steps::push::{PushOutput, PushOutputKind};
use wire::key_agent::{announce, check_key, pretty_keyspec, read_frame, KeyAgentError};
use wire::modifiers::SubCommandModifiers;
use wire::nix_client::NixDaemonClientError;
use wire::store_path::SafeStorePath;

fn path(text: &str) -> SafeStorePath {
    SafeStorePath::of_absolute_path(text.to_string())
}

fn modifiers() -> SubCommandModifiers {
    SubCommandModifiers::for_terminal(true)
}

fn activation(
    goal: SwitchToConfigurationGoal,
    reboot: bool,
    target: Option<Target>,
) -> Activation {
    Activation {
        step: SwitchToConfiguration {
            goal,
            reboot,
            privilege_escalation_command: vec!["sudo".to_string(), "--".to_string()],
        },
        target,
        built_path: path("/nix/store/system"),
        name: Name("n".to_string()),
        modifiers: modifiers(),
    }
}

fn ran(action: &ActivationAction) -> &str {
    match action {
        ActivationAction::Run(command) => command.command_string.as_str(),
        other => panic!("{other:?}"),
    }
}

#[test]
fn switches_set_the_profile_first() {
    let step = activation(SwitchToConfigurationGoal::Switch, false, None);
    let (state, action) = step.start();
    assert_eq!(
        ran(&action),
        "nix-env -p /nix/var/nix/profiles/system --set /nix/store/system"
    );
    let (state, action) = step.next(state, ActivationEvent::Ended(Ok(())));
    assert_eq!(ran(&action), "/nix/store/system/bin/switch-to-configuration switch");
    let (_, action) = step.next(state, ActivationEvent::Ended(Ok(())));
    assert!(matches!(action, ActivationAction::Finish(Ok(()))));

    let step = activation(SwitchToConfigurationGoal::Test, false, None);
    let (_, action) = step.start();
    assert_eq!(ran(&action), "/nix/store/system/bin/switch-to-configuration test");
}

#[test]
fn this_machine_is_never_restarted() {
    let step = activation(SwitchToConfigurationGoal::Boot, true, None);
    let (state, _) = step.start();
    let (state, _) = step.next(state, ActivationEvent::Ended(Ok(())));
    let (_, action) = step.next(state, ActivationEvent::Ended(Ok(())));
    assert!(matches!(action, ActivationAction::Finish(Ok(()))));
}

#[test]
fn restarted_nodes_are_pinged_until_they_answer() {
    let target = Some(Target::from_host("h"));
    let step = activation(SwitchToConfigurationGoal::DryActivate, true, target);
    let (state, _) = step.start();
    let (state, action) = step.next(state, ActivationEvent::Ended(Ok(())));
    assert_eq!(ran(&action), "reboot now");
    let (mut state, mut action) = step.next(state, ActivationEvent::Ended(Ok(())));
    for attempt in 1..10 {
        assert!(matches!(action, ActivationAction::Ping(at) if at == attempt));
        let (next, rest) = step.next(state, ActivationEvent::Pinged(false));
        assert!(matches!(rest, ActivationAction::Rest(30)));
        (state, action) = step.next(next, ActivationEvent::Rested);
    }
    assert!(matches!(action, ActivationAction::Ping(10)));
    match state {
        ActivationState::Pinging(..) => {}
        ref other => panic!("{other:?}"),
    }
    let (_, action) = step.next(state, ActivationEvent::Pinged(false));
    assert!(matches!(
        action,
        ActivationAction::Finish(Err(HiveLibError::NetworkError(
            NetworkError::HostUnreachableAfterReboot(host)
        ))) if host == "h"
    ));
}

#[test]
fn failed_activations_are_told_from_lost_nodes() {
    let step =
        activation(SwitchToConfigurationGoal::Test, false, Some(Target::from_host("h")));
    let (state, _) = step.start();
    let (state, action) =
        step.next(state, ActivationEvent::Ended(Err(CommandError::NoHandle)));
    assert!(matches!(action, ActivationAction::Ping(1)));
    let (_, action) = step.next(state, ActivationEvent::Pinged(true));
    assert!(matches!(
        action,
        ActivationAction::Finish(Err(HiveLibError::ActivationError(
            ActivationError::SwitchToConfigurationError(
                SwitchToConfigurationGoal::Test,
                _,
                CommandError::NoHandle
            )
        )))
    ));

    let dry =
        activation(SwitchToConfigurationGoal::DryActivate, false, Some(Target::from_host("h")));
    let (state, _) = dry.start();
    let (_, action) = dry.next(state, ActivationEvent::Ended(Err(CommandError::NoHandle)));
    assert!(matches!(
        action,
        ActivationAction::Finish(Err(HiveLibError::ActivationError(_)))
    ));

    let (state, _) = dry.start();
    let (_, action) = dry.next(state, ActivationEvent::NotRun(HiveLibError::Sigint));
    assert!(matches!(action, ActivationAction::Finish(Err(HiveLibError::Sigint))));
}

#[test]
fn linear_plans_activate_in_the_same_way() {
    let step = execute::activate::SwitchToConfiguration {
        goal: SwitchToConfigurationGoal::Switch,
        reboot: false,
        target: None,
        privilege_escalation_command: vec!["doas".to_string()],
    };
    let activation = step.execute(path("/nix/store/s"), Name("n".to_string()), modifiers());
    match activation.start().1 {
        ActivationAction::Run(command) => {
            assert_eq!(command.privilege_escalation_command.as_deref(), Some("doas"));
        }
        other => panic!("{other:?}"),
    }
}

#[test]
fn systems_are_built_by_their_output() {
    let drv = path("/nix/store/x.drv");
    assert_eq!(
        build_command(&drv, None, modifiers()).command_string,
        "nix --extra-experimental-features nix-command build --no-link --print-out-paths /nix/store/x.drv^out"
    );
    let logs = SubCommandModifiers { print_build_logs: true, ..modifiers() };
    assert_eq!(
        build_command(&drv, None, logs).command_string,
        "nix --extra-experimental-features nix-command build --no-link --print-out-paths --print-build-logs /nix/store/x.drv^out"
    );
    let name = Name("n".to_string());
    assert_eq!(conclude_build(Ok("/nix/store/s".to_string()), &name).unwrap(), "/nix/store/s");
    assert!(matches!(
        conclude_build(Err(CommandError::NoHandle), &name),
        Err(HiveLibError::NixBuildCliError { .. })
    ));
    let outputs = vec![("dev".to_string(), None), ("out".to_string(), Some(path("/nix/store/s")))];
    assert_eq!(system_output(outputs, &drv, &name).unwrap(), path("/nix/store/s"));
    let none = vec![("out".to_string(), None)];
    assert!(matches!(
        system_output(none, &drv, &name),
        Err(HiveLibError::NixBuildError {
            source: NixDaemonClientError::NixDaemonInvalidResponse(text),
            ..
        }) if text == "Derivation /nix/store/x.drv did not have output \"out\""
    ));
}

#[test]
fn evaluations_are_read() {
    assert_eq!(read_evaluation("\"/nix/store/x.drv\"\n").unwrap(), "/nix/store/x.drv");
    assert!(matches!(
        read_evaluation("nothing"),
        Err(HiveLibError::HiveInitialisationError(
            HiveInitialisationError::ParseEvaluateError(_)
        ))
    ));
    assert_eq!(evaluated_text(Ok("p".to_string())).unwrap(), "p");
}

#[test]
fn hosts_are_tried_in_order() {
    let mut target = Target::default();
    target.hosts = vec!["a".to_string(), "b".to_string()];
    let mut ping = Ping { target };
    assert!(matches!(ping.attempt(), PingAction::Try(host) if host == "a"));
    assert!(matches!(ping.answer(false), PingAction::Try(host) if host == "b"));
    assert!(matches!(
        ping.answer(false),
        PingAction::Finish(Err(HiveLibError::NetworkError(NetworkError::HostsExhausted)))
    ));
    let mut ping = Ping { target: Target::from_host("a") };
    assert!(matches!(ping.answer(true), PingAction::Finish(Ok(()))));
}

#[test]
fn outputs_are_pushed_by_kind() {
    let step = PushOutput { substitute_on_destination: true, kind: PushOutputKind::Build };
    assert_eq!(step.to_string(), "Push build output");
    let inputs = vec![
        AnyNodeOutput::Derivation(EvaluationNodeOutput(path("/d"))),
        AnyNodeOutput::Ping(Target::from_host("h")),
        AnyNodeOutput::Build(BuildNodeOutput(path("/b"))),
    ];
    let (chosen, target) = step.select(&inputs).unwrap();
    assert_eq!(chosen, path("/b"));
    assert_eq!(target.hosts, ["h"]);
    assert!(matches!(step.push_of(&chosen), Push::Path(_)));
    assert!(matches!(step.output_of(path("/b")), AnyNodeOutput::PushBuildOutput(_)));
    assert!(matches!(step.select(&Vec::new()), Err(HiveLibError::MissingStepOutput)));
    let step = PushOutput { substitute_on_destination: true, kind: PushOutputKind::Evaluation };
    assert!(matches!(step.push_of(&chosen), Push::Derivation(_)));
}

#[test]
fn keys_are_described() {
    let key = Key { permissions: "0640".to_string(), ..Key::default() };
    let spec = process_key(&key, &b"abc".to_vec()).unwrap();
    assert_eq!(spec.destination, "/somewhere/key");
    assert_eq!((spec.unix_mode, spec.length, spec.last), (0o640, 3, false));
    assert_eq!(
        spec.digest[..4],
        [0xba, 0x78, 0x16, 0xbf]
    );
    assert_eq!(pretty_keyspec(&spec), "/somewhere/key root:root 640");
    let bad = Key { permissions: "rw".to_string(), ..Key::default() };
    assert!(matches!(
        get_u32_unix_mode(&bad),
        Err(KeyError::ParseKeyPermissions(text)) if text == "invalid digit found in string"
    ));
    assert_eq!(key.to_string(false), "Literal /somewhere/key root:root 0640");
}

#[test]
fn key_filtering() {
    let new_key = |upload_at: UploadKeyAt| Key {
        upload_at,
        source: Source::String(match upload_at {
            UploadKeyAt::PreActivation => "pre".to_string(),
            UploadKeyAt::PostActivation => "post".to_string(),
            UploadKeyAt::NoFilter => "none".to_string(),
        }),
        ..Key::default()
    };
    let all = vec![
        new_key(UploadKeyAt::PreActivation),
        new_key(UploadKeyAt::PostActivation),
        new_key(UploadKeyAt::PreActivation),
        new_key(UploadKeyAt::PostActivation),
    ];
    let (pre, post) = wire::hive::plan::split_keys(&all);
    assert_eq!((pre.len(), post.len()), (2, 2));
    for (keys, text) in [(pre, "pre"), (post, "post")] {
        for key in &keys {
            match create_reader(key).unwrap() {
                KeyReader::Literal(bytes) => assert_eq!(String::from_utf8_lossy(&bytes), text),
                other => panic!("{other:?}"),
            }
        }
    }
}

#[test]
fn keys_are_read_from_where_they_are() {
    let file = Key { source: Source::Path("/k".to_string()), ..Key::default() };
    assert!(matches!(create_reader(&file), Ok(KeyReader::File(at)) if at == "/k"));
    let empty = Key { source: Source::Command(Vec::new()), ..Key::default() };
    assert!(matches!(create_reader(&empty), Err(KeyError::Empty)));
    let command = Key {
        source: Source::Command(vec!["pass".to_string(), "show".to_string()]),
        environment: [("A".to_string(), "1".to_string())].into_iter().collect(),
        ..Key::default()
    };
    let args = match create_reader(&command).unwrap() {
        KeyReader::Command { args, environment } => {
            assert_eq!(environment.len(), 1);
            args
        }
        other => panic!("{other:?}"),
    };
    let ended = |success, stderr: &[u8]| KeyCommandOutcome::Ended {
        success,
        status: "exit status: 1".to_string(),
        stdout: b"secret".to_vec(),
        stderr: stderr.to_vec(),
    };
    assert_eq!(command_contents(args, ended(true, b"\xff")).unwrap(), b"secret");
    assert!(matches!(
        command_contents(args, ended(false, b"denied")),
        Err(KeyError::CommandError(status, text)) if status == "exit status: 1" && text == "denied"
    ));
    assert!(matches!(
        command_contents(args, KeyCommandOutcome::NotStarted("e".to_string())),
        Err(KeyError::CommandSpawnError { command, program_length: 4, .. }) if command == "pass show"
    ));
    assert!(matches!(
        command_contents(args, KeyCommandOutcome::NotResolved("e".to_string())),
        Err(KeyError::CommandResolveError { error, .. }) if error == "e"
    ));
}

#[test]
fn the_first_bad_key_is_named() {
    let keys = Keys {
        keys: vec![
            Key { name: "good".to_string(), ..Key::default() },
            Key { name: "bad".to_string(), ..Key::default() },
        ],
        privilege_escalation_command: vec!["sudo".to_string()],
    };
    let (mut specs, contents) =
        keys.select_keys(vec![Ok(b"1".to_vec()), Ok(b"2".to_vec())]).unwrap();
    assert_eq!(contents, [b"1".to_vec(), b"2".to_vec()]);
    mark_last(&mut specs);
    assert!(!specs[0].last && specs[1].last);
    assert!(matches!(
        keys.select_keys(vec![Ok(Vec::new()), Err(KeyError::Empty)]),
        Err(HiveLibError::KeyError(name, KeyError::Empty)) if name == "bad"
    ));
    let command = keys.agent_command(&path("/nix/store/agent"), None, modifiers());
    assert_eq!(command.command_string, "/nix/store/agent/bin/wire-key-agent");
    assert!(command.keep_stdin_open && command.log_stdout);
}

#[test]
fn frames_are_read_back() {
    let key = Key::default();
    let spec = process_key(&key, &b"hello".to_vec()).unwrap();
    let mut writer = SimpleLengthDelimWriter::new();
    writer.send_base64(b"hello").unwrap();
    let bytes = writer.into_bytes();
    assert_eq!(bytes, b"\0\0\0\x08aGVsbG8=");
    assert_eq!(read_frame(&bytes[4..]).unwrap(), b"hello");
    assert_eq!(check_key(&spec, b"hello".to_vec()).unwrap(), b"hello");
    assert_eq!(announce(&spec, b"hello"), "Writing /somewhere/key root:root 600, 5 bytes of data");
    let other = process_key(&key, &b"hello!".to_vec()).unwrap();
    assert_eq!(
        check_key(&spec, read_frame(b"aGVsbG8h").unwrap()),
        Err(KeyAgentError::DigestMismatch(other.digest))
    );
    assert_eq!(read_frame(b"!"), Err(KeyAgentError::NotBase64));

    let mut writer = SimpleLengthDelimWriter::new();
    assert!(matches!(
        writer.send(vec![0; MAX_FRAME + 1]),
        Err(HiveLibError::Encoding(text)) if text == "frame size too big"
    ));
    assert!(writer.into_bytes().is_empty());
}

#[test]
fn keys_follow_their_specifications() {
    assert!(write_keys(&Vec::new(), &Vec::new()).unwrap().is_none());
    let specs = vec![b"s1".to_vec(), b"s2".to_vec()];
    let contents = vec![b"hello".to_vec(), Vec::new()];
    let mut bytes = write_keys(&specs, &contents).unwrap().unwrap();
    let mut frames = Vec::new();
    while !bytes.is_empty() {
        let length = u32::from_be_bytes([bytes[0], bytes[1], bytes[2], bytes[3]]) as usize;
        frames.push(read_frame(&bytes[4..4 + length]).unwrap());
        bytes.drain(..4 + length);
    }
    assert_eq!(frames, [&b"s1"[..], b"hello", b"s2", b""]);
    let long = vec![vec![0; MAX_SENT + 1]];
    assert!(matches!(write_keys(&vec![Vec::new()], &long), Err(HiveLibError::Encoding(_))));
}

#[test]
fn agents_are_found_by_platform() {
    let step = PushKeyAgent {
        substitute_on_destination: false,
        host_platform: "aarch64-linux".to_string(),
    };
    assert_eq!(step.variable(), "WIRE_KEY_AGENT_aarch64_linux");
    assert_eq!(step.agent_directory(Some("/a".to_string())).unwrap(), "/a");
    assert!(matches!(
        step.agent_directory(None),
        Err(HiveLibError::KeyArchitectureNotFound { arg_name })
            if arg_name == "WIRE_KEY_AGENT_aarch64_linux"
    ));
}

#[test]
fn nothing_is_cleaned_up_here() {
    assert_eq!(CleanUp.to_string(), "Clean up");
    assert!(CleanUp.should_execute(false));
    assert!(!CleanUp.should_execute(true));
    assert_ne!(Level::Error, Level::Warn);
}

#[test]
fn builds_take_what_was_evaluated() {
    let step = |metadata| Build { metadata };
    let evaluated = || AnyNodeOutput::Derivation(EvaluationNodeOutput(path("/nix/store/e.drv")));
    let pushed = || AnyNodeOutput::PushDerivation(PushDerivationOutput(path("/nix/store/p.drv")));
    let answered = || AnyNodeOutput::Ping(Target::from_host("host"));
    let locally = step(BuildMetadata::NixCommand(NixCommandBuildMetadata::Locally));
    let remotely = step(BuildMetadata::NixCommand(NixCommandBuildMetadata::Remotely));
    let daemon = step(BuildMetadata::BuildWithNixDaemon);
    assert_eq!(locally.derivation(&vec![pushed(), evaluated()]), Some(path("/nix/store/e.drv")));
    assert_eq!(locally.derivation(&vec![answered(), pushed()]), Some(path("/nix/store/p.drv")));
    assert_eq!(locally.derivation(&vec![answered()]), None);
    assert!(locally.place(&vec![answered()]).is_none());
    assert_eq!(remotely.place(&vec![answered()]).unwrap().hosts, ["host"]);
    assert_eq!(daemon.place(&vec![evaluated(), answered()]).unwrap().hosts, ["host"]);
    assert!(daemon.place(&vec![evaluated()]).is_none());
}

#[test]
fn activations_take_what_was_copied() {
    let step = activation(SwitchToConfigurationGoal::Switch, false, None).step;
    let built = || AnyNodeOutput::Build(BuildNodeOutput(path("/nix/store/b")));
    let pushed = || AnyNodeOutput::PushBuildOutput(PushBuildOutput(path("/nix/store/p")));
    assert_eq!(step.built_path(&vec![built(), pushed()]).unwrap(), path("/nix/store/p"));
    assert_eq!(step.built_path(&vec![built()]).unwrap(), path("/nix/store/b"));
    assert!(matches!(step.built_path(&Vec::new()), Err(HiveLibError::MissingStepOutput)));
}

#[test]
fn lost_nodes_are_announced() {
    assert_eq!(ping_note("host", 3), "Trying to ping host (attempt 3/10)");
    assert_eq!(
        regained_note(&Name("n".to_string()), "host"),
        "Regained connection to n via host"
    );
}
