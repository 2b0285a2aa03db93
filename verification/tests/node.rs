use wire::errors::{CommandError, HiveLibError, NetworkError};
use wire::hive::node::{is_this_machine, should_apply_locally, Node, Target};
use wire::modifiers::{StrictHostKeyChecking, SubCommandModifiers};

#[test]
fn test_ssh_opts() {
    let target = Target::from_host("hello-world");
    let subcommand_modifiers = SubCommandModifiers {
        non_interactive: false,
        ..Default::default()
    };

    let args = [
        "-l".to_string(),
        target.user.to_string(),
        "-p".to_string(),
        target.port.to_string(),
        "-o".to_string(),
        "StrictHostKeyChecking=accept-new".to_string(),
        "-o".to_string(),
        "BatchMode=yes".to_string(),
    ];

    assert_eq!(
        target.create_ssh_args(subcommand_modifiers, false).unwrap(),
        args
    );
    assert_eq!(
        target.create_ssh_opts(subcommand_modifiers).unwrap(),
        args.join(" ")
    );

    assert_eq!(
        target.create_ssh_args(subcommand_modifiers, false).unwrap(),
        [
            "-l".to_string(),
            target.user.to_string(),
            "-p".to_string(),
            target.port.to_string(),
            "-o".to_string(),
            "StrictHostKeyChecking=accept-new".to_string(),
            "-o".to_string(),
            "BatchMode=yes".to_string(),
        ]
    );

    assert_eq!(
        target.create_ssh_args(subcommand_modifiers, false).unwrap(),
        [
            "-l".to_string(),
            target.user.to_string(),
            "-p".to_string(),
            target.port.to_string(),
            "-o".to_string(),
            "StrictHostKeyChecking=accept-new".to_string(),
            "-o".to_string(),
            "BatchMode=yes".to_string(),
        ]
    );

    // forced non interactive is the same as --non-interactive
    assert_eq!(
        target.create_ssh_args(subcommand_modifiers, false).unwrap(),
        target
            .create_ssh_args(
                SubCommandModifiers {
                    non_interactive: true,
                    ..Default::default()
                },
                false
            )
            .unwrap()
    );
}

#[test]
fn ssh_is_quiet_or_verbose() {
    let target = Target::from_host("h");
    let modifiers = SubCommandModifiers {
        ssh_verbosity: 3,
        ssh_accept_host: StrictHostKeyChecking::No,
        ..SubCommandModifiers::for_terminal(true)
    };
    let args = target.create_ssh_args(modifiers, false).unwrap();
    assert_eq!(args.last().unwrap(), "-vvv");
    assert!(args.contains(&"StrictHostKeyChecking=no".to_string()));
    assert_eq!(target.create_ssh_args(modifiers, true).unwrap().last().unwrap(), "-q");
    let daemon = target.daemon_args(modifiers).unwrap();
    assert_eq!(daemon[daemon.len() - 2..], ["h".to_string(), "nix-daemon --stdio".to_string()]);
}

#[test]
fn target_fails_increments() {
    let mut target = Target::from_host("localhost");

    assert_eq!(target.current_host, 0);

    for i in 0..100 {
        target.host_failed();
        assert_eq!(target.current_host, i + 1);
    }
}

#[test]
fn get_preferred_host_fails() {
    let mut target = Target {
        hosts: vec![
            "un.reachable.1".into(),
            "un.reachable.2".into(),
            "un.reachable.3".into(),
            "un.reachable.4".into(),
            "un.reachable.5".into(),
        ],
        ..Default::default()
    };

    assert_ne!(
        target.get_preferred_host().unwrap().to_string(),
        "un.reachable.5"
    );

    for i in 1..=5 {
        assert_eq!(
            target.get_preferred_host().unwrap().to_string(),
            format!("un.reachable.{i}")
        );
        target.host_failed();
    }

    for _ in 0..5 {
        assert!(matches!(
            target.get_preferred_host(),
            Err(HiveLibError::NetworkError(NetworkError::HostsExhausted))
        ));
    }
}

#[test]
fn targets_show_every_host() {
    let target = Target {
        hosts: vec!["a".into(), "b".into()],
        user: "root".into(),
        port: 2222,
        current_host: 0,
    };
    assert_eq!(target.to_string(), "root@a:2222, root@b:2222");
}

#[test]
fn pings_that_fail_name_the_host() {
    let target = Target::from_host("far-away");
    assert!(target.conclude_ping(Ok(())).is_ok());
    let error = target.conclude_ping(Err(CommandError::NoHandle)).unwrap_err();
    assert!(matches!(
        error,
        HiveLibError::NetworkError(NetworkError::HostUnreachable { host, .. }) if host == "far-away"
    ));
}

#[test]
fn this_machine_is_known_by_its_name() {
    assert!(is_this_machine(true, "here", Some("here".to_string())));
    assert!(!is_this_machine(false, "here", Some("here".to_string())));
    assert!(!is_this_machine(true, "here", Some("there".to_string())));
    assert!(!is_this_machine(true, "here", None));

    let host = gethostname::gethostname().into_string().unwrap();
    assert!(should_apply_locally(true, &host));
    assert!(!should_apply_locally(false, &host));
    assert!(!should_apply_locally(true, &format!("{host}-not")));
}

#[test]
fn nodes_start_plain() {
    let node = Node::from_host("name");
    assert_eq!(node.target.hosts, ["name"]);
    assert_eq!((node.target.user.as_str(), node.target.port), ("root", 22));
    assert_eq!(node.host_platform, "x86_64-linux");
    assert_eq!(node.privilege_escalation_command, ["sudo", "--"]);
    assert!(node.allow_local_deployment && !node.build_remotely);
}
