use wire::errors::{HiveInitialisationError, HiveLibError, HiveLocationError};
use wire::hive::inventory::{read_hive, Hive};
use wire::hive::location::{
    get_hive_location, looked_for_flake, FlakePrefetch, FlakeReference, HiveLocation,
    LocationAction,
};
use wire::hive::node::{Name, Node};
use wire::hive::schema::{
    check_schema_version, schema_version_string, SchemaValue, SchemaVersion,
    DEPRECATED_SCHEMA_VERSION,
};
use wire::hive::steps::keys::{Key, Source};
use wire::modifiers::SubCommandModifiers;
use wire::store_path::SafeStorePath;

fn name(text: &str) -> Name {
    Name(text.to_string())
}

fn remote(host: &str) -> Node {
    let mut node = Node::from_host(host);
    node.build_remotely = true;
    node
}

fn hive(nodes: Vec<(Name, Node)>) -> Hive {
    Hive { nodes, schema: SchemaVersion::DeprecatedInteger(DEPRECATED_SCHEMA_VERSION) }
}

#[test]
fn test_force_always_local() {
    let mut hive = hive(vec![(name("node-a"), remote("name"))]);

    assert!(matches!(
        hive.force_always_local(vec!["non-existent".to_string()]),
        Err(HiveLibError::HiveInitialisationError(
            HiveInitialisationError::NodeDoesNotExist(node)
        )) if node == "non-existent"
    ));

    for (_, node) in &hive.nodes {
        assert!(node.build_remotely);
    }

    assert!(matches!(hive.force_always_local(vec!["node-a".to_string()]), Ok(())));

    assert!(
        !hive
            .nodes
            .iter()
            .find(|(name, _)| name.0 == "node-a")
            .unwrap()
            .1
            .build_remotely
    );
}

#[test]
fn nodes_before_an_unknown_one_are_forced() {
    let mut hive = hive(vec![(name("a"), remote("a")), (name("b"), remote("b"))]);
    let names = vec!["a".to_string(), "c".to_string(), "b".to_string()];
    assert!(hive.force_always_local(names).is_err());
    assert!(!hive.nodes[0].1.build_remotely);
    assert!(hive.nodes[1].1.build_remotely);
}

#[test]
fn flakes_come_before_files() {
    let path = "/hives/mine".to_string();
    let action = get_hive_location(path, FlakeReference::NoUrl);
    let path = match action {
        LocationAction::LookForFlake { path, file } => {
            assert_eq!(file, "/hives/mine/flake.nix");
            path
        }
        other => panic!("{other:?}"),
    };
    assert!(matches!(
        looked_for_flake(path.clone(), true),
        LocationAction::Prefetch { uri } if uri == "/hives/mine"
    ));
    assert!(matches!(
        looked_for_flake(path, false),
        LocationAction::Finish(Ok(HiveLocation::HiveNix(file))) if file == "/hives/mine/hive.nix"
    ));
}

#[test]
fn hives_are_located() {
    assert!(matches!(
        get_hive_location("/hives/hive.nix".to_string(), FlakeReference::NoUrl),
        LocationAction::Finish(Ok(HiveLocation::HiveNix(file))) if file == "/hives/hive.nix"
    ));
    assert!(matches!(
        get_hive_location("path:/x/hive.nix".to_string(), FlakeReference::Path("/x/hive.nix".to_string())),
        LocationAction::Finish(Ok(HiveLocation::HiveNix(file))) if file == "/x/hive.nix"
    ));
    assert!(matches!(
        get_hive_location("/".to_string(), FlakeReference::NoUrl),
        LocationAction::Finish(Err(HiveLibError::HiveLocationError(
            HiveLocationError::MalformedPath(path)
        ))) if path == "/"
    ));
    assert!(matches!(
        get_hive_location("github:foo/bar".to_string(), FlakeReference::Remote),
        LocationAction::Prefetch { uri } if uri == "github:foo/bar"
    ));
    assert!(matches!(
        get_hive_location("x".to_string(), FlakeReference::Malformed("bad".to_string())),
        LocationAction::Finish(Err(HiveLibError::HiveLocationError(
            HiveLocationError::Malformed(error)
        ))) if error == "bad"
    ));
    assert!(matches!(
        get_hive_location("x".to_string(), FlakeReference::Unsupported("x".to_string())),
        LocationAction::Finish(Err(HiveLibError::HiveLocationError(
            HiveLocationError::TypeUnsupported(_)
        )))
    ));
}

#[test]
fn flakes_are_prefetched() {
    let modifiers = SubCommandModifiers::for_terminal(true);
    assert_eq!(
        HiveLocation::prefetch_command("github:foo/bar", modifiers).command_string,
        "nix flake prefetch --extra-experimental-features nix-command --extra-experimental-features flakes --json github:foo/bar"
    );
    let prefetch = FlakePrefetch {
        hash: "sha256-x".to_string(),
        store_path: SafeStorePath::of_absolute_path("/nix/store/x".to_string()),
    };
    let flake = HiveLocation::get_flake("u".to_string(), Ok(prefetch)).unwrap();
    assert_eq!(flake.cache_key().unwrap().hash, "sha256-x");
    assert!(HiveLocation::HiveNix("f".to_string()).cache_key().is_none());
    assert!(matches!(
        HiveLocation::get_flake("u".to_string(), Err("no".to_string())),
        Err(HiveLibError::HiveInitialisationError(
            HiveInitialisationError::ParsePrefetchError(error)
        )) if error == "no"
    ));
}

#[test]
fn schemas_are_checked() {
    assert!(matches!(
        check_schema_version(SchemaValue::Integer(1)),
        Ok(SchemaVersion::DeprecatedInteger(1))
    ));
    assert_eq!(
        check_schema_version(SchemaValue::Integer(0)).unwrap_err(),
        "your `makeHive` function can't be read (schema verison 0, required 1). please upgrade it or downgrade this binary"
    );
    assert_eq!(
        check_schema_version(SchemaValue::OtherNumber).unwrap_err(),
        "failed to read deprecated integer schema version into an u64"
    );
    assert_eq!(
        check_schema_version(SchemaValue::Other).unwrap_err(),
        "failed to read schema version into a &str. this is likely a bug you should report"
    );
    match check_schema_version(SchemaValue::Text("1.2.3+x.1".to_string())).unwrap() {
        SchemaVersion::Semver(version) => assert_eq!(version.to_string(), "1.2.3+x.1"),
        other => panic!("{other:?}"),
    }
    for (version, shown) in [("2.0.0", "2.0.0"), ("1.0.0-rc.1", "1.0.0-rc.1"), ("0.9.9", "0.9.9")] {
        assert_eq!(
            check_schema_version(SchemaValue::Text(version.to_string())).unwrap_err(),
            format!(
                "your `makeHive`'s version ({shown}) did not match ^1.0.0. please upgrade it or downgrade this binary"
            )
        );
    }
    let error = check_schema_version(SchemaValue::Text("one".to_string())).unwrap_err();
    assert!(error.starts_with(
        "failed to parse schema semver. this is likely a bug you should report: Error("
    ));
    let required = semver::VersionReq::parse(&schema_version_string()).unwrap();
    assert_eq!(required.to_string(), schema_version_string());
}

#[test]
fn hives_are_shown() {
    let mut node = Node::from_host("h");
    node.tags = ["web", "web"].into_iter().map(String::from).collect();
    node.keys = vec![Key::default()];
    let mut other = Node::default();
    let mut key = Key::default();
    key.source = Source::Path("/key".to_string());
    other.keys = vec![Key::default(), key];
    let hive = hive(vec![(name("a"), node), (name("b"), other)]);
    let shown = hive.to_string(false);
    let first = "Node \x1b[1ma\x1b[0m \x1b[3m(x86_64-linux)\x1b[0m:\n\n \
> \x1b[1mTags:\x1b[0m {\"web\"}\n \
> \x1b[1mConnection:\x1b[0m {root@h:22}\n \
> \x1b[1mBuild remotely\x1b[0m \x1b[3m`deployment.buildOnTarget`\x1b[0m\x1b[1m:\x1b[0m false\n \
> \x1b[1mLocal apply allowed\x1b[0m \x1b[3m`deployment.allowLocalDeployment`\x1b[0m\x1b[1m:\x1b[0m true\n \
> \x1b[1mKeys:\x1b[0m 1 key(s)\n    \
> Literal /somewhere/key root:root 0600\n\n";
    assert!(shown.starts_with(first), "{shown:?}");
    assert!(shown.ends_with(
        "\x1b[1mSummary:\x1b[0m 2 total node(s), totalling 3 keys (2 distinct).\n\x1b[3mNote: Listed connections are tried from Left to Right\x1b[0m\n"
    ));
    assert_eq!(shown.matches("Tags:").count(), 1);
    let mut tagged = Node::default();
    tagged.tags = ["x", "y"].into_iter().map(String::from).collect();
    let line = self::hive(vec![(name("a"), tagged)]).to_string(false);
    assert!(line.contains("{\"x\", \"y\"}") || line.contains("{\"y\", \"x\"}"));
    let colored = hive.to_string(true);
    assert!(colored.contains("\x1b[2m\x1b[3m(x86_64-linux)\x1b[0m\x1b[0m"));
    assert!(colored.contains("\x1b[3m\x1b[2m`deployment.buildOnTarget`\x1b[0m\x1b[0m"));
    assert!(colored.contains("\x1b[2mPath\x1b[0m /somewhere/key"));
}

#[test]
fn equal_keys_are_counted_once() {
    let mut a = Key::default();
    a.environment.insert("A".into(), "1".into());
    a.environment.insert("B".into(), "2".into());
    let mut b = Key::default();
    assert!(!a.is_same(&b));
    b.environment.insert("B".into(), "2".into());
    b.environment.insert("A".into(), "1".into());
    assert!(a.is_same(&b) && a.is_same(&a.clone()));
    b.environment.insert("A".into(), "3".into());
    assert!(!a.is_same(&b));
    assert!(Key::default().environment.is_empty());
}

#[test]
fn hives_that_are_not_understood_are_errors() {
    assert!(matches!(
        read_hive(Err("eof".to_string())),
        Err(HiveLibError::HiveInitialisationError(
            HiveInitialisationError::ParseEvaluateError(error)
        )) if error == "eof"
    ));
    assert_eq!(read_hive(Ok(hive(Vec::new()))).unwrap().nodes.len(), 0);
}
