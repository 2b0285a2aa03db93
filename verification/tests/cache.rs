use wire::cache::{
    cache_file, collect_evaluations, find_evaluation, find_stale, get_cache_directory,
    is_cache_invalid, nodes_json, pack_hive, paths_to_check, should_reset, sort_evaluations,
    unpack_hive, EvaluationGc, EvaluationPaths, EvaluationRow, MigrationFailure,
};
use wire::hive::node::Name;
use wire::store_path::SafeStorePath;

fn path(text: &str) -> SafeStorePath {
    SafeStorePath::of_absolute_path(text.to_string())
}

fn name(text: &str) -> Name {
    Name(text.to_string())
}

fn row(node: &str, at: Option<&str>) -> EvaluationRow {
    EvaluationRow { node_name: node.to_string(), path: at.map(path) }
}

#[test]
fn the_cache_has_a_directory() {
    assert_eq!(get_cache_directory(Some("/home/me"), None).unwrap(), "/home/me/.cache/wire");
    assert_eq!(get_cache_directory(Some("/home/me"), Some("/c")).unwrap(), "/c/wire");
    assert!(get_cache_directory(None, Some("/c")).is_none());
    assert_eq!(cache_file("/c/wire"), "/c/wire/inspect.db");
}

#[test]
fn stale_shapes_are_made_anew() {
    assert!(should_reset(MigrationFailure::VersionMissing));
    assert!(should_reset(MigrationFailure::VersionTooOld));
    assert!(should_reset(MigrationFailure::Other));
}

#[test]
fn hives_are_unpacked_as_they_were_packed() {
    let json = "{\"nodes\": {}, \"_schema\": 1} ü".repeat(50);
    let blob = pack_hive(&json).unwrap();
    assert_ne!(blob, json.as_bytes());
    assert!(blob.len() < json.len());
    assert_eq!(unpack_hive(&blob, false).unwrap(), json.as_bytes());
    assert!(unpack_hive(&blob, true).is_none());
    assert!(unpack_hive(b"no such format", false).is_none());
}

#[test]
fn lost_paths_are_worth_nothing() {
    assert!(is_cache_invalid(None, true));
    assert!(is_cache_invalid(Some(path("/nix/store/a")), false));
    assert!(!is_cache_invalid(Some(path("/nix/store/a")), true));
}

#[test]
fn nodes_are_asked_for_in_json() {
    assert_eq!(nodes_json(&vec![name("a"), name("b\"")]), "[\"a\",\"b\\\"\"]");
}

#[test]
fn only_valid_evaluations_are_used() {
    let rows = vec![
        row("a", Some("/nix/store/old")),
        row("b", Some("/nix/store/b")),
        row("a", Some("/nix/store/a")),
        row("stranger", Some("/nix/store/s")),
        row("c", None),
    ];
    let nodes = vec![name("a"), name("b"), name("c")];
    let known = collect_evaluations(&rows, &nodes);
    assert_eq!(known.len(), 2);
    assert_eq!(find_evaluation(&known, &name("a")), Some(path("/nix/store/a")));
    assert_eq!(find_evaluation(&known, &name("c")), None);

    let (used, forgotten) = sort_evaluations(&known, &vec![path("/nix/store/b")]);
    assert_eq!(used.len(), 1);
    assert_eq!(find_evaluation(&used, &name("b")), Some(path("/nix/store/b")));
    assert_eq!(forgotten.len(), 1);
    assert_eq!(forgotten[0].1, path("/nix/store/a"));
}

#[test]
fn stale_evaluations_are_found() {
    let rows = vec![
        EvaluationPaths { flake_path: Some(path("/f")), output_path: Some(path("/o")), rowid: 3 },
        EvaluationPaths { flake_path: Some(path("/f")), output_path: Some(path("/gone")), rowid: 5 },
        EvaluationPaths { flake_path: None, output_path: None, rowid: 6 },
        EvaluationPaths { flake_path: Some(path("/gone")), output_path: None, rowid: 9 },
    ];
    let mut gc = EvaluationGc::new();
    assert_eq!(gc.previous_rowid, 0);
    let asked = gc.take_on(&rows).unwrap();
    assert_eq!(asked, [path("/f"), path("/o"), path("/f"), path("/gone"), path("/gone")]);
    assert_eq!(asked, paths_to_check(&rows));
    assert_eq!(gc.previous_rowid, 9);
    assert_eq!(find_stale(&rows, &vec![path("/f"), path("/o")]), [1, 3]);
    assert!(gc.take_on(&Vec::new()).is_none());
    assert_eq!(gc.previous_rowid, 9);
}
