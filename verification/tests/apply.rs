use wire::apply::{
    conclude, find_nodes, partition_note, partition_slice, read_apply_targets_from_stdin,
    resolve_targets, select_nodes,
};
use wire::cli::{ApplyTarget, CommonVerbArgs, Partitions};
use wire::errors::HiveLibError;
use wire::hive::node::{Name, Node};
use wire::modifiers::SubCommandModifiers;
use wire::text::trim;

fn name(text: &str) -> Name {
    Name(text.to_string())
}

fn tagged(tags: &[&str]) -> Node {
    let mut node = Node::default();
    node.tags = tags.iter().map(|tag| tag.to_string()).collect();
    node
}

fn hive() -> Vec<(Name, Node)> {
    vec![
        (name("web-2"), tagged(&["web"])),
        (name("db"), tagged(&["db", "stateful"])),
        (name("web-1"), tagged(&["web"])),
    ]
}

fn texts(names: &[Name]) -> Vec<&str> {
    names.iter().map(|name| name.0.as_str()).collect()
}

fn on(targets: &[&str]) -> CommonVerbArgs {
    CommonVerbArgs {
        on: targets.iter().map(|text| ApplyTarget::from(text.to_string())).collect(),
        parallel: 10,
        print_build_logs: false,
    }
}

#[test]
fn test_partitioning() {
    let arr = (1..=10).collect::<Vec<_>>();
    assert_eq!(arr, partition_slice(&arr.clone(), &Partitions::default()));

    assert_eq!(
        vec![1, 2, 3, 4, 5],
        partition_slice(
            &arr,
            &Partitions {
                current: 1,
                maximum: 2
            }
        )
    );
    assert_eq!(
        vec![6, 7, 8, 9, 10],
        partition_slice(
            &arr,
            &Partitions {
                current: 2,
                maximum: 2
            }
        )
    );

    // an odd number
    let arr = (1..10).collect::<Vec<_>>();
    assert_eq!(arr, partition_slice(&arr.clone(), &Partitions::default()));

    assert_eq!(
        vec![1, 2, 3, 4, 5],
        partition_slice(
            &arr,
            &Partitions {
                current: 1,
                maximum: 2
            }
        )
    );
    assert_eq!(
        vec![6, 7, 8, 9],
        partition_slice(
            &arr,
            &Partitions {
                current: 2,
                maximum: 2
            }
        )
    );

    // a large number of partitions
    let arr = (1..=10).collect::<Vec<_>>();
    assert_eq!(arr, partition_slice(&arr.clone(), &Partitions::default()));

    for i in 1..=10 {
        assert_eq!(
            vec![i],
            partition_slice(
                &arr,
                &Partitions {
                    current: i,
                    maximum: 10
                }
            )
        );

        assert_eq!(
            vec![i],
            partition_slice(
                &arr.clone(),
                &Partitions {
                    current: i,
                    maximum: 15
                }
            )
        );
    }

    // stretching thin with higher partitions will start to leave higher ones empty
    assert_eq!(
        Vec::<usize>::new(),
        partition_slice(
            &arr,
            &Partitions {
                current: 11,
                maximum: 15
            }
        )
    );

    // the above holds for a lot of numbers
    for i in 1..1000 {
        let arr: Vec<usize> = (0..i).collect();
        let total = arr.len();

        assert_eq!(
            arr.clone(),
            partition_slice(&arr.clone(), &Partitions::default()),
        );

        let buckets = 2;
        let chunk_size = total.div_ceil(buckets);
        let split_index = std::cmp::min(chunk_size, total);

        assert_eq!(
            &arr.clone()[..split_index],
            partition_slice(
                &arr.clone(),
                &Partitions {
                    current: 1,
                    maximum: 2
                }
            ),
        );
        assert_eq!(
            &arr.clone()[split_index..],
            partition_slice(
                &arr.clone(),
                &Partitions {
                    current: 2,
                    maximum: 2
                }
            ),
        );
    }
}

#[test]
fn parts_make_up_the_list() {
    for len in 0..40usize {
        let list: Vec<usize> = (0..len).collect();
        for maximum in 1..12 {
            let mut all = Vec::new();
            for current in 1..=maximum {
                all.extend_from_slice(partition_slice(&list, &Partitions { current, maximum }));
            }
            assert_eq!(all, list);
        }
    }
}

#[test]
fn far_parts_are_empty() {
    let list = [1, 2, 3, 4, 5];
    let far = Partitions { current: usize::MAX, maximum: 2 };
    assert!(partition_slice(&list, &far).is_empty());
    assert_eq!(partition_slice(&list, &Partitions { current: 0, maximum: 2 }), [1, 2, 3]);
    assert!(partition_slice::<u8>(&[], &Partitions { current: 0, maximum: 0 }).is_empty());
}

#[test]
fn targets_are_read_from_text() {
    let (tags, names) = read_apply_targets_from_stdin(" a @web\n\tb - @db  \u{2003}c ");
    assert_eq!(tags, ["web", "db"]);
    assert_eq!(texts(&names), ["a", "b", "c"]);
}

#[test]
fn targets_are_resolved_once() {
    let mut modifiers = SubCommandModifiers::for_terminal(true);
    let args = on(&["a", "@web", "a", "-", "@web"]);
    let inputs = vec!["b a @db".to_string()];
    let (tags, names) = resolve_targets(&args.on, &inputs, &mut modifiers);
    assert_eq!(tags, ["web", "db"]);
    assert_eq!(texts(&names), ["a", "b"]);
    assert!(modifiers.non_interactive);
}

#[test]
fn without_stdin_there_may_be_somebody_to_ask() {
    let mut modifiers = SubCommandModifiers::for_terminal(true);
    let args = on(&["a"]);
    resolve_targets(&args.on, &Vec::new(), &mut modifiers);
    assert!(!modifiers.non_interactive);
}

#[test]
fn nodes_are_selected_by_name_and_tag() {
    let whole = Partitions::default();
    let mut modifiers = SubCommandModifiers::for_terminal(true);

    let all = select_nodes(&hive(), &on(&[]), &Vec::new(), &whole, &mut modifiers);
    assert_eq!(texts(&all.selected), ["db", "web-1", "web-2"]);
    assert_eq!(texts(&all.names), ["db", "web-1", "web-2"]);
    assert_eq!(all.places, [0, 1, 2]);

    let web = select_nodes(&hive(), &on(&["@web"]), &Vec::new(), &whole, &mut modifiers);
    assert_eq!(texts(&web.selected), ["web-1", "web-2"]);
    assert_eq!(web.places, [0, 2]);

    let both = select_nodes(
        &hive(),
        &on(&["-", "web-1"]),
        &vec!["@stateful".to_string()],
        &whole,
        &mut modifiers,
    );
    assert_eq!(texts(&both.selected), ["db", "web-1"]);

    let none = select_nodes(&hive(), &on(&["nobody"]), &Vec::new(), &whole, &mut modifiers);
    assert!(none.selected.is_empty() && none.places.is_empty());

    let nowhere = Partitions { current: 0, maximum: 0 };
    let none = select_nodes(&hive(), &on(&["nobody"]), &Vec::new(), &nowhere, &mut modifiers);
    assert!(none.selected.is_empty() && none.names.is_empty());
    let none = select_nodes(&Vec::new(), &on(&[]), &Vec::new(), &nowhere, &mut modifiers);
    assert!(none.selected.is_empty() && none.names.is_empty());
}

#[test]
fn white_space_is_what_unicode_says() {
    let found: Vec<u32> = (0..=0x10ffff)
        .filter(|code| char::from_u32(*code).is_some_and(|c| trim(&c.to_string()).is_empty()))
        .collect();
    let mut expected: Vec<u32> = (0x9..=0xd).collect();
    expected.extend([0x20, 0x85, 0xa0, 0x1680]);
    expected.extend(0x2000..=0x200a);
    expected.extend([0x2028, 0x2029, 0x202f, 0x205f, 0x3000]);
    assert_eq!(found, expected);
}

#[test]
fn a_part_of_the_selection_is_worked_on() {
    let mut modifiers = SubCommandModifiers::for_terminal(true);
    let second = Partitions { current: 2, maximum: 2 };
    let part = select_nodes(&hive(), &on(&[]), &Vec::new(), &second, &mut modifiers);
    assert_eq!(texts(&part.selected), ["db", "web-1", "web-2"]);
    assert_eq!(texts(&part.names), ["web-2"]);
    assert_eq!(part.places, [0]);
    assert_eq!(
        partition_note(part.selected.len(), part.names.len()).unwrap(),
        "Partitioning reduced selected number of nodes from 3 to 1"
    );
    assert!(partition_note(3, 3).is_none());
}

#[test]
fn nodes_are_found_by_name() {
    assert_eq!(find_nodes(&hive(), &[name("web-1"), name("nobody")]), [2]);
}

#[test]
fn results_are_told_apart() {
    let outcome = conclude(vec![
        (name("a"), Ok(())),
        (name("b"), Err(HiveLibError::Sigint)),
        (name("c\"d"), Ok(())),
    ]);
    assert_eq!(texts(&outcome.successful), ["a", "c\"d"]);
    assert_eq!(outcome.errors.len(), 1);
    assert_eq!(outcome.errors[0].to_string(), "node b failed to apply");
    assert!(matches!(outcome.errors[0].1, HiveLibError::Sigint));
    assert_eq!(
        outcome.success_text().unwrap(),
        "Successfully applied goal to 2 node(s): [\"a\", \"c\\\"d\"]"
    );
    assert_eq!(outcome.error_text().unwrap(), "1 node(s) failed to apply.");

    let nothing = conclude(Vec::new());
    assert!(nothing.success_text().is_none() && nothing.error_text().is_none());
}
