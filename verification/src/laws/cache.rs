//! What is remembered between runs.
use crate::cache::{
    cache_directory, compressed, decompressed, is_packed, paths_in, remembered, says, stale_places,
    unpacked, EvaluationPaths, EvaluationRow,
};
use crate::laws::text::paths_lie_below_directories;
use vstd::prelude::*;
use vstd::utf8::encode_utf8;

verus! {

/// The cache is in the directory `wire` of that for caches, and that is `.cache` in the home
/// directory unless it is said to be elsewhere.
pub proof fn caches_are_in_their_directory(home: Seq<char>, cache_home: Seq<char>)
    requires
        home.len() > 0,
        home.last() != '/',
        cache_home.len() > 0,
        cache_home.last() != '/',
    ensures
        cache_directory(home, None) == home + "/.cache/wire"@,
        cache_directory(home, Some(cache_home)) == cache_home + "/wire"@,
{
    reveal_strlit(".cache");
    reveal_strlit("wire");
    reveal_strlit("/.cache/wire");
    reveal_strlit("/wire");
    paths_lie_below_directories(home, ".cache"@);
    paths_lie_below_directories(home.push('/') + ".cache"@, "wire"@);
    paths_lie_below_directories(cache_home, "wire"@);
    assert((home.push('/') + ".cache"@).push('/') + "wire"@ =~= home + "/.cache/wire"@);
    assert(cache_home.push('/') + "wire"@ =~= cache_home + "/wire"@);
}

/// A hive is packed at the usual level of compression, and what was packed is unpacked only while
/// it is worth something.
pub proof fn hives_are_packed_whole(blob: Seq<u8>, json: Seq<char>)
    ensures
        is_packed(blob, json) ==> blob == compressed(encode_utf8(json), 0) && unpacked(
            blob,
            false,
        ) == Some(encode_utf8(json)),
        unpacked(blob, false) == decompressed(blob),
        unpacked(blob, true) is None,
{
}

/// An evaluation is remembered if its node is asked for and its path was understood. Of two
/// evaluations of a node the later counts, and other nodes are not touched by it.
pub proof fn later_evaluations_count(
    rows: Seq<EvaluationRow>,
    next: EvaluationRow,
    nodes: Seq<Seq<char>>,
    other: Seq<char>,
)
    ensures
        remembered(Seq::empty(), nodes).dom().is_empty(),
        ({
            let before = remembered(rows, nodes);
            let after = remembered(rows.push(next), nodes);
            &&& next.path is Some && nodes.contains(next.node_name@) ==> after.contains_key(
                next.node_name@,
            ) && after[next.node_name@] == next.path->0@
            &&& next.path is None || !nodes.contains(next.node_name@) ==> after == before
            &&& other != next.node_name@ ==> after.contains_key(other) == before.contains_key(
                other,
            )
            &&& other != next.node_name@ && before.contains_key(other) ==> after[other]
                == before[other]
        }),
{
    assert(rows.push(next).drop_last() =~= rows);
}

/// Of nodes that are not asked for nothing is remembered.
pub proof fn only_nodes_that_are_asked_for_are_remembered(
    rows: Seq<EvaluationRow>,
    nodes: Seq<Seq<char>>,
    name: Seq<char>,
)
    ensures
        remembered(rows, nodes).contains_key(name) <==> nodes.contains(name) && exists|i: int|
            0 <= i < rows.len() && (#[trigger] rows[i]).node_name@ == name && rows[i].path
                is Some,
    decreases rows.len(),
{
    if rows.len() > 0 {
        let front = rows.drop_last();
        only_nodes_that_are_asked_for_are_remembered(front, nodes, name);
        if remembered(rows, nodes).contains_key(name) {
            if remembered(front, nodes).contains_key(name) {
                let i = choose|i: int|
                    0 <= i < front.len() && (#[trigger] front[i]).node_name@ == name
                        && front[i].path is Some;
                assert(rows[i] == front[i]);
            } else {
                assert(rows[rows.len() - 1] == rows.last());
            }
        }
        if nodes.contains(name) && exists|i: int|
            0 <= i < rows.len() && (#[trigger] rows[i]).node_name@ == name && rows[i].path
                is Some {
            let i = choose|i: int|
                0 <= i < rows.len() && (#[trigger] rows[i]).node_name@ == name && rows[i].path
                    is Some;
            if i < front.len() {
                assert(front[i] == rows[i]);
            }
        }
    }
}

/// A list says of a node what is remembered of it, and nothing of a node of which nothing is.
pub proof fn lists_say_what_is_remembered(
    list: Seq<(Seq<char>, Seq<char>)>,
    map: Map<Seq<char>, Seq<char>>,
    name: Seq<char>,
    path: Seq<char>,
)
    requires
        says(list, map),
    ensures
        list.contains((name, path)) <==> map.contains_key(name) && map[name] == path,
        list.no_duplicates(),
{
    if list.contains((name, path)) {
        let i = choose|i: int| 0 <= i < list.len() && list[i] == (name, path);
        assert(map.dom().contains(list[i].0));
    }
    if map.contains_key(name) && map[name] == path {
        assert(map.dom().contains(name));
        let i = choose|i: int| 0 <= i < list.len() && list[i].0 == name;
        assert(list[i] == (name, path));
    }
    assert forall|i: int, j: int| 0 <= i < j < list.len() implies list[i] != list[j] by {
        assert(list[i].0 != list[j].0);
    }
}

/// The store is asked about the flake and the output of each evaluation, where they were
/// understood, in order.
pub proof fn flakes_and_outputs_are_asked_about(rows: Seq<EvaluationPaths>, next: EvaluationPaths)
    ensures
        paths_in(Seq::empty()).len() == 0,
        next.flake_path is Some && next.output_path is Some ==> paths_in(rows.push(next))
            == paths_in(rows).push(next.flake_path->0@).push(next.output_path->0@),
        next.flake_path is Some && next.output_path is None ==> paths_in(rows.push(next))
            == paths_in(rows).push(next.flake_path->0@),
        next.flake_path is None && next.output_path is Some ==> paths_in(rows.push(next))
            == paths_in(rows).push(next.output_path->0@),
        next.flake_path is None && next.output_path is None ==> paths_in(rows.push(next))
            == paths_in(rows),
{
    assert(rows.push(next).drop_last() =~= rows);
}

/// An evaluation has to be forgotten if and only if the store lacks its flake or its output.
pub proof fn evaluations_without_their_paths_are_forgotten(
    rows: Seq<EvaluationPaths>,
    valid: Seq<Seq<char>>,
    at: usize,
)
    requires
        rows.len() <= usize::MAX,
    ensures
        stale_places(rows, valid).contains(at) <==> at < rows.len() && ((
        rows[at as int].flake_path is Some && !valid.contains(rows[at as int].flake_path->0@))
            || (rows[at as int].output_path is Some && !valid.contains(
            rows[at as int].output_path->0@,
        ))),
        forall|i: int, j: int|
            0 <= i < j < stale_places(rows, valid).len() ==> (#[trigger] stale_places(
                rows,
                valid,
            )[i]) < (#[trigger] stale_places(rows, valid)[j]),
    decreases rows.len(),
{
    if rows.len() > 0 {
        let front = rows.drop_last();
        let before = stale_places(front, valid);
        let after = stale_places(rows, valid);
        evaluations_without_their_paths_are_forgotten(front, valid, at);
        let last = (rows.len() - 1) as usize;
        assert forall|i: int| 0 <= i < before.len() implies #[trigger] before[i] < last by {
            evaluations_without_their_paths_are_forgotten(front, valid, before[i]);
            assert(before.contains(before[i]));
        }
        if after.len() > before.len() {
            assert(after == before.push(last));
            assert(after[before.len() as int] == last);
            if before.contains(at) {
                let i = choose|i: int| 0 <= i < before.len() && before[i] == at;
                assert(after[i] == at);
            }
            if after.contains(at) && at != last {
                let i = choose|i: int| 0 <= i < after.len() && after[i] == at;
                assert(before[i] == at);
            }
        }
        if at < front.len() {
            assert(front[at as int] == rows[at as int]);
        }
    }
}

} // verus!
