//! What is remembered of hives and evaluations between runs.
use crate::apply::name_texts;
use crate::hive::node::Name;
use crate::json::{texts_json, write_texts};
use crate::nix_client::operations::holds_path;
use crate::store_path::{paths, SafeStorePath};
use crate::text::{join_path, path_below, same, texts};
use vstd::prelude::*;
use vstd::utf8::encode_utf8;

verus! {

/// The directory of the cache: below that which the environment names, else below the home
/// directory.
pub open spec fn cache_directory(home: Seq<char>, cache_home: Option<Seq<char>>) -> Seq<char> {
    path_below(
        match cache_home {
            Some(directory) => directory,
            None => path_below(home, ".cache"@),
        },
        "wire"@,
    )
}

/// The directory of the cache. Without a home directory there is none.
pub fn get_cache_directory(home: Option<&str>, cache_home: Option<&str>) -> (r: Option<String>)
    ensures
        match (home, r) {
            (Some(home), Some(directory)) => directory@ == cache_directory(
                home@,
                match cache_home {
                    Some(cache_home) => Some(cache_home@),
                    None => None,
                },
            ),
            (None, None) => true,
            _ => false,
        },
{
    match home {
        Some(home) => match cache_home {
            Some(cache_home) => Some(join_path(cache_home, "wire")),
            None => Some(join_path(join_path(home, ".cache").as_str(), "wire")),
        },
        None => None,
    }
}

/// The file of the cache in its directory.
pub fn cache_file(directory: &str) -> (s: String)
    ensures
        s@ == path_below(directory@, "inspect.db"@),
{
    join_path(directory, "inspect.db")
}

/// Why the file of the cache could not be brought into its current shape.
#[derive(Clone, Copy, Debug, PartialEq, Eq, Structural)]
pub enum MigrationFailure {
    /// The file knows a version that this program does not.
    VersionMissing,
    /// The file is behind what this program can start from.
    VersionTooOld,
    /// Something else went wrong.
    Other,
}

/// Whether a file that could not be brought into its current shape is thrown away and made anew: it
/// is, whatever went wrong.
pub fn should_reset(_failure: MigrationFailure) -> (r: bool)
    ensures
        r,
{
    true
}

/// Whether what is remembered of a path is worth nothing: the path was not understood, or it is no
/// longer in the store.
pub fn is_cache_invalid(path: Option<SafeStorePath>, is_in_store: bool) -> (r: bool)
    ensures
        r == (path is None || !is_in_store),
{
    match path {
        Some(_) => !is_in_store,
        None => true,
    }
}

/// What data comes to when it is compressed.
pub uninterp spec fn compressed(data: Seq<u8>, level: i32) -> Seq<u8>;

/// The data that was compressed, where it is that.
pub uninterp spec fn decompressed(blob: Seq<u8>) -> Option<Seq<u8>>;

/// `zstd::encode_all`: the data in the zstd format, from which `zstd::decode_all` gets it back. It
/// reads from memory and writes to memory, so that it succeeds; that memory can run out is left
/// aside.
#[verifier::external_body]
fn encode_all(data: &[u8], level: i32) -> (r: Option<Vec<u8>>)
    ensures
        r is Some,
        r->0@ == compressed(data@, level),
        decompressed(r->0@) == Some(data@),
{
    zstd::encode_all(data, level).ok()
}

/// `zstd::decode_all`: the data that was compressed. What is not in the zstd format is refused, and
/// the same bytes are always refused or always not; that memory can run out is left aside.
#[verifier::external_body]
fn decode_all(blob: &[u8]) -> (r: Option<Vec<u8>>)
    ensures
        match r {
            Some(data) => decompressed(blob@) == Some(data@),
            None => decompressed(blob@) is None,
        },
{
    zstd::decode_all(blob).ok()
}

/// Whether these bytes are a hive, packed.
pub open spec fn is_packed(blob: Seq<u8>, json: Seq<char>) -> bool {
    blob == compressed(encode_utf8(json), 0) && decompressed(blob) == Some(encode_utf8(json))
}

/// What is unpacked of bytes, unless what is remembered in them is worth nothing.
pub open spec fn unpacked(blob: Seq<u8>, invalid: bool) -> Option<Seq<u8>> {
    if invalid {
        None
    } else {
        decompressed(blob)
    }
}

/// Packs a hive as nix printed it.
pub fn pack_hive(json: &str) -> (r: Option<Vec<u8>>)
    ensures
        r is Some,
        is_packed(r->0@, json@),
{
    encode_all(json.as_bytes(), 0)
}

/// Unpacks a hive, unless what is remembered of it is worth nothing.
pub fn unpack_hive(blob: &[u8], invalid: bool) -> (r: Option<Vec<u8>>)
    ensures
        match r {
            Some(json) => unpacked(blob@, invalid) == Some(json@),
            None => unpacked(blob@, invalid) is None,
        },
{
    if invalid {
        return None;
    }
    decode_all(blob)
}

/// What was packed is unpacked again, as it was, and never where it is worth nothing.
pub proof fn packed_hives_are_unpacked_again(blob: Seq<u8>, json: Seq<char>)
    requires
        is_packed(blob, json),
    ensures
        unpacked(blob, false) == Some(encode_utf8(json)),
        unpacked(blob, true) is None,
{
}

/// The names of nodes as a JSON array.
pub fn nodes_json(nodes: &Vec<Name>) -> (s: String)
    ensures
        s@ == texts_json(name_texts(nodes@)),
{
    let mut list: Vec<String> = Vec::new();
    for i in 0..nodes.len()
        invariant
            texts(list@) == name_texts(nodes@).take(i as int),
    {
        let ghost before = texts(list@);
        list.push(nodes[i].0.clone());
        assert(texts(list@) =~= before.push(nodes@[i as int]@));
        assert(name_texts(nodes@).take(i + 1) =~= before.push(nodes@[i as int]@));
    }
    assert(name_texts(nodes@).take(nodes@.len() as int) =~= name_texts(nodes@));
    write_texts(&list)
}

/// An evaluation that is remembered: the name of the node, and the path it came to, where that was
/// understood.
#[derive(Debug)]
pub struct EvaluationRow {
    pub node_name: String,
    pub path: Option<SafeStorePath>,
}

/// What evaluations came to, by the names of their nodes. No name stands in it twice.
pub type Evaluations = Vec<(Name, SafeStorePath)>;

/// What a list of evaluations says.
pub open spec fn evaluation_views(list: Seq<(Name, SafeStorePath)>) -> Seq<(Seq<char>, Seq<char>)> {
    list.map_values(|entry: (Name, SafeStorePath)| (entry.0@, entry.1@))
}

/// Whether a list of evaluations says of each node what a map says of it, and once.
pub open spec fn says(list: Seq<(Seq<char>, Seq<char>)>, map: Map<Seq<char>, Seq<char>>) -> bool {
    &&& forall|i: int|
        0 <= i < list.len() ==> map.dom().contains((#[trigger] list[i]).0) && map[list[i].0]
            == list[i].1
    &&& forall|name: Seq<char>| #[trigger]
        map.dom().contains(name) ==> exists|i: int| 0 <= i < list.len() && list[i].0 == name
    &&& forall|i: int, j: int|
        0 <= i < j < list.len() ==> (#[trigger] list[i]).0 != (#[trigger] list[j]).0
}

/// What is remembered of the nodes that are asked for. Of two evaluations of a node the later
/// counts.
pub open spec fn remembered(rows: Seq<EvaluationRow>, nodes: Seq<Seq<char>>) -> Map<
    Seq<char>,
    Seq<char>,
>
    decreases rows.len(),
{
    if rows.len() == 0 {
        Map::empty()
    } else {
        let before = remembered(rows.drop_last(), nodes);
        match rows.last().path {
            Some(path) => if nodes.contains(rows.last().node_name@) {
                before.insert(rows.last().node_name@, path@)
            } else {
                before
            },
            None => before,
        }
    }
}

fn put_evaluation(
    list: &mut Evaluations,
    name: Name,
    path: SafeStorePath,
    Ghost(map): Ghost<Map<Seq<char>, Seq<char>>>,
)
    requires
        says(evaluation_views(old(list)@), map),
    ensures
        says(evaluation_views(final(list)@), map.insert(name@, path@)),
{
    let ghost before = evaluation_views(list@);
    let mut i: usize = 0;
    while i < list.len() && !same(list[i].0.0.as_str(), name.0.as_str())
        invariant
            i <= list@.len(),
            before == evaluation_views(list@),
            forall|j: int| 0 <= j < i ==> (#[trigger] before[j]).0 != name@,
        decreases list@.len() - i,
    {
        assert(before[i as int].0 == list@[i as int].0@);
        i = i + 1;
    }
    let ghost grown = map.insert(name@, path@);
    if i < list.len() {
        list[i] = (name, path);
        proof {
            let after = evaluation_views(list@);
            assert(before[i as int].0 == name@);
            assert(after =~= before.update(i as int, (name@, path@)));
            assert forall|other: Seq<char>| #[trigger] grown.dom().contains(other) implies exists|
                j: int,
            | 0 <= j < after.len() && after[j].0 == other by {
                assert(map.dom().contains(other));
                let j = choose|j: int| 0 <= j < before.len() && before[j].0 == other;
                assert(after[j].0 == other);
            }
        }
    } else {
        list.push((name, path));
        proof {
            let after = evaluation_views(list@);
            assert(after =~= before.push((name@, path@)));
            assert forall|other: Seq<char>| #[trigger] grown.dom().contains(other) implies exists|
                j: int,
            | 0 <= j < after.len() && after[j].0 == other by {
                if other == name@ {
                    assert(after[before.len() as int].0 == other);
                } else {
                    assert(map.dom().contains(other));
                    let j = choose|j: int| 0 <= j < before.len() && before[j].0 == other;
                    assert(after[j].0 == other);
                }
            }
        }
    }
}

/// Gathers what is remembered of the nodes that are asked for.
pub fn collect_evaluations(rows: &Vec<EvaluationRow>, nodes: &Vec<Name>) -> (r: Evaluations)
    ensures
        says(evaluation_views(r@), remembered(rows@, name_texts(nodes@))),
{
    let mut r: Evaluations = Vec::new();
    for i in 0..rows.len()
        invariant
            says(evaluation_views(r@), remembered(rows@.take(i as int), name_texts(nodes@))),
    {
        proof {
            assert(rows@.take(i + 1).drop_last() =~= rows@.take(i as int));
            assert(rows@.take(i + 1).last() == rows@[i as int]);
        }
        if let Some(path) = &rows[i].path {
            if crate::apply::holds_name(nodes, rows[i].node_name.as_str()) {
                put_evaluation(
                    &mut r,
                    Name(rows[i].node_name.clone()),
                    path.clone(),
                    Ghost(remembered(rows@.take(i as int), name_texts(nodes@))),
                );
            }
        }
    }
    assert(rows@.take(rows@.len() as int) =~= rows@);
    r
}

/// The evaluations whose paths are valid.
pub open spec fn still_valid(
    list: Seq<(Seq<char>, Seq<char>)>,
    valid: Seq<Seq<char>>,
) -> Seq<(Seq<char>, Seq<char>)> {
    list.filter(|entry: (Seq<char>, Seq<char>)| valid.contains(entry.1))
}

/// The evaluations whose paths are not.
pub open spec fn no_longer_valid(
    list: Seq<(Seq<char>, Seq<char>)>,
    valid: Seq<Seq<char>>,
) -> Seq<(Seq<char>, Seq<char>)> {
    list.filter(|entry: (Seq<char>, Seq<char>)| !valid.contains(entry.1))
}

/// Tells evaluations that can be used from those that have to be forgotten, given which paths the
/// store has: the first list is used, the second forgotten.
pub fn sort_evaluations(list: &Evaluations, valid: &Vec<SafeStorePath>) -> (r: (
    Evaluations,
    Evaluations,
))
    ensures
        evaluation_views(r.0@) == still_valid(evaluation_views(list@), paths(valid@)),
        evaluation_views(r.1@) == no_longer_valid(evaluation_views(list@), paths(valid@)),
{
    let mut kept: Evaluations = Vec::new();
    let mut forgotten: Evaluations = Vec::new();
    let ghost views = evaluation_views(list@);
    let ghost good = |entry: (Seq<char>, Seq<char>)| paths(valid@).contains(entry.1);
    let ghost bad = |entry: (Seq<char>, Seq<char>)| !paths(valid@).contains(entry.1);
    proof {
        reveal(Seq::filter);
        assert(evaluation_views(kept@) =~= views.take(0).filter(good));
        assert(evaluation_views(forgotten@) =~= views.take(0).filter(bad));
    }
    for i in 0..list.len()
        invariant
            views == evaluation_views(list@),
            good == |entry: (Seq<char>, Seq<char>)| paths(valid@).contains(entry.1),
            bad == |entry: (Seq<char>, Seq<char>)| !paths(valid@).contains(entry.1),
            evaluation_views(kept@) == views.take(i as int).filter(good),
            evaluation_views(forgotten@) == views.take(i as int).filter(bad),
    {
        let ghost kept_before = evaluation_views(kept@);
        let ghost forgotten_before = evaluation_views(forgotten@);
        proof {
            reveal(Seq::filter);
            assert(views.take(i + 1).drop_last() =~= views.take(i as int));
            assert(views.take(i + 1).last() == views[i as int]);
        }
        let entry = (list[i].0.clone(), list[i].1.clone());
        if holds_path(valid, &list[i].1) {
            kept.push(entry);
            assert(evaluation_views(kept@) =~= kept_before.push(views[i as int]));
        } else {
            forgotten.push(entry);
            assert(evaluation_views(forgotten@) =~= forgotten_before.push(views[i as int]));
        }
    }
    assert(views.take(views.len() as int) =~= views);
    (kept, forgotten)
}

/// No evaluation is used whose path the store lacks, and none is lost that the store has.
pub proof fn only_valid_evaluations_are_used(
    list: Seq<(Seq<char>, Seq<char>)>,
    valid: Seq<Seq<char>>,
    entry: (Seq<char>, Seq<char>),
)
    ensures
        still_valid(list, valid).contains(entry) <==> list.contains(entry) && valid.contains(
            entry.1,
        ),
        no_longer_valid(list, valid).contains(entry) <==> list.contains(entry) && !valid.contains(
            entry.1,
        ),
    decreases list.len(),
{
    reveal(Seq::filter);
    let good = |e: (Seq<char>, Seq<char>)| valid.contains(e.1);
    let bad = |e: (Seq<char>, Seq<char>)| !valid.contains(e.1);
    if list.len() > 0 {
        let front = list.drop_last();
        only_valid_evaluations_are_used(front, valid, entry);
        let last = list.last();
        assert(list =~= front.push(last));
        assert(front.push(last).contains(entry) <==> front.contains(entry) || entry == last) by {
            if front.contains(entry) {
                let k = choose|k: int| 0 <= k < front.len() && front[k] == entry;
                assert(front.push(last)[k] == entry);
            }
            assert(front.push(last)[front.len() as int] == last);
        }
        let used = front.filter(good);
        let lost = front.filter(bad);
        assert(used.push(last).contains(entry) <==> used.contains(entry) || entry == last) by {
            if used.contains(entry) {
                let k = choose|k: int| 0 <= k < used.len() && used[k] == entry;
                assert(used.push(last)[k] == entry);
            }
            assert(used.push(last)[used.len() as int] == last);
        }
        assert(lost.push(last).contains(entry) <==> lost.contains(entry) || entry == last) by {
            if lost.contains(entry) {
                let k = choose|k: int| 0 <= k < lost.len() && lost[k] == entry;
                assert(lost.push(last)[k] == entry);
            }
            assert(lost.push(last)[lost.len() as int] == last);
        }
    }
}

/// Looks up what the evaluation of a node came to.
pub fn find_evaluation(list: &Evaluations, name: &Name) -> (r: Option<SafeStorePath>)
    ensures
        match r {
            Some(path) => exists|i: int|
                0 <= i < list@.len() && (#[trigger] list@[i]).0@ == name@ && list@[i].1 == path
                    && forall|j: int| 0 <= j < i ==> (#[trigger] list@[j]).0@ != name@,
            None => forall|i: int| 0 <= i < list@.len() ==> (#[trigger] list@[i]).0@ != name@,
        },
{
    for i in 0..list.len()
        invariant
            forall|j: int| 0 <= j < i ==> (#[trigger] list@[j]).0@ != name@,
    {
        if list[i].0 == *name {
            return Some(list[i].1.clone());
        }
    }
    None
}

/// A remembered evaluation, by its flake and by what it came to, where these were understood.
#[derive(Debug)]
pub struct EvaluationPaths {
    pub flake_path: Option<SafeStorePath>,
    pub output_path: Option<SafeStorePath>,
    pub rowid: i64,
}

/// The text of a path that may be missing, as a list.
pub open spec fn path_list(path: Option<SafeStorePath>) -> Seq<Seq<char>> {
    match path {
        Some(path) => seq![path@],
        None => Seq::empty(),
    }
}

/// The paths of which it has to be known whether the store has them.
pub open spec fn paths_in(rows: Seq<EvaluationPaths>) -> Seq<Seq<char>>
    decreases rows.len(),
{
    if rows.len() == 0 {
        Seq::empty()
    } else {
        paths_in(rows.drop_last()) + path_list(rows.last().flake_path) + path_list(
            rows.last().output_path,
        )
    }
}

/// Lists the paths of which it has to be known whether the store has them.
pub fn paths_to_check(rows: &Vec<EvaluationPaths>) -> (r: Vec<SafeStorePath>)
    ensures
        paths(r@) == paths_in(rows@),
{
    let mut r: Vec<SafeStorePath> = Vec::new();
    assert(paths(r@) =~= paths_in(rows@.take(0)));
    for i in 0..rows.len()
        invariant
            paths(r@) == paths_in(rows@.take(i as int)),
    {
        let ghost before = paths(r@);
        let ghost row = rows@[i as int];
        if let Some(path) = &rows[i].flake_path {
            r.push(path.clone());
        }
        assert(paths(r@) =~= before + path_list(row.flake_path));
        let ghost between = paths(r@);
        if let Some(path) = &rows[i].output_path {
            r.push(path.clone());
        }
        assert(paths(r@) =~= between + path_list(row.output_path));
        assert(rows@.take(i + 1).drop_last() =~= rows@.take(i as int));
        assert(rows@.take(i + 1).last() == row);
    }
    assert(rows@.take(rows@.len() as int) =~= rows@);
    r
}

/// Whether an evaluation has to be forgotten: its flake or what it came to is not in the store. What
/// was not understood says nothing.
pub open spec fn is_stale(row: EvaluationPaths, valid: Seq<Seq<char>>) -> bool {
    (row.flake_path matches Some(path) && !valid.contains(path@)) || (
    row.output_path matches Some(path) && !valid.contains(path@))
}

/// Where the evaluations stand that have to be forgotten.
pub open spec fn stale_places(rows: Seq<EvaluationPaths>, valid: Seq<Seq<char>>) -> Seq<usize>
    decreases rows.len(),
{
    if rows.len() == 0 {
        Seq::empty()
    } else {
        let front = stale_places(rows.drop_last(), valid);
        if is_stale(rows.last(), valid) {
            front.push((rows.len() - 1) as usize)
        } else {
            front
        }
    }
}

/// Finds the evaluations that have to be forgotten.
pub fn find_stale(rows: &Vec<EvaluationPaths>, valid: &Vec<SafeStorePath>) -> (r: Vec<usize>)
    ensures
        r@ == stale_places(rows@, paths(valid@)),
{
    let mut r: Vec<usize> = Vec::new();
    assert(r@ =~= stale_places(rows@.take(0), paths(valid@)));
    for i in 0..rows.len()
        invariant
            r@ == stale_places(rows@.take(i as int), paths(valid@)),
    {
        proof {
            assert(rows@.take(i + 1).drop_last() =~= rows@.take(i as int));
            assert(rows@.take(i + 1).last() == rows@[i as int]);
        }
        let flake_is_gone = match &rows[i].flake_path {
            Some(path) => !holds_path(valid, path),
            None => false,
        };
        let output_is_gone = match &rows[i].output_path {
            Some(path) => !holds_path(valid, path),
            None => false,
        };
        if flake_is_gone || output_is_gone {
            r.push(i);
        }
    }
    assert(rows@.take(rows@.len() as int) =~= rows@);
    r
}

/// Forgets evaluations that are worth nothing any more, some at a time.
#[derive(Debug)]
pub struct EvaluationGc {
    /// All rows up to this one were dealt with.
    pub previous_rowid: i64,
}

impl EvaluationGc {
    /// Nothing was dealt with yet.
    pub fn new() -> (r: Self)
        ensures
            r.previous_rowid == 0,
    {
        EvaluationGc { previous_rowid: 0 }
    }

    /// Takes on the rows that follow those dealt with, and says of which paths it has to be known
    /// whether the store has them. There is nothing left to do where no row came.
    pub fn take_on(&mut self, rows: &Vec<EvaluationPaths>) -> (r: Option<Vec<SafeStorePath>>)
        ensures
            match r {
                Some(list) => rows@.len() > 0 && paths(list@) == paths_in(rows@)
                    && final(self).previous_rowid == rows@.last().rowid,
                None => rows@.len() == 0 && *final(self) == *old(self),
            },
    {
        if rows.len() == 0 {
            return None;
        }
        self.previous_rowid = rows[rows.len() - 1].rowid;
        Some(paths_to_check(rows))
    }
}

} // verus!
