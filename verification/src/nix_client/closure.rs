//! Everything that a store path needs.
use crate::nix_client::order::{
    after_visit, after_visits, descends, edges_of, is_walk, post_order, reached_from, reaches,
    targets, targets_come_first, without_cycles, Tour,
};
use crate::nix_client::NixDaemonClientError;
use crate::store_path::{paths, SafeStorePath};
use vstd::prelude::*;

verus! {

/// What was found out of the store: paths and their references.
pub type Found = Seq<(Seq<char>, Seq<Seq<char>>)>;

/// Whether the references of a path were found out.
pub open spec fn is_known(found: Found, path: Seq<char>) -> bool {
    exists|i: int| 0 <= i < found.len() && (#[trigger] found[i]).0 == path
}

/// Whether a path refers to another.
pub open spec fn refers(found: Found, from: Seq<char>, to: Seq<char>) -> bool {
    exists|i: int|
        0 <= i < found.len() && (#[trigger] found[i]).0 == from && found[i].1.contains(to)
}

/// The references of a path, in order. Of a path that was not found out there are none.
pub open spec fn references_of(found: Found, path: Seq<char>) -> Seq<Seq<char>> {
    if is_known(found, path) {
        found[choose|i: int| 0 <= i < found.len() && (#[trigger] found[i]).0 == path].1
    } else {
        Seq::empty()
    }
}

/// What a path needs, in the order in which it can be copied: the references of a path in their
/// order, each after what it needs itself, and then the path.
pub open spec fn closure_order(found: Found, root: Seq<char>) -> Seq<Seq<char>> {
    post_order(|path: Seq<char>| references_of(found, path), root, found.len())
}

/// Whether each path of a chain refers to the next.
pub open spec fn is_chain(found: Found, chain: Seq<Seq<char>>) -> bool {
    chain.len() > 0 && forall|k: int|
        0 <= k < chain.len() - 1 ==> refers(found, #[trigger] chain[k], chain[k + 1])
}

/// Whether a path needs another: a chain of references leads there. Every path needs itself.
pub open spec fn needs(found: Found, from: Seq<char>, to: Seq<char>) -> bool {
    exists|chain: Seq<Seq<char>>| #[trigger]
        is_chain(found, chain) && chain[0] == from && chain.last() == to
}

/// Whether no path is found out twice.
pub open spec fn found_once(found: Found) -> bool {
    forall|i: int, j: int|
        0 <= i < j < found.len() ==> (#[trigger] found[i]).0 != (#[trigger] found[j]).0
}

/// Whether every edge of references to another path leads to a lower rank.
pub open spec fn references_descend(found: Found, rank: spec_fn(Seq<char>) -> int) -> bool {
    forall|from: Seq<char>, to: Seq<char>| #[trigger]
        refers(found, from, to) && from != to ==> rank(to) < rank(from)
}

/// Whether no chain through other paths leads back to where it started.
pub open spec fn references_are_acyclic(found: Found) -> bool {
    exists|rank: spec_fn(Seq<char>) -> int| #[trigger] references_descend(found, rank)
}

/// Whether whatever a listed path refers to is listed before it. A path may refer to itself.
pub open spec fn references_come_first(found: Found, list: Seq<Seq<char>>) -> bool {
    forall|p: int, to: Seq<char>|
        0 <= p < list.len() && #[trigger] refers(found, list[p], to) && to != list[p]
            ==> list.take(p).contains(to)
}

/// Finds out what a path needs, by asking for the references of one path after the other.
#[derive(Debug)]
pub struct ClosureCollector {
    root: SafeStorePath,
    graph: Vec<(SafeStorePath, Vec<SafeStorePath>)>,
    queue: Vec<SafeStorePath>,
    asked: Option<SafeStorePath>,
}

/// What the collector holds: the path it starts from, what it has found out, what it still has to
/// ask about, and what it has just asked about.
#[verifier::ext_equal]
pub ghost struct CollectorView {
    pub root: Seq<char>,
    pub found: Found,
    pub queue: Seq<Seq<char>>,
    pub asked: Option<Seq<char>>,
}

/// The texts of what was found out.
pub open spec fn found_of(graph: Seq<(SafeStorePath, Vec<SafeStorePath>)>) -> Found {
    graph.map_values(|entry: (SafeStorePath, Vec<SafeStorePath>)| (entry.0@, paths(entry.1@)))
}

impl View for ClosureCollector {
    type V = CollectorView;

    closed spec fn view(&self) -> CollectorView {
        CollectorView {
            root: self.root@,
            found: found_of(self.graph@),
            queue: paths(self.queue@),
            asked: match self.asked {
                Some(path) => Some(path@),
                None => None,
            },
        }
    }
}

/// What is left of a queue when what was found out is taken off its end.
pub open spec fn still_unknown(queue: Seq<Seq<char>>, found: Found) -> Seq<Seq<char>>
    decreases queue.len(),
{
    if queue.len() > 0 && is_known(found, queue.last()) {
        still_unknown(queue.drop_last(), found)
    } else {
        queue
    }
}

impl CollectorView {
    /// Whether a path was found out, or will be.
    pub open spec fn is_accounted_for(self, path: Seq<char>) -> bool {
        is_known(self.found, path) || self.queue.contains(path) || self.asked == Some(path)
    }

    /// The collector looks at what the root needs, and at all of it.
    pub open spec fn is_on_track(self) -> bool {
        &&& found_once(self.found)
        &&& self.is_accounted_for(self.root)
        &&& forall|path: Seq<char>| #[trigger]
            self.is_accounted_for(path) ==> needs(self.found, self.root, path)
        &&& forall|from: Seq<char>, to: Seq<char>| #[trigger]
            refers(self.found, from, to) ==> self.is_accounted_for(to)
        &&& self.asked matches Some(path) ==> !is_known(self.found, path)
    }
}

proof fn lemma_found_more(before: Found, after: Found, from: Seq<char>, to: Seq<char>)
    requires
        before.is_prefix_of(after),
        needs(before, from, to),
    ensures
        needs(after, from, to),
{
    let chain = choose|chain: Seq<Seq<char>>| #[trigger]
        is_chain(before, chain) && chain[0] == from && chain.last() == to;
    assert forall|k: int| 0 <= k < chain.len() - 1 implies refers(
        after,
        #[trigger] chain[k],
        chain[k + 1],
    ) by {
        assert(refers(before, chain[k], chain[k + 1]));
        let i = choose|i: int|
            0 <= i < before.len() && (#[trigger] before[i]).0 == chain[k] && before[i].1.contains(
                chain[k + 1],
            );
        assert(after[i] == before[i]);
    }
    assert(is_chain(after, chain));
}

proof fn lemma_needs_further(found: Found, from: Seq<char>, middle: Seq<char>, to: Seq<char>)
    requires
        needs(found, from, middle),
        refers(found, middle, to),
    ensures
        needs(found, from, to),
{
    let chain = choose|chain: Seq<Seq<char>>| #[trigger]
        is_chain(found, chain) && chain[0] == from && chain.last() == middle;
    let longer = chain.push(to);
    assert forall|k: int| 0 <= k < longer.len() - 1 implies refers(
        found,
        #[trigger] longer[k],
        longer[k + 1],
    ) by {
        if k < chain.len() - 1 {
            assert(longer[k] == chain[k]);
        }
    }
    assert(is_chain(found, longer));
    assert(longer[0] == from && longer.last() == to);
}

/// What is said of a path that is not in the store.
pub open spec fn missing_text(path: Seq<char>) -> Seq<char> {
    path + " does not exist in store"@
}

impl ClosureCollector {
    /// The collector is on track.
    pub open spec fn wf(&self) -> bool {
        self@.is_on_track()
    }

    /// Starts from a path.
    pub fn new(root_path: &SafeStorePath) -> (r: Self)
        ensures
            r.wf(),
            r@ == (CollectorView {
                root: root_path@,
                found: Seq::empty(),
                queue: seq![root_path@],
                asked: None,
            }),
    {
        let mut queue: Vec<SafeStorePath> = Vec::new();
        queue.push(root_path.clone());
        let r = ClosureCollector {
            root: root_path.clone(),
            graph: Vec::new(),
            queue,
            asked: None,
        };
        proof {
            let root = root_path@;
            assert(r@ =~= (CollectorView {
                root,
                found: Seq::empty(),
                queue: seq![root],
                asked: None,
            }));
            assert(r@.queue.contains(root)) by {
                assert(r@.queue[0] == root);
            }
            let chain = seq![root];
            assert(is_chain(r@.found, chain) && chain[0] == root && chain.last() == root);
            assert forall|path: Seq<char>| #[trigger] r@.is_accounted_for(path) implies needs(
                r@.found,
                root,
                path,
            ) by {
                assert(path == root);
            }
        }
        r
    }

    /// The index of a path that was found out, or the number of those.
    fn find(&self, path: &SafeStorePath) -> (r: usize)
        ensures
            r <= self.graph@.len(),
            r < self.graph@.len() <==> is_known(self@.found, path@),
            r < self.graph@.len() ==> self.graph@[r as int].0@ == path@,
    {
        let mut i: usize = 0;
        while i < self.graph.len() && self.graph[i].0 != *path
            invariant
                i <= self.graph@.len(),
                forall|k: int| 0 <= k < i ==> (#[trigger] self.graph@[k]).0@ != path@,
            decreases self.graph@.len() - i,
        {
            i = i + 1;
        }
        proof {
            if i < self.graph@.len() {
                assert(self@.found[i as int].0 == path@);
            } else {
                assert forall|k: int| 0 <= k < self@.found.len() implies (
                #[trigger] self@.found[k]).0 != path@ by {
                    assert(self.graph@[k].0@ != path@);
                }
            }
        }
        i
    }

    /// The next path to ask about, or none where everything was found out. What was queued last is
    /// asked about first.
    pub fn next(&mut self) -> (r: Option<SafeStorePath>)
        requires
            old(self).wf(),
            old(self)@.asked is None,
        ensures
            final(self).wf(),
            final(self)@.root == old(self)@.root,
            final(self)@.found == old(self)@.found,
            ({
                let left = still_unknown(old(self)@.queue, old(self)@.found);
                match r {
                    Some(path) => left.len() > 0 && path@ == left.last() && final(self)@.asked
                        == Some(path@) && final(self)@.queue == left.drop_last() && !is_known(
                        old(self)@.found,
                        path@,
                    ),
                    None => left.len() == 0 && final(self)@.asked is None
                        && final(self)@.queue.len() == 0,
                }
            }),
    {
        while self.queue.len() > 0
            invariant
                self.wf(),
                self@.asked is None,
                self@.root == old(self)@.root,
                self@.found == old(self)@.found,
                still_unknown(self@.queue, self@.found) == still_unknown(
                    old(self)@.queue,
                    old(self)@.found,
                ),
            decreases self.queue@.len(),
        {
            let ghost before = self@;
            let ghost queue = self.queue@;
            let popped = self.queue.pop();
            if let Some(path) = popped {
                proof {
                    assert(paths(queue) =~= paths(self.queue@).push(path@));
                    assert(before.queue.last() == path@);
                    assert(before.queue.drop_last() =~= paths(self.queue@));
                    assert(before.queue.contains(path@)) by {
                        assert(before.queue[before.queue.len() - 1] == path@);
                    }
                    assert(before.is_accounted_for(path@));
                    assert forall|other: Seq<char>|
                        before.queue.contains(other) && other != path@ implies paths(
                        self.queue@,
                    ).contains(other) by {
                        let i = before.queue.index_of(other);
                        assert(before.queue[i] == other);
                        assert(paths(self.queue@)[i] == other);
                    }
                    assert forall|other: Seq<char>| paths(self.queue@).contains(
                        other,
                    ) implies before.queue.contains(other) by {
                        let i = paths(self.queue@).index_of(other);
                        assert(before.queue[i] == other);
                    }
                }
                let at: usize = self.find(&path);
                if at < self.graph.len() {
                    proof {
                        assert forall|other: Seq<char>| #[trigger]
                            self@.is_accounted_for(other) implies needs(
                            self@.found,
                            self@.root,
                            other,
                        ) by {
                            assert(before.is_accounted_for(other));
                        }
                        assert forall|from: Seq<char>, to: Seq<char>| #[trigger]
                            refers(self@.found, from, to) implies self@.is_accounted_for(to) by {
                            assert(before.is_accounted_for(to));
                        }
                        assert(before.is_accounted_for(self@.root));
                    }
                } else {
                    self.asked = Some(path.clone());
                    proof {
                        assert forall|other: Seq<char>| #[trigger]
                            self@.is_accounted_for(other) implies needs(
                            self@.found,
                            self@.root,
                            other,
                        ) by {
                            assert(before.is_accounted_for(other));
                        }
                        assert forall|from: Seq<char>, to: Seq<char>| #[trigger]
                            refers(self@.found, from, to) implies self@.is_accounted_for(to) by {
                            assert(before.is_accounted_for(to));
                        }
                        assert(before.is_accounted_for(self@.root));
                    }
                    return Some(path);
                }
            }
        }
        None
    }
}

/// Which of the references have to be asked about.
pub open spec fn unknown_of(found: Found, references: Seq<Seq<char>>) -> Seq<Seq<char>> {
    references.filter(|path: Seq<char>| !is_known(found, path))
}

impl ClosureCollector {
    /// Takes in the references of the path that was asked about. There are none where the path is
    /// not in the store.
    pub fn found(
        &mut self,
        references: Option<Vec<SafeStorePath>>,
    ) -> (r: Result<(), NixDaemonClientError>)
        requires
            old(self).wf(),
            old(self)@.asked is Some,
        ensures
            final(self).wf(),
            match (references, r) {
                (Some(references), Ok(())) => {
                    let path = old(self)@.asked->0;
                    let found = old(self)@.found.push((path, paths(references@)));
                    final(self)@ == (CollectorView {
                        root: old(self)@.root,
                        found,
                        queue: old(self)@.queue + unknown_of(found, paths(references@)),
                        asked: None,
                    })
                },
                (None, Err(NixDaemonClientError::NixDaemonOperationFailed(text))) => text@
                    == missing_text(old(self)@.asked->0) && final(self)@ == old(self)@,
                _ => false,
            },
    {
        let references = match references {
            Some(references) => references,
            None => {
                let mut text = String::new();
                if let Some(path) = &self.asked {
                    text.push_str(path.to_absolute_path().as_str());
                }
                text.push_str(" does not exist in store");
                assert(text@ =~= missing_text(self@.asked->0));
                return Err(NixDaemonClientError::NixDaemonOperationFailed(text));
            },
        };
        let ghost before = self@;
        let ghost graph = self.graph@;
        let ghost path_text = self@.asked->0;
        let ghost wanted = paths(references@);
        let ghost found_now = before.found.push((path_text, wanted));
        let ghost unknown = |path: Seq<char>| !is_known(found_now, path);

        let mut copies: Vec<SafeStorePath> = Vec::new();
        for i in 0..references.len()
            invariant
                copies@ == references@.take(i as int),
        {
            copies.push(references[i].clone());
            assert(copies@ =~= references@.take(i + 1));
        }
        assert(copies@ =~= references@);

        if let Some(path) = self.asked.take() {
            self.graph.push((path, copies));
        }
        assert(found_of(self.graph@) =~= found_now);
        assert(self@.queue == before.queue);
        proof {
            reveal(Seq::filter);
            assert(wanted.take(0).filter(unknown) =~= Seq::empty());
        }
        for i in 0..references.len()
            invariant
                wanted == paths(references@),
                unknown == (|path: Seq<char>| !is_known(found_now, path)),
                self@ == (CollectorView {
                    root: before.root,
                    found: found_now,
                    queue: before.queue + wanted.take(i as int).filter(unknown),
                    asked: None,
                }),
        {
            let ghost queue = self.queue@;
            proof {
                assert(wanted.take(i + 1) =~= wanted.take(i as int).push(wanted[i as int]));
                wanted.take(i as int).lemma_filter_push(wanted[i as int], unknown);
            }
            let at: usize = self.find(&references[i]);
            if at >= self.graph.len() {
                self.queue.push(references[i].clone());
                assert(paths(self.queue@) =~= paths(queue).push(wanted[i as int]));
                assert(self@.queue =~= before.queue + wanted.take(i + 1).filter(unknown));
            }
        }
        proof {
            assert(wanted.take(references@.len() as int) =~= wanted);
            lemma_still_on_track(before, self@, path_text, wanted);
        }
        Ok(())
    }
}

proof fn lemma_still_on_track(
    before: CollectorView,
    after: CollectorView,
    path: Seq<char>,
    references: Seq<Seq<char>>,
)
    requires
        before.is_on_track(),
        before.asked == Some(path),
        after == (CollectorView {
            root: before.root,
            found: before.found.push((path, references)),
            queue: before.queue + unknown_of(before.found.push((path, references)), references),
            asked: None,
        }),
    ensures
        after.is_on_track(),
{
    let unknown = |p: Seq<char>| !is_known(after.found, p);
    let added = references.filter(unknown);
    assert(after.queue == before.queue + added);
    assert(before.found.is_prefix_of(after.found));
    assert(after.found.last() == (path, references));
    assert(is_known(after.found, path)) by {
        assert(after.found[before.found.len() as int].0 == path);
    }
    assert forall|p: Seq<char>| is_known(before.found, p) implies is_known(after.found, p) by {
        let i = choose|i: int| 0 <= i < before.found.len() && (#[trigger] before.found[i]).0 == p;
        assert(after.found[i].0 == p);
    }
    assert forall|i: int, j: int| 0 <= i < j < after.found.len() implies (
    #[trigger] after.found[i]).0 != (#[trigger] after.found[j]).0 by {
        assert(after.found[i] == before.found[i]);
        if j < before.found.len() {
            assert(after.found[j] == before.found[j]);
        } else if before.found[i].0 == path {
            assert(is_known(before.found, path));
        }
    }
    assert forall|p: Seq<char>| #[trigger] before.is_accounted_for(p) implies after.is_accounted_for(
        p,
    ) by {
        if before.queue.contains(p) {
            let i = before.queue.index_of(p);
            assert(after.queue[i] == p);
        }
    }
    assert(before.is_accounted_for(before.root));
    assert(before.is_accounted_for(path));
    lemma_found_more(before.found, after.found, before.root, path);
    assert forall|p: Seq<char>| references.contains(p) implies #[trigger] refers(
        after.found,
        path,
        p,
    ) by {
        assert(after.found[before.found.len() as int].0 == path);
    }
    assert forall|p: Seq<char>| #[trigger] after.is_accounted_for(p) implies needs(
        after.found,
        after.root,
        p,
    ) by {
        if before.is_accounted_for(p) {
            lemma_found_more(before.found, after.found, before.root, p);
        } else if is_known(after.found, p) {
            let i = choose|i: int|
                0 <= i < after.found.len() && (#[trigger] after.found[i]).0 == p;
            if i < before.found.len() {
                assert(before.found[i].0 == p);
                assert(is_known(before.found, p));
            }
        } else {
            assert(after.queue.contains(p));
            let i = after.queue.index_of(p);
            assert(after.queue[i] == p);
            if i < before.queue.len() {
                assert(before.queue[i] == p);
                assert(before.queue.contains(p));
            } else {
                let j = i - before.queue.len();
                assert(added[j] == p);
                assert(added.contains(p));
                references.lemma_filter_contains_rev(unknown, p);
                assert(refers(after.found, path, p));
                lemma_needs_further(after.found, after.root, path, p);
            }
        }
    }
    assert forall|from: Seq<char>, to: Seq<char>| #[trigger]
        refers(after.found, from, to) implies after.is_accounted_for(to) by {
        let i = choose|i: int|
            0 <= i < after.found.len() && (#[trigger] after.found[i]).0 == from
                && after.found[i].1.contains(to);
        if i < before.found.len() {
            assert(before.found[i] == after.found[i]);
            assert(refers(before.found, from, to));
            assert(before.is_accounted_for(to));
        } else if !is_known(after.found, to) {
            let j = references.index_of(to);
            assert(references[j] == to);
            references.lemma_filter_contains(unknown, j);
            assert(added.contains(to));
            let k = added.index_of(to);
            assert(after.queue[before.queue.len() + k] == to);
        }
    }
}

/// Whether `adj` gives the references of each path by the indices of the paths.
spec fn indexes(found: Found, adj: Seq<Seq<usize>>) -> bool {
    &&& adj.len() == found.len()
    &&& forall|i: int| 0 <= i < found.len() ==> (#[trigger] adj[i]).len() == found[i].1.len()
    &&& forall|i: int, j: int|
        0 <= i < found.len() && 0 <= j < found[i].1.len() ==> (#[trigger] adj[i][j])
            < found.len() && found[adj[i][j] as int].0 == found[i].1[j]
}

/// Whether every path that is referred to was found out.
pub open spec fn is_complete(found: Found) -> bool {
    forall|from: Seq<char>, to: Seq<char>| #[trigger]
        refers(found, from, to) ==> is_known(found, to)
}

proof fn lemma_edge_is_reference(found: Found, adj: Seq<Seq<usize>>, i: usize, k: usize)
    requires
        found_once(found),
        indexes(found, adj),
        i < found.len(),
        k < found.len(),
    ensures
        adj[i as int].contains(k) <==> refers(found, found[i as int].0, found[k as int].0),
{
    let from = found[i as int].0;
    let to = found[k as int].0;
    if adj[i as int].contains(k) {
        let j = adj[i as int].index_of(k);
        assert(adj[i as int][j] == k);
        assert(found[i as int].1[j] == to);
    }
    if refers(found, from, to) {
        let e = choose|e: int|
            0 <= e < found.len() && (#[trigger] found[e]).0 == from && found[e].1.contains(to);
        assert(e == i);
        let j = found[e].1.index_of(to);
        assert(found[e].1[j] == to);
        assert(found[adj[e][j] as int].0 == to);
        assert(adj[e][j] == k);
    }
}

proof fn lemma_walk_is_chain(found: Found, adj: Seq<Seq<usize>>, root: usize, k: usize)
    requires
        found_once(found),
        is_complete(found),
        indexes(found, adj),
        root < found.len(),
        k < found.len(),
    ensures
        reaches(adj, root, k) <==> needs(found, found[root as int].0, found[k as int].0),
{
    if reaches(adj, root, k) {
        let walk = choose|walk: Seq<usize>| #[trigger]
            is_walk(adj, walk) && walk[0] == root && walk.last() == k;
        let chain = walk.map_values(|i: usize| found[i as int].0);
        assert forall|n: int| 0 <= n < chain.len() - 1 implies refers(
            found,
            #[trigger] chain[n],
            chain[n + 1],
        ) by {
            assert(adj[walk[n] as int].contains(walk[n + 1]));
            lemma_edge_is_reference(found, adj, walk[n], walk[n + 1]);
        }
        assert(is_chain(found, chain));
        assert(chain[0] == found[root as int].0 && chain.last() == found[k as int].0);
    }
    if needs(found, found[root as int].0, found[k as int].0) {
        let chain = choose|chain: Seq<Seq<char>>| #[trigger]
            is_chain(found, chain) && chain[0] == found[root as int].0 && chain.last()
                == found[k as int].0;
        lemma_chain_has_walk(found, adj, root, chain);
        let walk = choose|walk: Seq<usize>| #[trigger]
            is_walk(adj, walk) && walk[0] == root && found[walk.last() as int].0 == chain.last();
        assert(walk.last() == k) by {
            let last = walk[walk.len() - 1];
            assert(last < found.len());
        }
    }
}

proof fn lemma_chain_has_walk(
    found: Found,
    adj: Seq<Seq<usize>>,
    root: usize,
    chain: Seq<Seq<char>>,
)
    requires
        found_once(found),
        is_complete(found),
        indexes(found, adj),
        root < found.len(),
        is_chain(found, chain),
        chain[0] == found[root as int].0,
    ensures
        exists|walk: Seq<usize>| #[trigger]
            is_walk(adj, walk) && walk[0] == root && found[walk.last() as int].0 == chain.last(),
    decreases chain.len(),
{
    if chain.len() == 1 {
        let walk = seq![root];
        assert(is_walk(adj, walk) && walk[0] == root && found[walk.last() as int].0
            == chain.last());
    } else {
        let shorter = chain.drop_last();
        assert forall|n: int| 0 <= n < shorter.len() - 1 implies refers(
            found,
            #[trigger] shorter[n],
            shorter[n + 1],
        ) by {
            assert(refers(found, chain[n], chain[n + 1]));
        }
        lemma_chain_has_walk(found, adj, root, shorter);
        let walk = choose|walk: Seq<usize>| #[trigger]
            is_walk(adj, walk) && walk[0] == root && found[walk.last() as int].0
                == shorter.last();
        let n = chain.len() - 2;
        let to = chain[n + 1];
        assert(refers(found, chain[n], chain[n + 1]));
        let last = walk[walk.len() - 1];
        assert(last < found.len());
        lemma_edge_of_reference(found, adj, last, to);
        let j = choose|j: int|
            0 <= j < adj[last as int].len() && found[(#[trigger] adj[last as int][j]) as int].0
                == to;
        let next = adj[last as int][j];
        assert(next < found.len());
        let longer = walk.push(next);
        assert forall|m: int| 0 <= m < longer.len() - 1 implies adj[(
        #[trigger] longer[m]) as int].contains(longer[m + 1]) by {
            if m < walk.len() - 1 {
                assert(longer[m] == walk[m]);
                assert(adj[walk[m] as int].contains(walk[m + 1]));
            } else {
                assert(adj[last as int][j] == next);
            }
        }
        assert(is_walk(adj, longer) && longer[0] == root && found[longer.last() as int].0
            == chain.last());
    }
}

proof fn lemma_edge_of_reference(found: Found, adj: Seq<Seq<usize>>, i: usize, to: Seq<char>)
    requires
        found_once(found),
        indexes(found, adj),
        i < found.len(),
        refers(found, found[i as int].0, to),
    ensures
        exists|j: int|
            0 <= j < adj[i as int].len() && found[(#[trigger] adj[i as int][j]) as int].0 == to
                && adj[i as int][j] < found.len(),
{
    let from = found[i as int].0;
    let e = choose|e: int|
        0 <= e < found.len() && (#[trigger] found[e]).0 == from && found[e].1.contains(to);
    assert(e == i);
    let j = found[e].1.index_of(to);
    assert(found[e].1[j] == to);
    assert(found[adj[e][j] as int].0 == to);
}

impl ClosureCollector {
    /// The references of each path, by index.
    fn index_references(&self) -> (adj: Vec<Vec<usize>>)
        requires
            is_complete(self@.found),
        ensures
            indexes(self@.found, targets(adj@)),
    {
        let ghost found = self@.found;
        let mut adj: Vec<Vec<usize>> = Vec::new();
        for i in 0..self.graph.len()
            invariant
                found == self@.found,
                found == found_of(self.graph@),
                is_complete(found),
                adj@.len() == i,
                forall|a: int|
                    0 <= a < i ==> (#[trigger] adj@[a])@.len() == found[a].1.len(),
                forall|a: int, b: int|
                    0 <= a < i && 0 <= b < found[a].1.len() ==> (#[trigger] adj@[a]@[b])
                        < found.len() && found[adj@[a]@[b] as int].0 == found[a].1[b],
        {
            let references: &Vec<SafeStorePath> = &self.graph[i].1;
            let mut row: Vec<usize> = Vec::new();
            for j in 0..references.len()
                invariant
                    found == self@.found,
                    found == found_of(self.graph@),
                    is_complete(found),
                    i < self.graph@.len(),
                    *references == self.graph@[i as int].1,
                    row@.len() == j,
                    forall|b: int|
                        0 <= b < j ==> (#[trigger] row@[b]) < found.len()
                            && found[row@[b] as int].0 == found[i as int].1[b],
            {
                let at: usize = self.find(&references[j]);
                proof {
                    let from = found[i as int].0;
                    let to = references@[j as int]@;
                    assert(found[i as int].1[j as int] == to);
                    assert(found[i as int].1.contains(to));
                    assert(refers(found, from, to));
                }
                row.push(at);
            }
            adj.push(row);
        }
        proof {
            assert forall|i: int, j: int|
                0 <= i < found.len() && 0 <= j < found[i].1.len() implies (#[trigger] targets(
                adj@,
            )[i][j]) < found.len() && found[targets(adj@)[i][j] as int].0 == found[i].1[j] by {
                assert(targets(adj@)[i][j] == adj@[i]@[j]);
            }
            assert forall|i: int| 0 <= i < found.len() implies (#[trigger] targets(adj@)[i]).len()
                == found[i].1.len() by {
                assert(targets(adj@)[i] == adj@[i]@);
            }
        }
        adj
    }

    /// Lists everything that the root needs in depth-first post-order, the root itself last, once
    /// everything was found out. Nothing is listed twice, and unless references go round in circles, whatever a path refers
    /// to is listed before it.
    pub fn finish(self) -> (list: Vec<SafeStorePath>)
        requires
            self.wf(),
            self@.queue.len() == 0,
            self@.asked is None,
        ensures
            paths(list@).no_duplicates(),
            forall|path: Seq<char>| #[trigger]
                paths(list@).contains(path) <==> needs(self@.found, self@.root, path),
            paths(list@).last() == self@.root,
            references_are_acyclic(self@.found) ==> references_come_first(
                self@.found,
                paths(list@),
            ),
            paths(list@) == closure_order(self@.found, self@.root),
    {
        let ghost found = self@.found;
        proof {
            assert(self@.queue =~= Seq::empty());
            assert(self@.is_accounted_for(self@.root));
            assert forall|from: Seq<char>, to: Seq<char>| #[trigger]
                refers(found, from, to) implies is_known(found, to) by {
                assert(self@.is_accounted_for(to));
            }
        }
        let adj = self.index_references();
        let ghost graph = targets(adj@);
        let root: usize = self.find(&self.root);
        proof {
            assert(adj@.len() == found.len());
            assert forall|i: int, j: int|
                0 <= i < graph.len() && 0 <= j < graph[i].len() implies (#[trigger] graph[i][j])
                < graph.len() by {
                assert(found[graph[i][j] as int].0 == found[i].1[j]);
            }
        }
        let indices = reached_from(root, &adj);
        proof {
            assert forall|p: int| 0 <= p < indices@.len() implies (#[trigger] indices@[p])
                < found.len() by {
                assert(indices@.contains(indices@[p]));
            }
        }
        let mut list: Vec<SafeStorePath> = Vec::new();
        for i in 0..indices.len()
            invariant
                found == found_of(self.graph@),
                forall|p: int| 0 <= p < indices@.len() ==> (#[trigger] indices@[p]) < found.len(),
                list@.len() == i,
                forall|p: int|
                    0 <= p < i ==> (#[trigger] list@[p])@ == found[indices@[p] as int].0,
        {
            list.push(self.graph[indices[i]].0.clone());
        }
        proof {
            let names = paths(list@);
            assert forall|p: int| 0 <= p < names.len() implies #[trigger] names[p]
                == found[indices@[p] as int].0 by {
                assert(names[p] == list@[p]@);
            }
            assert(found.len() == self.graph.len());
            lemma_names_of_indices(found, graph, root, indices@, names);
            let by_index = Tour::<usize> { seen: Set::empty(), listed: Seq::empty() };
            let by_name = Tour::<Seq<char>> { seen: Set::empty(), listed: Seq::empty() };
            assert(by_name.listed =~= by_index.listed.map_values(|i: usize| found[i as int].0));
            lemma_same_visit(found, graph, root, by_index, by_name, found.len());
            assert(names =~= indices@.map_values(|i: usize| found[i as int].0));
        }
        list
    }
}

/// Whether a tour through paths is one through their indices.
spec fn is_same_tour(found: Found, by_index: Tour<usize>, by_name: Tour<Seq<char>>) -> bool {
    &&& by_name.listed == by_index.listed.map_values(|i: usize| found[i as int].0)
    &&& forall|i: usize|
        i < found.len() ==> (#[trigger] by_index.seen.contains(i) <==> by_name.seen.contains(
            found[i as int].0,
        ))
}

proof fn lemma_same_visit(
    found: Found,
    adj: Seq<Seq<usize>>,
    at: usize,
    by_index: Tour<usize>,
    by_name: Tour<Seq<char>>,
    depth: nat,
)
    requires
        found_once(found),
        indexes(found, adj),
        at < found.len(),
        is_same_tour(found, by_index, by_name),
    ensures
        is_same_tour(
            found,
            after_visit(edges_of(adj), at, by_index, depth),
            after_visit(
                |path: Seq<char>| references_of(found, path),
                found[at as int].0,
                by_name,
                depth,
            ),
        ),
    decreases depth, 0nat,
{
    let path = found[at as int].0;
    let next_of = |path: Seq<char>| references_of(found, path);
    if depth > 0 && !by_index.seen.contains(at) {
        let inside = (depth - 1) as nat;
        let index_begun = Tour { seen: by_index.seen.insert(at), listed: by_index.listed };
        let name_begun = Tour { seen: by_name.seen.insert(path), listed: by_name.listed };
        assert(is_known(found, path));
        let e = choose|e: int| 0 <= e < found.len() && (#[trigger] found[e]).0 == path;
        assert(e == at);
        assert(next_of(path) == found[at as int].1);
        assert(edges_of(adj)(at) == adj[at as int]);
        assert(is_same_tour(found, index_begun, name_begun));
        assert(found[at as int].1 =~= adj[at as int].map_values(|i: usize| found[i as int].0));
        lemma_same_visits(
            found,
            adj,
            adj[at as int],
            found[at as int].1,
            index_begun,
            name_begun,
            inside,
        );
        let index_after = after_visits(edges_of(adj), adj[at as int], index_begun, inside);
        let name_after = after_visits(next_of, found[at as int].1, name_begun, inside);
        assert(name_after.listed.push(path) =~= index_after.listed.push(at).map_values(
            |i: usize| found[i as int].0,
        ));
    }
}

proof fn lemma_same_visits(
    found: Found,
    adj: Seq<Seq<usize>>,
    indices: Seq<usize>,
    names: Seq<Seq<char>>,
    by_index: Tour<usize>,
    by_name: Tour<Seq<char>>,
    depth: nat,
)
    requires
        found_once(found),
        indexes(found, adj),
        forall|k: int| 0 <= k < indices.len() ==> (#[trigger] indices[k]) < found.len(),
        names == indices.map_values(|i: usize| found[i as int].0),
        is_same_tour(found, by_index, by_name),
    ensures
        is_same_tour(
            found,
            after_visits(edges_of(adj), indices, by_index, depth),
            after_visits(|path: Seq<char>| references_of(found, path), names, by_name, depth),
        ),
    decreases depth, indices.len() + 1,
{
    let next_of = |path: Seq<char>| references_of(found, path);
    if indices.len() > 0 {
        assert(names.drop_last() =~= indices.drop_last().map_values(
            |i: usize| found[i as int].0,
        ));
        lemma_same_visits(
            found,
            adj,
            indices.drop_last(),
            names.drop_last(),
            by_index,
            by_name,
            depth,
        );
        lemma_same_visit(
            found,
            adj,
            indices.last(),
            after_visits(edges_of(adj), indices.drop_last(), by_index, depth),
            after_visits(next_of, names.drop_last(), by_name, depth),
            depth,
        );
    }
}

proof fn lemma_names_of_indices(
    found: Found,
    adj: Seq<Seq<usize>>,
    root: usize,
    indices: Seq<usize>,
    names: Seq<Seq<char>>,
)
    requires
        found_once(found),
        is_complete(found),
        indexes(found, adj),
        root < found.len() <= usize::MAX,
        indices.no_duplicates(),
        indices.len() > 0 && indices.last() == root,
        forall|k: usize|
            #![trigger indices.contains(k)]
            indices.contains(k) <==> k < adj.len() && reaches(adj, root, k),
        without_cycles(adj) ==> targets_come_first(adj, indices),
        names.len() == indices.len(),
        forall|p: int|
            0 <= p < names.len() ==> #[trigger] names[p] == found[indices[p] as int].0,
    ensures
        names.no_duplicates(),
        forall|path: Seq<char>| #[trigger]
            names.contains(path) <==> needs(found, found[root as int].0, path),
        names.last() == found[root as int].0,
        references_are_acyclic(found) ==> references_come_first(found, names),
{
    assert forall|p: int| 0 <= p < indices.len() implies (#[trigger] indices[p])
        < found.len() by {
        assert(indices.contains(indices[p]));
    }
    assert forall|p: int, q: int| 0 <= p < names.len() && 0 <= q < names.len() && p
        != q implies names[p] != names[q] by {
        assert(indices[p] != indices[q]);
    }
    let root_name = found[root as int].0;
    assert forall|path: Seq<char>| #[trigger] names.contains(path) <==> needs(
        found,
        root_name,
        path,
    ) by {
        if names.contains(path) {
            let p = names.index_of(path);
            assert(names[p] == path);
            assert(indices.contains(indices[p]));
            lemma_walk_is_chain(found, adj, root, indices[p]);
        }
        if needs(found, root_name, path) {
            lemma_needed_is_known(found, root_name, path);
            let k = choose|k: int| 0 <= k < found.len() && (#[trigger] found[k]).0 == path;
            lemma_walk_is_chain(found, adj, root, k as usize);
            assert(indices.contains(k as usize));
            let p = indices.index_of(k as usize);
            assert(names[p] == path);
        }
    }
    if references_are_acyclic(found) {
        let rank = choose|rank: spec_fn(Seq<char>) -> int| #[trigger]
            references_descend(found, rank);
        let by_index = |i: usize| rank(found[i as int].0);
        assert forall|i: int, j: int|
            0 <= i < adj.len() && 0 <= j < adj[i].len() && adj[i][j] != i implies by_index(
            #[trigger] adj[i][j],
        ) < by_index(i as usize) by {
            let k = adj[i][j];
            assert(found[k as int].0 == found[i].1[j]);
            assert(found[i].1.contains(found[k as int].0));
            assert(refers(found, found[i].0, found[k as int].0));
            assert(found[k as int].0 != found[i].0);
        }
        assert(descends(adj, by_index));
        assert forall|p: int, to: Seq<char>|
            0 <= p < names.len() && #[trigger] refers(found, names[p], to) && to
                != names[p] implies names.take(p).contains(to) by {
            let i = indices[p];
            lemma_edge_of_reference(found, adj, i, to);
            let j = choose|j: int|
                0 <= j < adj[i as int].len() && found[(#[trigger] adj[i as int][j]) as int].0 == to
                    && adj[i as int][j] < found.len();
            let k = adj[indices[p] as int][j];
            assert(k != i);
            assert(indices.take(p).contains(k));
            let q = indices.take(p).index_of(k);
            assert(indices[q] == k);
            assert(names.take(p)[q] == to);
        }
    }
}

proof fn lemma_needed_is_known(found: Found, root: Seq<char>, path: Seq<char>)
    requires
        is_complete(found),
        is_known(found, root),
        needs(found, root, path),
    ensures
        is_known(found, path),
{
    let chain = choose|chain: Seq<Seq<char>>| #[trigger]
        is_chain(found, chain) && chain[0] == root && chain.last() == path;
    if chain.len() > 1 {
        let n = chain.len() - 2;
        assert(refers(found, chain[n], chain[n + 1]));
    }
}

} // verus!
