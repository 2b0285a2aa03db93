//! Listing what a node of a graph reaches, the targets of edges before their sources.
use vstd::prelude::*;

verus! {

/// Whether every edge leads to a node of the graph. A graph is given by the targets of each of
/// its nodes.
pub open spec fn edges_in_range(adj: Seq<Seq<usize>>) -> bool {
    forall|i: int, j: int|
        0 <= i < adj.len() && 0 <= j < adj[i].len() ==> (#[trigger] adj[i][j]) < adj.len()
}

/// Whether a walk follows edges.
pub open spec fn is_walk(adj: Seq<Seq<usize>>, walk: Seq<usize>) -> bool {
    &&& walk.len() > 0
    &&& forall|k: int| 0 <= k < walk.len() ==> (#[trigger] walk[k]) < adj.len()
    &&& forall|k: int|
        0 <= k < walk.len() - 1 ==> adj[(#[trigger] walk[k]) as int].contains(walk[k + 1])
}

/// Whether a walk leads from `from` to `to`.
pub open spec fn reaches(adj: Seq<Seq<usize>>, from: usize, to: usize) -> bool {
    exists|walk: Seq<usize>| #[trigger]
        is_walk(adj, walk) && walk[0] == from && walk.last() == to
}

/// Whether every edge to another node leads to a lower rank.
pub open spec fn descends(adj: Seq<Seq<usize>>, rank: spec_fn(usize) -> int) -> bool {
    forall|i: int, j: int|
        0 <= i < adj.len() && 0 <= j < adj[i].len() && adj[i][j] != i ==> rank(
            #[trigger] adj[i][j],
        ) < rank(i as usize)
}

/// Whether no walk through other nodes leads back to where it started: the nodes can be ranked so
/// that each edge to another node descends.
pub open spec fn without_cycles(adj: Seq<Seq<usize>>) -> bool {
    exists|rank: spec_fn(usize) -> int| #[trigger] descends(adj, rank)
}

/// Whether the other nodes that a listed node has edges to are listed before it.
pub open spec fn targets_come_first(adj: Seq<Seq<usize>>, list: Seq<usize>) -> bool {
    forall|p: int, j: int|
        0 <= p < list.len() && 0 <= j < adj[list[p] as int].len() && adj[list[p] as int][j]
            != list[p] ==> list.take(p).contains(#[trigger] adj[list[p] as int][j])
}

/// The targets of each node.
pub open spec fn targets(adj: Seq<Vec<usize>>) -> Seq<Seq<usize>> {
    adj.map_values(|targets: Vec<usize>| targets@)
}

/// What was seen on the way through a graph, and what was listed.
#[verifier::ext_equal]
#[verifier::reject_recursive_types(T)]
pub ghost struct Tour<T> {
    pub seen: Set<T>,
    pub listed: Seq<T>,
}

/// A tour after a visit to `at`: unless it was seen before, it is listed after what its targets
/// lead to. So many visits can stand inside each other.
pub open spec fn after_visit<T>(
    next: spec_fn(T) -> Seq<T>,
    at: T,
    tour: Tour<T>,
    depth: nat,
) -> Tour<T>
    decreases depth, 0nat,
{
    if depth == 0 || tour.seen.contains(at) {
        tour
    } else {
        let inner = after_visits(
            next,
            next(at),
            Tour { seen: tour.seen.insert(at), listed: tour.listed },
            (depth - 1) as nat,
        );
        Tour { seen: inner.seen, listed: inner.listed.push(at) }
    }
}

/// A tour after visits to several nodes, in order.
pub open spec fn after_visits<T>(
    next: spec_fn(T) -> Seq<T>,
    nodes: Seq<T>,
    tour: Tour<T>,
    depth: nat,
) -> Tour<T>
    decreases depth, nodes.len() + 1,
{
    if nodes.len() == 0 {
        tour
    } else {
        after_visit(
            next,
            nodes.last(),
            after_visits(next, nodes.drop_last(), tour, depth),
            depth,
        )
    }
}

/// What `root` leads to, in depth-first post-order: targets in the order of their edges, each after
/// what it leads to itself, and the root last. In a graph of `size` nodes no more visits than that
/// can stand inside each other.
pub open spec fn post_order<T>(next: spec_fn(T) -> Seq<T>, root: T, size: nat) -> Seq<T> {
    after_visit(next, root, Tour { seen: Set::empty(), listed: Seq::empty() }, size).listed
}

/// The targets of a node.
pub open spec fn edges_of(adj: Seq<Seq<usize>>) -> spec_fn(usize) -> Seq<usize> {
    |i: usize| adj[i as int]
}

/// The tour that was made.
spec fn tour_of(visited: Seq<bool>, list: Seq<usize>) -> Tour<usize> {
    Tour { seen: Set::new(|k: usize| k < visited.len() && visited[k as int]), listed: list }
}

/// How many nodes were not visited.
spec fn unvisited(visited: Seq<bool>) -> nat
    decreases visited.len(),
{
    if visited.len() == 0 {
        0
    } else {
        unvisited(visited.drop_last()) + if visited.last() {
            0nat
        } else {
            1
        }
    }
}

proof fn lemma_visit_one(visited: Seq<bool>, i: int)
    requires
        0 <= i < visited.len(),
        !visited[i],
    ensures
        unvisited(visited.update(i, true)) == unvisited(visited) - 1,
    decreases visited.len(),
{
    let after = visited.update(i, true);
    if i == visited.len() - 1 {
        assert(after.drop_last() =~= visited.drop_last());
    } else {
        lemma_visit_one(visited.drop_last(), i);
        assert(after.drop_last() =~= visited.drop_last().update(i, true));
    }
}

proof fn lemma_visit_more(before: Seq<bool>, after: Seq<bool>)
    requires
        before.len() == after.len(),
        forall|i: int| 0 <= i < before.len() && before[i] ==> after[i],
    ensures
        unvisited(after) <= unvisited(before),
    decreases before.len(),
{
    if before.len() > 0 {
        lemma_visit_more(before.drop_last(), after.drop_last());
    }
}

proof fn lemma_visit_none(visited: Seq<bool>)
    ensures
        unvisited(visited) <= visited.len(),
    decreases visited.len(),
{
    if visited.len() > 0 {
        lemma_visit_none(visited.drop_last());
    }
}

/// What holds between visits: what is listed was visited and is reached from the root, nothing is
/// listed twice, and the targets of what is listed were visited.
spec fn is_consistent(
    adj: Seq<Seq<usize>>,
    root: usize,
    visited: Seq<bool>,
    list: Seq<usize>,
) -> bool {
    &&& visited.len() == adj.len()
    &&& list.no_duplicates()
    &&& forall|p: int| 0 <= p < list.len() ==> (#[trigger] list[p]) < adj.len()
    &&& forall|p: int| 0 <= p < list.len() ==> visited[(#[trigger] list[p]) as int]
    &&& forall|i: usize| i < adj.len() && #[trigger] visited[i as int] ==> reaches(adj, root, i)
    &&& forall|p: int, j: int|
        0 <= p < list.len() && 0 <= j < adj[list[p] as int].len() ==> visited[(
        #[trigger] adj[list[p] as int][j]) as int]
}

/// Whether the nodes that were visited and are not listed yet rank above `i`.
spec fn open_ones_rank_above(
    visited: Seq<bool>,
    list: Seq<usize>,
    rank: spec_fn(usize) -> int,
    i: usize,
) -> bool {
    forall|k: usize|
        k < visited.len() && #[trigger] visited[k as int] && !list.contains(k) ==> rank(k) > rank(i)
}

proof fn lemma_one_step_further(adj: Seq<Seq<usize>>, root: usize, i: usize, j: int)
    requires
        edges_in_range(adj),
        i < adj.len(),
        0 <= j < adj[i as int].len(),
        reaches(adj, root, i),
    ensures
        reaches(adj, root, adj[i as int][j]),
{
    let walk = choose|walk: Seq<usize>| #[trigger]
        is_walk(adj, walk) && walk[0] == root && walk.last() == i;
    let next = adj[i as int][j];
    let longer = walk.push(next);
    assert(adj[i as int].contains(next));
    assert forall|k: int| 0 <= k < longer.len() - 1 implies adj[(
    #[trigger] longer[k]) as int].contains(longer[k + 1]) by {
        if k < walk.len() - 1 {
            assert(longer[k] == walk[k]);
        }
    }
    assert(is_walk(adj, longer));
    assert(longer[0] == root && longer.last() == next);
}

/// Visits a node: lists whatever it reaches that was not visited yet, and then the node itself.
fn visit(
    i: usize,
    adj: &Vec<Vec<usize>>,
    visited: &mut Vec<bool>,
    list: &mut Vec<usize>,
    Ghost(root): Ghost<usize>,
    Ghost(rank): Ghost<spec_fn(usize) -> int>,
    Ghost(depth): Ghost<nat>,
)
    requires
        edges_in_range(targets(adj@)),
        i < adj@.len(),
        unvisited(old(visited)@) <= depth,
        is_consistent(targets(adj@), root, old(visited)@, old(list)@),
        reaches(targets(adj@), root, i),
        descends(targets(adj@), rank) ==> open_ones_rank_above(
            old(visited)@,
            old(list)@,
            rank,
            i,
        ) || old(visited)@[i as int],
        descends(targets(adj@), rank) ==> targets_come_first(targets(adj@), old(list)@),
    ensures
        is_consistent(targets(adj@), root, final(visited)@, final(list)@),
        final(visited)@[i as int],
        forall|k: int|
            0 <= k < adj@.len() && #[trigger] old(visited)@[k] ==> final(visited)@[k],
        old(list)@.is_prefix_of(final(list)@),
        // what is newly visited is newly listed
        forall|k: usize|
            k < adj@.len() && !old(visited)@[k as int] && #[trigger] final(visited)@[k as int]
                ==> final(list)@.contains(k),
        // what was visited before is not listed now
        forall|k: usize|
            k < adj@.len() && #[trigger] old(visited)@[k as int] && !old(list)@.contains(k)
                ==> !final(list)@.contains(k),
        !old(visited)@[i as int] ==> final(list)@.len() > 0 && final(list)@.last() == i,
        descends(targets(adj@), rank) ==> targets_come_first(targets(adj@), final(list)@),
        tour_of(final(visited)@, final(list)@) == after_visit(
            edges_of(targets(adj@)),
            i,
            tour_of(old(visited)@, old(list)@),
            depth,
        ),
    decreases unvisited(old(visited)@),
{
    if visited[i] {
        assert(tour_of(visited@, list@).seen.contains(i));
        return ;
    }
    let ghost graph = targets(adj@);
    let ghost next_of = edges_of(graph);
    let ghost tour0 = tour_of(visited@, list@);
    let ghost visited0 = visited@;
    let ghost list0 = list@;
    visited[i] = true;
    proof {
        lemma_visit_one(visited0, i as int);
        assert(!list0.contains(i));
        assert(!tour0.seen.contains(i));
    }
    let ghost inside = (depth - 1) as nat;
    let ghost begun = Tour { seen: tour0.seen.insert(i), listed: tour0.listed };
    proof {
        assert(tour_of(visited@, list@) =~= begun);
        assert(graph[i as int].take(0) =~= Seq::empty());
    }
    let len: usize = adj[i].len();
    let mut j: usize = 0;
    while j < len
        invariant
            i < adj@.len(),
            len == adj@[i as int]@.len(),
            j <= len,
            graph == targets(adj@),
            edges_in_range(graph),
            is_consistent(graph, root, visited@, list@),
            reaches(graph, root, i),
            unvisited(visited@) < unvisited(visited0),
            visited0 == old(visited)@,
            list0 == old(list)@,
            visited0.len() == adj@.len(),
            visited@[i as int],
            !list@.contains(i),
            forall|k: int| 0 <= k < adj@.len() && #[trigger] visited0[k] ==> visited@[k],
            list0.is_prefix_of(list@),
            forall|k: usize|
                k < adj@.len() && k != i && !visited0[k as int] && #[trigger] visited@[k as int]
                    ==> list@.contains(k),
            forall|k: usize|
                k < adj@.len() && #[trigger] visited0[k as int] && !list0.contains(k)
                    ==> !list@.contains(k),
            forall|k: int| 0 <= k < j ==> visited@[(#[trigger] graph[i as int][k]) as int],
            descends(graph, rank) ==> open_ones_rank_above(visited0, list0, rank, i),
            descends(graph, rank) ==> targets_come_first(graph, list@),
            unvisited(visited@) <= inside,
            next_of == edges_of(graph),
            tour_of(visited@, list@) == after_visits(
                next_of,
                graph[i as int].take(j as int),
                begun,
                inside,
            ),
        decreases len - j,
    {
        let next: usize = adj[i][j];
        proof {
            assert(graph[i as int].take(j + 1).drop_last() =~= graph[i as int].take(j as int));
            assert(graph[i as int].take(j + 1).last() == next);
            assert(next == graph[i as int][j as int]);
            lemma_one_step_further(graph, root, i, j as int);
            if descends(graph, rank) && next != i {
                assert(rank(graph[i as int][j as int]) < rank(i));
                assert forall|k: usize|
                    k < visited@.len() && #[trigger] visited@[k as int] && !list@.contains(
                        k,
                    ) implies rank(k) > rank(next) by {
                    if k != i {
                        assert(visited0[k as int]);
                        if list0.contains(k) {
                            let p = list0.index_of(k);
                            assert(list@[p] == k);
                        }
                        assert(rank(k) > rank(i));
                    }
                }
            }
        }
        let ghost before = visited@;
        let ghost listed = list@;
        visit(next, adj, visited, list, Ghost(root), Ghost(rank), Ghost(inside));
        proof {
            lemma_visit_more(before, visited@);
            assert(list0.is_prefix_of(list@)) by {
                assert(listed.is_prefix_of(list@));
                assert forall|p: int| 0 <= p < list0.len() implies list0[p] == list@[p] by {
                    assert(list0[p] == listed[p]);
                }
            }
            assert(!list@.contains(i)) by {
                assert(before[i as int] && !listed.contains(i));
            }
            assert forall|k: usize|
                k < adj@.len() && k != i && !visited0[k as int]
                    && #[trigger] visited@[k as int] implies list@.contains(k) by {
                if before[k as int] {
                    assert(listed.contains(k));
                    let p = listed.index_of(k);
                    assert(list@[p] == k);
                }
            }
        }
        j = j + 1;
    }
    let ghost listed = list@;
    list.push(i);
    proof {
        assert(graph[i as int].take(len as int) =~= graph[i as int]);
        assert(next_of(i) == graph[i as int]);
        assert(tour_of(visited@, list@) =~= after_visit(next_of, i, tour0, depth));
        assert forall|p: int, q: int|
            0 <= p < list@.len() && 0 <= q < graph[list@[p] as int].len() implies visited@[(
        #[trigger] graph[list@[p] as int][q]) as int] by {
            if p < listed.len() {
                assert(list@[p] == listed[p]);
            }
        }
        assert forall|k: usize|
            k < adj@.len() && !visited0[k as int] && #[trigger] visited@[k as int] implies list@.contains(
            k,
        ) by {
            if k == i {
                assert(list@[listed.len() as int] == i);
            } else {
                let p = listed.index_of(k);
                assert(listed.contains(k));
                assert(list@[p] == k);
            }
        }
        if descends(graph, rank) {
            assert forall|p: int, q: int|
                0 <= p < list@.len() && 0 <= q < graph[list@[p] as int].len()
                    && graph[list@[p] as int][q] != list@[p] implies list@.take(p).contains(
                #[trigger] graph[list@[p] as int][q],
            ) by {
                if p < listed.len() {
                    assert(list@[p] == listed[p]);
                    assert(listed.take(p) =~= list@.take(p));
                } else {
                    let target = graph[i as int][q];
                    assert(list@.take(p) =~= listed);
                    assert(visited@[target as int]);
                    assert(rank(graph[i as int][q]) < rank(i));
                    if !listed.contains(target) {
                        assert(target != i);
                        assert(visited0[target as int]);
                        if list0.contains(target) {
                            let at = list0.index_of(target);
                            assert(listed[at] == target);
                        }
                        assert(rank(target) > rank(i));
                    }
                }
            }
        }
    }
}

/// Lists what a node reaches in depth-first post-order, the node itself last. Nothing is listed
/// twice, and in a graph without cycles the targets of every edge to another node come before its
/// source.
pub fn reached_from(root: usize, adj: &Vec<Vec<usize>>) -> (list: Vec<usize>)
    requires
        edges_in_range(targets(adj@)),
        root < adj@.len(),
    ensures
        list@.no_duplicates(),
        list@.len() > 0 && list@.last() == root,
        forall|k: usize|
            #![trigger list@.contains(k)]
            list@.contains(k) <==> k < adj@.len() && reaches(targets(adj@), root, k),
        without_cycles(targets(adj@)) ==> targets_come_first(targets(adj@), list@),
        list@ == post_order(edges_of(targets(adj@)), root, adj@.len()),
{
    let ghost graph = targets(adj@);
    let ghost rank = choose|rank: spec_fn(usize) -> int| #[trigger] descends(graph, rank);
    let mut visited: Vec<bool> = Vec::new();
    for i in 0..adj.len()
        invariant
            visited@.len() == i,
            forall|k: int| 0 <= k < i ==> !visited@[k],
    {
        visited.push(false);
    }
    let mut list: Vec<usize> = Vec::new();
    proof {
        let walk = seq![root];
        assert(is_walk(graph, walk));
        assert(walk[0] == root && walk.last() == root);
    }
    proof {
        lemma_visit_none(visited@);
        assert(tour_of(visited@, list@) =~= (Tour { seen: Set::empty(), listed: Seq::empty() }));
    }
    visit(root, adj, &mut visited, &mut list, Ghost(root), Ghost(rank), Ghost(adj@.len()));
    proof {
        assert forall|k: usize|
            #![trigger list@.contains(k)]
            k < adj@.len() && reaches(graph, root, k) implies list@.contains(k) by {
            let walk = choose|walk: Seq<usize>| #[trigger]
                is_walk(graph, walk) && walk[0] == root && walk.last() == k;
            lemma_walk_stays(graph, root, visited@, list@, walk, walk.len() - 1);
        }
        assert forall|k: usize| #[trigger] list@.contains(k) implies k < adj@.len() && reaches(
            graph,
            root,
            k,
        ) by {
            let p = list@.index_of(k);
            assert(list@[p] == k);
            assert(visited@[k as int]);
        }
    }
    list
}

proof fn lemma_walk_stays(
    adj: Seq<Seq<usize>>,
    root: usize,
    visited: Seq<bool>,
    list: Seq<usize>,
    walk: Seq<usize>,
    k: int,
)
    requires
        is_consistent(adj, root, visited, list),
        forall|i: usize| i < adj.len() && #[trigger] visited[i as int] ==> list.contains(i),
        visited[root as int],
        is_walk(adj, walk),
        walk[0] == root,
        0 <= k < walk.len(),
    ensures
        list.contains(walk[k]),
    decreases k,
{
    if k > 0 {
        lemma_walk_stays(adj, root, visited, list, walk, k - 1);
        let p = list.index_of(walk[k - 1]);
        assert(list[p] == walk[k - 1]);
        assert(adj[walk[k - 1] as int].contains(walk[k - 1 + 1]));
        let j = adj[walk[k - 1] as int].index_of(walk[k]);
        assert(adj[list[p] as int][j] == walk[k]);
        assert(visited[walk[k] as int]);
    } else {
        assert(walk[0] < adj.len());
    }
}

} // verus!
