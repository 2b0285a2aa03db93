//! Which nodes a command works on, and what became of them.
use crate::apply::{
    all_targets_in, failures, is_selection, names_in, part_of, part_size, partition_note,
    places_of, quoted_names, selection_is_what_targets_mean, successes, tags_in, targets_in,
    NodeError, Outcome,
};
use crate::cli::{target_of, ApplyTargetView, Partitions};
use crate::errors::HiveLibError;
use crate::hive::inventory::Nodes;
use crate::hive::node::Name;
use crate::laws::text::words_stand_between_white_space;
use crate::text::{decimal, is_white_space, joined, quoted, text_le, words};
use vstd::prelude::*;

verus! {

/// A node is selected where nothing in particular is asked for, or where a target is its name or one
/// of its tags, and the selection is in the order of names.
pub proof fn nodes_are_selected_by_name_or_tag(
    selected: Seq<Seq<char>>,
    nodes: Nodes,
    everything: bool,
    targets: Seq<ApplyTargetView>,
    i: int,
)
    requires
        is_selection(selected, nodes, everything, targets),
        0 <= i < nodes.len(),
    ensures
        everything ==> selected.contains(nodes[i].0),
        targets.contains(ApplyTargetView::Node(nodes[i].0)) ==> selected.contains(nodes[i].0),
        (exists|tag: Seq<char>| #[trigger]
            nodes[i].1.tags.contains(tag) && targets.contains(ApplyTargetView::Tag(tag)))
            ==> selected.contains(nodes[i].0),
        selected.contains(nodes[i].0) && !everything && !targets.contains(
            ApplyTargetView::Node(nodes[i].0),
        ) ==> exists|j: int, tag: Seq<char>|
            #![trigger nodes[j].1.tags.contains(tag)]
            0 <= j < nodes.len() && nodes[j].0 == nodes[i].0 && nodes[j].1.tags.contains(tag)
                && targets.contains(ApplyTargetView::Tag(tag)),
{
    selection_is_what_targets_mean(selected, nodes, everything, targets, nodes[i].0);
}

/// Nothing is selected but nodes, and it is in the order of names.
pub proof fn selections_are_nodes_in_order(
    selected: Seq<Seq<char>>,
    nodes: Nodes,
    everything: bool,
    targets: Seq<ApplyTargetView>,
    a: int,
    b: int,
)
    requires
        is_selection(selected, nodes, everything, targets),
        0 <= a < b < selected.len(),
    ensures
        text_le(selected[a], selected[b]),
        exists|i: int| 0 <= i < nodes.len() && (#[trigger] nodes[i]).0 == selected[a],
{
    selection_is_what_targets_mean(selected, nodes, everything, targets, selected[a]);
    assert(selected.contains(selected[a]));
}

/// The nodes that are worked on are those whose names were kept, in the order of the hive.
pub proof fn nodes_are_found_by_name(nodes: Nodes, names: Seq<Seq<char>>, place: usize)
    requires
        nodes.len() <= usize::MAX,
    ensures
        places_of(nodes, names).contains(place) <==> place < nodes.len() && names.contains(
            nodes[place as int].0,
        ),
        forall|i: int, j: int|
            0 <= i < j < places_of(nodes, names).len() ==> places_of(nodes, names)[i] < places_of(
                nodes,
                names,
            )[j],
    decreases nodes.len(),
{
    if nodes.len() > 0 {
        let front = nodes.drop_last();
        let before = places_of(front, names);
        let last = (nodes.len() - 1) as usize;
        nodes_are_found_by_name(front, names, place);
        assert forall|i: int| 0 <= i < before.len() implies before[i] < last by {
            nodes_are_found_by_name(front, names, before[i]);
            assert(before.contains(before[i]));
        }
        let grown = before.push(last);
        assert(grown.contains(place) <==> before.contains(place) || place == last) by {
            assert(grown[before.len() as int] == last);
            if before.contains(place) {
                assert(grown[before.index_of(place)] == place);
            }
        }
        if place < last {
            assert(front[place as int] == nodes[place as int]);
        }
    }
}

proof fn lemma_even(len: nat, maximum: nat)
    requires
        maximum > 0,
    ensures
        part_size(len, maximum) == (len + maximum - 1) / (maximum as int),
{
    let n = len as int;
    let m = maximum as int;
    vstd::arithmetic::div_mod::lemma_fundamental_div_mod(n, m);
    let q = n / m;
    let r = n % m;
    if r == 0 {
        assert(n + m - 1 == q * m + (m - 1)) by (nonlinear_arith)
            requires
                n == m * q + r,
                r == 0,
        ;
        vstd::arithmetic::div_mod::lemma_fundamental_div_mod_converse(n + m - 1, m, q, m - 1);
    } else {
        assert(n + m - 1 == (q + 1) * m + (r - 1)) by (nonlinear_arith)
            requires
                n == m * q + r,
        ;
        vstd::arithmetic::div_mod::lemma_fundamental_div_mod_converse(n + m - 1, m, q + 1, r - 1);
    }
}

/// Parts are as even as they can be: each holds as many items as the list has for each part, rounded
/// up, until there are none left.
pub proof fn parts_are_even<T>(list: Seq<T>, part: Partitions, i: int)
    requires
        1 <= part.current <= part.maximum,
        list.len() > 0,
    ensures
        ({
            let size = (list.len() + part.maximum - 1) / (part.maximum as int);
            let from = (part.current - 1) * size;
            &&& from >= list.len() ==> part_of(list, part).len() == 0
            &&& from < list.len() ==> part_of(list, part).len() == if list.len() - from < size {
                list.len() - from
            } else {
                size
            }
            &&& 0 <= i < part_of(list, part).len() ==> part_of(list, part)[i] == list[from + i]
        }),
{
    lemma_even(list.len(), part.maximum as nat);
    let size = part_size(list.len(), part.maximum as nat) as int;
    let before = part.current - 1;
    assert((before + 1) * size == before * size + size) by (nonlinear_arith);
    assert(before * size >= 0) by (nonlinear_arith)
        requires
            before >= 0,
            size >= 0,
    ;
}

/// Every result is told under its node, in order: a node that succeeded among the successes, one that
/// failed with its error.
pub proof fn results_are_told_in_order(
    results: Seq<(Name, Result<(), HiveLibError>)>,
    name: Name,
    error: HiveLibError,
)
    ensures
        successes(results.push((name, Ok(())))) == successes(results).push(name),
        failures(results.push((name, Ok(())))) == failures(results),
        successes(results.push((name, Err(error)))) == successes(results),
        failures(results.push((name, Err(error)))) == failures(results).push(
            NodeError(name, error),
        ),
        successes(Seq::empty()).len() == 0,
        failures(Seq::empty()).len() == 0,
{
    assert(results.push((name, Ok(()))).drop_last() =~= results);
    assert(results.push((name, Err(error))).drop_last() =~= results);
}

/// The targets of a text are its words, each by itself.
pub proof fn targets_are_words(a: Seq<char>, w: char, b: Seq<char>, inputs: Seq<Seq<char>>)
    requires
        is_white_space(w),
    ensures
        targets_in(a.push(w) + b) == targets_in(a) + targets_in(b),
        a.len() > 0 && (forall|k: int| 0 <= k < a.len() ==> !is_white_space(#[trigger] a[k]))
            ==> targets_in(a) == seq![target_of(a)],
        targets_in(Seq::empty()).len() == 0,
        all_targets_in(inputs.push(a)) == all_targets_in(inputs) + targets_in(a),
        all_targets_in(Seq::empty()).len() == 0,
{
    words_stand_between_white_space(a, w, b);
    let each = |word: Seq<char>| target_of(word);
    assert((words(a) + words(b)).map_values(each) =~= words(a).map_values(each) + words(
        b,
    ).map_values(each));
    assert(seq![a].map_values(each) =~= seq![target_of(a)]);
    assert(inputs.push(a).drop_last() =~= inputs);
}

/// Tags are taken from tags, and names from names, in order.
pub proof fn tags_and_names_are_taken_apart(targets: Seq<ApplyTargetView>, text: Seq<char>)
    ensures
        tags_in(targets.push(ApplyTargetView::Tag(text))) == tags_in(targets).push(text),
        names_in(targets.push(ApplyTargetView::Tag(text))) == names_in(targets),
        tags_in(targets.push(ApplyTargetView::Node(text))) == tags_in(targets),
        names_in(targets.push(ApplyTargetView::Node(text))) == names_in(targets).push(text),
        tags_in(targets.push(ApplyTargetView::Stdin)) == tags_in(targets),
        names_in(targets.push(ApplyTargetView::Stdin)) == names_in(targets),
        tags_in(Seq::empty()).len() == 0,
        names_in(Seq::empty()).len() == 0,
{
    assert(targets.push(ApplyTargetView::Tag(text)).drop_last() =~= targets);
    assert(targets.push(ApplyTargetView::Node(text)).drop_last() =~= targets);
    assert(targets.push(ApplyTargetView::Stdin).drop_last() =~= targets);
}

/// The user is told where only a part of the nodes is worked on, how many nodes succeeded, and
/// how many failed, where there are any.
pub proof fn users_are_told_how_it_went(
    selected: usize,
    kept: usize,
    note: Option<String>,
    outcome: &Outcome,
    told: Option<String>,
    error: &NodeError,
    shown: String,
)
    ensures
        call_ensures(partition_note, (selected, kept), note) ==> {
            &&& note is None <==> selected == kept
            &&& selected != kept ==> note->0@
                == "Partitioning reduced selected number of nodes from "@ + decimal(
                selected as nat,
            ) + " to "@ + decimal(kept as nat)
        },
        call_ensures(Outcome::success_text, (outcome,), told) ==> {
            &&& told is None <==> outcome.successful@.len() == 0
            &&& outcome.successful@.len() > 0 ==> told->0@ == "Successfully applied goal to "@
                + decimal(outcome.successful@.len()) + " node(s): ["@ + joined(
                Seq::new(outcome.successful@.len(), |i: int| quoted(outcome.successful@[i]@)),
                ", "@,
            ) + "]"@
        },
        call_ensures(Outcome::error_text, (outcome,), told) ==> {
            &&& told is None <==> outcome.errors@.len() == 0
            &&& outcome.errors@.len() > 0 ==> told->0@ == decimal(outcome.errors@.len())
                + " node(s) failed to apply."@
        },
        call_ensures(NodeError::to_string, (error,), shown) ==> shown@ == "node "@ + error.0@
            + " failed to apply"@,
{
    assert(Seq::new(outcome.successful@.len(), |i: int| quoted(outcome.successful@[i]@))
        =~= quoted_names(outcome.successful@));
}

} // verus!
