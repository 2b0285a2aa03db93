//! Which nodes a command works on, and what it comes to.
use crate::cli::{
    target_of, target_views, ApplyTarget, ApplyTargetView, CommonVerbArgs, Partitions,
};
use crate::errors::HiveLibError;
use crate::hive::inventory::{names_of, node_views, Nodes};
use crate::hive::node::{Name, Node, NodeView};
use crate::modifiers::SubCommandModifiers;
use crate::sets::{lists, members};
use crate::text::{
    decimal, decimal_of, holds_text, join, joined, le, quote, quoted, split_whitespace, text_le,
    text_le_is_total, text_le_is_transitive, texts, words,
};
use vstd::prelude::*;
use vstd::slice::slice_subrange;

verus! {

/// The texts of names.
pub open spec fn name_texts(v: Seq<Name>) -> Seq<Seq<char>> {
    v.map_values(|name: Name| name@)
}

/// The tags among targets.
pub open spec fn tags_in(targets: Seq<ApplyTargetView>) -> Seq<Seq<char>>
    decreases targets.len(),
{
    if targets.len() == 0 {
        Seq::empty()
    } else {
        match targets.last() {
            ApplyTargetView::Tag(tag) => tags_in(targets.drop_last()).push(tag),
            _ => tags_in(targets.drop_last()),
        }
    }
}

/// The names of nodes among targets.
pub open spec fn names_in(targets: Seq<ApplyTargetView>) -> Seq<Seq<char>>
    decreases targets.len(),
{
    if targets.len() == 0 {
        Seq::empty()
    } else {
        match targets.last() {
            ApplyTargetView::Node(name) => names_in(targets.drop_last()).push(name),
            _ => names_in(targets.drop_last()),
        }
    }
}

proof fn what_stands_among_targets(targets: Seq<ApplyTargetView>, text: Seq<char>)
    ensures
        tags_in(targets).contains(text) <==> targets.contains(ApplyTargetView::Tag(text)),
        names_in(targets).contains(text) <==> targets.contains(ApplyTargetView::Node(text)),
    decreases targets.len(),
{
    if targets.len() > 0 {
        let front = targets.drop_last();
        what_stands_among_targets(front, text);
        let tag = ApplyTargetView::Tag(text);
        let node = ApplyTargetView::Node(text);
        contains_in_front_or_last(targets, tag);
        contains_in_front_or_last(targets, node);
        match targets.last() {
            ApplyTargetView::Tag(last) => {
                assert(tags_in(targets).drop_last() =~= tags_in(front));
                contains_in_front_or_last(tags_in(targets), text);
            },
            ApplyTargetView::Node(last) => {
                assert(names_in(targets).drop_last() =~= names_in(front));
                contains_in_front_or_last(names_in(targets), text);
            },
            ApplyTargetView::Stdin => {},
        }
    }
}

proof fn contains_in_front_or_last<T>(s: Seq<T>, x: T)
    requires
        s.len() > 0,
    ensures
        s.contains(x) <==> s.drop_last().contains(x) || s.last() == x,
{
    if s.contains(x) {
        let i = choose|i: int| 0 <= i < s.len() && s[i] == x;
        if i < s.len() - 1 {
            assert(s.drop_last()[i] == x);
        }
    }
    if s.drop_last().contains(x) {
        let i = choose|i: int| 0 <= i < s.len() - 1 && s.drop_last()[i] == x;
        assert(s[i] == x);
    }
}

/// The targets that a text names, separated by white space.
pub open spec fn targets_in(text: Seq<char>) -> Seq<ApplyTargetView> {
    words(text).map_values(|word: Seq<char>| target_of(word))
}

/// Takes the tags and names out of what was read from the standard input. A `-` in it means
/// nothing.
pub fn read_apply_targets_from_stdin(buf: &str) -> (r: (Vec<String>, Vec<Name>))
    ensures
        texts(r.0@) == tags_in(targets_in(buf@)),
        name_texts(r.1@) == names_in(targets_in(buf@)),
{
    let found = split_whitespace(buf);
    let mut tags: Vec<String> = Vec::new();
    let mut names: Vec<Name> = Vec::new();
    let ghost targets = targets_in(buf@);
    assert(texts(tags@) =~= tags_in(targets.take(0)));
    assert(name_texts(names@) =~= names_in(targets.take(0)));
    for i in 0..found.len()
        invariant
            texts(found@) == words(buf@),
            targets == targets_in(buf@),
            texts(tags@) == tags_in(targets.take(i as int)),
            name_texts(names@) == names_in(targets.take(i as int)),
    {
        let ghost earlier_tags = texts(tags@);
        let ghost earlier_names = name_texts(names@);
        let target = ApplyTarget::from(found[i].clone());
        proof {
            assert(texts(found@)[i as int] == found@[i as int]@);
            assert(target@ == targets[i as int]);
            assert(targets.take(i + 1).drop_last() =~= targets.take(i as int));
            assert(targets.take(i + 1).last() == target@);
        }
        match target {
            ApplyTarget::Node(name) => {
                names.push(name);
                assert(name_texts(names@) =~= earlier_names.push(name@));
            },
            ApplyTarget::Tag(tag) => {
                tags.push(tag);
                assert(texts(tags@) =~= earlier_tags.push(tag@));
            },
            ApplyTarget::Stdin => {},
        }
    }
    assert(targets.take(found@.len() as int) =~= targets) by {
        assert(texts(found@).len() == targets.len());
    }
    (tags, names)
}

/// The targets that a number of texts name.
pub open spec fn all_targets_in(inputs: Seq<Seq<char>>) -> Seq<ApplyTargetView>
    decreases inputs.len(),
{
    if inputs.len() == 0 {
        Seq::empty()
    } else {
        all_targets_in(inputs.drop_last()) + targets_in(inputs.last())
    }
}

/// Tells whether a list holds a name.
pub fn holds_name(list: &Vec<Name>, name: &str) -> (r: bool)
    ensures
        r == name_texts(list@).contains(name@),
{
    for i in 0..list.len()
        invariant
            forall|j: int| 0 <= j < i ==> list@[j]@ != name@,
    {
        if crate::text::same(list[i].0.as_str(), name) {
            assert(name_texts(list@)[i as int] == name@);
            return true;
        }
    }
    assert(!name_texts(list@).contains(name@));
    false
}

fn insert_tag(tags: &mut Vec<String>, tag: String)
    requires
        texts(old(tags)@).no_duplicates(),
    ensures
        texts(final(tags)@).no_duplicates(),
        forall|t: Seq<char>| #[trigger]
            texts(final(tags)@).contains(t) <==> texts(old(tags)@).contains(t) || t == tag@,
{
    let ghost before = texts(tags@);
    if !holds_text(tags, tag.as_str()) {
        tags.push(tag);
        assert(texts(tags@) =~= before.push(tag@));
        assert forall|t: Seq<char>| #[trigger] texts(tags@).contains(t) <==> before.contains(t) || t
            == tag@ by {
            assert(texts(tags@).drop_last() =~= before);
            contains_in_front_or_last(texts(tags@), t);
        }
    }
}

fn insert_name(names: &mut Vec<Name>, name: Name)
    requires
        name_texts(old(names)@).no_duplicates(),
    ensures
        name_texts(final(names)@).no_duplicates(),
        forall|t: Seq<char>| #[trigger]
            name_texts(final(names)@).contains(t) <==> name_texts(old(names)@).contains(t) || t
                == name@,
{
    let ghost before = name_texts(names@);
    if !holds_name(names, name.0.as_str()) {
        names.push(name);
        assert(name_texts(names@) =~= before.push(name@));
        assert forall|t: Seq<char>| #[trigger] name_texts(names@).contains(t) <==> before.contains(
            t,
        ) || t == name@ by {
            assert(name_texts(names@).drop_last() =~= before);
            contains_in_front_or_last(name_texts(names@), t);
        }
    }
}

/// Whether these are the tags and names among targets, each once.
pub open spec fn is_resolved(
    tags: Seq<Seq<char>>,
    names: Seq<Seq<char>>,
    targets: Seq<ApplyTargetView>,
) -> bool {
    &&& tags.no_duplicates()
    &&& names.no_duplicates()
    &&& forall|t: Seq<char>| #[trigger]
        tags.contains(t) <==> targets.contains(ApplyTargetView::Tag(t))
    &&& forall|t: Seq<char>| #[trigger]
        names.contains(t) <==> targets.contains(ApplyTargetView::Node(t))
}

fn insert_read(
    tags: &mut Vec<String>,
    names: &mut Vec<Name>,
    input: &str,
    Ghost(targets): Ghost<Seq<ApplyTargetView>>,
)
    requires
        is_resolved(texts(old(tags)@), name_texts(old(names)@), targets),
    ensures
        is_resolved(texts(final(tags)@), name_texts(final(names)@), targets + targets_in(input@)),
{
    let (found_tags, found_names) = read_apply_targets_from_stdin(input);
    let ghost read = targets_in(input@);
    let ghost tags_before = texts(tags@);
    let ghost names_before = name_texts(names@);
    for i in 0..found_tags.len()
        invariant
            texts(tags@).no_duplicates(),
            forall|t: Seq<char>| #[trigger]
                texts(tags@).contains(t) <==> tags_before.contains(t) || texts(
                    found_tags@,
                ).take(i as int).contains(t),
    {
        proof {
            let longer = texts(found_tags@).take(i + 1);
            assert forall|t: Seq<char>| #[trigger] longer.contains(t) <==> texts(found_tags@).take(
                i as int,
            ).contains(t) || t == found_tags@[i as int]@ by {
                assert(longer.drop_last() =~= texts(found_tags@).take(i as int));
                contains_in_front_or_last(longer, t);
            }
        }
        insert_tag(tags, found_tags[i].clone());
    }
    for i in 0..found_names.len()
        invariant
            name_texts(names@).no_duplicates(),
            forall|t: Seq<char>| #[trigger]
                name_texts(names@).contains(t) <==> names_before.contains(t) || name_texts(
                    found_names@,
                ).take(i as int).contains(t),
    {
        proof {
            let longer = name_texts(found_names@).take(i + 1);
            assert forall|t: Seq<char>| #[trigger] longer.contains(t) <==> name_texts(
                found_names@,
            ).take(i as int).contains(t) || t == found_names@[i as int]@ by {
                assert(longer.drop_last() =~= name_texts(found_names@).take(i as int));
                contains_in_front_or_last(longer, t);
            }
        }
        insert_name(names, found_names[i].clone());
    }
    proof {
        assert(texts(found_tags@).take(found_tags@.len() as int) =~= texts(found_tags@));
        assert(name_texts(found_names@).take(found_names@.len() as int) =~= name_texts(
            found_names@,
        ));
        assert forall|t: Seq<char>| #[trigger]
            texts(tags@).contains(t) <==> (targets + read).contains(ApplyTargetView::Tag(t)) by {
            what_stands_among_targets(read, t);
            contains_in_either(targets, read, ApplyTargetView::Tag(t));
        }
        assert forall|t: Seq<char>| #[trigger]
            name_texts(names@).contains(t) <==> (targets + read).contains(
                ApplyTargetView::Node(t),
            ) by {
            what_stands_among_targets(read, t);
            contains_in_either(targets, read, ApplyTargetView::Node(t));
        }
    }
}

proof fn contains_in_either<T>(a: Seq<T>, b: Seq<T>, x: T)
    ensures
        (a + b).contains(x) <==> a.contains(x) || b.contains(x),
{
    if (a + b).contains(x) {
        let i = choose|i: int| 0 <= i < (a + b).len() && (a + b)[i] == x;
        if i < a.len() {
            assert(a[i] == x);
        } else {
            assert(b[i - a.len()] == x);
        }
    }
    if a.contains(x) {
        let i = choose|i: int| 0 <= i < a.len() && a[i] == x;
        assert((a + b)[i] == x);
    }
    if b.contains(x) {
        let i = choose|i: int| 0 <= i < b.len() && b[i] == x;
        assert((a + b)[a.len() + i] == x);
    }
}

/// Finds out which tags and which nodes are meant. `inputs` is what was read from the standard
/// input, once for each `-`; any `-` means that there is nobody to ask.
pub fn resolve_targets(
    on: &Vec<ApplyTarget>,
    inputs: &Vec<String>,
    modifiers: &mut SubCommandModifiers,
) -> (r: (Vec<String>, Vec<Name>))
    ensures
        is_resolved(
            texts(r.0@),
            name_texts(r.1@),
            target_views(on@) + all_targets_in(texts(inputs@)),
        ),
        *final(modifiers) == (SubCommandModifiers {
            non_interactive: old(modifiers).non_interactive || target_views(on@).contains(
                ApplyTargetView::Stdin,
            ),
            ..*old(modifiers)
        }),
{
    let mut tags: Vec<String> = Vec::new();
    let mut names: Vec<Name> = Vec::new();
    let ghost meant = target_views(on@);
    assert(is_resolved(texts(tags@), name_texts(names@), meant.take(0)));
    for i in 0..on.len()
        invariant
            meant == target_views(on@),
            is_resolved(texts(tags@), name_texts(names@), meant.take(i as int)),
            *modifiers == (SubCommandModifiers {
                non_interactive: old(modifiers).non_interactive || meant.take(i as int).contains(
                    ApplyTargetView::Stdin,
                ),
                ..*old(modifiers)
            }),
    {
        proof {
            let longer = meant.take(i + 1);
            assert forall|x: ApplyTargetView| #[trigger] longer.contains(x) <==> meant.take(
                i as int,
            ).contains(x) || x == on@[i as int]@ by {
                assert(longer.drop_last() =~= meant.take(i as int));
                contains_in_front_or_last(longer, x);
            }
        }
        match &on[i] {
            ApplyTarget::Tag(tag) => insert_tag(&mut tags, tag.clone()),
            ApplyTarget::Node(name) => insert_name(&mut names, name.clone()),
            ApplyTarget::Stdin => {
                modifiers.non_interactive = true;
            },
        }
    }
    assert(meant.take(on@.len() as int) =~= meant);
    let ghost read = texts(inputs@);
    assert(meant + all_targets_in(read.take(0)) =~= meant);
    for i in 0..inputs.len()
        invariant
            read == texts(inputs@),
            is_resolved(
                texts(tags@),
                name_texts(names@),
                meant + all_targets_in(read.take(i as int)),
            ),
    {
        insert_read(
            &mut tags,
            &mut names,
            inputs[i].as_str(),
            Ghost(meant + all_targets_in(read.take(i as int))),
        );
        proof {
            assert(read.take(i + 1).drop_last() =~= read.take(i as int));
            assert(meant + all_targets_in(read.take(i as int)) + targets_in(read[i as int]) =~= meant
                + all_targets_in(read.take(i + 1)));
        }
    }
    assert(read.take(inputs@.len() as int) =~= read);
    (tags, names)
}

/// Whether a node is meant: by nothing in particular, by its name, or by one of its tags.
pub open spec fn is_meant(
    everything: bool,
    tags: Seq<Seq<char>>,
    names: Seq<Seq<char>>,
    name: Seq<char>,
    node: NodeView,
) -> bool {
    everything || names.contains(name) || exists|tag: Seq<char>| #[trigger]
        node.tags.contains(tag) && tags.contains(tag)
}

/// The nodes that are meant.
pub open spec fn meant_nodes(
    nodes: Nodes,
    everything: bool,
    tags: Seq<Seq<char>>,
    names: Seq<Seq<char>>,
) -> Nodes {
    nodes.filter(|entry: (Seq<char>, NodeView)| is_meant(everything, tags, names, entry.0, entry.1))
}

fn is_node_meant(
    everything: bool,
    tags: &Vec<String>,
    names: &Vec<Name>,
    name: &Name,
    node: &Node,
) -> (r: bool)
    ensures
        r == is_meant(everything, texts(tags@), name_texts(names@), name@, node@),
{
    if everything || holds_name(names, name.0.as_str()) {
        return true;
    }
    let own = members(&node.tags);
    for i in 0..own.len()
        invariant
            lists(texts(own@), node@.tags),
            forall|j: int| 0 <= j < i ==> !texts(tags@).contains(#[trigger] texts(own@)[j]),
    {
        if holds_text(tags, own[i].as_str()) {
            assert(texts(own@).contains(texts(own@)[i as int]));
            assert(node@.tags.contains(own@[i as int]@));
            return true;
        }
    }
    assert forall|tag: Seq<char>| #[trigger] node@.tags.contains(tag) implies !texts(
        tags@,
    ).contains(tag) by {
        assert(texts(own@).contains(tag));
        let j = texts(own@).index_of(tag);
        assert(texts(own@)[j] == tag);
    }
    false
}

/// Whether names are in order.
pub open spec fn in_order(names: Seq<Seq<char>>) -> bool {
    forall|i: int, j: int|
        0 <= i < j < names.len() ==> text_le(#[trigger] names[i], #[trigger] names[j])
}

/// Puts a name in its place.
fn insert_in_order(names: &mut Vec<Name>, name: Name)
    requires
        in_order(name_texts(old(names)@)),
    ensures
        in_order(name_texts(final(names)@)),
        name_texts(final(names)@).to_multiset() == name_texts(old(names)@).to_multiset().insert(
            name@,
        ),
{
    let ghost before = name_texts(names@);
    let mut place: usize = 0;
    while place < names.len() && le(names[place].0.as_str(), name.0.as_str())
        invariant
            before == name_texts(names@),
            place <= names@.len(),
            forall|j: int| 0 <= j < place ==> text_le(#[trigger] before[j], name@),
        decreases names@.len() - place,
    {
        assert(before[place as int] == names@[place as int]@);
        place = place + 1;
    }
    names.insert(place, name);
    proof {
        let after = name_texts(names@);
        assert(after =~= before.insert(place as int, name@));
        vstd::seq_lib::to_multiset_insert(before, place as int, name@);
        assert forall|i: int, j: int| 0 <= i < j < after.len() implies text_le(
            #[trigger] after[i],
            #[trigger] after[j],
        ) by {
            if place < before.len() {
                text_le_is_total(before[place as int], name@);
                if j > place {
                    if j - 1 > place {
                        assert(text_le(before[place as int], before[j - 1]));
                    }
                    if i == place {
                        text_le_is_total(name@, name@);
                        if j - 1 > place {
                            text_le_is_transitive(name@, before[place as int], before[j - 1]);
                        }
                    }
                }
            }
        }
    }
}

/// Lists the names of the nodes that are meant, in order.
pub fn select_names(
    nodes: &Vec<(Name, Node)>,
    everything: bool,
    tags: &Vec<String>,
    names: &Vec<Name>,
) -> (r: Vec<Name>)
    ensures
        in_order(name_texts(r@)),
        name_texts(r@).to_multiset() == names_of(
            meant_nodes(node_views(nodes@), everything, texts(tags@), name_texts(names@)),
        ).to_multiset(),
{
    let mut r: Vec<Name> = Vec::new();
    let ghost views = node_views(nodes@);
    let ghost meant = |entry: (Seq<char>, NodeView)|
        is_meant(everything, texts(tags@), name_texts(names@), entry.0, entry.1);
    proof {
        reveal(Seq::filter);
        assert(name_texts(r@) =~= names_of(views.take(0).filter(meant)));
    }
    for i in 0..nodes.len()
        invariant
            views == node_views(nodes@),
            meant == |entry: (Seq<char>, NodeView)|
                is_meant(everything, texts(tags@), name_texts(names@), entry.0, entry.1),
            in_order(name_texts(r@)),
            name_texts(r@).to_multiset() == names_of(
                views.take(i as int).filter(meant),
            ).to_multiset(),
    {
        let ghost entry = views[i as int];
        let ghost chosen = views.take(i as int).filter(meant);
        proof {
            reveal(Seq::filter);
            assert(views.take(i + 1).drop_last() =~= views.take(i as int));
            assert(views.take(i + 1).last() == entry);
            assert(names_of(chosen.push(entry)) =~= names_of(chosen).push(entry.0));
            vstd::seq_lib::to_multiset_build(names_of(chosen), entry.0);
        }
        if is_node_meant(everything, tags, names, &nodes[i].0, &nodes[i].1) {
            insert_in_order(&mut r, nodes[i].0.clone());
        }
    }
    assert(views.take(views.len() as int) =~= views);
    r
}

/// How many items a part holds, unless it is the last that holds any.
pub open spec fn part_size(len: nat, maximum: nat) -> nat {
    if len % maximum == 0 {
        len / maximum
    } else {
        len / maximum + 1
    }
}

/// Where the first `count` parts end.
pub open spec fn parts_end(len: nat, maximum: nat, count: nat) -> nat {
    if count * part_size(len, maximum) < len {
        count * part_size(len, maximum)
    } else {
        len
    }
}

/// How many parts come before the one that is meant.
pub open spec fn parts_before(partition: Partitions) -> nat {
    if partition.current > 0 {
        (partition.current - 1) as nat
    } else {
        0
    }
}

/// The part of a list that is meant.
pub open spec fn part_of<T>(list: Seq<T>, partition: Partitions) -> Seq<T> {
    list.subrange(
        parts_end(list.len(), partition.maximum as nat, parts_before(partition)) as int,
        parts_end(list.len(), partition.maximum as nat, parts_before(partition) + 1) as int,
    )
}

/// Cuts the part that is meant out of a list.
pub fn partition_slice<'a, T>(arr: &'a [T], partition: &Partitions) -> (r: &'a [T])
    requires
        arr@.len() > 0 ==> partition.maximum > 0,
    ensures
        r@ == part_of(arr@, *partition),
{
    if arr.len() == 0 {
        assert(part_of(arr@, *partition) =~= arr@);
        return arr;
    }
    let len: usize = arr.len();
    let whole: usize = len / partition.maximum;
    proof {
        assert(len as nat % partition.maximum as nat == (len % partition.maximum) as nat);
        vstd::arithmetic::div_mod::lemma_fundamental_div_mod(len as int, partition.maximum as int);
        assert(whole <= len) by (nonlinear_arith)
            requires
                len == partition.maximum * whole + len % partition.maximum,
                len % partition.maximum >= 0,
                partition.maximum >= 1,
        ;
        if len % partition.maximum != 0 {
            assert(whole < len) by (nonlinear_arith)
                requires
                    len == partition.maximum * whole + len % partition.maximum,
                    len % partition.maximum > 0,
                    partition.maximum >= 1,
            ;
        }
    }
    let items_per_chunk: usize = if len % partition.maximum == 0 {
        whole
    } else {
        whole + 1
    };
    let chunk_index: usize = if partition.current > 0 {
        partition.current - 1
    } else {
        0
    };
    proof {
        assert((chunk_index + 1) * items_per_chunk == chunk_index * items_per_chunk
            + items_per_chunk) by (nonlinear_arith);
    }
    let start: usize = match chunk_index.checked_mul(items_per_chunk) {
        Some(start) => start,
        None => len,
    };
    if start >= len {
        return slice_subrange(arr, len, len);
    }
    let end: usize = if items_per_chunk > len - start {
        len
    } else {
        start + items_per_chunk
    };
    slice_subrange(arr, start, end)
}

/// The first `count` parts of a list, one after the other.
pub open spec fn first_parts<T>(list: Seq<T>, maximum: usize, count: nat) -> Seq<T>
    decreases count,
{
    if count == 0 {
        Seq::empty()
    } else {
        first_parts(list, maximum, (count - 1) as nat) + part_of(
            list,
            Partitions { current: count as usize, maximum },
        )
    }
}

proof fn first_parts_end_there<T>(list: Seq<T>, maximum: usize, count: nat)
    requires
        maximum > 0,
        count <= maximum,
    ensures
        first_parts(list, maximum, count) == list.take(
            parts_end(list.len(), maximum as nat, count) as int,
        ),
    decreases count,
{
    let size = part_size(list.len(), maximum as nat);
    if count > 0 {
        first_parts_end_there(list, maximum, (count - 1) as nat);
        assert(count * size == (count - 1) * size + size) by (nonlinear_arith);
        let before = parts_end(list.len(), maximum as nat, (count - 1) as nat) as int;
        let end = parts_end(list.len(), maximum as nat, count) as int;
        assert(list.take(before) + list.subrange(before, end) =~= list.take(end));
    } else {
        assert(0 * size == 0) by (nonlinear_arith);
    }
}

/// The parts of a list make up the list: nothing is in two of them, nothing is left out, and
/// nothing changes its place.
pub proof fn parts_make_up_the_list<T>(list: Seq<T>, maximum: usize)
    requires
        maximum > 0,
    ensures
        first_parts(list, maximum, maximum as nat) == list,
{
    first_parts_end_there(list, maximum, maximum as nat);
    let len = list.len() as int;
    let parts = maximum as int;
    let size = part_size(list.len(), maximum as nat) as int;
    vstd::arithmetic::div_mod::lemma_fundamental_div_mod(len, parts);
    assert(parts * size >= len) by (nonlinear_arith)
        requires
            len == parts * (len / parts) + len % parts,
            0 <= len % parts < parts,
            size == len / parts && len % parts == 0 || size == len / parts + 1,
            parts >= 1,
    ;
    assert(list.take(len) =~= list);
}

/// Alone, a part is the whole list.
pub proof fn one_part_is_everything<T>(list: Seq<T>)
    ensures
        part_of(list, (Partitions { current: 1, maximum: 1 })) == list,
{
    parts_make_up_the_list(list, 1);
    let part = part_of(list, Partitions { current: 1, maximum: 1 });
    reveal_with_fuel(first_parts, 2);
    assert(Seq::<T>::empty() + part =~= part);
}

/// What the user is told where parts were left out.
pub fn partition_note(selected: usize, kept: usize) -> (r: Option<String>)
    ensures
        match r {
            Some(text) => selected != kept && text@
                == "Partitioning reduced selected number of nodes from "@ + decimal(
                selected as nat,
            ) + " to "@ + decimal(kept as nat),
            None => selected == kept,
        },
{
    if selected != kept {
        let mut text = "Partitioning reduced selected number of nodes from ".to_owned();
        text.push_str(decimal_of(selected as u64).as_str());
        text.push_str(" to ");
        text.push_str(decimal_of(kept as u64).as_str());
        Some(text)
    } else {
        None
    }
}

/// Where the nodes of these names stand.
pub open spec fn places_of(nodes: Nodes, names: Seq<Seq<char>>) -> Seq<usize>
    decreases nodes.len(),
{
    if nodes.len() == 0 {
        Seq::empty()
    } else {
        let front = places_of(nodes.drop_last(), names);
        if names.contains(nodes.last().0) {
            front.push((nodes.len() - 1) as usize)
        } else {
            front
        }
    }
}

/// Finds the nodes of these names. Where there is none, nothing is deployed.
pub fn find_nodes(nodes: &Vec<(Name, Node)>, names: &[Name]) -> (r: Vec<usize>)
    ensures
        r@ == places_of(node_views(nodes@), name_texts(names@)),
{
    let mut r: Vec<usize> = Vec::new();
    let ghost views = node_views(nodes@);
    assert(r@ =~= places_of(views.take(0), name_texts(names@)));
    for i in 0..nodes.len()
        invariant
            views == node_views(nodes@),
            r@ == places_of(views.take(i as int), name_texts(names@)),
    {
        proof {
            assert(views.take(i + 1).drop_last() =~= views.take(i as int));
            assert(views.take(i + 1).last() == views[i as int]);
        }
        let mut found = false;
        for j in 0..names.len()
            invariant
                i < nodes@.len(),
                found == exists|k: int|
                    0 <= k < j && #[trigger] name_texts(names@)[k] == nodes@[i as int].0@,
        {
            if crate::text::same(names[j].0.as_str(), nodes[i].0.0.as_str()) {
                assert(name_texts(names@)[j as int] == nodes@[i as int].0@);
                found = true;
            }
        }
        if found {
            r.push(i);
        }
    }
    assert(views.take(views.len() as int) =~= views);
    r
}

/// Which nodes a command works on.
#[derive(Debug)]
pub struct Selection {
    /// The names of all nodes that are meant.
    pub selected: Vec<Name>,
    /// Those in the part that is meant.
    pub names: Vec<Name>,
    /// Where the latter stand in the hive.
    pub places: Vec<usize>,
}

fn copy_names(list: &[Name]) -> (r: Vec<Name>)
    ensures
        r@ == list@,
{
    let mut r: Vec<Name> = Vec::new();
    for i in 0..list.len()
        invariant
            r@ == list@.take(i as int),
    {
        r.push(list[i].clone());
        assert(r@ =~= list@.take(i + 1));
    }
    assert(list@.take(list@.len() as int) =~= list@);
    r
}

/// Finds out which nodes of a hive a command works on: those that its targets mean, or all where it
/// has none, cut down to a part of them. What was read from the standard input is in `inputs`.
pub fn select_nodes(
    nodes: &Vec<(Name, Node)>,
    args: &CommonVerbArgs,
    inputs: &Vec<String>,
    partition: &Partitions,
    modifiers: &mut SubCommandModifiers,
) -> (r: Selection)
    requires
        partition.maximum > 0 || forall|i: int|
            0 <= i < nodes@.len() ==> !is_targeted(
                #[trigger] node_views(nodes@)[i],
                args.on@.len() == 0,
                target_views(args.on@) + all_targets_in(texts(inputs@)),
            ),
    ensures
        *final(modifiers) == (SubCommandModifiers {
            non_interactive: old(modifiers).non_interactive || target_views(args.on@).contains(
                ApplyTargetView::Stdin,
            ),
            ..*old(modifiers)
        }),
        is_selection(
            name_texts(r.selected@),
            node_views(nodes@),
            args.on@.len() == 0,
            target_views(args.on@) + all_targets_in(texts(inputs@)),
        ),
        r.names@ == part_of(r.selected@, *partition),
        r.places@ == places_of(node_views(nodes@), name_texts(r.names@)),
{
    let (tags, names) = resolve_targets(&args.on, inputs, modifiers);
    let everything = args.on.len() == 0;
    let selected = select_names(nodes, everything, &tags, &names);
    proof {
        let targets = target_views(args.on@) + all_targets_in(texts(inputs@));
        let listed = name_texts(selected@);
        if selected@.len() > 0 {
            assert(is_selection(listed, node_views(nodes@), everything, targets));
            assert(listed.contains(listed[0]));
            selection_is_what_targets_mean(
                listed,
                node_views(nodes@),
                everything,
                targets,
                listed[0],
            );
        }
    }
    let names_kept = copy_names(partition_slice(selected.as_slice(), partition));
    let places = find_nodes(nodes, names_kept.as_slice());
    Selection { selected, names: names_kept, places }
}

/// Whether these are the names of the nodes that targets mean, in order.
pub open spec fn is_selection(
    selected: Seq<Seq<char>>,
    nodes: Nodes,
    everything: bool,
    targets: Seq<ApplyTargetView>,
) -> bool {
    in_order(selected) && exists|tags: Seq<Seq<char>>, names: Seq<Seq<char>>|
        #![trigger is_resolved(tags, names, targets)]
        is_resolved(tags, names, targets) && selected.to_multiset() == names_of(
            meant_nodes(nodes, everything, tags, names),
        ).to_multiset()
}

/// Whether a node is meant by its name or one of its tags, or because nothing in particular is
/// meant.
pub open spec fn is_targeted(
    entry: (Seq<char>, NodeView),
    everything: bool,
    targets: Seq<ApplyTargetView>,
) -> bool {
    everything || targets.contains(ApplyTargetView::Node(entry.0)) || exists|tag: Seq<char>|
        #[trigger] entry.1.tags.contains(tag) && targets.contains(ApplyTargetView::Tag(tag))
}

/// A node is selected where it is meant by its name or one of its tags, or where nothing in
/// particular is meant.
pub proof fn selection_is_what_targets_mean(
    selected: Seq<Seq<char>>,
    nodes: Nodes,
    everything: bool,
    targets: Seq<ApplyTargetView>,
    name: Seq<char>,
)
    requires
        is_selection(selected, nodes, everything, targets),
    ensures
        selected.contains(name) <==> exists|i: int|
            0 <= i < nodes.len() && (#[trigger] nodes[i]).0 == name && is_targeted(
                nodes[i],
                everything,
                targets,
            ),
{
    let (tags, names) = choose|tags: Seq<Seq<char>>, names: Seq<Seq<char>>|
        #![trigger is_resolved(tags, names, targets)]
        is_resolved(tags, names, targets) && selected.to_multiset() == names_of(
            meant_nodes(nodes, everything, tags, names),
        ).to_multiset();
    let meant = |entry: (Seq<char>, NodeView)| is_meant(everything, tags, names, entry.0, entry.1);
    let chosen = meant_nodes(nodes, everything, tags, names);
    selected.to_multiset_ensures();
    names_of(chosen).to_multiset_ensures();
    assert(selected.to_multiset().count(name) == names_of(chosen).to_multiset().count(name));
    if names_of(chosen).contains(name) {
        let k = choose|k: int| 0 <= k < chosen.len() && names_of(chosen)[k] == name;
        assert(chosen.contains(chosen[k]));
        nodes.lemma_filter_contains_rev(meant, chosen[k]);
        nodes.lemma_filter_pred(meant, k);
        let i = choose|i: int| 0 <= i < nodes.len() && nodes[i] == chosen[k];
        assert(nodes[i].0 == name);
        assert(is_meant(everything, tags, names, nodes[i].0, nodes[i].1));
        if !everything && !names.contains(name) {
            let tag = choose|tag: Seq<char>| #[trigger]
                nodes[i].1.tags.contains(tag) && tags.contains(tag);
            assert(targets.contains(ApplyTargetView::Tag(tag)));
        }
    }
    if exists|i: int|
        0 <= i < nodes.len() && (#[trigger] nodes[i]).0 == name && is_targeted(
            nodes[i],
            everything,
            targets,
        ) {
        let i = choose|i: int|
            0 <= i < nodes.len() && (#[trigger] nodes[i]).0 == name && is_targeted(
                nodes[i],
                everything,
                targets,
            );
        if !everything && !targets.contains(ApplyTargetView::Node(name)) {
            let tag = choose|tag: Seq<char>| #[trigger]
                nodes[i].1.tags.contains(tag) && targets.contains(ApplyTargetView::Tag(tag));
            assert(tags.contains(tag));
        } else if !everything {
            assert(names.contains(name));
        }
        assert(meant(nodes[i]));
        nodes.lemma_filter_contains(meant, i);
        let k = choose|k: int| 0 <= k < chosen.len() && chosen[k] == nodes[i];
        assert(names_of(chosen)[k] == name);
    }
}

/// A node that failed, and why.
#[derive(Debug)]
pub struct NodeError(pub Name, pub HiveLibError);

/// What became of all nodes.
#[derive(Debug)]
pub struct Outcome {
    pub successful: Vec<Name>,
    pub errors: Vec<NodeError>,
}

/// The names of the nodes that succeeded.
pub open spec fn successes(results: Seq<(Name, Result<(), HiveLibError>)>) -> Seq<Name>
    decreases results.len(),
{
    if results.len() == 0 {
        Seq::empty()
    } else if results.last().1 is Ok {
        successes(results.drop_last()).push(results.last().0)
    } else {
        successes(results.drop_last())
    }
}

/// The nodes that failed, and why.
pub open spec fn failures(results: Seq<(Name, Result<(), HiveLibError>)>) -> Seq<NodeError>
    decreases results.len(),
{
    if results.len() == 0 {
        Seq::empty()
    } else {
        match results.last().1 {
            Ok(()) => failures(results.drop_last()),
            Err(error) => failures(results.drop_last()).push(NodeError(results.last().0, error)),
        }
    }
}

/// Tells the nodes that succeeded from those that failed.
pub fn conclude(results: Vec<(Name, Result<(), HiveLibError>)>) -> (r: Outcome)
    ensures
        r.successful@ == successes(results@),
        r.errors@ == failures(results@),
{
    let mut reversed = results;
    let mut left: Vec<(Name, Result<(), HiveLibError>)> = Vec::new();
    let ghost all = results@;
    assert(all.skip(all.len() as int) =~= left@.reverse());
    while reversed.len() > 0
        invariant
            reversed@.len() <= all.len(),
            reversed@ == all.take(reversed@.len() as int),
            left@.reverse() == all.skip(reversed@.len() as int),
        decreases reversed@.len(),
    {
        let ghost count = reversed@.len();
        let ghost gathered = left@;
        if let Some(result) = reversed.pop() {
            left.push(result);
            assert(left@.reverse() =~= seq![result] + gathered.reverse());
            assert(all.skip(count - 1) =~= seq![result] + all.skip(count as int));
            assert(reversed@ =~= all.take(count - 1));
        }
    }
    assert(left@.reverse() =~= all);
    let mut successful: Vec<Name> = Vec::new();
    let mut errors: Vec<NodeError> = Vec::new();
    assert(successful@ =~= successes(all.take(0)));
    assert(errors@ =~= failures(all.take(0)));
    assert(left@ =~= all.skip(0).reverse());
    while left.len() > 0
        invariant
            left@.len() <= all.len(),
            left@ == all.skip(all.len() - left@.len()).reverse(),
            successful@ == successes(all.take(all.len() - left@.len())),
            errors@ == failures(all.take(all.len() - left@.len())),
        decreases left@.len(),
    {
        let ghost done = all.len() - left@.len();
        proof {
            assert(left@.last() == all[done]);
            assert(all.take(done + 1).drop_last() =~= all.take(done));
            assert(all.take(done + 1).last() == all[done]);
            assert(left@.drop_last() =~= all.skip(done + 1).reverse());
        }
        if let Some((name, result)) = left.pop() {
            match result {
                Ok(()) => successful.push(name),
                Err(error) => errors.push(NodeError(name, error)),
            }
        }
    }
    assert(all.take(all.len() as int) =~= all);
    Outcome { successful, errors }
}

/// Every node either succeeded or failed.
pub proof fn every_result_is_told(results: Seq<(Name, Result<(), HiveLibError>)>)
    ensures
        successes(results).len() + failures(results).len() == results.len(),
    decreases results.len(),
{
    if results.len() > 0 {
        every_result_is_told(results.drop_last());
    }
}

/// Each of the names in quotes.
pub open spec fn quoted_names(names: Seq<Name>) -> Seq<Seq<char>> {
    names.map_values(|name: Name| quoted(name@))
}

impl Outcome {
    /// What the user is told of the nodes that succeeded, where there are any.
    pub fn success_text(&self) -> (r: Option<String>)
        ensures
            match r {
                Some(text) => self.successful@.len() > 0 && text@
                    == "Successfully applied goal to "@ + decimal(self.successful@.len())
                    + " node(s): ["@ + joined(quoted_names(self.successful@), ", "@) + "]"@,
                None => self.successful@.len() == 0,
            },
    {
        if self.successful.len() == 0 {
            return None;
        }
        let mut shown: Vec<String> = Vec::new();
        let ghost asked = quoted_names(self.successful@);
        for i in 0..self.successful.len()
            invariant
                asked == quoted_names(self.successful@),
                texts(shown@) == asked.take(i as int),
        {
            let ghost before = texts(shown@);
            shown.push(quote(self.successful[i].0.as_str()));
            assert(texts(shown@) =~= before.push(asked[i as int]));
            assert(asked.take(i + 1) =~= before.push(asked[i as int]));
        }
        assert(asked.take(asked.len() as int) =~= asked);
        let mut text = "Successfully applied goal to ".to_owned();
        text.push_str(decimal_of(self.successful.len() as u64).as_str());
        text.push_str(" node(s): [");
        text.push_str(join(&shown, ", ").as_str());
        text.push_str("]");
        Some(text)
    }

    /// What the user is told of the nodes that failed, where there are any.
    pub fn error_text(&self) -> (r: Option<String>)
        ensures
            match r {
                Some(text) => self.errors@.len() > 0 && text@ == decimal(self.errors@.len())
                    + " node(s) failed to apply."@,
                None => self.errors@.len() == 0,
            },
    {
        if self.errors.len() == 0 {
            return None;
        }
        let mut text = decimal_of(self.errors.len() as u64);
        text.push_str(" node(s) failed to apply.");
        Some(text)
    }
}

impl NodeError {
    /// What the user is told of a node that failed.
    pub fn to_string(&self) -> (s: String)
        ensures
            s@ == "node "@ + self.0@ + " failed to apply"@,
    {
        let mut s = "node ".to_owned();
        s.push_str(self.0.0.as_str());
        s.push_str(" failed to apply");
        s
    }
}

} // verus!
