//! The nodes of a hive.
use crate::errors::{HiveInitialisationError, HiveLibError};
use crate::hive::node::{shown_hosts, Name, Node, NodeView};
use crate::hive::schema::{SchemaVersion, SchemaView};
use crate::hive::steps::keys::{key_text, same_key, Key, KeyView};
use crate::paint::{bold, dimmed, in_bold, in_dim, in_italics, italic};
use crate::sets::{lists, members};
use crate::text::{decimal, decimal_of, join, joined, quote, quoted, same, texts};
use vstd::prelude::*;

verus! {

/// All nodes that can be deployed, each under a name of its own.
#[derive(Debug)]
pub struct Hive {
    pub nodes: Vec<(Name, Node)>,
    pub schema: SchemaVersion,
}

/// Nodes under their names.
pub type Nodes = Seq<(Seq<char>, NodeView)>;

/// What a hive holds.
#[verifier::ext_equal]
pub ghost struct HiveView {
    pub nodes: Nodes,
    pub schema: SchemaView,
}

/// What a list of nodes holds.
pub open spec fn node_views(nodes: Seq<(Name, Node)>) -> Nodes {
    nodes.map_values(|entry: (Name, Node)| (entry.0@, entry.1@))
}

impl View for Hive {
    type V = HiveView;

    open spec fn view(&self) -> HiveView {
        HiveView { nodes: node_views(self.nodes@), schema: self.schema@ }
    }
}

/// The names of nodes.
pub open spec fn names_of(nodes: Nodes) -> Seq<Seq<char>> {
    nodes.map_values(|entry: (Seq<char>, NodeView)| entry.0)
}

/// A node that is built here.
pub open spec fn built_here(node: NodeView) -> NodeView {
    NodeView { build_remotely: false, ..node }
}

/// The nodes, of which those named are built here.
pub open spec fn forced(nodes: Nodes, names: Seq<Seq<char>>) -> Nodes {
    nodes.map_values(
        |entry: (Seq<char>, NodeView)|
            if names.contains(entry.0) {
                (entry.0, built_here(entry.1))
            } else {
                entry
            },
    )
}

/// How many of the names come before the first that no node has.
pub open spec fn known_names(nodes: Nodes, names: Seq<Seq<char>>) -> int
    decreases names.len(),
{
    if names.len() == 0 || !names_of(nodes).contains(names[0]) {
        0
    } else {
        1 + known_names(nodes, names.skip(1))
    }
}

proof fn known_names_grow(nodes: Nodes, names: Seq<Seq<char>>, count: int)
    requires
        0 <= count <= names.len(),
        forall|j: int| 0 <= j < count ==> names_of(nodes).contains(#[trigger] names[j]),
        count == names.len() || !names_of(nodes).contains(names[count]),
    ensures
        known_names(nodes, names) == count,
    decreases names.len(),
{
    if count > 0 {
        let rest = names.skip(1);
        assert(names_of(nodes).contains(names[0]));
        assert forall|j: int| 0 <= j < count - 1 implies names_of(nodes).contains(
            #[trigger] rest[j],
        ) by {
            assert(rest[j] == names[j + 1]);
        }
        if count < names.len() {
            assert(rest[count - 1] == names[count]);
        }
        known_names_grow(nodes, rest, count - 1);
    }
}

impl Hive {
    /// Whether every node has a name of its own.
    pub open spec fn wf(&self) -> bool {
        names_of(self@.nodes).no_duplicates()
    }

    /// Lets the nodes of this name be built here, and tells whether there is one.
    fn force_one(&mut self, name: &str) -> (found: bool)
        ensures
            final(self).schema == old(self).schema,
            final(self)@.nodes == forced(old(self)@.nodes, seq![name@]),
            found == names_of(old(self)@.nodes).contains(name@),
    {
        let ghost before = self@.nodes;
        let mut found = false;
        let count: usize = self.nodes.len();
        for i in 0..count
            invariant
                count == before.len(),
                self.nodes@.len() == before.len(),
                self.schema == old(self).schema,
                found == exists|j: int| 0 <= j < i && #[trigger] before[j].0 == name@,
                forall|j: int|
                    0 <= j < i ==> #[trigger] self@.nodes[j] == forced(before, seq![name@])[j],
                forall|j: int| i <= j < before.len() ==> #[trigger] self@.nodes[j] == before[j],
        {
            let ghost held = self@.nodes;
            let is_meant = same(self.nodes[i].0.0.as_str(), name);
            assert(held[i as int] == before[i as int]);
            assert(seq![name@].contains(before[i as int].0) == (before[i as int].0 == name@)) by {
                assert(seq![name@][0] == name@);
            }
            if is_meant {
                found = true;
                self.nodes[i].1.build_remotely = false;
                assert(self@.nodes =~= held.update(
                    i as int,
                    (held[i as int].0, built_here(held[i as int].1)),
                ));
            }
        }
        assert(self@.nodes =~= forced(before, seq![name@]));
        proof {
            if found {
                let j = choose|j: int| 0 <= j < before.len() && #[trigger] before[j].0 == name@;
                assert(names_of(before)[j] == name@);
            } else if names_of(before).contains(name@) {
                let j = choose|j: int| 0 <= j < before.len() && names_of(before)[j] == name@;
                assert(before[j].0 == name@);
            }
        }
        found
    }

    /// Lets nodes be built here whatever they ask for, one after the other. A name that no node has
    /// is an error; the nodes before it are built here all the same.
    pub fn force_always_local(&mut self, nodes: Vec<String>) -> (r: Result<(), HiveLibError>)
        ensures
            final(self).schema == old(self).schema,
            final(self)@.nodes == forced(
                old(self)@.nodes,
                texts(nodes@).take(known_names(old(self)@.nodes, texts(nodes@))),
            ),
            match r {
                Ok(()) => known_names(old(self)@.nodes, texts(nodes@)) == nodes@.len(),
                Err(
                    HiveLibError::HiveInitialisationError(
                        HiveInitialisationError::NodeDoesNotExist(name),
                    ),
                ) => known_names(old(self)@.nodes, texts(nodes@)) < nodes@.len() && name@
                    == nodes@[known_names(old(self)@.nodes, texts(nodes@))]@,
                Err(_) => false,
            },
    {
        let ghost before = self@.nodes;
        let ghost asked = texts(nodes@);
        assert(before =~= forced(before, asked.take(0)));
        for i in 0..nodes.len()
            invariant
                before == old(self)@.nodes,
                asked == texts(nodes@),
                self.schema == old(self).schema,
                self@.nodes == forced(before, asked.take(i as int)),
                forall|j: int| 0 <= j < i ==> names_of(before).contains(#[trigger] asked[j]),
        {
            let ghost held = self@.nodes;
            let ghost name = nodes@[i as int]@;
            let found = self.force_one(nodes[i].as_str());
            proof {
                let longer = asked.take(i + 1);
                assert(names_of(held) =~= names_of(before));
                assert forall|x: Seq<char>| #[trigger] longer.contains(x) == (asked.take(
                    i as int,
                ).contains(x) || x == name) by {
                    assert(longer =~= asked.take(i as int).push(name));
                    if asked.take(i as int).contains(x) {
                        let k = choose|k: int| 0 <= k < i && asked.take(i as int)[k] == x;
                        assert(longer[k] == x);
                    }
                    if x == name {
                        assert(longer[i as int] == x);
                    }
                }
                assert forall|x: Seq<char>| #[trigger] seq![name].contains(x) == (x == name) by {
                    assert(seq![name][0] == name);
                }
                assert(asked[i as int] == name);
                if found {
                    assert(forced(held, seq![name]) =~= forced(before, longer));
                } else {
                    known_names_grow(before, asked, i as int);
                    assert forall|j: int| 0 <= j < held.len() implies forced(held, seq![name])[j]
                        == #[trigger] held[j] by {
                        assert(names_of(held)[j] == held[j].0);
                    }
                    assert(forced(held, seq![name]) =~= held);
                }
            }
            if !found {
                return Err(
                    HiveLibError::HiveInitialisationError(
                        HiveInitialisationError::NodeDoesNotExist(nodes[i].clone()),
                    ),
                );
            }
        }
        proof {
            known_names_grow(before, asked, nodes@.len() as int);
        }
        Ok(())
    }
}

/// Hands on a hive as it was read from what its evaluation printed.
pub fn read_hive(parsed: Result<Hive, String>) -> (r: Result<Hive, HiveLibError>)
    ensures
        r == match parsed {
            Ok(hive) => Ok::<Hive, HiveLibError>(hive),
            Err(error) => Err(
                HiveLibError::HiveInitialisationError(
                    HiveInitialisationError::ParseEvaluateError(error),
                ),
            ),
        },
{
    match parsed {
        Ok(hive) => Ok(hive),
        Err(error) => Err(
            HiveLibError::HiveInitialisationError(
                HiveInitialisationError::ParseEvaluateError(error),
            ),
        ),
    }
}

/// No node gets another name, and none comes or goes.
pub proof fn forcing_keeps_the_nodes(nodes: Nodes, names: Seq<Seq<char>>)
    ensures
        names_of(forced(nodes, names)) == names_of(nodes),
{
    assert(names_of(forced(nodes, names)) =~= names_of(nodes));
}

/// Forcing what was forced already changes nothing.
pub proof fn forcing_twice_is_forcing_once(nodes: Nodes, names: Seq<Seq<char>>)
    ensures
        forced(forced(nodes, names), names) == forced(nodes, names),
{
    assert(forced(forced(nodes, names), names) =~= forced(nodes, names));
}

/// The keys of all nodes, one node after the other.
pub open spec fn all_keys(nodes: Nodes) -> Seq<KeyView>
    decreases nodes.len(),
{
    if nodes.len() == 0 {
        Seq::empty()
    } else {
        all_keys(nodes.drop_last()) + nodes.last().1.keys
    }
}

/// Whether a key stands in a list.
pub open spec fn holds_key(keys: Seq<KeyView>, key: KeyView) -> bool {
    exists|j: int| 0 <= j < keys.len() && same_key(#[trigger] keys[j], key)
}

/// The number of different keys in a list.
pub open spec fn distinct_keys(keys: Seq<KeyView>) -> nat
    decreases keys.len(),
{
    if keys.len() == 0 {
        0
    } else {
        distinct_keys(keys.drop_last()) + if holds_key(keys.drop_last(), keys.last()) {
            0nat
        } else {
            1nat
        }
    }
}

/// There are no more different keys than keys.
pub proof fn distinct_keys_are_keys(keys: Seq<KeyView>)
    ensures
        distinct_keys(keys) <= keys.len(),
    decreases keys.len(),
{
    if keys.len() > 0 {
        distinct_keys_are_keys(keys.drop_last());
    }
}

/// What a list of borrowed keys holds.
pub open spec fn borrowed_keys(keys: Seq<&Key>) -> Seq<KeyView> {
    keys.map_values(|key: &Key| key@)
}

fn gather_keys<'a>(nodes: &'a Vec<(Name, Node)>) -> (r: Vec<&'a Key>)
    ensures
        borrowed_keys(r@) == all_keys(node_views(nodes@)),
{
    let mut r: Vec<&'a Key> = Vec::new();
    let ghost views = node_views(nodes@);
    assert(borrowed_keys(r@) =~= all_keys(views.take(0)));
    for i in 0..nodes.len()
        invariant
            views == node_views(nodes@),
            borrowed_keys(r@) == all_keys(views.take(i as int)),
    {
        let keys = &nodes[i].1.keys;
        let ghost held = views[i as int].1.keys;
        let ghost before = borrowed_keys(r@);
        assert(before =~= before + held.take(0));
        for j in 0..keys.len()
            invariant
                held.len() == keys@.len(),
                forall|k: int| 0 <= k < keys@.len() ==> held[k] == (#[trigger] keys@[k])@,
                borrowed_keys(r@) == before + held.take(j as int),
        {
            let ghost earlier = borrowed_keys(r@);
            r.push(&keys[j]);
            assert(borrowed_keys(r@) =~= earlier.push(held[j as int]));
            assert(before + held.take(j + 1) =~= earlier.push(held[j as int]));
        }
        proof {
            assert(held.take(held.len() as int) =~= held);
            assert(views.take(i + 1).drop_last() =~= views.take(i as int));
            assert(views.take(i + 1).last() == views[i as int]);
        }
    }
    assert(views.take(views.len() as int) =~= views);
    r
}

fn count_distinct(keys: &Vec<&Key>) -> (n: usize)
    ensures
        n == distinct_keys(borrowed_keys(keys@)),
        n <= keys@.len(),
{
    let mut n: usize = 0;
    let ghost views = borrowed_keys(keys@);
    for i in 0..keys.len()
        invariant
            views == borrowed_keys(keys@),
            n == distinct_keys(views.take(i as int)),
            n <= i,
    {
        let mut found = false;
        for j in 0..i
            invariant
                i < keys@.len(),
                views == borrowed_keys(keys@),
                found == holds_key(views.take(j as int), views[i as int]),
        {
            let is_same = keys[j].is_same(keys[i]);
            proof {
                let shorter = views.take(j as int);
                let longer = views.take(j + 1);
                assert(longer[j as int] == views[j as int]);
                if holds_key(shorter, views[i as int]) {
                    let k = choose|k: int|
                        0 <= k < shorter.len() && same_key(#[trigger] shorter[k], views[i as int]);
                    assert(same_key(longer[k], views[i as int]));
                }
                if holds_key(longer, views[i as int]) {
                    let k = choose|k: int|
                        0 <= k < longer.len() && same_key(#[trigger] longer[k], views[i as int]);
                    if k < j {
                        assert(same_key(shorter[k], views[i as int]));
                    }
                }
            }
            if is_same {
                found = true;
            }
        }
        assert(views.take(i + 1).drop_last() =~= views.take(i as int));
        if !found {
            n = n + 1;
        }
    }
    assert(views.take(views.len() as int) =~= views);
    n
}

/// A word of a yes or no.
pub open spec fn bool_text(b: bool) -> Seq<char> {
    if b {
        "true"@
    } else {
        "false"@
    }
}

/// A text that is dimmed where there are colors.
pub open spec fn maybe_dim(text: Seq<char>, colors: bool) -> Seq<char> {
    if colors {
        in_dim(text)
    } else {
        text
    }
}

/// The first line of a node, and the empty line behind it.
pub open spec fn heading_text(name: Seq<char>, platform: Seq<char>, colors: bool) -> Seq<char> {
    "Node "@ + in_bold(name) + " "@ + maybe_dim(in_italics("("@ + platform + ")"@), colors)
        + ":\n\n"@
}

/// Each of the texts in quotes.
pub open spec fn all_quoted(list: Seq<Seq<char>>) -> Seq<Seq<char>> {
    list.map_values(|text: Seq<char>| quoted(text))
}

/// The line on the tags of a node, in the given order.
pub open spec fn tags_text(tags: Seq<Seq<char>>) -> Seq<char> {
    if tags.len() == 0 {
        Seq::empty()
    } else {
        " > "@ + in_bold("Tags:"@) + " {"@ + joined(all_quoted(tags), ", "@) + "}\n"@
    }
}

/// The line on how a node is reached.
pub open spec fn connection_text(target: Seq<char>) -> Seq<char> {
    " > "@ + in_bold("Connection:"@) + " {"@ + target + "}\n"@
}

/// A line on a setting of a node.
pub open spec fn setting_text(
    what: Seq<char>,
    option: Seq<char>,
    value: bool,
    colors: bool,
) -> Seq<char> {
    " > "@ + in_bold(what) + " "@ + in_italics(maybe_dim(option, colors)) + in_bold(":"@) + " "@
        + bool_text(value) + "\n"@
}

/// A line for each of the keys.
pub open spec fn key_lines(keys: Seq<KeyView>, colors: bool) -> Seq<char>
    decreases keys.len(),
{
    if keys.len() == 0 {
        Seq::empty()
    } else {
        key_lines(keys.drop_last(), colors) + "    > "@ + key_text(keys.last(), colors) + "\n"@
    }
}

/// The lines on the keys of a node.
pub open spec fn keys_text(keys: Seq<KeyView>, colors: bool) -> Seq<char> {
    if keys.len() == 0 {
        Seq::empty()
    } else {
        " > "@ + in_bold("Keys:"@) + " "@ + decimal(keys.len()) + " key(s)\n"@ + key_lines(
            keys,
            colors,
        )
    }
}

/// What is shown of a node, with its tags in the given order.
pub open spec fn node_text(
    name: Seq<char>,
    node: NodeView,
    tags: Seq<Seq<char>>,
    colors: bool,
) -> Seq<char> {
    heading_text(name, node.host_platform, colors) + tags_text(tags) + connection_text(
        joined(shown_hosts(node.target), ", "@),
    ) + setting_text(
        "Build remotely"@,
        "`deployment.buildOnTarget`"@,
        node.build_remotely,
        colors,
    ) + setting_text(
        "Local apply allowed"@,
        "`deployment.allowLocalDeployment`"@,
        node.allow_local_deployment,
        colors,
    ) + keys_text(node.keys, colors) + "\n"@
}

/// Whether these are the tags of the nodes, in some order.
pub open spec fn are_tags_of(tags: Seq<Seq<Seq<char>>>, nodes: Nodes) -> bool {
    tags.len() == nodes.len() && forall|i: int|
        0 <= i < nodes.len() ==> lists(#[trigger] tags[i], nodes[i].1.tags)
}

/// What is shown of the nodes, with their tags in the given order.
pub open spec fn nodes_text(nodes: Nodes, tags: Seq<Seq<Seq<char>>>, colors: bool) -> Seq<char>
    decreases nodes.len(),
{
    if nodes.len() == 0 {
        Seq::empty()
    } else {
        nodes_text(nodes.drop_last(), tags.drop_last(), colors) + node_text(
            nodes.last().0,
            nodes.last().1,
            tags.last(),
            colors,
        )
    }
}

/// What is shown of the hive as a whole.
pub open spec fn summary_text(nodes: Nodes) -> Seq<char> {
    in_bold("Summary:"@) + " "@ + decimal(nodes.len()) + " total node(s), totalling "@ + decimal(
        all_keys(nodes).len(),
    ) + " keys ("@ + decimal(distinct_keys(all_keys(nodes))) + " distinct).\n"@ + in_italics(
        "Note: Listed connections are tried from Left to Right"@,
    ) + "\n"@
}

fn maybe_dimmed(text: &str, colors: bool) -> (s: String)
    ensures
        s@ == maybe_dim(text@, colors),
{
    if colors {
        dimmed(text)
    } else {
        text.to_owned()
    }
}

fn show_heading(name: &str, platform: &str, colors: bool) -> (s: String)
    ensures
        s@ == heading_text(name@, platform@, colors),
{
    let mut plain = "(".to_owned();
    plain.push_str(platform);
    plain.push_str(")");
    let mut s = "Node ".to_owned();
    s.push_str(bold(name).as_str());
    s.push_str(" ");
    s.push_str(maybe_dimmed(italic(plain.as_str()).as_str(), colors).as_str());
    s.push_str(":\n\n");
    s
}

fn quote_all(list: &Vec<String>) -> (r: Vec<String>)
    ensures
        texts(r@) == all_quoted(texts(list@)),
{
    let mut r: Vec<String> = Vec::new();
    let ghost asked = all_quoted(texts(list@));
    for i in 0..list.len()
        invariant
            asked == all_quoted(texts(list@)),
            texts(r@) == asked.take(i as int),
    {
        let ghost before = texts(r@);
        r.push(quote(list[i].as_str()));
        assert(texts(r@) =~= before.push(asked[i as int]));
        assert(asked.take(i + 1) =~= before.push(asked[i as int]));
    }
    assert(asked.take(asked.len() as int) =~= asked);
    r
}

fn show_tags(tags: &Vec<String>) -> (s: String)
    ensures
        s@ == tags_text(texts(tags@)),
{
    let mut s = String::new();
    if tags.len() > 0 {
        s.push_str(" > ");
        s.push_str(bold("Tags:").as_str());
        s.push_str(" {");
        s.push_str(join(&quote_all(tags), ", ").as_str());
        s.push_str("}\n");
        assert(s@ =~= tags_text(texts(tags@)));
    }
    s
}

fn show_setting(what: &str, option: &str, value: bool, colors: bool) -> (s: String)
    ensures
        s@ == setting_text(what@, option@, value, colors),
{
    let mut s = " > ".to_owned();
    s.push_str(bold(what).as_str());
    s.push_str(" ");
    s.push_str(italic(maybe_dimmed(option, colors).as_str()).as_str());
    s.push_str(bold(":").as_str());
    s.push_str(" ");
    s.push_str(
        if value {
            "true"
        } else {
            "false"
        },
    );
    s.push_str("\n");
    s
}

fn show_keys(keys: &Vec<Key>, colors: bool) -> (s: String)
    ensures
        s@ == keys_text(keys@.map_values(|key: Key| key@), colors),
{
    let ghost views = keys@.map_values(|key: Key| key@);
    let mut lines = String::new();
    assert(lines@ =~= key_lines(views.take(0), colors));
    for i in 0..keys.len()
        invariant
            views == keys@.map_values(|key: Key| key@),
            lines@ == key_lines(views.take(i as int), colors),
    {
        assert(views.take(i + 1).drop_last() =~= views.take(i as int));
        assert(views.take(i + 1).last() == keys@[i as int]@);
        lines.push_str("    > ");
        lines.push_str(keys[i].to_string(colors).as_str());
        lines.push_str("\n");
    }
    assert(views.take(views.len() as int) =~= views);
    let mut s = String::new();
    if keys.len() > 0 {
        s.push_str(" > ");
        s.push_str(bold("Keys:").as_str());
        s.push_str(" ");
        s.push_str(decimal_of(keys.len() as u64).as_str());
        s.push_str(" key(s)\n");
        s.push_str(lines.as_str());
        assert(s@ =~= keys_text(views, colors));
    }
    s
}

fn show_node(name: &Name, node: &Node, tags: &Vec<String>, colors: bool) -> (s: String)
    ensures
        s@ == node_text(name@, node@, texts(tags@), colors),
{
    let mut s = show_heading(name.0.as_str(), node.host_platform.as_str(), colors);
    s.push_str(show_tags(tags).as_str());
    let mut connection = " > ".to_owned();
    connection.push_str(bold("Connection:").as_str());
    connection.push_str(" {");
    connection.push_str(node.target.to_string().as_str());
    connection.push_str("}\n");
    s.push_str(connection.as_str());
    s.push_str(
        show_setting(
            "Build remotely",
            "`deployment.buildOnTarget`",
            node.build_remotely,
            colors,
        ).as_str(),
    );
    s.push_str(
        show_setting(
            "Local apply allowed",
            "`deployment.allowLocalDeployment`",
            node.allow_local_deployment,
            colors,
        ).as_str(),
    );
    s.push_str(show_keys(&node.keys, colors).as_str());
    s.push_str("\n");
    assert(s@ =~= node_text(name@, node@, texts(tags@), colors));
    s
}

impl Hive {
    /// The hive as it is shown to the user. In which order tags are shown is left open.
    pub fn to_string(&self, colors: bool) -> (s: String)
        ensures
            exists|tags: Seq<Seq<Seq<char>>>| #[trigger]
                are_tags_of(tags, self@.nodes) && s@ == nodes_text(self@.nodes, tags, colors)
                    + summary_text(self@.nodes),
    {
        let ghost views = self@.nodes;
        let ghost mut tags: Seq<Seq<Seq<char>>> = Seq::empty();
        let mut s = String::new();
        assert(s@ =~= nodes_text(views.take(0), tags, colors));
        for i in 0..self.nodes.len()
            invariant
                views == self@.nodes,
                are_tags_of(tags, views.take(i as int)),
                s@ == nodes_text(views.take(i as int), tags, colors),
        {
            let own = members(&self.nodes[i].1.tags);
            let ghost before = tags;
            proof {
                tags = tags.push(texts(own@));
                assert(views.take(i + 1).drop_last() =~= views.take(i as int));
                assert(views.take(i + 1).last() == views[i as int]);
                assert(tags.drop_last() =~= before);
                assert forall|k: int| 0 <= k < i + 1 implies lists(
                    #[trigger] tags[k],
                    views.take(i + 1)[k].1.tags,
                ) by {
                    if k < i {
                        assert(tags[k] == before[k]);
                        assert(views.take(i as int)[k] == views.take(i + 1)[k]);
                    }
                }
            }
            s.push_str(show_node(&self.nodes[i].0, &self.nodes[i].1, &own, colors).as_str());
        }
        assert(views.take(views.len() as int) =~= views);
        let keys = gather_keys(&self.nodes);
        assert(borrowed_keys(keys@).len() == keys@.len());
        let distinct: usize = count_distinct(&keys);
        let mut summary = bold("Summary:");
        summary.push_str(" ");
        summary.push_str(decimal_of(self.nodes.len() as u64).as_str());
        summary.push_str(" total node(s), totalling ");
        summary.push_str(decimal_of(keys.len() as u64).as_str());
        summary.push_str(" keys (");
        summary.push_str(decimal_of(distinct as u64).as_str());
        summary.push_str(" distinct).\n");
        summary.push_str(
            italic("Note: Listed connections are tried from Left to Right").as_str(),
        );
        summary.push_str("\n");
        assert(summary@ =~= summary_text(views));
        s.push_str(summary.as_str());
        s
    }
}

} // verus!
