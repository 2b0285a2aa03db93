//! What is shown of a hive.
use crate::hive::inventory::{
    all_keys, all_quoted, distinct_keys, holds_key, key_lines, keys_text, node_text, nodes_text,
    setting_text, summary_text, tags_text, Nodes,
};
use crate::hive::node::{shown_hosts, NodeView};
use crate::hive::steps::keys::{key_text, same_key, KeyView};
use crate::paint::{in_bold, in_dim, in_italics};
use crate::text::{decimal, joined, quoted};
use vstd::prelude::*;

verus! {

/// The keys of a hive are those of its nodes, in order.
pub proof fn keys_are_those_of_the_nodes(nodes: Nodes, next: (Seq<char>, NodeView))
    ensures
        all_keys(Seq::empty()).len() == 0,
        all_keys(nodes.push(next)) == all_keys(nodes) + next.1.keys,
{
    assert(nodes.push(next).drop_last() =~= nodes);
}

/// A key counts as distinct if none of the keys before it says the same.
pub proof fn keys_count_once(keys: Seq<KeyView>, next: KeyView, same: int)
    ensures
        distinct_keys(Seq::empty()) == 0,
        0 <= same < keys.len() && keys[same].name == next.name && keys[same].dest_dir
            == next.dest_dir && keys[same].path == next.path && keys[same].group == next.group
            && keys[same].user == next.user && keys[same].permissions == next.permissions
            && keys[same].source == next.source && keys[same].upload_at == next.upload_at
            && keys[same].environment == next.environment ==> distinct_keys(keys.push(next))
            == distinct_keys(keys),
        (forall|i: int| #![trigger keys[i]]
            0 <= i < keys.len() ==> keys[i].name != next.name || keys[i].dest_dir != next.dest_dir
                || keys[i].path != next.path || keys[i].group != next.group || keys[i].user
                != next.user || keys[i].permissions != next.permissions || keys[i].source
                != next.source || keys[i].upload_at != next.upload_at || keys[i].environment
                != next.environment) ==> distinct_keys(keys.push(next)) == distinct_keys(keys)
            + 1,
{
    assert(keys.push(next).drop_last() =~= keys);
    if 0 <= same < keys.len() && same_key(keys[same], next) {
        assert(holds_key(keys, next));
    }
    if holds_key(keys, next) {
        let i = choose|i: int| 0 <= i < keys.len() && same_key(#[trigger] keys[i], next);
        assert(same_key(keys[i], next));
    }
}

/// The tags of a node are shown in quotes and between braces, where it has any.
pub proof fn tags_are_quoted(tags: Seq<Seq<char>>)
    ensures
        tags.len() == 0 ==> tags_text(tags).len() == 0,
        tags.len() > 0 ==> tags_text(tags) == " > "@ + in_bold("Tags:"@) + " {"@ + joined(
            tags.map_values(|tag: Seq<char>| quoted(tag)),
            ", "@,
        ) + "}\n"@,
{
    assert(tags.map_values(|tag: Seq<char>| quoted(tag))
        =~= all_quoted(tags));
}

/// Each key of a node has a line of its own.
pub proof fn keys_have_lines_of_their_own(keys: Seq<KeyView>, next: KeyView, colors: bool)
    ensures
        key_lines(Seq::empty(), colors).len() == 0,
        key_lines(keys.push(next), colors) == key_lines(keys, colors) + "    > "@ + key_text(
            next,
            colors,
        ) + "\n"@,
{
    assert(keys.push(next).drop_last() =~= keys);
}

/// The option that is shown of a node, and whether it is set.
proof fn lemma_settings(what: Seq<char>, option: Seq<char>, value: bool)
    ensures
        value ==> setting_text(what, option, value, false) == " > "@ + in_bold(what) + " "@
            + in_italics(option) + in_bold(":"@) + " "@ + "true"@ + "\n"@,
        !value ==> setting_text(what, option, value, false) == " > "@ + in_bold(what) + " "@
            + in_italics(option) + in_bold(":"@) + " "@ + "false"@ + "\n"@,
        value ==> setting_text(what, option, value, true) == " > "@ + in_bold(what) + " "@
            + in_italics(in_dim(option)) + in_bold(":"@) + " "@ + "true"@ + "\n"@,
        !value ==> setting_text(what, option, value, true) == " > "@ + in_bold(what) + " "@
            + in_italics(in_dim(option)) + in_bold(":"@) + " "@ + "false"@ + "\n"@,
{
}

/// A node is shown by its name and platform, its tags, how it is connected to, whether it is
/// built remotely, whether it may be this machine, and its keys, where it has any.
pub proof fn nodes_are_shown_by_what_they_are(
    name: Seq<char>,
    node: NodeView,
    tags: Seq<Seq<char>>,
    remotely: Seq<char>,
    locally: Seq<char>,
)
    requires
        remotely == if node.build_remotely {
            "true"@
        } else {
            "false"@
        },
        locally == if node.allow_local_deployment {
            "true"@
        } else {
            "false"@
        },
    ensures
        node_text(name, node, tags, false) == ("Node "@ + in_bold(name) + " "@ + in_italics(
            "("@ + node.host_platform + ")"@,
        ) + ":\n\n"@) + tags_text(tags) + (" > "@ + in_bold("Connection:"@) + " {"@ + joined(
            shown_hosts(node.target),
            ", "@,
        ) + "}\n"@) + (" > "@ + in_bold("Build remotely"@) + " "@ + in_italics(
            "`deployment.buildOnTarget`"@,
        ) + in_bold(":"@) + " "@ + remotely + "\n"@) + (" > "@ + in_bold(
            "Local apply allowed"@,
        ) + " "@ + in_italics("`deployment.allowLocalDeployment`"@) + in_bold(":"@) + " "@
            + locally + "\n"@) + keys_text(node.keys, false) + "\n"@,
        node_text(name, node, tags, true) == ("Node "@ + in_bold(name) + " "@ + in_dim(
            in_italics("("@ + node.host_platform + ")"@),
        ) + ":\n\n"@) + tags_text(tags) + (" > "@ + in_bold("Connection:"@) + " {"@ + joined(
            shown_hosts(node.target),
            ", "@,
        ) + "}\n"@) + (" > "@ + in_bold("Build remotely"@) + " "@ + in_italics(
            in_dim("`deployment.buildOnTarget`"@),
        ) + in_bold(":"@) + " "@ + remotely + "\n"@) + (" > "@ + in_bold(
            "Local apply allowed"@,
        ) + " "@ + in_italics(in_dim("`deployment.allowLocalDeployment`"@)) + in_bold(":"@)
            + " "@ + locally + "\n"@) + keys_text(node.keys, true) + "\n"@,
        node.keys.len() == 0 ==> keys_text(node.keys, false).len() == 0 && keys_text(
            node.keys,
            true,
        ).len() == 0,
        node.keys.len() > 0 ==> keys_text(node.keys, false) == " > "@ + in_bold("Keys:"@) + " "@
            + decimal(node.keys.len()) + " key(s)\n"@ + key_lines(node.keys, false),
        node.keys.len() > 0 ==> keys_text(node.keys, true) == " > "@ + in_bold("Keys:"@) + " "@
            + decimal(node.keys.len()) + " key(s)\n"@ + key_lines(node.keys, true),
{
    lemma_settings("Build remotely"@, "`deployment.buildOnTarget`"@, node.build_remotely);
    lemma_settings(
        "Local apply allowed"@,
        "`deployment.allowLocalDeployment`"@,
        node.allow_local_deployment,
    );
}

/// A hive is shown node by node, and then by how many nodes, keys and distinct keys it has.
pub proof fn hives_are_shown_node_by_node(
    nodes: Nodes,
    tags: Seq<Seq<Seq<char>>>,
    next: (Seq<char>, NodeView),
    next_tags: Seq<Seq<char>>,
    colors: bool,
)
    ensures
        nodes_text(Seq::empty(), Seq::empty(), colors).len() == 0,
        nodes_text(nodes.push(next), tags.push(next_tags), colors) == nodes_text(
            nodes,
            tags,
            colors,
        ) + node_text(next.0, next.1, next_tags, colors),
        summary_text(nodes) == in_bold("Summary:"@) + " "@ + decimal(nodes.len())
            + " total node(s), totalling "@ + decimal(all_keys(nodes).len()) + " keys ("@
            + decimal(distinct_keys(all_keys(nodes))) + " distinct).\n"@ + in_italics(
            "Note: Listed connections are tried from Left to Right"@,
        ) + "\n"@,
{
    assert(nodes.push(next).drop_last() =~= nodes);
    assert(tags.push(next_tags).drop_last() =~= tags);
}

} // verus!
