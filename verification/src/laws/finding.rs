//! How hives and hosts are found.
use crate::cache::{
    find_evaluation, is_cache_invalid, should_reset, Evaluations, MigrationFailure,
};
use crate::commands::CommandArguments;
use crate::errors::{
    CommandError, HiveInitialisationError, HiveLibError, HiveLocationError, NetworkError,
};
use crate::hive::inventory::{read_hive, Hive};
use crate::hive::location::{
    get_hive_location, looked_for_flake, FlakePrefetch, FlakeReference, HiveLocation,
    LocationAction,
};
use crate::hive::node::{is_this_machine, should_apply_locally, ssh_args, Name, Node, Target};
use crate::laws::commands::command_lines_are_their_words;
use crate::laws::hive::hives_are_found_by_their_file;
use crate::laws::text::{paths_lie_below_directories, trimmed_texts_stay};
use crate::modifiers::SubCommandModifiers;
use crate::store_path::SafeStorePath;
use crate::text::{file_name, joined, texts, trimmed};
use vstd::prelude::*;

verus! {

/// A text that is no reference to a flake is a path, and so is a reference to a path. A reference
/// to something else is fetched, and one that cannot be is refused with what is wrong with it.
pub proof fn references_are_followed(
    path: String,
    reference: FlakeReference,
    action: LocationAction,
)
    requires
        call_ensures(get_hive_location, (path, reference), action),
    ensures
        reference is Remote ==> action == (LocationAction::Prefetch { uri: path }),
        reference matches FlakeReference::Malformed(error) ==> action == LocationAction::Finish(
            Err(HiveLibError::HiveLocationError(HiveLocationError::Malformed(error))),
        ),
        reference matches FlakeReference::Unsupported(shown) ==> action == LocationAction::Finish(
            Err(HiveLibError::HiveLocationError(HiveLocationError::TypeUnsupported(shown))),
        ),
        reference is NoUrl && file_name(path@) == Some("hive.nix"@) ==> (action
            matches LocationAction::Finish(Ok(HiveLocation::HiveNix(found))) && found@ == path@),
        reference is NoUrl && file_name(path@) is Some && file_name(path@)->0 != "hive.nix"@
            ==> (action matches LocationAction::LookForFlake { path: at, .. } && at@ == path@),
        reference is NoUrl && file_name(path@) is None ==> action is Finish && action->Finish_0
            is Err,
        reference matches FlakeReference::Path(meant) ==> {
            &&& file_name(meant@) == Some("hive.nix"@) ==> (action matches LocationAction::Finish(
                Ok(HiveLocation::HiveNix(found)),
            ) && found@ == meant@)
            &&& file_name(meant@) is Some && file_name(meant@)->0 != "hive.nix"@ ==> (action
                matches LocationAction::LookForFlake { path: at, .. } && at@ == meant@)
            &&& file_name(meant@) is None ==> action is Finish && action->Finish_0 is Err
        },
{
    let no_name = Seq::<char>::empty();
    hives_are_found_by_their_file(action, path@, match file_name(path@) {
        Some(name) => name,
        None => no_name,
    });
    if let FlakeReference::Path(meant) = reference {
        hives_are_found_by_their_file(action, meant@, match file_name(meant@) {
            Some(name) => name,
            None => no_name,
        });
    }
}

/// A directory with a flake is fetched, and in one without the hive is its `hive.nix`.
pub proof fn directories_hold_flakes_or_files(
    path: String,
    is_flake: bool,
    action: LocationAction,
)
    requires
        call_ensures(looked_for_flake, (path, is_flake), action),
        path@.len() > 0,
        path@.last() != '/',
    ensures
        is_flake ==> action == (LocationAction::Prefetch { uri: path }),
        !is_flake ==> (action matches LocationAction::Finish(Ok(HiveLocation::HiveNix(found)))
            && found@ == path@ + "/hive.nix"@),
{
    reveal_strlit("hive.nix");
    reveal_strlit("/hive.nix");
    paths_lie_below_directories(path@, "hive.nix"@);
    assert(path@.push('/') + "hive.nix"@ =~= path@ + "/hive.nix"@);
}

/// A flake that was fetched is a place of a hive that can be remembered by what was fetched. A
/// file is not remembered.
pub proof fn flakes_are_remembered(
    uri: String,
    prefetched: Result<FlakePrefetch, String>,
    r: Result<HiveLocation, HiveLibError>,
    location: &HiveLocation,
    key: Option<&FlakePrefetch>,
)
    ensures
        call_ensures(HiveLocation::get_flake, (uri, prefetched), r) ==> {
            &&& prefetched is Ok <==> r is Ok
            &&& r is Ok ==> r->Ok_0 == (HiveLocation::Flake { uri, prefetch: prefetched->Ok_0 })
            &&& r is Err ==> r->Err_0 == HiveLibError::HiveInitialisationError(
                HiveInitialisationError::ParsePrefetchError(prefetched->Err_0),
            )
        },
        call_ensures(HiveLocation::cache_key, (location,), key) ==> {
            &&& location is HiveNix ==> key is None
            &&& location is Flake ==> key == Some(&location->prefetch)
        },
{
}

/// A hive is what nix printed, or it could not be read.
pub proof fn hives_are_what_was_read(
    parsed: Result<Hive, String>,
    r: Result<Hive, HiveLibError>,
)
    requires
        call_ensures(read_hive, (parsed,), r),
    ensures
        parsed is Ok ==> r == Ok::<Hive, HiveLibError>(parsed->Ok_0),
        parsed is Err ==> r == Err::<Hive, HiveLibError>(
            HiveLibError::HiveInitialisationError(
                HiveInitialisationError::ParseEvaluateError(parsed->Err_0),
            ),
        ),
{
}

/// A node is applied here only where that is allowed and it has the name of this machine.
pub proof fn nodes_are_applied_here_where_allowed(
    allowed: bool,
    name: &str,
    host_name: Option<String>,
    r: bool,
)
    ensures
        call_ensures(is_this_machine, (allowed, name, host_name), r) ==> (r <==> allowed
            && host_name is Some && host_name->0@ == name@),
        call_ensures(should_apply_locally, (false, name), r) ==> !r,
{
}

/// The host that is tried at the moment is the preferred one, unless there is none left.
pub proof fn hosts_are_preferred_in_order(target: &Target, r: Result<&String, HiveLibError>)
    requires
        call_ensures(Target::get_preferred_host, (target,), r),
    ensures
        target@.current_host < target@.hosts.len() ==> r is Ok && r->Ok_0@
            == target@.hosts[target@.current_host as int],
        target@.current_host >= target@.hosts.len() ==> r == Err::<&String, HiveLibError>(
            HiveLibError::NetworkError(NetworkError::HostsExhausted),
        ),
{
}

/// A host is pinged by connecting to it and leaving again.
pub proof fn pings_connect_and_leave(
    target: &Target,
    modifiers: SubCommandModifiers,
    r: Result<CommandArguments, HiveLibError>,
    options: Seq<char>,
)
    requires
        call_ensures(Target::ping_command, (target, modifiers), r),
        target@.current_host < target@.hosts.len(),
        options == joined(ssh_args(target@.user, target@.port, modifiers, false), " "@),
    ensures
        r is Ok,
        r->Ok_0@.command_string == joined(
            seq![
                "ssh"@,
                trimmed(target@.user + "@"@ + target@.hosts[target@.current_host as int]),
                trimmed(options),
                "exit"@,
            ],
            " "@,
        ),
        r->Ok_0@.target is None,
        r->Ok_0@.modifiers == modifiers,
        r->Ok_0@.privilege_escalation_command is None,
{
    reveal_strlit("ssh");
    reveal_strlit("exit");
    trimmed_texts_stay("ssh"@);
    trimmed_texts_stay("exit"@);
    let words = seq![
        target@.user + "@"@ + target@.hosts[target@.current_host as int],
        options,
        "exit"@,
    ];
    command_lines_are_their_words("ssh"@, words);
    assert(seq!["ssh"@] + words.map_values(|word: Seq<char>| trimmed(word)) =~= seq![
        "ssh"@,
        trimmed(target@.user + "@"@ + target@.hosts[target@.current_host as int]),
        trimmed(options),
        "exit"@,
    ]);
}

/// A host that does not answer is named, with why.
pub proof fn silent_hosts_are_named(
    target: &Target,
    status: Result<(), CommandError>,
    r: Result<(), HiveLibError>,
)
    requires
        target@.current_host < target@.hosts.len(),
        call_ensures(Target::conclude_ping, (target, status), r),
    ensures
        status is Ok <==> r is Ok,
        status is Err ==> (r matches Err(
            HiveLibError::NetworkError(NetworkError::HostUnreachable { host, source }),
        ) && host@ == target@.hosts[target@.current_host as int] && source == status->Err_0),
{
}

/// The daemon of a node is talked to through `ssh`, which is told to say nothing itself.
pub proof fn daemons_are_reached_quietly(
    target: &Target,
    modifiers: SubCommandModifiers,
    r: Result<Vec<String>, HiveLibError>,
)
    requires
        call_ensures(Target::daemon_args, (target, modifiers), r),
    ensures
        target@.current_host >= target@.hosts.len() ==> r == Err::<Vec<String>, HiveLibError>(
            HiveLibError::NetworkError(NetworkError::HostsExhausted),
        ),
        target@.current_host < target@.hosts.len() ==> ({
            let args = texts(r->Ok_0@);
            &&& r is Ok
            &&& args.len() == 11
            &&& args[0] == "-l"@
            &&& args[1] == target@.user
            &&& args[8] == "-q"@
            &&& args[9] == target@.hosts[target@.current_host as int]
            &&& args[10] == "nix-daemon --stdio"@
        }),
{
}

/// A node that is known by its host alone is reached as root, by the usual port.
pub proof fn hosts_are_reached_as_root(host: &str, target: Target, node: Node)
    ensures
        call_ensures(Target::from_host, (host,), target) ==> target@.hosts == seq![host@]
            && target@.user == "root"@ && target@.port == 22 && target@.current_host == 0,
        call_ensures(Node::from_host, (host,), node) ==> node@.target.hosts == seq![host@]
            && node@.target.user == "root"@ && node@.target.port == 22
            && node@.target.current_host == 0 && !node@.build_remotely
            && node@.allow_local_deployment,
{
}

/// What is remembered is worth nothing without a path that is in the store. What is remembered of
/// a node is found by its name. A cache whose shape is not understood is begun anew.
pub proof fn memories_are_found_by_name(
    path: Option<SafeStorePath>,
    is_in_store: bool,
    invalid: bool,
    list: &Evaluations,
    name: &Name,
    found: Option<SafeStorePath>,
    failure: MigrationFailure,
    reset: bool,
)
    ensures
        call_ensures(is_cache_invalid, (path, is_in_store), invalid) ==> (!invalid <==> path is Some
            && is_in_store),
        call_ensures(find_evaluation, (list, name), found) && found is Some ==> exists|i: int|
            0 <= i < list@.len() && (#[trigger] list@[i]).0@ == name@ && list@[i].1 == found->0,
        call_ensures(should_reset, (failure,), reset) ==> reset,
{
}

} // verus!
