//! How the nix daemon is talked to, request by request.
use crate::nix_client::handshake::{Handshake, HandshakeAction, HandshakeEvent};
use crate::nix_client::operations::{
    add_to_store_nar, build, get_nar_stream, query, query_derivation_output_map, query_missing,
    query_reply, query_valid_paths, shutdown_guard, wire_views, DerivedPath, Operation,
    QueryMissingResult, ReplyWant, WireAddToStoreNarRequest, WireValue, WireView,
};
use crate::nix_client::push::announce;
use crate::nix_client::{NixDaemonClientError, ProtocolVersion};
use crate::store_path::{paths, SafeStorePath};
use crate::text::{decimal, texts, without_repeats};
use vstd::prelude::*;

verus! {

/// Whether a version is that or a later one.
pub open spec fn is_since(version: ProtocolVersion, major: int, minor: int) -> bool {
    version.major > major || version.major == major && version.minor >= minor
}

/// The client introduces itself, and talks only to a daemon that answers with the number that
/// daemons of nix answer with. It tells the version that it speaks, and the version that counts
/// is that of the daemon.
pub proof fn handshakes_agree_on_a_version(
    magic: u64,
    version: ProtocolVersion,
    text: HandshakeEvent,
    number: HandshakeEvent,
    r: (Handshake, HandshakeAction),
)
    ensures
        call_ensures(Handshake::start, (), r) ==> r.0 is Greeted && (
        r.1 matches HandshakeAction::ReadNumber(written) && written@ == seq![0x6e697863u64]),
        call_ensures(Handshake::next, (Handshake::Greeted, HandshakeEvent::Number(magic)), r) ==> {
            &&& magic == 0x6478696f ==> r.0 is Answered && r.1 is ReadVersion
            &&& magic != 0x6478696f ==> (r.1 matches HandshakeAction::Finish(
                Err(NixDaemonClientError::NixDaemonInvalidResponse(said)),
            ) && said@ == "daemon returned invalid magic in handshake: "@ + decimal(magic as nat))
        },
        call_ensures(
            Handshake::next,
            (Handshake::Answered, HandshakeEvent::Version(Ok(version))),
            r,
        ) ==> r.0 == Handshake::Agreed(version) && (r.1 matches HandshakeAction::ReadText(
            written,
            longest,
        ) && written@ == seq![0x0123u64, 0u64, 0u64] && longest == 10),
        call_ensures(Handshake::next, (Handshake::Agreed(version), text), r) ==> r.0
            == Handshake::Described(version) && (r.1 matches HandshakeAction::ReadNumber(written)
            && written@.len() == 0),
        call_ensures(Handshake::next, (Handshake::Described(version), number), r) ==> r.1
            == HandshakeAction::Finish(Ok(version)),
{
}

/// A talk stops where it is to be stopped, and only there.
pub proof fn talks_stop_when_told(should_quit: bool, r: Result<(), NixDaemonClientError>)
    requires
        call_ensures(shutdown_guard, (should_quit,), r),
    ensures
        r is Ok <==> !should_quit,
        should_quit ==> r->Err_0 is Sigint,
{
}

/// The store is asked which of some paths it has, and whether it may fetch the others, where the
/// daemon knows that question.
pub proof fn paths_are_asked_about(
    version: ProtocolVersion,
    list: Vec<SafeStorePath>,
    substitute: bool,
    r: Vec<WireValue>,
)
    requires
        call_ensures(query_valid_paths, (version, list, substitute), r),
    ensures
        r@.len() == if is_since(version, 1, 27) {
            3int
        } else {
            2
        },
        wire_views(r@)[0] == WireView::Operation(Operation::QueryValidPaths),
        wire_views(r@)[1] == WireView::StorePaths(paths(list@)),
        is_since(version, 1, 27) ==> wire_views(r@)[2] == WireView::Bool(substitute),
{
    assert(wire_views(r@).len() == r@.len());
}

/// What is known of a path, and what it holds, is asked of daemons that tell it.
pub proof fn contents_are_asked_for(
    version: ProtocolVersion,
    path: &SafeStorePath,
    r: Result<Vec<WireValue>, NixDaemonClientError>,
)
    ensures
        call_ensures(query, (version, path), r) ==> {
            &&& r is Ok <==> is_since(version, 1, 17)
            &&& r is Ok ==> wire_views(r->Ok_0@) == seq![
                WireView::Operation(Operation::QueryPathInfo),
                WireView::StorePath(path@),
            ]
        },
        call_ensures(get_nar_stream, (version, path), r) ==> {
            &&& r is Ok <==> is_since(version, 1, 17)
            &&& r is Ok ==> wire_views(r->Ok_0@) == seq![
                WireView::Operation(Operation::NarFromPath),
                WireView::StorePath(path@),
            ]
        },
        call_ensures(query_derivation_output_map, (version, path), r) ==> {
            &&& r is Ok <==> is_since(version, 1, 22)
            &&& r is Ok ==> wire_views(r->Ok_0@) == seq![
                WireView::Operation(Operation::QueryDerivationOutputMap),
                WireView::StorePath(path@),
            ]
        },
{
}

/// What is missing is asked of daemons that tell it, and what is built is built as usual.
pub proof fn builds_are_asked_for(
    version: ProtocolVersion,
    list: &Vec<DerivedPath>,
    missing: Result<Vec<WireValue>, NixDaemonClientError>,
    built: Vec<WireValue>,
)
    ensures
        call_ensures(query_missing, (version, list), missing) ==> {
            &&& missing is Ok <==> is_since(version, 1, 19)
            &&& missing is Ok ==> wire_views(missing->Ok_0@).len() == 2 && wire_views(
                missing->Ok_0@,
            )[0] == WireView::Operation(Operation::QueryMissing)
        },
        call_ensures(build, (version, list), built) ==> {
            &&& wire_views(built@)[0] == WireView::Operation(Operation::BuildPaths)
            &&& is_since(version, 1, 15) ==> wire_views(built@).len() == 3 && wire_views(built@)[2]
                == WireView::Number(0)
            &&& !is_since(version, 1, 15) ==> wire_views(built@).len() == 2
            &&& call_ensures(query_missing, (version, list), missing) && missing is Ok
                ==> wire_views(built@)[1] == wire_views(missing->Ok_0@)[1]
        },
{
}

/// A path is added to the store of a daemon that can take it: the request, then its path, and
/// then what is known of it.
pub proof fn paths_are_added_to_the_store(
    version: ProtocolVersion,
    request: WireAddToStoreNarRequest,
    r: Result<Vec<WireValue>, NixDaemonClientError>,
)
    requires
        call_ensures(add_to_store_nar, (version, request), r),
    ensures
        r is Ok <==> is_since(version, 1, 23),
        r is Ok ==> ({
            let sent = wire_views(r->Ok_0@);
            &&& sent.len() == 12
            &&& sent[0] == WireView::Operation(Operation::AddToStoreNar)
            &&& sent[1] == WireView::StorePath(request.path@)
            &&& sent[4] == WireView::StorePaths(paths(request.references@))
        }),
{
}

/// What is known of a path is read where there is something to be read.
pub proof fn replies_are_read_where_there_are_some(
    version: ProtocolVersion,
    success: bool,
    r: Option<Vec<ReplyWant>>,
)
    requires
        call_ensures(query_reply, (version, success), r),
    ensures
        r is Some <==> success,
{
}

/// What is missing is known only where all of it was told, each path once.
pub proof fn missing_paths_are_told_once(
    will_build: Option<Vec<SafeStorePath>>,
    will_substitute: Option<Vec<SafeStorePath>>,
    unknown: Option<Vec<SafeStorePath>>,
    download_size: Option<u64>,
    nar_size: Option<u64>,
    r: Option<QueryMissingResult>,
)
    requires
        call_ensures(
            QueryMissingResult::try_deserialize,
            (will_build, will_substitute, unknown, download_size, nar_size),
            r,
        ),
    ensures
        will_build is None || will_substitute is None || unknown is None || download_size is None
            || nar_size is None ==> r is None,
        will_build is Some && will_substitute is Some && unknown is Some && download_size is Some
            && nar_size is Some ==> {
            &&& r is Some
            &&& paths(r->0.will_build@) == without_repeats(paths(will_build->0@))
            &&& paths(r->0.will_substitute@) == without_repeats(paths(will_substitute->0@))
            &&& paths(r->0.unknown@) == without_repeats(paths(unknown->0@))
            &&& r->0.download_size == download_size->0
            &&& r->0.nar_size == nar_size->0
        },
{
}

/// What is missing is reported by what will be built, then by what will be fetched, where there
/// is any.
pub proof fn missing_paths_are_reported(result: &QueryMissingResult, colors: bool, r: Vec<String>)
    requires
        call_ensures(QueryMissingResult::report, (result, colors), r),
    ensures
        result.will_build@.len() == 0 && result.will_substitute@.len() == 0 ==> r@.len() == 0,
        result.will_build@.len() > 0 && result.will_substitute@.len() == 0 ==> r@.len() == 1,
        result.will_build@.len() == 0 && result.will_substitute@.len() > 0 ==> r@.len() == 1,
        result.will_build@.len() > 0 && result.will_substitute@.len() > 0 ==> r@.len() == 2,
{
    assert(texts(r@).len() == r@.len());
}

/// A copy is announced by how many paths the target lacks, where it lacks any.
pub proof fn copies_are_announced(
    closure: &Vec<SafeStorePath>,
    on_target: &Vec<SafeStorePath>,
    r: Option<String>,
    lacking: nat,
)
    requires
        call_ensures(announce, (closure, on_target), r),
        closure@.len() == without_repeats(paths(on_target@)).len() + lacking,
    ensures
        lacking == 0 ==> r is None,
        lacking > 0 ==> r is Some && r->0@ == "pushing "@ + decimal(lacking),
{
}

} // verus!
