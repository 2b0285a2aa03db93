//! What is said to the nix daemon, and what is made of what it says.
use crate::commands::common::{shows_distrust, untrusted_help};
use crate::commands::logs::{FieldView, VerbosityLevel};
use crate::errors::HiveLibError;
use crate::hive::node::Name;
use crate::nix_client::closure::{missing_text, still_unknown, unknown_of, is_known, Found};
use crate::nix_client::framing::{frame, FRAME_SIZE};
use crate::nix_client::handshake::{
    magic_text, CLIENT_ONE, CLIENT_VERSION, LONGEST_NIX_VERSION, SERVER_ONE,
};
use crate::nix_client::operations::{
    build_report, derived_text, derived_texts, is_full_reply, is_path_info, is_too_old, nar_fields,
    path_info_layout, substitute_report, DerivedPath, DerivedPathOutput, PathInfo, ReplyValue,
    WireAddToStoreNarRequest, WireView,
};
use crate::nix_client::order::{after_visit, after_visits, Tour};
use crate::nix_client::push::{copying_text, is_copy_error, is_vanished_error, missing_on};
use crate::nix_client::stderr::{
    after, is_of, After, DrainView, Failure, HeadView, TokenView, Want,
};
use crate::nix_client::{version_text, NixDaemonClientError, ProtocolVersion};
use crate::paint::in_green;
use crate::store_path::SafeStorePath;
use crate::text::{decimal, hexadecimal, joined, texts};
use vstd::bytes::spec_u64_to_le_bytes;
use vstd::prelude::*;

verus! {

/// Whether a list of texts holds the texts of a list of paths, in order.
pub open spec fn are_paths(shown: Seq<Seq<char>>, list: Seq<SafeStorePath>) -> bool {
    shown.len() == list.len() && forall|i: int|
        0 <= i < list.len() ==> #[trigger] shown[i] == list[i]@
}

/// Whether a list of texts holds the texts of a list of strings, in order.
pub open spec fn are_texts(shown: Seq<Seq<char>>, list: Seq<String>) -> bool {
    shown.len() == list.len() && forall|i: int|
        0 <= i < list.len() ==> #[trigger] shown[i] == list[i]@
}

/// A path is added under what is known of it: a reader of the fields gets, one after the other, the
/// path, its deriver, hash, references, time of registration and size, that it was not built there,
/// its signatures and content address, that nothing is to be repaired, and that the signatures are
/// not to be checked.
pub proof fn added_paths_are_read_back(path: SafeStorePath, info: PathInfo)
    ensures
        ({
            let fields = nar_fields(WireAddToStoreNarRequest::known_elsewhere(path, info));
            &&& fields.len() == 11
            &&& fields[0] == WireView::StorePath(path@)
            &&& fields[1] matches WireView::MaybeStorePath(deriver) && match info.deriver {
                Some(known) => deriver == Some(known@),
                None => deriver is None,
            }
            &&& fields[2] == WireView::Text(info.nar_hash@)
            &&& fields[3] matches WireView::StorePaths(references) && are_paths(
                references,
                info.references@,
            )
            &&& fields[4] == WireView::Number(info.registration_time)
            &&& fields[5] == WireView::Number(info.nar_size)
            &&& fields[6] == WireView::Bool(false)
            &&& fields[7] matches WireView::Texts(signatures) && are_texts(
                signatures,
                info.signatures@,
            )
            &&& fields[8] matches WireView::ContentAddress(ca) && match info.ca {
                Some(known) => ca == Some(known@),
                None => ca is None,
            }
            &&& fields[9] == WireView::Bool(false)
            &&& fields[10] == WireView::Bool(true)
        }),
{
}

/// The fields of any request are written as they are.
pub proof fn requests_are_written_as_they_are(request: WireAddToStoreNarRequest)
    ensures
        ({
            let fields = nar_fields(request);
            &&& fields.len() == 11
            &&& fields[0] == WireView::StorePath(request.path@)
            &&& fields[1] matches WireView::MaybeStorePath(deriver) && match request.deriver {
                Some(known) => deriver == Some(known@),
                None => deriver is None,
            }
            &&& fields[2] == WireView::Text(request.nar_hash@)
            &&& fields[3] matches WireView::StorePaths(references) && are_paths(
                references,
                request.references@,
            )
            &&& fields[4] == WireView::Number(request.registration_time)
            &&& fields[5] == WireView::Number(request.nar_size)
            &&& fields[6] == WireView::Bool(request.ultimate)
            &&& fields[7] matches WireView::Texts(signatures) && are_texts(
                signatures,
                request.signatures@,
            )
            &&& fields[8] matches WireView::ContentAddress(ca) && match request.ca {
                Some(known) => ca == Some(known@),
                None => ca is None,
            }
            &&& fields[9] == WireView::Bool(request.repair)
            &&& fields[10] == WireView::Bool(request.dont_check_sigs)
        }),
{
}

/// Whether a field that is written says what was read.
pub open spec fn says_the_same(written: WireView, read: ReplyValue) -> bool {
    match (written, read) {
        (WireView::MaybeStorePath(shown), ReplyValue::MaybeStorePath(path)) => match path {
            Some(path) => shown == Some(path@),
            None => shown is None,
        },
        (WireView::Text(shown), ReplyValue::Text(text)) => shown == text@,
        (WireView::StorePaths(shown), ReplyValue::StorePaths(list)) => are_paths(shown, list@),
        (WireView::Number(shown), ReplyValue::Number(n)) => shown == n,
        (WireView::Texts(shown), ReplyValue::Texts(list)) => are_texts(shown, list@),
        (WireView::ContentAddress(shown), ReplyValue::ContentAddress(text, understood)) => {
            if text@.len() == 0 {
                shown is None
            } else {
                match understood {
                    Some(ca) => shown == Some(ca@),
                    None => shown is None,
                }
            }
        },
        _ => false,
    }
}

/// What one daemon says of a path is what the other is told of it, in the same order behind the path
/// itself; only that it was built there is not claimed.
pub proof fn stores_are_told_what_was_said(
    version: ProtocolVersion,
    values: Seq<ReplyValue>,
    path: SafeStorePath,
    info: PathInfo,
    i: int,
)
    requires
        is_full_reply(values, version),
        is_path_info(info, values, version),
        0 <= i < values.len(),
        i != 5,
    ensures
        says_the_same(
            nar_fields(WireAddToStoreNarRequest::known_elsewhere(path, info))[i + 1],
            values[i],
        ),
{
}

/// What is known of a path is what was read, each from its place. From 1.16 on the origin is said
/// too; before, nothing is claimed of it.
pub proof fn answers_are_read_in_place(
    version: ProtocolVersion,
    values: Seq<ReplyValue>,
    info: PathInfo,
)
    requires
        is_path_info(info, values, version),
    ensures
        values[0] == ReplyValue::MaybeStorePath(info.deriver),
        values[1] == ReplyValue::Text(info.nar_hash),
        values[2] == ReplyValue::StorePaths(info.references),
        values[3] == ReplyValue::Number(info.registration_time),
        values[4] == ReplyValue::Number(info.nar_size),
        version.major > 1 || version.major == 1 && version.minor >= 16 ==> values[5]
            == ReplyValue::Bool(info.ultimate) && values[6] == ReplyValue::Texts(info.signatures)
            && values[7] is ContentAddress && (values[7]->ContentAddress_0@.len() == 0
            ==> info.ca is None) && (values[7]->ContentAddress_0@.len() > 0 ==> info.ca
            == values[7]->ContentAddress_1),
        version.major < 1 || version.major == 1 && version.minor < 16 ==> !info.ultimate
            && info.signatures@.len() == 0 && info.ca is None,
{
}

/// An answer on a path has five parts, and from 1.16 on eight.
pub proof fn answers_have_their_parts(version: ProtocolVersion)
    ensures
        ({
            let layout = path_info_layout(version);
            &&& layout.len() == if version.major > 1 || version.major == 1 && version.minor >= 16 {
                8nat
            } else {
                5
            }
            &&& layout[0] is MaybeStorePath && layout[1] is Text && layout[2] is StorePaths
                && layout[3] is Number && layout[4] is Number
            &&& layout.len() == 8 ==> layout[5] is Bool && layout[6] is Texts
                && layout[7] is ContentAddress
        }),
{
}

/// Versions are in the order of their numbers.
pub proof fn versions_are_in_order(a: ProtocolVersion, b: ProtocolVersion)
    ensures
        a.is_at_least(b.major, b.minor) <==> 256 * a.major + a.minor >= 256 * b.major + b.minor,
        version_text(a) == decimal(a.major as nat) + "."@ + decimal(a.minor as nat),
{
}

/// An error of an old daemon says what was wanted, what it has and what for.
pub proof fn old_daemons_are_told_apart(
    error: NixDaemonClientError,
    wanted: ProtocolVersion,
    have: ProtocolVersion,
    operation: Seq<char>,
)
    requires
        is_too_old(error, wanted, have, operation),
    ensures
        error is NixDaemonProtocolVersion,
        error->NixDaemonProtocolVersion_wanted == wanted,
        error->NixDaemonProtocolVersion_have == have,
        error->NixDaemonProtocolVersion_operation@ == operation,
{
}

/// A derivation is asked for by its path, and by the names of its outputs behind a mark.
pub proof fn outputs_are_asked_for_by_name(
    path: &SafeStorePath,
    names: &Vec<String>,
    list: Seq<DerivedPath>,
    i: int,
)
    ensures
        ({
            let text = derived_text(
                DerivedPath { store_path: path, outputs: DerivedPathOutput::OutputNames(names) },
            );
            &&& names@.len() == 1 ==> text == path@.push('!') + names@[0]@
            &&& text == path@.push('!') + joined(texts(names@), ","@)
        }),
        derived_texts(list).len() == list.len(),
        0 <= i < list.len() ==> derived_texts(list)[i] == derived_text(list[i]),
{
    reveal_strlit("!");
    assert(path@ + "!"@ =~= path@.push('!'));
    if names@.len() == 1 {
        assert(texts(names@)[0] == names@[0]@);
    }
}

/// What is copied is what the target lacks, all of it, in the order of the closure.
pub proof fn copies_are_what_the_target_lacks(
    closure: Seq<Seq<char>>,
    on_target: Seq<Seq<char>>,
    path: Seq<char>,
)
    ensures
        missing_on(closure.push(path), on_target) == if on_target.contains(path) {
            missing_on(closure, on_target)
        } else {
            missing_on(closure, on_target).push(path)
        },
        missing_on(Seq::empty(), on_target).len() == 0,
{
    reveal(Seq::filter);
    assert(closure.push(path).drop_last() =~= closure);
}

/// A copy that a daemon ended says of which node and path, why, and how to help where the daemon
/// does not trust the user.
pub proof fn failed_copies_say_why(
    error: HiveLibError,
    name: Name,
    path: Seq<char>,
    source: NixDaemonClientError,
)
    requires
        is_copy_error(error, name, path, source),
    ensures
        error is NixCopyError,
        error->NixCopyError_name == name,
        error->NixCopyError_path@ == path,
        error->NixCopyError_error == source,
        error->NixCopyError_help is Some <==> (
        source matches NixDaemonClientError::NixDaemonOperationError { msg, .. } && shows_distrust(
            msg@,
        )),
        error->NixCopyError_help matches Some(help) ==> help@ == untrusted_help(),
{
}

/// A path that has gone missing is named, with the node it was meant for.
pub proof fn vanished_paths_are_named(error: HiveLibError, name: Name, path: Seq<char>, host: Seq<char>)
    requires
        is_vanished_error(error, name, path),
    ensures
        error is NixCopyError,
        error->NixCopyError_name == name,
        error->NixCopyError_path@ == path,
        error->NixCopyError_help is None,
        error->NixCopyError_error matches NixDaemonClientError::NixDaemonOperationFailed(text)
            && text@ == "selected "@ + path + " for upload does not exist in local store"@,
        copying_text(path, host) == "copying '"@ + path + "' to node "@ + host,
        missing_text(path) == path + " does not exist in store"@,
{
}

/// A frame begins with its length in eight bytes, the least significant first.
pub proof fn frames_begin_with_their_length(chunk: Seq<u8>)
    ensures
        frame(chunk).len() == 8 + chunk.len(),
        frame(chunk).take(8) == spec_u64_to_le_bytes(chunk.len() as u64),
        frame(chunk).skip(8) == chunk,
        FRAME_SIZE == 65536,
{
    let length = spec_u64_to_le_bytes(chunk.len() as u64);
    vstd::bytes::lemma_auto_spec_u64_to_from_le_bytes();
    assert(length.len() == 8);
    assert(frame(chunk).take(8) =~= length);
    assert(frame(chunk).skip(8) =~= chunk);
}

/// Client and daemon introduce themselves as the protocol has it, and the client speaks 1.35.
pub proof fn introductions_are_those_of_the_protocol(magic: u64)
    ensures
        CLIENT_ONE == 0x6e697863,
        SERVER_ONE == 0x6478696f,
        CLIENT_VERSION == 256 * 1 + 35,
        LONGEST_NIX_VERSION == 10,
        magic_text(magic) == "daemon returned invalid magic in handshake: "@ + decimal(
            magic as nat,
        ),
{
}

/// The messages of a daemon are told apart by the numbers of the protocol, and any other number is
/// refused by name.
pub proof fn messages_are_told_apart_by_number(kind: u64)
    ensures
        ({
            let next = after(DrainView::Begin, TokenView::Number(kind));
            let quiet = |state: DrainView| After::Go { state, message: None };
            &&& kind == 0x616c7473 ==> next == quiet(DrainView::Over)
            &&& kind == 0x63787470 ==> next == quiet(DrainView::ErrorType)
            &&& kind == 0x6f6c6d67 ==> next == quiet(DrainView::Next)
            &&& kind == 0x53545254 ==> next == quiet(DrainView::ActivityId)
            &&& kind == 0x53544f50 ==> next == quiet(DrainView::StopId)
            &&& kind == 0x52534c54 ==> next == quiet(DrainView::OutcomeId)
            &&& kind == 0x64617461 ==> next == quiet(DrainView::ReadLength)
            &&& kind == 0x64617416 ==> next == quiet(DrainView::Begin)
            &&& kind != 0x616c7473 && kind != 0x63787470 && kind != 0x6f6c6d67 && kind
                != 0x53545254 && kind != 0x53544f50 && kind != 0x52534c54 && kind != 0x64617461
                && kind != 0x64617416 ==> next == After::Fail(
                Failure::NotUnderstood {
                    text: "unknown daemon message type in stderr stream: "@ + hexadecimal(
                        kind as nat,
                    ),
                },
            )
        }),
{
}

/// What is not understood of a message ends the stream, and is named.
pub proof fn what_is_not_understood_is_named(
    id: u64,
    level: VerbosityLevel,
    code: u64,
    small: u8,
    error: Seq<char>,
    head: HeadView,
    left: u64,
    fields: Seq<FieldView>,
)
    ensures
        code > 255 ==> after(
            DrainView::ActivityCode { id, level },
            TokenView::Number(code),
        ) == After::Fail(
            Failure::NotUnderstood {
                text: "could not cast activity type to u8: TryFromIntError(())"@,
            },
        ),
        code > 255 ==> after(DrainView::OutcomeCode { id }, TokenView::Number(code)) == After::Fail(
            Failure::NotUnderstood {
                text: "could not cast result type to u8: TryFromIntError(())"@,
            },
        ),
        after(
            DrainView::ActivityKind { id, level, code: small },
            TokenView::Activity(Err(error)),
        ) == After::Fail(
            Failure::NotUnderstood {
                text: "could not convert u64 to ActivityType: "@ + error,
            },
        ),
        after(
            DrainView::OutcomeKind { id, code: small },
            TokenView::Outcome(Err(error)),
        ) == After::Fail(
            Failure::NotUnderstood { text: "could not convert u64 to ResultType: "@ + error },
        ),
        code > 1 ==> after(
            DrainView::FieldType { head, left, fields },
            TokenView::Number(code),
        ) == After::Fail(
            Failure::NotUnderstood {
                text: "unknown activity field type: "@ + decimal(code as nat),
            },
        ),
{
}

/// Nodes are visited from left to right: visiting two lists one after the other is visiting both at
/// once, and a node is listed behind whatever its targets lead to, once.
pub proof fn visits_go_from_left_to_right<T>(
    next: spec_fn(T) -> Seq<T>,
    a: Seq<T>,
    b: Seq<T>,
    at: T,
    tour: Tour<T>,
    depth: nat,
)
    ensures
        after_visits(next, a + b, tour, depth) == after_visits(
            next,
            b,
            after_visits(next, a, tour, depth),
            depth,
        ),
        a.len() == 1 ==> after_visits(next, a, tour, depth) == after_visit(
            next,
            a[0],
            tour,
            depth,
        ),
        tour.seen.contains(at) ==> after_visit(next, at, tour, depth) == tour,
        depth > 0 && !tour.seen.contains(at) ==> {
            let inner = after_visits(
                next,
                next(at),
                Tour { seen: tour.seen.insert(at), listed: tour.listed },
                (depth - 1) as nat,
            );
            let after = after_visit(next, at, tour, depth);
            after.seen == inner.seen && after.listed == inner.listed.push(at)
        },
    decreases b.len(),
{
    reveal_with_fuel(after_visits, 2);
    if b.len() == 0 {
        assert(a + b =~= a);
    } else {
        visits_go_from_left_to_right(next, a, b.drop_last(), at, tour, depth);
        assert((a + b).drop_last() =~= a + b.drop_last());
        assert((a + b).last() == b.last());
    }
    if a.len() == 1 {
        assert(a.drop_last() =~= Seq::empty());
        assert(a.last() == a[0]);
    }
}

/// What is asked about next is the last of what was queued that is not known yet, and what is queued
/// are the references that are not known.
pub proof fn unknown_paths_are_asked_about(
    queue: Seq<Seq<char>>,
    found: Found,
    references: Seq<Seq<char>>,
    path: Seq<char>,
)
    ensures
        ({
            let left = still_unknown(queue, found);
            &&& left.is_prefix_of(queue)
            &&& forall|i: int|
                left.len() <= i < queue.len() ==> is_known(found, #[trigger] queue[i])
            &&& left.len() > 0 ==> !is_known(found, left.last())
        }),
        unknown_of(found, references.push(path)) == if is_known(found, path) {
            unknown_of(found, references)
        } else {
            unknown_of(found, references).push(path)
        },
        unknown_of(found, Seq::empty()).len() == 0,
    decreases queue.len(),
{
    reveal(Seq::filter);
    assert(references.push(path).drop_last() =~= references);
    if queue.len() > 0 && is_known(found, queue.last()) {
        unknown_paths_are_asked_about(queue.drop_last(), found, references, path);
        let left = still_unknown(queue, found);
        assert forall|i: int| left.len() <= i < queue.len() implies is_known(
            found,
            #[trigger] queue[i],
        ) by {
            if i < queue.len() - 1 {
                assert(queue.drop_last()[i] == queue[i]);
            }
        }
        assert(left.is_prefix_of(queue.drop_last()));
        assert forall|i: int| 0 <= i < left.len() implies left[i] == queue[i] by {
            assert(left[i] == queue.drop_last()[i]);
        }
        assert(left =~= queue.take(left.len() as int));
    }
}

/// What the user is told before a build counts the paths and lists them, one to a line.
pub proof fn missing_paths_are_listed(list: Seq<Seq<char>>, size: u64)
    ensures
        build_report(list, false) == "The following "@ + decimal(list.len())
            + " paths will be built: \n\t"@ + joined(list, "\n\t"@),
        build_report(list, true) == "The following "@ + in_green(decimal(list.len()))
            + " paths will be built: \n\t"@ + joined(list, "\n\t"@),
        substitute_report(list, size, false) == decimal(list.len())
            + " paths will be substituted for "@ + decimal(size as nat) + " bytes: \n\t"@ + joined(
            list,
            "\n\t"@,
        ),
        substitute_report(list, size, true) == in_green(decimal(list.len()))
            + " paths will be substituted for "@ + decimal(size as nat) + " bytes: \n\t"@ + joined(
            list,
            "\n\t"@,
        ),
{
}

/// Where a name, a message, a text or a type of error stands next a text is read, where a level
/// does a level, and else a number. What a number stands for is told without reading, and when
/// the stream is over nothing is.
pub proof fn parts_are_read_as_what_they_are(state: DrainView)
    ensures
        state is Over <==> state.wants() is None,
        state is ErrorType || state is ErrorName || state is ErrorMessage || state is Next || state
            is ActivityText || state is FieldText ==> state.wants() == Some(Want::Text),
        state is ErrorLevel || state is ActivityLevel ==> state.wants() == Some(Want::Level),
        state is Begin || state is ErrorPosition || state is ActivityId || state is ActivityCode
            || state is OutcomeId || state is OutcomeCode || state is FieldCount || state
            is FieldType || state is FieldInt || state is ActivityParent || state is StopId || state
            is ReadLength ==> state.wants() == Some(Want::Number),
        state is ActivityKind ==> state.wants() == Some(Want::Activity(state->ActivityKind_code)),
        state is OutcomeKind ==> state.wants() == Some(Want::Outcome(state->OutcomeKind_code)),
        Want::Number.reads() && Want::Text.reads() && Want::Level.reads(),
        !Want::Activity(0).reads() && !Want::Outcome(0).reads(),
{
}

/// What the daemon reports as an error is told by its name and message, and what was not
/// understood of it as an invalid response.
pub proof fn failures_become_errors(
    error: NixDaemonClientError,
    name: Seq<char>,
    msg: Seq<char>,
)
    ensures
        is_of(error, Failure::Reported { name, msg }) <==> (error
            matches NixDaemonClientError::NixDaemonOperationError { name: shown, msg: said }
            && shown@ == name && said@ == msg),
        is_of(error, Failure::NotUnderstood { text: msg }) <==> (error
            matches NixDaemonClientError::NixDaemonInvalidResponse(shown) && shown@ == msg),
{
}

} // verus!
