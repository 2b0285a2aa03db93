//! What the client asks of the daemon, and from which version of the protocol on it can.
use crate::nix_client::{NixDaemonClientError, ProtocolVersion};
use crate::paint::{green, in_green};
use crate::store_path::{paths, SafeStorePath};
use crate::text::{decimal, decimal_of, join, joined, texts, without_repeats};
use vstd::prelude::*;

verus! {

/// An operation of the daemon.
#[derive(Clone, Copy, Debug, PartialEq, Eq, Structural)]
pub enum Operation {
    QueryValidPaths,
    QueryPathInfo,
    NarFromPath,
    QueryDerivationOutputMap,
    QueryMissing,
    BuildPaths,
    AddToStoreNar,
}

/// A value that is written to the daemon.
#[derive(Debug)]
pub enum WireValue {
    Operation(Operation),
    StorePath(SafeStorePath),
    StorePaths(Vec<SafeStorePath>),
    /// Derivations and the outputs that are wanted of them.
    DerivedPaths(Vec<String>),
    /// A path, or nothing.
    MaybeStorePath(Option<SafeStorePath>),
    Text(String),
    Texts(Vec<String>),
    /// A content address, or nothing.
    ContentAddress(Option<String>),
    Bool(bool),
    Number(u64),
}

/// What a value holds.
#[verifier::ext_equal]
pub ghost enum WireView {
    Operation(Operation),
    StorePath(Seq<char>),
    StorePaths(Seq<Seq<char>>),
    DerivedPaths(Seq<Seq<char>>),
    MaybeStorePath(Option<Seq<char>>),
    Text(Seq<char>),
    Texts(Seq<Seq<char>>),
    ContentAddress(Option<Seq<char>>),
    Bool(bool),
    Number(u64),
}

/// The text of a path that may be missing.
pub open spec fn maybe_path(path: Option<SafeStorePath>) -> Option<Seq<char>> {
    match path {
        Some(path) => Some(path@),
        None => None,
    }
}

/// A text that may be missing.
pub open spec fn maybe_text(text: Option<String>) -> Option<Seq<char>> {
    match text {
        Some(text) => Some(text@),
        None => None,
    }
}

impl View for WireValue {
    type V = WireView;

    open spec fn view(&self) -> WireView {
        match *self {
            WireValue::Operation(operation) => WireView::Operation(operation),
            WireValue::StorePath(path) => WireView::StorePath(path@),
            WireValue::StorePaths(list) => WireView::StorePaths(paths(list@)),
            WireValue::DerivedPaths(list) => WireView::DerivedPaths(texts(list@)),
            WireValue::Bool(b) => WireView::Bool(b),
            WireValue::Number(n) => WireView::Number(n),
            WireValue::MaybeStorePath(path) => WireView::MaybeStorePath(maybe_path(path)),
            WireValue::Text(text) => WireView::Text(text@),
            WireValue::Texts(list) => WireView::Texts(texts(list@)),
            WireValue::ContentAddress(ca) => WireView::ContentAddress(maybe_text(ca)),
        }
    }
}

/// What a sequence of values holds.
pub open spec fn wire_views(values: Seq<WireValue>) -> Seq<WireView> {
    values.map_values(|value: WireValue| value@)
}

/// The error of an operation that the daemon is too old for.
pub open spec fn is_too_old(
    error: NixDaemonClientError,
    wanted: ProtocolVersion,
    have: ProtocolVersion,
    operation: Seq<char>,
) -> bool {
    error matches NixDaemonClientError::NixDaemonProtocolVersion {
        wanted: shown,
        have: own,
        operation: name,
    } && shown == wanted && own == have && name@ == operation
}

fn too_old(major: u8, minor: u8, have: ProtocolVersion, operation: &str) -> (
    error: NixDaemonClientError)
    ensures
        is_too_old(error, (ProtocolVersion { major, minor }), have, operation@),
{
    NixDaemonClientError::NixDaemonProtocolVersion {
        wanted: ProtocolVersion::from_parts(major, minor),
        have,
        operation: operation.to_owned(),
    }
}

/// An error where the program is to end.
pub fn shutdown_guard(should_quit: bool) -> (r: Result<(), NixDaemonClientError>)
    ensures
        match r {
            Ok(()) => !should_quit,
            Err(error) => should_quit && error == NixDaemonClientError::Sigint,
        },
{
    if should_quit {
        return Err(NixDaemonClientError::Sigint);
    }
    Ok(())
}

/// Asks which of the paths are valid. Whether to look for substitutes can be said from 1.27 on.
pub fn query_valid_paths(
    version: ProtocolVersion,
    list: Vec<SafeStorePath>,
    substitute: bool,
) -> (r: Vec<WireValue>)
    ensures
        wire_views(r@) == seq![
            WireView::Operation(Operation::QueryValidPaths),
            WireView::StorePaths(paths(list@)),
        ] + if version.is_at_least(1, 27) {
            seq![WireView::Bool(substitute)]
        } else {
            Seq::empty()
        },
{
    let mut r: Vec<WireValue> = Vec::new();
    r.push(WireValue::Operation(Operation::QueryValidPaths));
    r.push(WireValue::StorePaths(list));
    if version.at_least(1, 27) {
        r.push(WireValue::Bool(substitute));
    }
    assert(wire_views(r@) =~= seq![
        WireView::Operation(Operation::QueryValidPaths),
        WireView::StorePaths(paths(list@)),
    ] + if version.is_at_least(1, 27) {
        seq![WireView::Bool(substitute)]
    } else {
        Seq::empty()
    });
    r
}

fn one_path(operation: Operation, path: &SafeStorePath) -> (r: Vec<WireValue>)
    ensures
        wire_views(r@) == seq![WireView::Operation(operation), WireView::StorePath(path@)],
{
    let mut r: Vec<WireValue> = Vec::new();
    r.push(WireValue::Operation(operation));
    r.push(WireValue::StorePath(path.clone()));
    assert(wire_views(r@) =~= seq![WireView::Operation(operation), WireView::StorePath(path@)]);
    r
}

/// Asks what is known of a path, from 1.17 on.
pub fn query(version: ProtocolVersion, path: &SafeStorePath) -> (r: Result<
    Vec<WireValue>,
    NixDaemonClientError,
>)
    ensures
        match r {
            Ok(values) => version.is_at_least(1, 17) && wire_views(values@) == seq![
                WireView::Operation(Operation::QueryPathInfo),
                WireView::StorePath(path@),
            ],
            Err(error) => !version.is_at_least(1, 17) && is_too_old(
                error,
                (ProtocolVersion { major: 1, minor: 17 }),
                version,
                "QueryPathInfo"@,
            ),
        },
{
    if !version.at_least(1, 17) {
        return Err(too_old(1, 17, version, "QueryPathInfo"));
    }
    Ok(one_path(Operation::QueryPathInfo, path))
}

/// Asks for the archive of a path, from 1.17 on.
pub fn get_nar_stream(version: ProtocolVersion, path: &SafeStorePath) -> (r: Result<
    Vec<WireValue>,
    NixDaemonClientError,
>)
    ensures
        match r {
            Ok(values) => version.is_at_least(1, 17) && wire_views(values@) == seq![
                WireView::Operation(Operation::NarFromPath),
                WireView::StorePath(path@),
            ],
            Err(error) => !version.is_at_least(1, 17) && is_too_old(
                error,
                (ProtocolVersion { major: 1, minor: 17 }),
                version,
                "NarFromPath"@,
            ),
        },
{
    if !version.at_least(1, 17) {
        return Err(too_old(1, 17, version, "NarFromPath"));
    }
    Ok(one_path(Operation::NarFromPath, path))
}

/// Asks for the outputs of a derivation, from 1.22 on.
pub fn query_derivation_output_map(version: ProtocolVersion, path: &SafeStorePath) -> (r: Result<
    Vec<WireValue>,
    NixDaemonClientError,
>)
    ensures
        match r {
            Ok(values) => version.is_at_least(1, 22) && wire_views(values@) == seq![
                WireView::Operation(Operation::QueryDerivationOutputMap),
                WireView::StorePath(path@),
            ],
            Err(error) => !version.is_at_least(1, 22) && is_too_old(
                error,
                (ProtocolVersion { major: 1, minor: 19 }),
                version,
                "QueryMissing"@,
            ),
        },
{
    if !version.at_least(1, 22) {
        return Err(too_old(1, 19, version, "QueryMissing"));
    }
    Ok(one_path(Operation::QueryDerivationOutputMap, path))
}

/// A derivation and the names of the outputs that are wanted of it.
#[derive(Debug)]
pub struct DerivedPath<'a> {
    pub store_path: &'a SafeStorePath,
    pub outputs: DerivedPathOutput<'a>,
}

/// The outputs that are wanted of a derivation.
#[derive(Debug)]
pub enum DerivedPathOutput<'a> {
    OutputNames(&'a Vec<String>),
}

/// How a derivation and its outputs are written.
pub open spec fn derived_text(derived: DerivedPath) -> Seq<char> {
    derived.store_path@ + "!"@ + match derived.outputs {
        DerivedPathOutput::OutputNames(names) => joined(texts(names@), ","@),
    }
}

impl<'a> DerivedPath<'a> {
    /// Writes the derivation and its outputs.
    pub fn serialize(&self) -> (s: String)
        ensures
            s@ == derived_text(*self),
    {
        let mut s = self.store_path.to_absolute_path();
        s.push_str("!");
        match self.outputs {
            DerivedPathOutput::OutputNames(names) => {
                s.push_str(join(names, ",").as_str());
            },
        }
        s
    }
}

/// How derivations and their outputs are written.
pub open spec fn derived_texts(list: Seq<DerivedPath>) -> Seq<Seq<char>> {
    list.map_values(|derived: DerivedPath| derived_text(derived))
}

fn serialize_all(list: &Vec<DerivedPath>) -> (r: Vec<String>)
    ensures
        texts(r@) == derived_texts(list@),
{
    let mut r: Vec<String> = Vec::new();
    for i in 0..list.len()
        invariant
            texts(r@) == derived_texts(list@).take(i as int),
    {
        let ghost before = texts(r@);
        r.push(list[i].serialize());
        assert(texts(r@) =~= before.push(derived_text(list@[i as int])));
        assert(derived_texts(list@).take(i + 1) =~= before.push(derived_text(list@[i as int])));
    }
    assert(derived_texts(list@).take(list@.len() as int) =~= derived_texts(list@));
    r
}

/// Asks what is missing for derivations to be built, from 1.19 on.
pub fn query_missing(version: ProtocolVersion, list: &Vec<DerivedPath>) -> (r: Result<
    Vec<WireValue>,
    NixDaemonClientError,
>)
    ensures
        match r {
            Ok(values) => version.is_at_least(1, 19) && wire_views(values@) == seq![
                WireView::Operation(Operation::QueryMissing),
                WireView::DerivedPaths(derived_texts(list@)),
            ],
            Err(error) => !version.is_at_least(1, 19) && is_too_old(
                error,
                (ProtocolVersion { major: 1, minor: 19 }),
                version,
                "QueryMissing"@,
            ),
        },
{
    if !version.at_least(1, 19) {
        return Err(too_old(1, 19, version, "QueryMissing"));
    }
    let mut values: Vec<WireValue> = Vec::new();
    values.push(WireValue::Operation(Operation::QueryMissing));
    values.push(WireValue::DerivedPaths(serialize_all(list)));
    assert(wire_views(values@) =~= seq![
        WireView::Operation(Operation::QueryMissing),
        WireView::DerivedPaths(derived_texts(list@)),
    ]);
    Ok(values)
}

/// Asks for derivations to be built, in the normal way, which has to be said from 1.15 on.
pub fn build(version: ProtocolVersion, list: &Vec<DerivedPath>) -> (r: Vec<WireValue>)
    ensures
        wire_views(r@) == seq![
            WireView::Operation(Operation::BuildPaths),
            WireView::DerivedPaths(derived_texts(list@)),
        ] + if version.is_at_least(1, 15) {
            seq![WireView::Number(0)]
        } else {
            Seq::empty()
        },
{
    let mut r: Vec<WireValue> = Vec::new();
    r.push(WireValue::Operation(Operation::BuildPaths));
    r.push(WireValue::DerivedPaths(serialize_all(list)));
    if version.at_least(1, 15) {
        r.push(WireValue::Number(0));
    }
    assert(wire_views(r@) =~= seq![
        WireView::Operation(Operation::BuildPaths),
        WireView::DerivedPaths(derived_texts(list@)),
    ] + if version.is_at_least(1, 15) {
        seq![WireView::Number(0)]
    } else {
        Seq::empty()
    });
    r
}

/// What is missing for derivations to be built. No list holds a path twice.
#[derive(Debug)]
pub struct QueryMissingResult {
    pub will_build: Vec<SafeStorePath>,
    pub will_substitute: Vec<SafeStorePath>,
    pub unknown: Vec<SafeStorePath>,
    pub download_size: u64,
    pub nar_size: u64,
}

/// Whether a list of paths holds a path.
pub fn holds_path(list: &Vec<SafeStorePath>, path: &SafeStorePath) -> (r: bool)
    ensures
        r == paths(list@).contains(path@),
{
    for i in 0..list.len()
        invariant
            forall|j: int| 0 <= j < i ==> list@[j]@ != path@,
    {
        if list[i] == *path {
            assert(paths(list@)[i as int] == path@);
            return true;
        }
    }
    assert(!paths(list@).contains(path@));
    false
}

/// Leaves out of a list what stands in it earlier.
pub fn distinct_paths(list: &Vec<SafeStorePath>) -> (r: Vec<SafeStorePath>)
    ensures
        paths(r@) == without_repeats(paths(list@)),
{
    let mut r: Vec<SafeStorePath> = Vec::new();
    assert(paths(r@) =~= without_repeats(paths(list@).take(0)));
    for i in 0..list.len()
        invariant
            paths(r@) == without_repeats(paths(list@).take(i as int)),
    {
        let ghost before = paths(r@);
        assert(paths(list@).take(i + 1).drop_last() =~= paths(list@).take(i as int));
        if !holds_path(&r, &list[i]) {
            r.push(list[i].clone());
            assert(paths(r@) =~= before.push(list@[i as int]@));
        }
    }
    assert(paths(list@).take(list@.len() as int) =~= paths(list@));
    r
}

/// What the user is told of what will be built.
pub open spec fn build_report(will_build: Seq<Seq<char>>, colors: bool) -> Seq<char> {
    let count = decimal(will_build.len());
    "The following "@ + (if colors {
        in_green(count)
    } else {
        count
    }) + " paths will be built: \n\t"@ + joined(will_build, "\n\t"@)
}

/// What the user is told of what will be substituted.
pub open spec fn substitute_report(
    will_substitute: Seq<Seq<char>>,
    download_size: u64,
    colors: bool,
) -> Seq<char> {
    let count = decimal(will_substitute.len());
    (if colors {
        in_green(count)
    } else {
        count
    }) + " paths will be substituted for "@ + decimal(download_size as nat) + " bytes: \n\t"@
        + joined(will_substitute, "\n\t"@)
}

fn absolute_paths(list: &Vec<SafeStorePath>) -> (r: Vec<String>)
    ensures
        texts(r@) == paths(list@),
{
    let mut r: Vec<String> = Vec::new();
    for i in 0..list.len()
        invariant
            texts(r@) == paths(list@).take(i as int),
    {
        let ghost before = texts(r@);
        r.push(list[i].to_absolute_path());
        assert(texts(r@) =~= before.push(list@[i as int]@));
        assert(paths(list@).take(i + 1) =~= before.push(list@[i as int]@));
    }
    assert(paths(list@).take(list@.len() as int) =~= paths(list@));
    r
}

impl QueryMissingResult {
    /// Puts an answer together, where all of it came.
    pub fn try_deserialize(
        will_build: Option<Vec<SafeStorePath>>,
        will_substitute: Option<Vec<SafeStorePath>>,
        unknown: Option<Vec<SafeStorePath>>,
        download_size: Option<u64>,
        nar_size: Option<u64>,
    ) -> (r: Option<Self>)
        ensures
            r is Some <==> will_build is Some && will_substitute is Some && unknown is Some
                && download_size is Some && nar_size is Some,
            r matches Some(result) ==> {
                &&& paths(result.will_build@) == without_repeats(paths(will_build->0@))
                &&& paths(result.will_substitute@) == without_repeats(paths(will_substitute->0@))
                &&& paths(result.unknown@) == without_repeats(paths(unknown->0@))
                &&& result.download_size == download_size->0
                &&& result.nar_size == nar_size->0
            },
    {
        match (will_build, will_substitute, unknown, download_size, nar_size) {
            (
                Some(will_build),
                Some(will_substitute),
                Some(unknown),
                Some(download_size),
                Some(nar_size),
            ) => Some(
                QueryMissingResult {
                    will_build: distinct_paths(&will_build),
                    will_substitute: distinct_paths(&will_substitute),
                    unknown: distinct_paths(&unknown),
                    download_size,
                    nar_size,
                },
            ),
            _ => None,
        }
    }

    /// What the user is told where the daemon cannot be asked what is missing.
    pub fn cannot_report() -> (s: String)
        ensures
            s@
                == "daemon does not support QueryMissing, cannot log which paths will be built or substituted"@,
    {
        "daemon does not support QueryMissing, cannot log which paths will be built or substituted".to_owned()
    }

    /// What the user is told: what will be built and what will be substituted, where there is
    /// any.
    pub fn report(&self, colors: bool) -> (r: Vec<String>)
        ensures
            texts(r@) == (if self.will_build@.len() > 0 {
                seq![build_report(paths(self.will_build@), colors)]
            } else {
                Seq::empty()
            }) + if self.will_substitute@.len() > 0 {
                seq![
                    substitute_report(paths(self.will_substitute@), self.download_size, colors),
                ]
            } else {
                Seq::empty()
            },
    {
        let mut r: Vec<String> = Vec::new();
        if self.will_build.len() > 0 {
            let count = decimal_of(self.will_build.len() as u64);
            let mut line = "The following ".to_owned();
            if colors {
                line.push_str(green(count.as_str()).as_str());
            } else {
                line.push_str(count.as_str());
            }
            line.push_str(" paths will be built: \n\t");
            line.push_str(join(&absolute_paths(&self.will_build), "\n\t").as_str());
            r.push(line);
        }
        if self.will_substitute.len() > 0 {
            let count = decimal_of(self.will_substitute.len() as u64);
            let mut line = if colors {
                green(count.as_str())
            } else {
                count
            };
            line.push_str(" paths will be substituted for ");
            line.push_str(decimal_of(self.download_size).as_str());
            line.push_str(" bytes: \n\t");
            line.push_str(join(&absolute_paths(&self.will_substitute), "\n\t").as_str());
            r.push(line);
        }
        assert(texts(r@) =~= (if self.will_build@.len() > 0 {
            seq![build_report(paths(self.will_build@), colors)]
        } else {
            Seq::empty()
        }) + if self.will_substitute@.len() > 0 {
            seq![substitute_report(paths(self.will_substitute@), self.download_size, colors)]
        } else {
            Seq::empty()
        });
        r
    }
}

/// What is known of a path.
#[derive(Debug)]
pub struct PathInfo {
    pub deriver: Option<SafeStorePath>,
    pub nar_hash: String,
    pub references: Vec<SafeStorePath>,
    pub registration_time: u64,
    pub nar_size: u64,
    pub ultimate: bool,
    pub signatures: Vec<String>,
    pub ca: Option<String>,
}

/// What is read of an answer next.
#[derive(Clone, Copy, Debug, PartialEq, Eq, Structural)]
pub enum ReplyWant {
    /// A path, or nothing.
    MaybeStorePath,
    Text,
    StorePaths,
    Number,
    Bool,
    Texts,
    /// A content address: as it was written, and as it was understood.
    ContentAddress,
}

/// What was read of an answer.
#[derive(Debug)]
pub enum ReplyValue {
    MaybeStorePath(Option<SafeStorePath>),
    Text(String),
    StorePaths(Vec<SafeStorePath>),
    Number(u64),
    Bool(bool),
    Texts(Vec<String>),
    ContentAddress(String, Option<String>),
}

/// What an answer on a path is made of. Where it comes from is said from 1.16 on.
pub open spec fn path_info_layout(version: ProtocolVersion) -> Seq<ReplyWant> {
    seq![
        ReplyWant::MaybeStorePath,
        ReplyWant::Text,
        ReplyWant::StorePaths,
        ReplyWant::Number,
        ReplyWant::Number,
    ] + if version.is_at_least(1, 16) {
        seq![ReplyWant::Bool, ReplyWant::Texts, ReplyWant::ContentAddress]
    } else {
        Seq::empty()
    }
}

/// Says what is read of an answer on a path, given whether it begins with the word that the path
/// is known. Of an unknown path nothing more is said.
pub fn query_reply(version: ProtocolVersion, success: bool) -> (r: Option<Vec<ReplyWant>>)
    ensures
        match r {
            Some(wants) => success && wants@ == path_info_layout(version),
            None => !success,
        },
{
    if !success {
        return None;
    }
    let mut wants: Vec<ReplyWant> = vec![
        ReplyWant::MaybeStorePath,
        ReplyWant::Text,
        ReplyWant::StorePaths,
        ReplyWant::Number,
        ReplyWant::Number,
    ];
    if version.at_least(1, 16) {
        wants.push(ReplyWant::Bool);
        wants.push(ReplyWant::Texts);
        wants.push(ReplyWant::ContentAddress);
    }
    assert(wants@ =~= path_info_layout(version));
    Some(wants)
}

/// Whether what was read is what was to be read.
pub open spec fn fits(value: ReplyValue, want: ReplyWant) -> bool {
    match want {
        ReplyWant::MaybeStorePath => value is MaybeStorePath,
        ReplyWant::Text => value is Text,
        ReplyWant::StorePaths => value is StorePaths,
        ReplyWant::Number => value is Number,
        ReplyWant::Bool => value is Bool,
        ReplyWant::Texts => value is Texts,
        ReplyWant::ContentAddress => value is ContentAddress,
    }
}

/// Whether an answer was read in full.
pub open spec fn is_full_reply(values: Seq<ReplyValue>, version: ProtocolVersion) -> bool {
    &&& values.len() == path_info_layout(version).len()
    &&& forall|i: int|
        0 <= i < values.len() ==> fits(#[trigger] values[i], path_info_layout(version)[i])
}

/// Whether this is what an answer says of a path. What it does not say of its origin counts as not
/// built here, not signed, and not addressed by its content; an empty content address is none.
pub open spec fn is_path_info(
    info: PathInfo,
    values: Seq<ReplyValue>,
    version: ProtocolVersion,
) -> bool {
    &&& values[0] == ReplyValue::MaybeStorePath(info.deriver)
    &&& values[1] == ReplyValue::Text(info.nar_hash)
    &&& values[2] == ReplyValue::StorePaths(info.references)
    &&& values[3] == ReplyValue::Number(info.registration_time)
    &&& values[4] == ReplyValue::Number(info.nar_size)
    &&& if version.is_at_least(1, 16) {
        &&& values[5] == ReplyValue::Bool(info.ultimate)
        &&& values[6] == ReplyValue::Texts(info.signatures)
        &&& values[7] matches ReplyValue::ContentAddress(text, understood) && info.ca == if text@.len()
            == 0 {
            None
        } else {
            understood
        }
    } else {
        &&& !info.ultimate
        &&& info.signatures@.len() == 0
        &&& info.ca is None
    }
}

impl PathInfo {
    /// What an answer says of a path, once it was read in full.
    pub fn of_reply(version: ProtocolVersion, values: Vec<ReplyValue>) -> (r: Self)
        requires
            is_full_reply(values@, version),
        ensures
            is_path_info(r, values@, version),
    {
        let ghost read = values@;
        let mut values = values;
        let mut ca: Option<String> = None;
        let mut signatures: Vec<String> = Vec::new();
        let mut ultimate = false;
        proof {
            let layout = path_info_layout(version);
            assert(fits(read[0], layout[0]));
            assert(fits(read[1], layout[1]));
            assert(fits(read[2], layout[2]));
            assert(fits(read[3], layout[3]));
            assert(fits(read[4], layout[4]));
            if version.is_at_least(1, 16) {
                assert(fits(read[5], layout[5]));
                assert(fits(read[6], layout[6]));
                assert(fits(read[7], layout[7]));
            }
        }
        if version.at_least(1, 16) {
            if let Some(ReplyValue::ContentAddress(text, understood)) = values.pop() {
                ca =
                if text.as_str().is_empty() {
                    None
                } else {
                    understood
                };
            }
            if let Some(ReplyValue::Texts(list)) = values.pop() {
                signatures = list;
            }
            if let Some(ReplyValue::Bool(b)) = values.pop() {
                ultimate = b;
            }
        }
        assert(values@ =~= read.take(5));
        let nar_size: u64 = match values.pop() {
            Some(ReplyValue::Number(n)) => n,
            _ => 0,
        };
        let registration_time: u64 = match values.pop() {
            Some(ReplyValue::Number(n)) => n,
            _ => 0,
        };
        let references = match values.pop() {
            Some(ReplyValue::StorePaths(list)) => list,
            _ => Vec::new(),
        };
        let nar_hash = match values.pop() {
            Some(ReplyValue::Text(text)) => text,
            _ => String::new(),
        };
        let deriver = match values.pop() {
            Some(ReplyValue::MaybeStorePath(path)) => path,
            _ => None,
        };
        PathInfo {
            deriver,
            nar_hash,
            references,
            registration_time,
            nar_size,
            ultimate,
            signatures,
            ca,
        }
    }
}

/// A path that is added to a store, with what is known of it.
#[derive(Debug)]
pub struct WireAddToStoreNarRequest {
    pub path: SafeStorePath,
    pub deriver: Option<SafeStorePath>,
    pub nar_hash: String,
    pub references: Vec<SafeStorePath>,
    pub registration_time: u64,
    pub nar_size: u64,
    pub ultimate: bool,
    pub signatures: Vec<String>,
    pub ca: Option<String>,
    pub repair: bool,
    pub dont_check_sigs: bool,
}

impl WireAddToStoreNarRequest {
    /// A request for a path as it is known elsewhere.
    pub open spec fn known_elsewhere(path: SafeStorePath, info: PathInfo) -> Self {
        WireAddToStoreNarRequest {
            path,
            deriver: info.deriver,
            nar_hash: info.nar_hash,
            references: info.references,
            registration_time: info.registration_time,
            nar_size: info.nar_size,
            ultimate: false,
            signatures: info.signatures,
            ca: info.ca,
            repair: false,
            dont_check_sigs: true,
        }
    }

    /// Adds a path as it is known elsewhere: it is not taken for built here, nothing is repaired,
    /// and its signatures are not checked.
    pub fn of_path_info(path: SafeStorePath, info: PathInfo) -> (r: Self)
        ensures
            r == Self::known_elsewhere(path, info),
    {
        WireAddToStoreNarRequest {
            path,
            deriver: info.deriver,
            nar_hash: info.nar_hash,
            references: info.references,
            registration_time: info.registration_time,
            nar_size: info.nar_size,
            ultimate: false,
            signatures: info.signatures,
            ca: info.ca,
            repair: false,
            dont_check_sigs: true,
        }
    }
}

/// The fields of a request, in the order in which they are written.
pub open spec fn nar_fields(request: WireAddToStoreNarRequest) -> Seq<WireView> {
    seq![
        WireView::StorePath(request.path@),
        WireView::MaybeStorePath(maybe_path(request.deriver)),
        WireView::Text(request.nar_hash@),
        WireView::StorePaths(paths(request.references@)),
        WireView::Number(request.registration_time),
        WireView::Number(request.nar_size),
        WireView::Bool(request.ultimate),
        WireView::Texts(texts(request.signatures@)),
        WireView::ContentAddress(maybe_text(request.ca)),
        WireView::Bool(request.repair),
        WireView::Bool(request.dont_check_sigs),
    ]
}

impl WireAddToStoreNarRequest {
    /// The fields, in the order in which they are written.
    pub fn serialize(self) -> (r: Vec<WireValue>)
        ensures
            wire_views(r@) == nar_fields(self),
    {
        let r: Vec<WireValue> = vec![
            WireValue::StorePath(self.path),
            WireValue::MaybeStorePath(self.deriver),
            WireValue::Text(self.nar_hash),
            WireValue::StorePaths(self.references),
            WireValue::Number(self.registration_time),
            WireValue::Number(self.nar_size),
            WireValue::Bool(self.ultimate),
            WireValue::Texts(self.signatures),
            WireValue::ContentAddress(self.ca),
            WireValue::Bool(self.repair),
            WireValue::Bool(self.dont_check_sigs),
        ];
        assert(wire_views(r@) =~= nar_fields(self));
        r
    }
}

/// Asks for a path to be added, from 1.23 on, where the archive comes in frames.
pub fn add_to_store_nar(version: ProtocolVersion, request: WireAddToStoreNarRequest) -> (r: Result<
    Vec<WireValue>,
    NixDaemonClientError,
>)
    ensures
        match r {
            Ok(values) => version.is_at_least(1, 23) && wire_views(values@) == seq![
                WireView::Operation(Operation::AddToStoreNar),
            ] + nar_fields(request),
            Err(error) => !version.is_at_least(1, 23) && is_too_old(
                error,
                (ProtocolVersion { major: 1, minor: 23 }),
                version,
                "AddToStoreNar"@,
            ),
        },
{
    if !version.at_least(1, 23) {
        return Err(too_old(1, 23, version, "AddToStoreNar"));
    }
    let mut fields = request.serialize();
    let mut values: Vec<WireValue> = Vec::new();
    values.push(WireValue::Operation(Operation::AddToStoreNar));
    let ghost written = fields@;
    values.append(&mut fields);
    assert(wire_views(values@) =~= seq![WireView::Operation(Operation::AddToStoreNar)]
        + wire_views(written));
    Ok(values)
}

} // verus!
