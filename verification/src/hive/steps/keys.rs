//! Uploading keys to a node.
use crate::commands::builder::CommandStringBuilder;
use crate::commands::{CommandArguments, CommandView};
use crate::errors::{HiveLibError, KeyError};
use crate::hive::node::Target;
use crate::modifiers::SubCommandModifiers;
use crate::paint::{dimmed, in_dim};
use crate::sets::{copy_map, map_texts, new_map, same_maps};
use crate::store_path::SafeStorePath;
use crate::text::{
    byte_len, copy_texts, join, join_path, joined, len_in_bytes, number_value, parse_octal,
    parse_octal_error, path_below, replace_char, replaced, same, text_of_utf8, texts, trimmed,
};
use base64::prelude::BASE64_STANDARD;
use base64::Engine;
use sha2::{Digest, Sha256};
use tokio_util::bytes::{Bytes, BytesMut};
use tokio_util::codec::{Encoder, LengthDelimitedCodec};
use vstd::prelude::*;
use vstd::utf8::{decode_utf8, encode_utf8, valid_utf8};

verus! {

/// Where the contents of a key come from.
#[derive(Debug)]
pub enum Source {
    String(String),
    Path(String),
    Command(Vec<String>),
}

/// What a source holds.
#[verifier::ext_equal]
pub ghost enum SourceView {
    String(Seq<char>),
    Path(Seq<char>),
    Command(Seq<Seq<char>>),
}

impl View for Source {
    type V = SourceView;

    open spec fn view(&self) -> SourceView {
        match *self {
            Source::String(s) => SourceView::String(s@),
            Source::Path(p) => SourceView::Path(p@),
            Source::Command(args) => SourceView::Command(texts(args@)),
        }
    }
}

impl Clone for Source {
    fn clone(&self) -> (r: Self)
        ensures
            r@ == self@,
    {
        match self {
            Source::String(s) => Source::String(s.clone()),
            Source::Path(p) => Source::Path(p.clone()),
            Source::Command(args) => Source::Command(copy_texts(args)),
        }
    }
}

/// When a key is uploaded.
#[derive(Clone, Copy, Debug, PartialEq, Eq, Structural)]
pub enum UploadKeyAt {
    PreActivation,
    PostActivation,
    NoFilter,
}

/// A key of a node.
#[derive(Debug)]
pub struct Key {
    pub name: String,
    pub dest_dir: String,
    pub path: String,
    pub group: String,
    pub user: String,
    pub permissions: String,
    pub source: Source,
    pub upload_at: UploadKeyAt,
    pub environment: im::HashMap<String, String>,
}

/// What a key holds.
#[verifier::ext_equal]
pub ghost struct KeyView {
    pub name: Seq<char>,
    pub dest_dir: Seq<char>,
    pub path: Seq<char>,
    pub group: Seq<char>,
    pub user: Seq<char>,
    pub permissions: Seq<char>,
    pub source: SourceView,
    pub upload_at: UploadKeyAt,
    pub environment: Map<Seq<char>, Seq<char>>,
}

impl View for Key {
    type V = KeyView;

    open spec fn view(&self) -> KeyView {
        KeyView {
            name: self.name@,
            dest_dir: self.dest_dir@,
            path: self.path@,
            group: self.group@,
            user: self.user@,
            permissions: self.permissions@,
            source: self.source@,
            upload_at: self.upload_at,
            environment: map_texts(self.environment),
        }
    }
}

impl Clone for Key {
    fn clone(&self) -> (r: Self)
        ensures
            r@ == self@,
    {
        Key {
            name: self.name.clone(),
            dest_dir: self.dest_dir.clone(),
            path: self.path.clone(),
            group: self.group.clone(),
            user: self.user.clone(),
            permissions: self.permissions.clone(),
            source: self.source.clone(),
            upload_at: self.upload_at,
            environment: copy_map(&self.environment),
        }
    }
}

/// What a sequence of keys holds.
pub open spec fn key_views(keys: Seq<Key>) -> Seq<KeyView> {
    keys.map_values(|k: Key| k@)
}

/// Uploads keys through the key agent.
#[derive(Debug)]
pub struct Keys {
    pub keys: Vec<Key>,
    pub privilege_escalation_command: Vec<String>,
}

impl Keys {
    /// The step as it is shown to the user.
    pub fn to_string(&self) -> (s: String)
        ensures
            s@ == "Upload key @ ??"@,
    {
        "Upload key @ ??".to_owned()
    }
}

/// Copies the key agent to the node.
#[derive(Debug)]
pub struct PushKeyAgent {
    pub substitute_on_destination: bool,
    pub host_platform: String,
}

impl PushKeyAgent {
    /// The step as it is shown to the user.
    pub fn to_string(&self) -> (s: String)
        ensures
            s@ == "Push the key agent"@,
    {
        "Push the key agent".to_owned()
    }
}

/// Whether two keys are the same.
pub open spec fn same_key(a: KeyView, b: KeyView) -> bool {
    &&& a.name == b.name
    &&& a.dest_dir == b.dest_dir
    &&& a.path == b.path
    &&& a.group == b.group
    &&& a.user == b.user
    &&& a.permissions == b.permissions
    &&& a.source == b.source
    &&& a.upload_at == b.upload_at
    &&& a.environment == b.environment
}

/// Tells whether two lists hold the same texts in the same order.
fn same_texts(a: &Vec<String>, b: &Vec<String>) -> (r: bool)
    ensures
        r == (texts(a@) == texts(b@)),
{
    if a.len() != b.len() {
        assert(texts(a@).len() != texts(b@).len());
        return false;
    }
    for i in 0..a.len()
        invariant
            a@.len() == b@.len(),
            forall|j: int| 0 <= j < i ==> a@[j]@ == b@[j]@,
    {
        if !same(a[i].as_str(), b[i].as_str()) {
            assert(texts(a@)[i as int] != texts(b@)[i as int]);
            return false;
        }
    }
    assert(texts(a@) =~= texts(b@));
    true
}

impl Source {
    /// Tells whether two sources are the same.
    pub fn is_same(&self, other: &Source) -> (r: bool)
        ensures
            r == (self@ == other@),
    {
        match (self, other) {
            (Source::String(a), Source::String(b)) => same(a.as_str(), b.as_str()),
            (Source::Path(a), Source::Path(b)) => same(a.as_str(), b.as_str()),
            (Source::Command(a), Source::Command(b)) => same_texts(a, b),
            _ => false,
        }
    }
}

/// A key as it is shown to the user.
pub open spec fn key_text(key: KeyView, colors: bool) -> Seq<char> {
    let kind = match key.source {
        SourceView::String(_) => "Literal"@,
        SourceView::Path(_) => "Path"@,
        SourceView::Command(_) => "Command"@,
    };
    (if colors {
        in_dim(kind)
    } else {
        kind
    }) + " "@ + path_below(key.dest_dir, key.name) + " "@ + key.user + ":"@ + key.group + " "@
        + key.permissions
}

impl Key {
    /// Tells whether two keys are the same.
    pub fn is_same(&self, other: &Key) -> (r: bool)
        ensures
            r == same_key(self@, other@),
    {
        let same_time = self.upload_at == other.upload_at;
        same(self.name.as_str(), other.name.as_str()) && same(
            self.dest_dir.as_str(),
            other.dest_dir.as_str(),
        ) && same(self.path.as_str(), other.path.as_str()) && same(
            self.group.as_str(),
            other.group.as_str(),
        ) && same(self.user.as_str(), other.user.as_str()) && same(
            self.permissions.as_str(),
            other.permissions.as_str(),
        ) && self.source.is_same(&other.source) && same_time && same_maps(
            &self.environment,
            &other.environment,
        )
    }

    /// The key as it is shown to the user.
    pub fn to_string(&self, colors: bool) -> (s: String)
        ensures
            s@ == key_text(self@, colors),
    {
        let kind = match self.source {
            Source::String(_) => "Literal",
            Source::Path(_) => "Path",
            Source::Command(_) => "Command",
        };
        let mut s = if colors {
            dimmed(kind)
        } else {
            kind.to_owned()
        };
        s.push_str(" ");
        s.push_str(join_path(self.dest_dir.as_str(), self.name.as_str()).as_str());
        s.push_str(" ");
        s.push_str(self.user.as_str());
        s.push_str(":");
        s.push_str(self.group.as_str());
        s.push_str(" ");
        s.push_str(self.permissions.as_str());
        s
    }
}

impl Default for Key {
    fn default() -> (r: Self)
        ensures
            r@ == (KeyView {
                name: "key"@,
                dest_dir: "/somewhere/"@,
                path: "key"@,
                group: "root"@,
                user: "root"@,
                permissions: "0600"@,
                source: SourceView::String("test key"@),
                upload_at: UploadKeyAt::PreActivation,
                environment: Map::empty(),
            }),
    {
        Key {
            name: "key".to_owned(),
            dest_dir: "/somewhere/".to_owned(),
            path: "key".to_owned(),
            group: "root".to_owned(),
            user: "root".to_owned(),
            permissions: "0600".to_owned(),
            source: Source::String("test key".to_owned()),
            upload_at: UploadKeyAt::PreActivation,
            environment: new_map(),
        }
    }
}

/// What the key agent is told of a key.
#[derive(Debug)]
pub struct KeySpec {
    pub destination: String,
    pub user: String,
    pub group: String,
    pub unix_mode: u32,
    pub length: i32,
    pub digest: Vec<u8>,
    /// Whether no key follows.
    pub last: bool,
}

/// What a specification holds.
#[verifier::ext_equal]
pub ghost struct KeySpecView {
    pub destination: Seq<char>,
    pub user: Seq<char>,
    pub group: Seq<char>,
    pub unix_mode: u32,
    pub length: i32,
    pub digest: Seq<u8>,
    pub last: bool,
}

impl View for KeySpec {
    type V = KeySpecView;

    open spec fn view(&self) -> KeySpecView {
        KeySpecView {
            destination: self.destination@,
            user: self.user@,
            group: self.group@,
            unix_mode: self.unix_mode,
            length: self.length,
            digest: self.digest@,
            last: self.last,
        }
    }
}

/// The SHA-256 digest of bytes.
pub uninterp spec fn sha256(bytes: Seq<u8>) -> Seq<u8>;

/// `Sha256::digest`: the digest of the bytes, 32 bytes long.
#[verifier::external_body]
pub(crate) fn digest_of(bytes: &[u8]) -> (r: Vec<u8>)
    ensures
        r@ == sha256(bytes@),
        r@.len() == 32,
{
    Sha256::digest(bytes).to_vec()
}

/// The mode that the permissions of a key write in octal.
pub fn get_u32_unix_mode(key: &Key) -> (r: Result<u32, KeyError>)
    ensures
        match r {
            Ok(mode) => number_value(key@.permissions, 8) == Some(mode as nat),
            Err(KeyError::ParseKeyPermissions(error)) => !(number_value(
                key@.permissions,
                8,
            ) matches Some(n) && n <= u32::MAX) && error@ == parse_octal_error(key@.permissions),
            Err(_) => false,
        },
{
    match parse_octal(key.permissions.as_str()) {
        Ok(mode) => Ok(mode),
        Err(error) => Err(KeyError::ParseKeyPermissions(error)),
    }
}

/// Describes a key with the given contents to the key agent.
pub fn process_key(key: &Key, contents: &Vec<u8>) -> (r: Result<KeySpec, KeyError>)
    requires
        contents@.len() <= i32::MAX,
    ensures
        match r {
            Ok(spec) => number_value(key@.permissions, 8) == Some(spec@.unix_mode as nat) && spec@
                == (KeySpecView {
                destination: path_below(key@.dest_dir, key@.name),
                user: key@.user,
                group: key@.group,
                unix_mode: spec@.unix_mode,
                length: contents@.len() as i32,
                digest: sha256(contents@),
                last: false,
            }),
            Err(KeyError::ParseKeyPermissions(error)) => !(number_value(
                key@.permissions,
                8,
            ) matches Some(n) && n <= u32::MAX) && error@ == parse_octal_error(key@.permissions),
            Err(_) => false,
        },
{
    let unix_mode: u32 = match get_u32_unix_mode(key) {
        Ok(mode) => mode,
        Err(error) => {
            return Err(error);
        },
    };
    Ok(
        KeySpec {
            destination: join_path(key.dest_dir.as_str(), key.name.as_str()),
            user: key.user.clone(),
            group: key.group.clone(),
            unix_mode,
            length: contents.len() as i32,
            digest: digest_of(contents.as_slice()),
            last: false,
        },
    )
}

/// How the contents of a key are read.
#[derive(Debug)]
pub enum KeyReader<'a> {
    /// From a file.
    File(&'a String),
    /// They are there already.
    Literal(Vec<u8>),
    /// From the standard output of a program, which is given its arguments and these variables. The
    /// program comes first, so there is at least one text.
    Command { args: &'a Vec<String>, environment: &'a im::HashMap<String, String> },
}

/// Says how the contents of a key are read. A command without a program is an error.
pub fn create_reader(key: &Key) -> (r: Result<KeyReader<'_>, KeyError>)
    ensures
        match (key.source, r) {
            (Source::Path(path), Ok(KeyReader::File(at))) => *at == path,
            (Source::String(text), Ok(KeyReader::Literal(bytes))) => bytes@ == encode_utf8(text@),
            (
                Source::Command(command),
                Ok(KeyReader::Command { args, environment }),
            ) => command@.len() > 0 && *args == command && *environment == key.environment,
            (Source::Command(command), Err(error)) => command@.len() == 0 && error
                == KeyError::Empty,
            _ => false,
        },
{
    match &key.source {
        Source::Path(path) => Ok(KeyReader::File(path)),
        Source::String(text) => Ok(KeyReader::Literal(text.as_str().as_bytes_vec())),
        Source::Command(args) => {
            if args.len() == 0 {
                Err(KeyError::Empty)
            } else {
                Ok(KeyReader::Command { args, environment: &key.environment })
            }
        },
    }
}

/// What became of the command of a key.
#[derive(Debug)]
pub enum KeyCommandOutcome {
    /// It could not be started.
    NotStarted(String),
    /// It could not be waited for.
    NotResolved(String),
    /// It ended, with this status.
    Ended { success: bool, status: String, stdout: Vec<u8>, stderr: Vec<u8> },
}

/// The contents that the command of a key gives.
pub fn command_contents(args: &Vec<String>, outcome: KeyCommandOutcome) -> (r: Result<
    Vec<u8>,
    KeyError,
>)
    requires
        args@.len() > 0,
        outcome matches KeyCommandOutcome::Ended { success, stderr, .. } ==> success || valid_utf8(
            stderr@,
        ),
    ensures
        match (outcome, r) {
            (
                KeyCommandOutcome::NotStarted(cause),
                Err(KeyError::CommandSpawnError { error, command, program_length }),
            ) => error == cause && command@ == joined(texts(args@), " "@) && program_length
                == byte_len(args@[0]@),
            (
                KeyCommandOutcome::NotResolved(cause),
                Err(KeyError::CommandResolveError { error, command }),
            ) => error == cause && command@ == joined(texts(args@), " "@),
            (KeyCommandOutcome::Ended { success, stdout, .. }, Ok(contents)) => success && contents
                == stdout,
            (
                KeyCommandOutcome::Ended { success, status, stderr, .. },
                Err(KeyError::CommandError(shown, text)),
            ) => !success && shown == status && text@ == decode_utf8(stderr@),
            _ => false,
        },
{
    match outcome {
        KeyCommandOutcome::NotStarted(error) => Err(
            KeyError::CommandSpawnError {
                error,
                command: join(args, " "),
                program_length: len_in_bytes(args[0].as_str()),
            },
        ),
        KeyCommandOutcome::NotResolved(error) => Err(
            KeyError::CommandResolveError { error, command: join(args, " ") },
        ),
        KeyCommandOutcome::Ended { success, status, stdout, stderr } => {
            if success {
                return Ok(stdout);
            }
            match text_of_utf8(stderr.as_slice()) {
                Some(text) => Err(KeyError::CommandError(status, text)),
                None => Err(KeyError::CommandError(status, String::new())),
            }
        },
    }
}

/// Whether the length of bytes in base64 is one that a machine can count to.
pub open spec fn can_be_encoded(bytes: Seq<u8>) -> bool {
    4 * ((bytes.len() + 2) / 3) <= usize::MAX
}

/// Bytes in base64.
pub uninterp spec fn base64_of(bytes: Seq<u8>) -> Seq<u8>;

/// The bytes that a base64 text stands for.
pub uninterp spec fn base64_decoded(text: Seq<u8>) -> Option<Seq<u8>>;

/// `BASE64_STANDARD.encode`: the bytes in base64, with padding: four characters for each three
/// bytes that were begun. The length of the result must not overflow.
#[verifier::external_body]
pub(crate) fn encode_base64(bytes: &[u8]) -> (r: Vec<u8>)
    requires
        can_be_encoded(bytes@),
    ensures
        r@ == base64_of(bytes@),
        r@.len() == 4 * ((bytes@.len() + 2) / 3),
{
    BASE64_STANDARD.encode(bytes).into_bytes()
}

/// `BASE64_STANDARD.decode`: the bytes that a base64 text stands for, or a refusal where it is
/// none. What was encoded comes back.
#[verifier::external_body]
pub(crate) fn decode_base64(text: &[u8]) -> (r: Option<Vec<u8>>)
    ensures
        match r {
            Some(bytes) => base64_decoded(text@) == Some(bytes@),
            None => base64_decoded(text@) is None,
        },
        forall|bytes: Seq<u8>| #[trigger]
            base64_of(bytes) == text@ ==> r is Some && r->0@ == bytes,
{
    BASE64_STANDARD.decode(text).ok()
}

/// The largest frame.
pub const MAX_FRAME: usize = 8388608;

/// The four bytes that write a length, the most significant first.
#[verifier::opaque]
pub open spec fn length_bytes(n: nat) -> Seq<u8> {
    seq![
        (n / 0x100_0000 % 0x100) as u8,
        (n / 0x1_0000 % 0x100) as u8,
        (n / 0x100 % 0x100) as u8,
        (n % 0x100) as u8,
    ]
}

/// A frame: the length of the data, then the data.
pub open spec fn frame(data: Seq<u8>) -> Seq<u8> {
    length_bytes(data.len()) + data
}

/// What is said of a frame that is too large.
pub open spec fn too_big_text() -> Seq<char> {
    "frame size too big"@
}

/// Whether an error refuses a frame that is too large.
pub open spec fn is_too_big(error: HiveLibError) -> bool {
    error matches HiveLibError::Encoding(text) && text@ == too_big_text()
}

/// `LengthDelimitedCodec::encode` of a codec as `LengthDelimitedCodec::new` makes it: the length
/// of the data in four bytes, the most significant first, then the data. Data of more than eight
/// megabytes is refused, with the text that the error of the codec shows.
#[verifier::external_body]
pub(crate) fn length_delimited(data: Vec<u8>) -> (r: Result<Vec<u8>, String>)
    ensures
        match r {
            Ok(bytes) => data@.len() <= MAX_FRAME && bytes@ == frame(data@),
            Err(text) => data@.len() > MAX_FRAME && text@ == too_big_text(),
        },
{
    let mut buffer = BytesMut::new();
    let mut codec = LengthDelimitedCodec::new();
    codec.encode(Bytes::from(data), &mut buffer).map_err(|error| error.to_string())?;
    Ok(buffer.to_vec())
}

/// Frames that wait to be written.
#[derive(Debug)]
pub struct SimpleLengthDelimWriter {
    written: Vec<u8>,
}

impl View for SimpleLengthDelimWriter {
    type V = Seq<u8>;

    closed spec fn view(&self) -> Seq<u8> {
        self.written@
    }
}

impl SimpleLengthDelimWriter {
    /// A writer with nothing to write.
    pub fn new() -> (r: Self)
        ensures
            r@ == Seq::<u8>::empty(),
    {
        SimpleLengthDelimWriter { written: Vec::new() }
    }

    /// Adds a frame.
    pub fn send(&mut self, data: Vec<u8>) -> (r: Result<(), HiveLibError>)
        ensures
            match r {
                Ok(()) => data@.len() <= MAX_FRAME && final(self)@ == old(self)@ + frame(data@),
                Err(error) => is_too_big(error) && data@.len() > MAX_FRAME && final(self)@
                    == old(self)@,
            },
    {
        match length_delimited(data) {
            Ok(bytes) => {
                let mut bytes: Vec<u8> = bytes;
                self.written.append(&mut bytes);
                Ok(())
            },
            Err(error) => Err(HiveLibError::Encoding(error)),
        }
    }

    /// Adds a frame that holds the bytes in base64. At most six megabytes fit.
    pub fn send_base64(&mut self, bytes: &[u8]) -> (r: Result<(), HiveLibError>)
        requires
            can_be_encoded(bytes@),
        ensures
            match r {
                Ok(()) => bytes@.len() <= MAX_SENT && base64_of(bytes@).len() <= MAX_FRAME
                    && final(self)@ == old(self)@ + frame(base64_of(bytes@)),
                Err(error) => is_too_big(error) && bytes@.len() > MAX_SENT && final(self)@
                    == old(self)@,
            },
    {
        self.send(encode_base64(bytes))
    }

    /// The bytes to write.
    pub fn into_bytes(self) -> (r: Vec<u8>)
        ensures
            r@ == self@,
    {
        self.written
    }
}

/// Marks the last of the keys, and no other, as the last.
pub fn mark_last(specs: &mut Vec<KeySpec>)
    ensures
        final(specs)@.len() == old(specs)@.len(),
        forall|i: int|
            0 <= i < final(specs)@.len() ==> (#[trigger] final(specs)@[i])@ == (KeySpecView {
                last: i == final(specs)@.len() - 1,
                ..old(specs)@[i]@
            }),
{
    let len: usize = specs.len();
    let mut i: usize = 0;
    while i < len
        invariant
            len == specs@.len() == old(specs)@.len(),
            i <= len,
            forall|k: int|
                0 <= k < i ==> (#[trigger] specs@[k])@ == (KeySpecView {
                    last: k == len - 1,
                    ..old(specs)@[k]@
                }),
            forall|k: int| i <= k < len ==> specs@[k] == old(specs)@[k],
        decreases len - i,
    {
        specs[i].last = i == len - 1;
        i = i + 1;
    }
}

/// The variable that names the directory of the key agent for a platform.
pub open spec fn agent_variable(host_platform: Seq<char>) -> Seq<char> {
    "WIRE_KEY_AGENT_"@ + replaced(host_platform, '-', "_"@)
}

impl PushKeyAgent {
    /// The variable that names the directory of the key agent.
    pub fn variable(&self) -> (s: String)
        ensures
            s@ == agent_variable(self.host_platform@),
    {
        let mut s = "WIRE_KEY_AGENT_".to_owned();
        s.push_str(replace_char(self.host_platform.as_str(), '-', "_").as_str());
        s
    }

    /// The directory of the key agent, given the value of its variable. Without one there is no
    /// agent for the platform.
    pub fn agent_directory(&self, value: Option<String>) -> (r: Result<String, HiveLibError>)
        ensures
            match (value, r) {
                (Some(directory), Ok(found)) => found == directory,
                (None, Err(HiveLibError::KeyArchitectureNotFound { arg_name })) => arg_name@
                    == agent_variable(self.host_platform@),
                _ => false,
            },
    {
        match value {
            Some(directory) => Ok(directory),
            None => Err(HiveLibError::KeyArchitectureNotFound { arg_name: self.variable() }),
        }
    }
}

/// Whether a key and what was read of it can be described to the agent.
pub open spec fn usable(key: KeyView, read: Result<Vec<u8>, KeyError>) -> bool {
    read is Ok && (number_value(key.permissions, 8) matches Some(n) && n <= u32::MAX)
}

/// Whether `error` is why a key cannot be described to the agent.
pub open spec fn explains(
    error: KeyError,
    key: KeyView,
    read: Result<Vec<u8>, KeyError>,
) -> bool {
    match read {
        Err(read_error) => error == read_error,
        Ok(_) => error matches KeyError::ParseKeyPermissions(text) && text@ == parse_octal_error(
            key.permissions,
        ),
    }
}

/// Whether `spec` describes a key with the given contents.
pub open spec fn describes(spec: KeySpecView, key: KeyView, contents: Seq<u8>) -> bool {
    number_value(key.permissions, 8) == Some(spec.unix_mode as nat) && spec == (KeySpecView {
        destination: path_below(key.dest_dir, key.name),
        user: key.user,
        group: key.group,
        unix_mode: spec.unix_mode,
        length: contents.len() as i32,
        digest: sha256(contents),
        last: false,
    })
}

impl Keys {
    /// Describes every key to the agent, given what was read of each, or says which is the first
    /// that cannot be used, and why.
    pub fn select_keys(
        &self,
        read: Vec<Result<Vec<u8>, KeyError>>,
    ) -> (r: Result<(Vec<KeySpec>, Vec<Vec<u8>>), HiveLibError>)
        requires
            read@.len() == self.keys@.len(),
            forall|i: int|
                0 <= i < read@.len() ==> ((#[trigger] read@[i]) matches Ok(contents)
                    ==> contents@.len() <= i32::MAX),
        ensures
            match r {
                Ok((specs, contents)) => {
                    &&& specs@.len() == contents@.len() == self.keys@.len()
                    &&& forall|i: int|
                        0 <= i < specs@.len() ==> read@[i] == Ok::<Vec<u8>, KeyError>(
                            #[trigger] contents@[i],
                        ) && describes(specs@[i]@, self.keys@[i]@, contents@[i]@)
                },
                Err(HiveLibError::KeyError(name, error)) => exists|i: int|
                    0 <= i < self.keys@.len() && !usable(self.keys@[i]@, #[trigger] read@[i])
                        && explains(error, self.keys@[i]@, read@[i]) && name@ == self.keys@[i]@.name
                        && forall|k: int|
                        0 <= k < i ==> usable(self.keys@[k]@, #[trigger] read@[k]),
                Err(_) => false,
            },
    {
        let ghost results = read@;
        let mut left: Vec<Result<Vec<u8>, KeyError>> = read;
        let mut specs: Vec<KeySpec> = Vec::new();
        let mut all: Vec<Vec<u8>> = Vec::new();
        let len: usize = left.len();
        for i in 0..len
            invariant
                len == self.keys@.len() == results.len(),
                results == read@,
                left@ == results.skip(i as int),
                specs@.len() == all@.len() == i,
                forall|k: int|
                    0 <= k < results.len() ==> ((#[trigger] results[k]) matches Ok(contents)
                        ==> contents@.len() <= i32::MAX),
                forall|k: int|
                    0 <= k < i ==> results[k] == Ok::<Vec<u8>, KeyError>(#[trigger] all@[k])
                        && describes(specs@[k]@, self.keys@[k]@, all@[k]@),
        {
            assert(results.skip(i as int)[0] == results[i as int]);
            assert(results.skip(i as int).remove(0) =~= results.skip(i + 1));
            assert forall|k: int| 0 <= k < i implies usable(
                self.keys@[k]@,
                #[trigger] results[k],
            ) by {
                assert(results[k] == Ok::<Vec<u8>, KeyError>(all@[k]));
            }
            let name = self.keys[i].name.clone();
            match left.remove(0) {
                Ok(contents) => match process_key(&self.keys[i], &contents) {
                    Ok(spec) => {
                        specs.push(spec);
                        all.push(contents);
                    },
                    Err(error) => {
                        assert(!usable(self.keys@[i as int]@, results[i as int]));
                        return Err(HiveLibError::KeyError(name, error));
                    },
                },
                Err(error) => {
                    assert(!usable(self.keys@[i as int]@, results[i as int]));
                    return Err(HiveLibError::KeyError(name, error));
                },
            }
        }
        Ok((specs, all))
    }

    /// The command that runs the key agent of a directory.
    pub fn agent_command(
        &self,
        agent_directory: &SafeStorePath,
        target: Option<Target>,
        modifiers: SubCommandModifiers,
    ) -> (r: CommandArguments)
        ensures
            r@ == (CommandView {
                target: match target {
                    Some(target) => Some(target@),
                    None => None,
                },
                privilege_escalation_command: Some(
                    joined(texts(self.privilege_escalation_command@), " "@),
                ),
                keep_stdin_open: true,
                log_stdout: true,
                ..CommandView::plain(
                    trimmed(agent_directory@ + "/bin/wire-key-agent"@),
                    modifiers,
                )
            }),
    {
        let mut program = agent_directory.to_absolute_path();
        program.push_str("/bin/wire-key-agent");
        let command_string = CommandStringBuilder::new(program.as_str());
        CommandArguments::new(command_string.as_str(), modifiers).execute_on_remote(
            target,
        ).privileged(&self.privilege_escalation_command).keep_stdin_open().log_stdout()
    }
}

/// The length that four bytes write.
#[verifier::opaque]
pub open spec fn length_of(bytes: Seq<u8>) -> nat {
    (bytes[0] as nat) * 0x100_0000 + (bytes[1] as nat) * 0x1_0000 + (bytes[2] as nat) * 0x100 + (
    bytes[3] as nat)
}

/// The data of the frames that bytes consist of, where they consist of whole frames.
pub open spec fn unframed(bytes: Seq<u8>) -> Option<Seq<Seq<u8>>>
    decreases bytes.len(),
{
    if bytes.len() == 0 {
        Some(Seq::empty())
    } else if bytes.len() < 4 || bytes.len() < 4 + length_of(bytes) {
        None
    } else {
        let end = 4 + length_of(bytes) as int;
        match unframed(bytes.skip(end)) {
            Some(rest) => Some(seq![bytes.subrange(4, end)] + rest),
            None => None,
        }
    }
}

/// Frames one after the other.
pub open spec fn frames(data: Seq<Seq<u8>>) -> Seq<u8>
    decreases data.len(),
{
    if data.len() == 0 {
        Seq::empty()
    } else {
        frame(data[0]) + frames(data.skip(1))
    }
}

proof fn lengths_are_read_back(n: nat, data: Seq<u8>)
    requires
        n <= MAX_FRAME,
    ensures
        length_of(length_bytes(n) + data) == n,
        length_bytes(n).len() == 4,
{
    reveal(length_bytes);
    reveal(length_of);
    let bytes = length_bytes(n) + data;
    assert(bytes[0] == n / 0x100_0000 % 0x100);
    assert(bytes[1] == n / 0x1_0000 % 0x100);
    assert(bytes[2] == n / 0x100 % 0x100);
    assert(bytes[3] == n % 0x100);
}

proof fn a_frame_is_read_back(data: Seq<u8>, rest: Seq<u8>)
    requires
        data.len() <= MAX_FRAME,
    ensures
        unframed(frame(data) + rest) == match unframed(rest) {
            Some(others) => Some(seq![data] + others),
            None => None,
        },
{
    let bytes = frame(data) + rest;
    lengths_are_read_back(data.len(), data + rest);
    assert(bytes =~= length_bytes(data.len()) + (data + rest));
    let end = 4 + data.len() as int;
    assert(bytes.subrange(4, end) =~= data);
    assert(bytes.skip(end) =~= rest);
}

/// Whether no data is too long for a frame.
pub open spec fn fits_in_frames(data: Seq<Seq<u8>>) -> bool {
    forall|i: int| 0 <= i < data.len() ==> (#[trigger] data[i]).len() <= MAX_FRAME
}

/// What was framed is read back, in order.
pub proof fn frames_are_read_back(data: Seq<Seq<u8>>)
    requires
        fits_in_frames(data),
    ensures
        unframed(frames(data)) == Some(data),
    decreases data.len(),
{
    if data.len() > 0 {
        let rest = data.skip(1);
        assert forall|i: int| 0 <= i < rest.len() implies (#[trigger] rest[i]).len()
            <= MAX_FRAME by {
            assert(rest[i] == data[i + 1]);
        }
        frames_are_read_back(rest);
        a_frame_is_read_back(data[0], frames(rest));
        assert(seq![data[0]] + rest =~= data);
    } else {
        assert(unframed(frames(data))->0 =~= data);
    }
}

proof fn frames_grow(data: Seq<Seq<u8>>, last: Seq<u8>)
    ensures
        frames(data.push(last)) == frames(data) + frame(last),
    decreases data.len(),
{
    let all = data.push(last);
    if data.len() == 0 {
        reveal_with_fuel(frames, 2);
        assert(all.skip(1) =~= Seq::empty());
        assert(frames(all) =~= frame(last));
        assert(frames(data) + frame(last) =~= frame(last));
    } else {
        frames_grow(data.skip(1), last);
        assert(all.skip(1) =~= data.skip(1).push(last));
        assert(frame(data[0]) + (frames(data.skip(1)) + frame(last)) =~= frame(data[0]) + frames(
            data.skip(1),
        ) + frame(last));
    }
}

/// What the agent is sent: each key behind its specification, all in base64.
pub open spec fn sent_to_agent(specs: Seq<Vec<u8>>, contents: Seq<Vec<u8>>) -> Seq<Seq<u8>>
    decreases specs.len(),
{
    if specs.len() == 0 {
        Seq::empty()
    } else {
        sent_to_agent(specs.drop_last(), contents.drop_last()).push(
            base64_of(specs.last()@),
        ).push(base64_of(contents.last()@))
    }
}

/// The most bytes that fit in a frame in base64.
pub const MAX_SENT: usize = 6291456;

/// Writes what the agent is sent, given the specifications as bytes. The agent reads back what was
/// sent. Without keys it is not even run.
pub fn write_keys(specs: &Vec<Vec<u8>>, contents: &Vec<Vec<u8>>) -> (r: Result<
    Option<Vec<u8>>,
    HiveLibError,
>)
    requires
        specs@.len() == contents@.len(),
        forall|i: int| 0 <= i < specs@.len() ==> can_be_encoded((#[trigger] specs@[i])@),
        forall|i: int| 0 <= i < contents@.len() ==> can_be_encoded((#[trigger] contents@[i])@),
    ensures
        match r {
            Ok(None) => specs@.len() == 0,
            Ok(Some(bytes)) => specs@.len() > 0 && bytes@ == frames(
                sent_to_agent(specs@, contents@),
            ) && unframed(bytes@) == Some(sent_to_agent(specs@, contents@)),
            Err(error) => is_too_big(error) && exists|i: int|
                0 <= i < specs@.len() && ((#[trigger] specs@[i])@.len() > MAX_SENT
                    || contents@[i]@.len() > MAX_SENT),
        },
{
    if specs.len() == 0 {
        return Ok(None);
    }
    let mut writer = SimpleLengthDelimWriter::new();
    assert(writer@ =~= frames(sent_to_agent(specs@.take(0), contents@.take(0))));
    for i in 0..specs.len()
        invariant
            specs@.len() == contents@.len(),
            forall|k: int| 0 <= k < specs@.len() ==> can_be_encoded((#[trigger] specs@[k])@),
            forall|k: int| 0 <= k < contents@.len() ==> can_be_encoded((#[trigger] contents@[k])@),
            writer@ == frames(sent_to_agent(specs@.take(i as int), contents@.take(i as int))),
            fits_in_frames(sent_to_agent(specs@.take(i as int), contents@.take(i as int))),
    {
        proof {
            let sent = sent_to_agent(specs@.take(i as int), contents@.take(i as int));
            assert(specs@.take(i + 1).drop_last() =~= specs@.take(i as int));
            assert(contents@.take(i + 1).drop_last() =~= contents@.take(i as int));
            frames_grow(sent, base64_of(specs@[i as int]@));
            frames_grow(
                sent.push(base64_of(specs@[i as int]@)),
                base64_of(contents@[i as int]@),
            );
        }
        if let Err(error) = writer.send_base64(specs[i].as_slice()) {
            return Err(error);
        }
        if let Err(error) = writer.send_base64(contents[i].as_slice()) {
            return Err(error);
        }
    }
    assert(specs@.take(specs@.len() as int) =~= specs@);
    assert(contents@.take(contents@.len() as int) =~= contents@);
    proof {
        frames_are_read_back(sent_to_agent(specs@, contents@));
    }
    Ok(Some(writer.into_bytes()))
}

} // verus!
