//! What the output of a command means.
use crate::commands::ChildOutputMode;
use crate::text::{
    after_first, cut_to_first, file_stem, lossy_text, stem_of, text_lossy, text_of_utf8,
};
use aho_corasick::{AhoCorasick, MatchKind};
use std::collections::HashMap;
use vstd::prelude::*;
use vstd::utf8::{decode_utf8, valid_utf8};

verus! {

/// How important nix takes a message to be.
#[derive(Clone, Copy, Debug, PartialEq, Eq, Structural)]
pub enum VerbosityLevel {
    Error,
    Warn,
    Notice,
    Info,
    Talkative,
    Chatty,
    Debug,
    Vomit,
}

/// The level at which a line is logged.
#[derive(Clone, Copy, Debug, PartialEq, Eq, Structural)]
pub enum Level {
    Error,
    Warn,
    Info,
    Debug,
    Trace,
}

/// The level at which a message of nix is logged.
pub open spec fn logged_at(level: VerbosityLevel) -> Level {
    match level {
        VerbosityLevel::Info => Level::Info,
        VerbosityLevel::Warn | VerbosityLevel::Notice => Level::Warn,
        VerbosityLevel::Error => Level::Error,
        VerbosityLevel::Debug => Level::Debug,
        VerbosityLevel::Vomit | VerbosityLevel::Talkative | VerbosityLevel::Chatty => Level::Trace,
    }
}

/// A line for the log, with the name of the build that it belongs to.
#[derive(Debug)]
pub struct LogLine {
    pub level: Level,
    pub build: Option<String>,
    pub text: String,
}

/// The name of the build of a derivation: its file name without the extension and without the
/// hash before the first dash. Where there is no such name, the whole path.
pub open spec fn build_name(drv_path: Seq<u8>) -> Seq<char> {
    if !valid_utf8(drv_path) {
        lossy_text(drv_path)
    } else {
        match file_stem(decode_utf8(drv_path)) {
            Some(stem) => after_first(stem, '-'),
            None => decode_utf8(drv_path),
        }
    }
}

/// Finds the name of the build of a derivation.
pub fn drv_path_to_build_name(drv_path: &[u8]) -> (name: String)
    ensures
        name@ == build_name(drv_path@),
{
    match text_of_utf8(drv_path) {
        None => text_lossy(drv_path),
        Some(path) => match stem_of(path.as_str()) {
            None => path,
            Some(stem) => cut_to_first(stem.as_str(), '-'),
        },
    }
}

/// What an activity of nix is about. Only builds matter here.
#[derive(Clone, Copy, Debug, PartialEq, Eq, Structural)]
pub enum ActivityType {
    Build,
    Other(u8),
}

/// What a result of an activity is. Only lines of a build log matter here.
#[derive(Clone, Copy, Debug, PartialEq, Eq, Structural)]
pub enum ResultType {
    BuildLogLine,
    Other(u8),
}

/// A field of a message.
#[derive(Debug)]
pub enum Field {
    Int(u64),
    String(Vec<u8>),
}

/// What a field holds.
#[verifier::ext_equal]
pub ghost enum FieldView {
    Int(u64),
    String(Seq<u8>),
}

impl View for Field {
    type V = FieldView;

    open spec fn view(&self) -> FieldView {
        match *self {
            Field::Int(n) => FieldView::Int(n),
            Field::String(bytes) => FieldView::String(bytes@),
        }
    }
}

/// What a sequence of fields holds.
pub open spec fn field_views(fields: Seq<Field>) -> Seq<FieldView> {
    fields.map_values(|field: Field| field@)
}

/// A message of nix.
#[allow(inconsistent_fields)]
#[derive(Debug)]
pub enum LogMessage {
    /// An activity starts.
    Start {
        fields: Option<Vec<Field>>,
        id: u64,
        level: VerbosityLevel,
        parent: u64,
        text: String,
        activity: ActivityType,
    },
    /// An activity ends.
    Stop { id: u64 },
    /// A message on its own.
    Msg { level: VerbosityLevel, msg: String },
    /// An activity has something to report.
    Result { fields: Vec<Field>, id: u64, result: ResultType },
    /// A build enters a phase.
    SetPhase { phase: String },
}

/// What a message holds.
#[allow(inconsistent_fields)]
#[verifier::ext_equal]
pub ghost enum LogMessageView {
    Start {
        fields: Option<Seq<FieldView>>,
        id: u64,
        level: VerbosityLevel,
        parent: u64,
        text: Seq<char>,
        activity: ActivityType,
    },
    Stop { id: u64 },
    Msg { level: VerbosityLevel, msg: Seq<char> },
    Result { fields: Seq<FieldView>, id: u64, result: ResultType },
    SetPhase { phase: Seq<char> },
}

impl View for LogMessage {
    type V = LogMessageView;

    open spec fn view(&self) -> LogMessageView {
        match *self {
            LogMessage::Start { fields, id, level, parent, text, activity } => {
                LogMessageView::Start {
                    fields: match fields {
                        Some(fields) => Some(field_views(fields@)),
                        None => None,
                    },
                    id,
                    level,
                    parent,
                    text: text@,
                    activity,
                }
            },
            LogMessage::Stop { id } => LogMessageView::Stop { id },
            LogMessage::Msg { level, msg } => LogMessageView::Msg { level, msg: msg@ },
            LogMessage::Result { fields, id, result } => LogMessageView::Result {
                fields: field_views(fields@),
                id,
                result,
            },
            LogMessage::SetPhase { phase } => LogMessageView::SetPhase { phase: phase@ },
        }
    }
}

/// What a line for the log holds.
#[verifier::ext_equal]
pub ghost struct LogLineView {
    pub level: Level,
    pub build: Option<Seq<char>>,
    pub text: Seq<char>,
}

impl View for LogLine {
    type V = LogLineView;

    open spec fn view(&self) -> LogLineView {
        LogLineView {
            level: self.level,
            build: match self.build {
                Some(build) => Some(build@),
                None => None,
            },
            text: self.text@,
        }
    }
}

/// The names of the builds that run, by the identifier of their activity.
pub open spec fn running(names: Map<u64, String>) -> Map<u64, Seq<char>> {
    names.map_values(|name: String| name@)
}

/// A text without its terminal escape sequences.
pub uninterp spec fn without_escapes(text: Seq<char>) -> Seq<char>;

/// `strip_ansi_escapes::strip_str`: the text without its terminal escape sequences. Which
/// sequences those are is not said here.
#[verifier::external_body]
pub(crate) fn strip_escapes(text: &str) -> (s: String)
    ensures
        s@ == without_escapes(text@),
{
    strip_ansi_escapes::strip_str(text)
}

/// The builds that run after a message: a build that starts joins under the name of its
/// derivation, an activity that stops leaves.
pub open spec fn running_after(
    names: Map<u64, Seq<char>>,
    message: LogMessageView,
) -> Map<u64, Seq<char>> {
    match message {
        LogMessageView::Start { fields: Some(fields), id, activity: ActivityType::Build, .. } => {
            if fields.len() > 0 && fields[0] is String {
                names.insert(id, build_name(fields[0]->String_0))
            } else {
                names
            }
        },
        LogMessageView::Stop { id } => names.remove(id),
        _ => names,
    }
}

/// What a message says, at which level, and for which build.
pub open spec fn said(
    names: Map<u64, Seq<char>>,
    message: LogMessageView,
) -> Option<LogLineView> {
    match message {
        LogMessageView::Start { text, level, .. } => Some(
            LogLineView { level: logged_at(level), build: None, text },
        ),
        LogMessageView::Msg { msg, level } => Some(
            LogLineView { level: logged_at(level), build: None, text: msg },
        ),
        LogMessageView::Result { fields, id, result: ResultType::BuildLogLine } => {
            if fields.len() > 0 && fields[0] is String {
                Some(
                    LogLineView {
                        level: Level::Info,
                        build: if names.contains_key(id) {
                            Some(names[id])
                        } else {
                            None
                        },
                        text: lossy_text(fields[0]->String_0),
                    },
                )
            } else {
                None
            }
        },
        _ => None,
    }
}

/// The line that a message adds to the log: what it says, without escape sequences. A message
/// that says nothing adds no line.
pub open spec fn line_of(
    names: Map<u64, Seq<char>>,
    message: LogMessageView,
) -> Option<LogLineView> {
    match said(names, message) {
        Some(line) => if line.text.len() == 0 {
            None
        } else {
            Some(LogLineView { text: without_escapes(line.text), ..line })
        },
        None => None,
    }
}

/// Makes a line of the log.
pub fn log_print(level: &VerbosityLevel, build_name: Option<String>, msg: String) -> (line: LogLine)
    ensures
        line@ == (LogLineView {
            level: logged_at(*level),
            build: match build_name {
                Some(name) => Some(name@),
                None => None,
            },
            text: msg@,
        }),
{
    let level: Level = match level {
        VerbosityLevel::Info => Level::Info,
        VerbosityLevel::Warn | VerbosityLevel::Notice => Level::Warn,
        VerbosityLevel::Error => Level::Error,
        VerbosityLevel::Debug => Level::Debug,
        VerbosityLevel::Vomit | VerbosityLevel::Talkative | VerbosityLevel::Chatty => Level::Trace,
    };
    LogLine { level, build: build_name, text: msg }
}

/// Follows a message of nix: keeps track of the builds that run and returns the line that the
/// message adds to the log.
pub fn trace_nix_log_message(
    log_message: LogMessage,
    build_name_map: &mut HashMap<u64, String>,
) -> (r: Option<LogLine>)
    ensures
        running(final(build_name_map)@) == running_after(
            running(old(build_name_map)@),
            log_message@,
        ),
        match r {
            Some(line) => line_of(running(old(build_name_map)@), log_message@) == Some(line@),
            None => line_of(running(old(build_name_map)@), log_message@) is None,
        },
{
    broadcast use vstd::std_specs::hash::group_hash_axioms;

    let (msg, level, build): (String, VerbosityLevel, Option<String>) = match log_message {
        LogMessage::Start { text, activity, level, id, fields, .. } => {
            if let Some(fields) = fields {
                if activity == ActivityType::Build && fields.len() > 0 {
                    // first field of start log contains the build name.
                    if let Field::String(name) = &fields[0] {
                        build_name_map.insert(id, drv_path_to_build_name(name.as_slice()));
                    }
                }
            }
            (text, level, None)
        },
        LogMessage::Stop { id } => {
            build_name_map.remove(&id);
            assert(running(build_name_map@) =~= running(old(build_name_map)@).remove(id));
            return None;
        },
        LogMessage::Msg { msg, level } => (msg, level, None),
        LogMessage::Result { result, fields, id } => {
            if result != ResultType::BuildLogLine || fields.len() == 0 {
                return None;
            }
            match &fields[0] {
                Field::String(bytes) => {
                    let name = match build_name_map.get(&id) {
                        Some(name) => Some(name.clone()),
                        None => None,
                    };
                    (text_lossy(bytes.as_slice()), VerbosityLevel::Info, name)
                },
                Field::Int(_) => {
                    return None;
                },
            }
        },
        LogMessage::SetPhase { .. } => {
            return None;
        },
    };
    assert(running(build_name_map@) =~= running_after(
        running(old(build_name_map)@),
        log_message@,
    ));

    if msg.as_str().is_empty() {
        return None;
    }
    let msg = strip_escapes(msg.as_str());

    Some(log_print(&level, build, msg))
}

/// Whether a message is a line of a build log.
pub open spec fn is_build_log(message: LogMessageView) -> bool {
    message matches LogMessageView::Result { result, .. } && result == ResultType::BuildLogLine
}

/// Whether the line that a message adds is written to the log: build logs are where they are asked
/// for.
pub fn is_traced(message: &LogMessage, print_build_logs: bool) -> (r: bool)
    ensures
        r == (print_build_logs || !is_build_log(message@)),
{
    let build_log = match message {
        LogMessage::Result { result, .. } => *result == ResultType::BuildLogLine,
        _ => false,
    };
    print_build_logs || !build_log
}

/// Whether a line is notable enough to be kept as an error message.
pub open spec fn notable(line: LogLineView) -> bool {
    line.level == Level::Error || line.level == Level::Warn
}

impl LogLine {
    /// The text to keep as an error message, where the line is notable.
    pub fn kept_message(&self) -> (r: Option<String>)
        ensures
            match r {
                Some(text) => notable(self@) && text@ == self@.text,
                None => !notable(self@),
            },
    {
        if self.level == Level::Error || self.level == Level::Warn {
            Some(self.text.clone())
        } else {
            None
        }
    }
}

/// Whether `pattern` stands in `bytes` at position `i`.
pub open spec fn bytes_at(bytes: Seq<u8>, pattern: Seq<u8>, i: int) -> bool {
    0 <= i <= i + pattern.len() <= bytes.len() && bytes.subrange(i, i + pattern.len()) == pattern
}

/// Whether `end` is where the leftmost occurrence of `pattern` ends.
pub open spec fn ends_leftmost(bytes: Seq<u8>, pattern: Seq<u8>, end: int) -> bool {
    &&& bytes_at(bytes, pattern, end - pattern.len())
    &&& forall|i: int| 0 <= i < end - pattern.len() ==> !#[trigger] bytes_at(bytes, pattern, i)
}

/// `AhoCorasick::find` with one pattern, matching the leftmost first and with regard to case:
/// where the leftmost occurrence of the pattern ends. Building the automaton fails on patterns
/// of enormous length.
#[verifier::external_body]
fn find_leftmost(pattern: &[u8], bytes: &[u8]) -> (r: Option<usize>)
    requires
        0 < pattern@.len() < 1024,
    ensures
        match r {
            Some(end) => ends_leftmost(bytes@, pattern@, end as int),
            None => forall|i: int| !#[trigger] bytes_at(bytes@, pattern@, i),
        },
{
    let mut builder = AhoCorasick::builder();
    builder.ascii_case_insensitive(false).match_kind(MatchKind::LeftmostFirst);
    builder.build([pattern]).unwrap().find(bytes).map(|found| found.end())
}

/// What marks a message of nix in its output: `@nix `.
pub open spec fn nix_mark() -> Seq<u8> {
    seq![64u8, 110, 105, 120, 32]
}

/// What a line of output is.
#[derive(Debug)]
pub enum SliceTrace {
    /// A line for the log, and the text to keep as an error message.
    Line(LogLine, Option<String>),
    /// A message of nix, which begins at this position.
    Message(usize),
}

impl ChildOutputMode {
    /// Tells what a line of output is.
    pub fn trace_slice(self, line: &[u8]) -> (r: SliceTrace)
        ensures
            match self {
                ChildOutputMode::Generic | ChildOutputMode::Interactive => {
                    r matches SliceTrace::Line(shown, Some(kept)) && shown@ == (LogLineView {
                        level: Level::Warn,
                        build: None,
                        text: without_escapes(lossy_text(line@)),
                    }) && kept@ == lossy_text(line@)
                },
                ChildOutputMode::Nix => match r {
                    SliceTrace::Message(start) => ends_leftmost(line@, nix_mark(), start as int),
                    SliceTrace::Line(shown, kept) => kept is None && shown@ == (LogLineView {
                        level: Level::Warn,
                        build: None,
                        text: lossy_text(line@),
                    }) && forall|i: int| !#[trigger] bytes_at(line@, nix_mark(), i),
                },
            },
    {
        match self {
            ChildOutputMode::Generic | ChildOutputMode::Interactive => {
                let text = text_lossy(line);
                let stripped = strip_escapes(text.as_str());
                SliceTrace::Line(
                    LogLine { level: Level::Warn, build: None, text: stripped },
                    Some(text),
                )
            },
            ChildOutputMode::Nix => {
                let mut mark: Vec<u8> = Vec::new();
                mark.push(64);
                mark.push(110);
                mark.push(105);
                mark.push(120);
                mark.push(32);
                assert(mark@ =~= nix_mark());
                match find_leftmost(mark.as_slice(), line) {
                    Some(start) => SliceTrace::Message(start),
                    // usually happens when ssh is outputting something
                    None => SliceTrace::Line(unparsed_line(line), None),
                }
            },
        }
    }
}

/// The line that shows output which is no message of nix.
pub fn unparsed_line(slice: &[u8]) -> (line: LogLine)
    ensures
        line@ == (LogLineView { level: Level::Warn, build: None, text: lossy_text(slice@) }),
{
    LogLine { level: Level::Warn, build: None, text: text_lossy(slice) }
}

/// From the start of a build until the activity stops, the lines of its log carry its name.
pub proof fn build_logs_carry_the_build_name(
    names: Map<u64, Seq<char>>,
    start: LogMessageView,
    line: LogMessageView,
    stop: LogMessageView,
)
    requires
        start matches LogMessageView::Start { fields: Some(fields), activity, .. }
            && fields.len() > 0 && fields[0] is String && activity == ActivityType::Build,
        line matches LogMessageView::Result { fields, id, result } && id == start->Start_id
            && fields.len() > 0 && fields[0] is String && result == ResultType::BuildLogLine,
        lossy_text(line->Result_fields[0]->String_0).len() > 0,
        stop == (LogMessageView::Stop { id: start->Start_id }),
    ensures
        ({
            let started = running_after(names, start);
            let stopped = running_after(started, stop);
            let drv_path = start->Start_fields->0[0]->String_0;
            &&& line_of(started, line) matches Some(shown) && shown.build == Some(
                build_name(drv_path),
            )
            &&& line_of(stopped, line) matches Some(shown) && shown.build is None
        }),
{
}

} // verus!
