//! What the daemon says while it works: a stream of messages that ends with the work, or with an
//! error.
use crate::commands::logs::{
    field_views, ActivityType, Field, FieldView, LogMessage, LogMessageView, ResultType,
    VerbosityLevel,
};
use crate::nix_client::NixDaemonClientError;
use crate::text::{decimal, decimal_of, hexadecimal, hexadecimal_of};
use vstd::prelude::*;
use vstd::utf8::encode_utf8;

verus! {

pub const STDERR_ERROR: u64 = 0x6378_7470;

pub const STDERR_READ: u64 = 0x6461_7461;

pub const STDERR_LAST: u64 = 0x616c_7473;

pub const STDERR_NEXT: u64 = 0x6f6c_6d67;

pub const STDERR_WRITE: u64 = 0x6461_7416;

pub const STDERR_START_ACTIVITY: u64 = 0x5354_5254;

pub const STDERR_STOP_ACTIVITY: u64 = 0x5354_4f50;

pub const STDERR_RESULT: u64 = 0x5253_4c54;

/// What to read from the daemon.
#[derive(Clone, Copy, Debug, PartialEq, Eq, Structural)]
pub enum Want {
    Number,
    Text,
    Level,
    /// Nothing: tell which activity has this code.
    Activity(u8),
    /// Nothing: tell which result has this code.
    Outcome(u8),
}

impl Want {
    /// Whether something is read for it.
    pub open spec fn reads(self) -> bool {
        self is Number || self is Text || self is Level
    }
}

/// What was read.
#[derive(Debug)]
pub enum Token {
    Number(u64),
    Text(String),
    Level(VerbosityLevel),
    Activity(Result<ActivityType, String>),
    Outcome(Result<ResultType, String>),
}

/// What a token holds.
pub ghost enum TokenView {
    Number(u64),
    Text(Seq<char>),
    Level(VerbosityLevel),
    Activity(Result<ActivityType, Seq<char>>),
    Outcome(Result<ResultType, Seq<char>>),
}

impl View for Token {
    type V = TokenView;

    open spec fn view(&self) -> TokenView {
        match *self {
            Token::Number(n) => TokenView::Number(n),
            Token::Text(text) => TokenView::Text(text@),
            Token::Level(level) => TokenView::Level(level),
            Token::Activity(Ok(activity)) => TokenView::Activity(Ok(activity)),
            Token::Activity(Err(error)) => TokenView::Activity(Err(error@)),
            Token::Outcome(Ok(result)) => TokenView::Outcome(Ok(result)),
            Token::Outcome(Err(error)) => TokenView::Outcome(Err(error@)),
        }
    }
}

impl Want {
    /// Whether a token is what was asked for.
    pub open spec fn is_met_by(self, token: TokenView) -> bool {
        match self {
            Want::Number => token is Number,
            Want::Text => token is Text,
            Want::Level => token is Level,
            Want::Activity(_) => token is Activity,
            Want::Outcome(_) => token is Outcome,
        }
    }
}

/// What comes before the fields of a message.
#[derive(Debug)]
pub enum Head {
    Activity { id: u64, level: VerbosityLevel, activity: ActivityType, text: String },
    Outcome { id: u64, result: ResultType },
}

/// What a head holds.
#[allow(inconsistent_fields)]
pub ghost enum HeadView {
    Activity { id: u64, level: VerbosityLevel, activity: ActivityType, text: Seq<char> },
    Outcome { id: u64, result: ResultType },
}

impl View for Head {
    type V = HeadView;

    open spec fn view(&self) -> HeadView {
        match *self {
            Head::Activity { id, level, activity, text } => HeadView::Activity {
                id,
                level,
                activity,
                text: text@,
            },
            Head::Outcome { id, result } => HeadView::Outcome { id, result },
        }
    }
}

/// How far a message was read.
#[derive(Debug)]
pub enum DrainState {
    /// At the type of a message.
    Begin,
    ErrorType,
    ErrorLevel,
    ErrorName,
    ErrorMessage { name: String },
    ErrorPosition { name: String, msg: String },
    Next,
    ActivityId,
    ActivityLevel { id: u64 },
    ActivityCode { id: u64, level: VerbosityLevel },
    ActivityKind { id: u64, level: VerbosityLevel, code: u8 },
    ActivityText { id: u64, level: VerbosityLevel, activity: ActivityType },
    OutcomeId,
    OutcomeCode { id: u64 },
    OutcomeKind { id: u64, code: u8 },
    /// At the number of fields.
    FieldCount { head: Head },
    /// At the type of a field; `left` fields follow, with this one.
    FieldType { head: Head, left: u64, fields: Vec<Field> },
    FieldInt { head: Head, left: u64, fields: Vec<Field> },
    FieldText { head: Head, left: u64, fields: Vec<Field> },
    ActivityParent { head: Head, fields: Vec<Field> },
    StopId,
    ReadLength,
    Over,
}

/// What a state holds.
#[allow(inconsistent_fields)]
#[verifier::ext_equal]
pub ghost enum DrainView {
    Begin,
    ErrorType,
    ErrorLevel,
    ErrorName,
    ErrorMessage { name: Seq<char> },
    ErrorPosition { name: Seq<char>, msg: Seq<char> },
    Next,
    ActivityId,
    ActivityLevel { id: u64 },
    ActivityCode { id: u64, level: VerbosityLevel },
    ActivityKind { id: u64, level: VerbosityLevel, code: u8 },
    ActivityText { id: u64, level: VerbosityLevel, activity: ActivityType },
    OutcomeId,
    OutcomeCode { id: u64 },
    OutcomeKind { id: u64, code: u8 },
    FieldCount { head: HeadView },
    FieldType { head: HeadView, left: u64, fields: Seq<FieldView> },
    FieldInt { head: HeadView, left: u64, fields: Seq<FieldView> },
    FieldText { head: HeadView, left: u64, fields: Seq<FieldView> },
    ActivityParent { head: HeadView, fields: Seq<FieldView> },
    StopId,
    ReadLength,
    Over,
}

impl View for DrainState {
    type V = DrainView;

    open spec fn view(&self) -> DrainView {
        match *self {
            DrainState::Begin => DrainView::Begin,
            DrainState::ErrorType => DrainView::ErrorType,
            DrainState::ErrorLevel => DrainView::ErrorLevel,
            DrainState::ErrorName => DrainView::ErrorName,
            DrainState::ErrorMessage { name } => DrainView::ErrorMessage { name: name@ },
            DrainState::ErrorPosition { name, msg } => DrainView::ErrorPosition {
                name: name@,
                msg: msg@,
            },
            DrainState::Next => DrainView::Next,
            DrainState::ActivityId => DrainView::ActivityId,
            DrainState::ActivityLevel { id } => DrainView::ActivityLevel { id },
            DrainState::ActivityCode { id, level } => DrainView::ActivityCode { id, level },
            DrainState::ActivityKind { id, level, code } => DrainView::ActivityKind {
                id,
                level,
                code,
            },
            DrainState::ActivityText { id, level, activity } => DrainView::ActivityText {
                id,
                level,
                activity,
            },
            DrainState::OutcomeId => DrainView::OutcomeId,
            DrainState::OutcomeCode { id } => DrainView::OutcomeCode { id },
            DrainState::OutcomeKind { id, code } => DrainView::OutcomeKind { id, code },
            DrainState::FieldCount { head } => DrainView::FieldCount { head: head@ },
            DrainState::FieldType { head, left, fields } => DrainView::FieldType {
                head: head@,
                left,
                fields: field_views(fields@),
            },
            DrainState::FieldInt { head, left, fields } => DrainView::FieldInt {
                head: head@,
                left,
                fields: field_views(fields@),
            },
            DrainState::FieldText { head, left, fields } => DrainView::FieldText {
                head: head@,
                left,
                fields: field_views(fields@),
            },
            DrainState::ActivityParent { head, fields } => DrainView::ActivityParent {
                head: head@,
                fields: field_views(fields@),
            },
            DrainState::StopId => DrainView::StopId,
            DrainState::ReadLength => DrainView::ReadLength,
            DrainState::Over => DrainView::Over,
        }
    }
}

/// What a failure says.
pub ghost enum Failure {
    /// The daemon reports an error.
    Reported { name: Seq<char>, msg: Seq<char> },
    /// The daemon says what is not understood.
    NotUnderstood { text: Seq<char> },
}

/// Whether an error is of a failure.
pub open spec fn is_of(error: NixDaemonClientError, failure: Failure) -> bool {
    match failure {
        Failure::Reported { name, msg } => error
            matches NixDaemonClientError::NixDaemonOperationError { name: shown, msg: said }
            && shown@ == name && said@ == msg,
        Failure::NotUnderstood { text } => error
            matches NixDaemonClientError::NixDaemonInvalidResponse(shown) && shown@ == text,
    }
}

/// What comes after a token: a message for the log, or nothing, and the next state; or a failure.
#[verifier::ext_equal]
pub ghost enum After {
    Go { state: DrainView, message: Option<LogMessageView> },
    Fail(Failure),
}

impl DrainView {
    /// What to read in this state.
    pub open spec fn wants(self) -> Option<Want> {
        match self {
            DrainView::Over => None,
            DrainView::ErrorType | DrainView::ErrorName | DrainView::ErrorMessage { .. }
            | DrainView::Next | DrainView::ActivityText { .. } | DrainView::FieldText { .. } => {
                Some(Want::Text)
            },
            DrainView::ErrorLevel | DrainView::ActivityLevel { .. } => Some(Want::Level),
            DrainView::ActivityKind { code, .. } => Some(Want::Activity(code)),
            DrainView::OutcomeKind { code, .. } => Some(Want::Outcome(code)),
            _ => Some(Want::Number),
        }
    }
}

/// Goes on without a message.
pub open spec fn quietly(state: DrainView) -> After {
    After::Go { state, message: None }
}

/// Goes on after the fields of a message are read: an activity has a parent still to come.
pub open spec fn after_fields(head: HeadView, fields: Seq<FieldView>) -> After {
    match head {
        HeadView::Activity { .. } => quietly(DrainView::ActivityParent { head, fields }),
        HeadView::Outcome { id, result } => After::Go {
            state: DrainView::Begin,
            message: Some(LogMessageView::Result { fields, id, result }),
        },
    }
}

/// Goes on after one more field is read.
pub open spec fn after_field(
    head: HeadView,
    left: u64,
    fields: Seq<FieldView>,
    field: FieldView,
) -> After {
    let more = fields.push(field);
    if left <= 1 {
        after_fields(head, more)
    } else {
        quietly(DrainView::FieldType { head, left: (left - 1) as u64, fields: more })
    }
}

/// What comes after the type of a message.
pub open spec fn after_type(kind: u64) -> After {
    if kind == STDERR_LAST {
        quietly(DrainView::Over)
    } else if kind == STDERR_ERROR {
        quietly(DrainView::ErrorType)
    } else if kind == STDERR_NEXT {
        quietly(DrainView::Next)
    } else if kind == STDERR_START_ACTIVITY {
        quietly(DrainView::ActivityId)
    } else if kind == STDERR_STOP_ACTIVITY {
        quietly(DrainView::StopId)
    } else if kind == STDERR_RESULT {
        quietly(DrainView::OutcomeId)
    } else if kind == STDERR_READ {
        quietly(DrainView::ReadLength)
    } else if kind == STDERR_WRITE {
        quietly(DrainView::Begin)
    } else {
        After::Fail(
            Failure::NotUnderstood {
                text: "unknown daemon message type in stderr stream: "@ + hexadecimal(kind as nat),
            },
        )
    }
}

/// What comes after a token.
pub open spec fn after(state: DrainView, token: TokenView) -> After {
    match (state, token) {
        (DrainView::Begin, TokenView::Number(kind)) => after_type(kind),
        (DrainView::ErrorType, TokenView::Text(_)) => quietly(DrainView::ErrorLevel),
        (DrainView::ErrorLevel, TokenView::Level(_)) => quietly(DrainView::ErrorName),
        (DrainView::ErrorName, TokenView::Text(name)) => quietly(DrainView::ErrorMessage { name }),
        (DrainView::ErrorMessage { name }, TokenView::Text(msg)) => quietly(
            DrainView::ErrorPosition { name, msg },
        ),
        (DrainView::ErrorPosition { name, msg }, TokenView::Number(_)) => After::Fail(
            Failure::Reported { name, msg },
        ),
        (DrainView::Next, TokenView::Text(msg)) => After::Go {
            state: DrainView::Begin,
            message: Some(LogMessageView::Msg { level: VerbosityLevel::Info, msg }),
        },
        (DrainView::ActivityId, TokenView::Number(id)) => quietly(DrainView::ActivityLevel { id }),
        (DrainView::ActivityLevel { id }, TokenView::Level(level)) => quietly(
            DrainView::ActivityCode { id, level },
        ),
        (DrainView::ActivityCode { id, level }, TokenView::Number(code)) => if code <= 255 {
            quietly(DrainView::ActivityKind { id, level, code: code as u8 })
        } else {
            After::Fail(
                Failure::NotUnderstood {
                    text: "could not cast activity type to u8: TryFromIntError(())"@,
                },
            )
        },
        (DrainView::ActivityKind { id, level, .. }, TokenView::Activity(kind)) => match kind {
            Ok(activity) => quietly(DrainView::ActivityText { id, level, activity }),
            Err(error) => After::Fail(
                Failure::NotUnderstood {
                    text: "could not convert u64 to ActivityType: "@ + error,
                },
            ),
        },
        (DrainView::ActivityText { id, level, activity }, TokenView::Text(text)) => quietly(
            DrainView::FieldCount { head: HeadView::Activity { id, level, activity, text } },
        ),
        (DrainView::OutcomeId, TokenView::Number(id)) => quietly(DrainView::OutcomeCode { id }),
        (DrainView::OutcomeCode { id }, TokenView::Number(code)) => if code <= 255 {
            quietly(DrainView::OutcomeKind { id, code: code as u8 })
        } else {
            After::Fail(
                Failure::NotUnderstood {
                    text: "could not cast result type to u8: TryFromIntError(())"@,
                },
            )
        },
        (DrainView::OutcomeKind { id, .. }, TokenView::Outcome(kind)) => match kind {
            Ok(result) => quietly(
                DrainView::FieldCount { head: HeadView::Outcome { id, result } },
            ),
            Err(error) => After::Fail(
                Failure::NotUnderstood {
                    text: "could not convert u64 to ResultType: "@ + error,
                },
            ),
        },
        (DrainView::FieldCount { head }, TokenView::Number(left)) => if left == 0 {
            after_fields(head, Seq::empty())
        } else {
            quietly(DrainView::FieldType { head, left, fields: Seq::empty() })
        },
        (DrainView::FieldType { head, left, fields }, TokenView::Number(kind)) => if kind == 0 {
            quietly(DrainView::FieldInt { head, left, fields })
        } else if kind == 1 {
            quietly(DrainView::FieldText { head, left, fields })
        } else {
            After::Fail(
                Failure::NotUnderstood {
                    text: "unknown activity field type: "@ + decimal(kind as nat),
                },
            )
        },
        (DrainView::FieldInt { head, left, fields }, TokenView::Number(n)) => after_field(
            head,
            left,
            fields,
            FieldView::Int(n),
        ),
        (DrainView::FieldText { head, left, fields }, TokenView::Text(text)) => after_field(
            head,
            left,
            fields,
            FieldView::String(encode_utf8(text)),
        ),
        (DrainView::ActivityParent { head, fields }, TokenView::Number(parent)) => match head {
            HeadView::Activity { id, level, activity, text } => After::Go {
                state: DrainView::Begin,
                message: Some(
                    LogMessageView::Start {
                        fields: Some(fields),
                        id,
                        level,
                        parent,
                        text,
                        activity,
                    },
                ),
            },
            HeadView::Outcome { .. } => quietly(DrainView::Begin),
        },
        (DrainView::StopId, TokenView::Number(id)) => After::Go {
            state: DrainView::Begin,
            message: Some(LogMessageView::Stop { id }),
        },
        (DrainView::ReadLength, TokenView::Number(_)) => quietly(DrainView::Begin),
        (state, _) => quietly(state),
    }
}

/// What to do after a token.
#[derive(Debug)]
pub enum DrainStep {
    /// Log the message, where there is one, and go on in the state.
    Go(DrainState, Option<LogMessage>),
    Fail(NixDaemonClientError),
}

/// Whether a step is what comes after a token.
pub open spec fn is_step(step: DrainStep, after: After) -> bool {
    match (step, after) {
        (DrainStep::Go(state, message), After::Go { state: next, message: said }) => state@ == next
            && match (message, said) {
            (Some(message), Some(said)) => message@ == said,
            (None, None) => true,
            _ => false,
        },
        (DrainStep::Fail(error), After::Fail(failure)) => is_of(error, failure),
        _ => false,
    }
}

fn not_understood(prefix: &str, rest: &str) -> (r: DrainStep)
    ensures
        is_step(r, After::Fail(Failure::NotUnderstood { text: prefix@ + rest@ })),
{
    let mut text = prefix.to_owned();
    text.push_str(rest);
    DrainStep::Fail(NixDaemonClientError::NixDaemonInvalidResponse(text))
}

fn finish_fields(head: Head, fields: Vec<Field>) -> (r: DrainStep)
    ensures
        is_step(r, after_fields(head@, field_views(fields@))),
{
    match head {
        Head::Activity { id, level, activity, text } => DrainStep::Go(
            DrainState::ActivityParent {
                head: Head::Activity { id, level, activity, text },
                fields,
            },
            None,
        ),
        Head::Outcome { id, result } => DrainStep::Go(
            DrainState::Begin,
            Some(LogMessage::Result { fields, id, result }),
        ),
    }
}

fn add_field(head: Head, left: u64, fields: Vec<Field>, field: Field) -> (r: DrainStep)
    ensures
        is_step(r, after_field(head@, left, field_views(fields@), field@)),
{
    let mut more: Vec<Field> = fields;
    more.push(field);
    assert(field_views(more@) =~= field_views(fields@).push(field@));
    if left <= 1 {
        finish_fields(head, more)
    } else {
        DrainStep::Go(DrainState::FieldType { head, left: left - 1, fields: more }, None)
    }
}

fn begin_message(kind: u64) -> (r: DrainStep)
    ensures
        is_step(r, after_type(kind)),
{
    if kind == STDERR_LAST {
        DrainStep::Go(DrainState::Over, None)
    } else if kind == STDERR_ERROR {
        DrainStep::Go(DrainState::ErrorType, None)
    } else if kind == STDERR_NEXT {
        DrainStep::Go(DrainState::Next, None)
    } else if kind == STDERR_START_ACTIVITY {
        DrainStep::Go(DrainState::ActivityId, None)
    } else if kind == STDERR_STOP_ACTIVITY {
        DrainStep::Go(DrainState::StopId, None)
    } else if kind == STDERR_RESULT {
        DrainStep::Go(DrainState::OutcomeId, None)
    } else if kind == STDERR_READ {
        DrainStep::Go(DrainState::ReadLength, None)
    } else if kind == STDERR_WRITE {
        DrainStep::Go(DrainState::Begin, None)
    } else {
        not_understood(
            "unknown daemon message type in stderr stream: ",
            hexadecimal_of(kind).as_str(),
        )
    }
}

impl DrainState {
    /// What to read next, or nothing where the stream is over. Nothing more is read where the
    /// program was asked to end; what was read before is still told apart.
    pub fn want(&self, should_quit: bool) -> (r: Result<Option<Want>, NixDaemonClientError>)
        ensures
            match r {
                Ok(want) => want == self@.wants() && !(should_quit && want is Some
                    && want->0.reads()),
                Err(error) => should_quit && self@.wants() is Some && self@.wants()->0.reads()
                    && error == NixDaemonClientError::Sigint,
            },
    {
        let want: Want = match self {
            DrainState::Over => {
                return Ok(None);
            },
            DrainState::ActivityKind { code, .. } => {
                return Ok(Some(Want::Activity(*code)));
            },
            DrainState::OutcomeKind { code, .. } => {
                return Ok(Some(Want::Outcome(*code)));
            },
            DrainState::ErrorType | DrainState::ErrorName | DrainState::ErrorMessage { .. }
            | DrainState::Next | DrainState::ActivityText { .. }
            | DrainState::FieldText { .. } => Want::Text,
            DrainState::ErrorLevel | DrainState::ActivityLevel { .. } => Want::Level,
            _ => Want::Number,
        };
        if should_quit {
            return Err(NixDaemonClientError::Sigint);
        }
        Ok(Some(want))
    }

    /// Takes in what was read.
    pub fn step(self, token: Token) -> (r: DrainStep)
        requires
            self@.wants() matches Some(want) && want.is_met_by(token@),
        ensures
            is_step(r, after(self@, token@)),
    {
        match (self, token) {
            (DrainState::Begin, Token::Number(kind)) => begin_message(kind),
            (DrainState::ErrorType, Token::Text(_)) => DrainStep::Go(DrainState::ErrorLevel, None),
            (DrainState::ErrorLevel, Token::Level(_)) => DrainStep::Go(DrainState::ErrorName, None),
            (DrainState::ErrorName, Token::Text(name)) => DrainStep::Go(
                DrainState::ErrorMessage { name },
                None,
            ),
            (DrainState::ErrorMessage { name }, Token::Text(msg)) => DrainStep::Go(
                DrainState::ErrorPosition { name, msg },
                None,
            ),
            (DrainState::ErrorPosition { name, msg }, Token::Number(_)) => DrainStep::Fail(
                NixDaemonClientError::NixDaemonOperationError { name, msg },
            ),
            (DrainState::Next, Token::Text(msg)) => DrainStep::Go(
                DrainState::Begin,
                Some(LogMessage::Msg { level: VerbosityLevel::Info, msg }),
            ),
            (DrainState::ActivityId, Token::Number(id)) => DrainStep::Go(
                DrainState::ActivityLevel { id },
                None,
            ),
            (DrainState::ActivityLevel { id }, Token::Level(level)) => DrainStep::Go(
                DrainState::ActivityCode { id, level },
                None,
            ),
            (DrainState::ActivityCode { id, level }, Token::Number(code)) => if code <= 255 {
                DrainStep::Go(DrainState::ActivityKind { id, level, code: code as u8 }, None)
            } else {
                DrainStep::Fail(
                    NixDaemonClientError::NixDaemonInvalidResponse(
                        "could not cast activity type to u8: TryFromIntError(())".to_owned(),
                    ),
                )
            },
            (DrainState::ActivityKind { id, level, .. }, Token::Activity(kind)) => match kind {
                Ok(activity) => DrainStep::Go(
                    DrainState::ActivityText { id, level, activity },
                    None,
                ),
                Err(error) => not_understood(
                    "could not convert u64 to ActivityType: ",
                    error.as_str(),
                ),
            },
            (DrainState::ActivityText { id, level, activity }, Token::Text(text)) => DrainStep::Go(
                DrainState::FieldCount { head: Head::Activity { id, level, activity, text } },
                None,
            ),
            (DrainState::OutcomeId, Token::Number(id)) => DrainStep::Go(
                DrainState::OutcomeCode { id },
                None,
            ),
            (DrainState::OutcomeCode { id }, Token::Number(code)) => if code <= 255 {
                DrainStep::Go(DrainState::OutcomeKind { id, code: code as u8 }, None)
            } else {
                DrainStep::Fail(
                    NixDaemonClientError::NixDaemonInvalidResponse(
                        "could not cast result type to u8: TryFromIntError(())".to_owned(),
                    ),
                )
            },
            (DrainState::OutcomeKind { id, .. }, Token::Outcome(kind)) => match kind {
                Ok(result) => DrainStep::Go(
                    DrainState::FieldCount { head: Head::Outcome { id, result } },
                    None,
                ),
                Err(error) => not_understood(
                    "could not convert u64 to ResultType: ",
                    error.as_str(),
                ),
            },
            (DrainState::FieldCount { head }, Token::Number(left)) => {
                let fields: Vec<Field> = Vec::new();
                assert(field_views(fields@) =~= Seq::empty());
                if left == 0 {
                    finish_fields(head, fields)
                } else {
                    DrainStep::Go(DrainState::FieldType { head, left, fields }, None)
                }
            },
            (DrainState::FieldType { head, left, fields }, Token::Number(kind)) => if kind == 0 {
                DrainStep::Go(DrainState::FieldInt { head, left, fields }, None)
            } else if kind == 1 {
                DrainStep::Go(DrainState::FieldText { head, left, fields }, None)
            } else {
                not_understood("unknown activity field type: ", decimal_of(kind).as_str())
            },
            (DrainState::FieldInt { head, left, fields }, Token::Number(n)) => add_field(
                head,
                left,
                fields,
                Field::Int(n),
            ),
            (DrainState::FieldText { head, left, fields }, Token::Text(text)) => add_field(
                head,
                left,
                fields,
                Field::String(text.as_str().as_bytes_vec()),
            ),
            (DrainState::ActivityParent { head, fields }, Token::Number(parent)) => match head {
                Head::Activity { id, level, activity, text } => DrainStep::Go(
                    DrainState::Begin,
                    Some(
                        LogMessage::Start {
                            fields: Some(fields),
                            id,
                            level,
                            parent,
                            text,
                            activity,
                        },
                    ),
                ),
                Head::Outcome { .. } => DrainStep::Go(DrainState::Begin, None),
            },
            (DrainState::StopId, Token::Number(id)) => DrainStep::Go(
                DrainState::Begin,
                Some(LogMessage::Stop { id }),
            ),
            (DrainState::ReadLength, Token::Number(_)) => DrainStep::Go(DrainState::Begin, None),
            (state, _) => DrainStep::Go(state, None),
        }
    }
}

} // verus!
