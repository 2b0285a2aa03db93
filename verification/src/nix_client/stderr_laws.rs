//! What the client makes of a whole stream of the daemon.
use crate::commands::logs::{FieldView, LogMessageView, VerbosityLevel};
use crate::nix_client::stderr::{
    after, after_fields, After, DrainView, Failure, HeadView, TokenView, STDERR_ERROR, STDERR_LAST,
    STDERR_NEXT, STDERR_RESULT, STDERR_START_ACTIVITY, STDERR_STOP_ACTIVITY,
};
use vstd::prelude::*;
use vstd::utf8::{decode_utf8, decode_utf8_encode_utf8, valid_utf8};

verus! {

/// How far a stream was read, and the messages that were logged on the way.
#[verifier::ext_equal]
pub ghost enum Drained {
    Going { state: DrainView, messages: Seq<LogMessageView> },
    Failed { failure: Failure, messages: Seq<LogMessageView> },
}

/// The messages of a token, and then those of what follows it.
pub open spec fn logged_before(message: Option<LogMessageView>, rest: Drained) -> Drained {
    let first = match message {
        Some(message) => seq![message],
        None => Seq::empty(),
    };
    match rest {
        Drained::Going { state, messages } => Drained::Going {
            state,
            messages: first + messages,
        },
        Drained::Failed { failure, messages } => Drained::Failed {
            failure,
            messages: first + messages,
        },
    }
}

/// What becomes of a stream of tokens.
pub open spec fn drained(state: DrainView, tokens: Seq<TokenView>) -> Drained
    decreases tokens.len(),
{
    if tokens.len() == 0 {
        Drained::Going { state, messages: Seq::empty() }
    } else {
        match after(state, tokens[0]) {
            After::Go { state: next, message } => logged_before(
                message,
                drained(next, tokens.skip(1)),
            ),
            After::Fail(failure) => Drained::Failed { failure, messages: Seq::empty() },
        }
    }
}

/// How the daemon writes a field.
pub open spec fn field_tokens(field: FieldView) -> Seq<TokenView> {
    match field {
        FieldView::Int(n) => seq![TokenView::Number(0), TokenView::Number(n)],
        FieldView::String(bytes) => seq![
            TokenView::Number(1),
            TokenView::Text(decode_utf8(bytes)),
        ],
    }
}

/// How the daemon writes fields one after the other.
pub open spec fn fields_tokens(fields: Seq<FieldView>) -> Seq<TokenView>
    decreases fields.len(),
{
    if fields.len() == 0 {
        Seq::empty()
    } else {
        field_tokens(fields[0]) + fields_tokens(fields.skip(1))
    }
}

/// Whether the daemon can write fields: their number can be written, and their texts are text.
pub open spec fn can_be_sent(fields: Seq<FieldView>) -> bool {
    fields.len() <= u64::MAX && forall|i: int|
        0 <= i < fields.len() ==> ((#[trigger] fields[i]) matches FieldView::String(bytes)
            ==> valid_utf8(bytes))
}

/// Whether the daemon can write a message: plain messages come without a level, and activities
/// with fields.
pub open spec fn is_sent(message: LogMessageView) -> bool {
    match message {
        LogMessageView::Msg { level, .. } => level == VerbosityLevel::Info,
        LogMessageView::Stop { .. } => true,
        LogMessageView::Start { fields: Some(fields), .. } => can_be_sent(fields),
        LogMessageView::Result { fields, .. } => can_be_sent(fields),
        _ => false,
    }
}

/// How the daemon writes a message, where `code` stands for the kind of an activity or result.
pub open spec fn message_tokens(message: LogMessageView, code: u8) -> Seq<TokenView> {
    match message {
        LogMessageView::Msg { msg, .. } => seq![
            TokenView::Number(STDERR_NEXT),
            TokenView::Text(msg),
        ],
        LogMessageView::Stop { id } => seq![
            TokenView::Number(STDERR_STOP_ACTIVITY),
            TokenView::Number(id),
        ],
        LogMessageView::Start { fields: Some(fields), id, level, parent, text, activity } => seq![
            TokenView::Number(STDERR_START_ACTIVITY),
            TokenView::Number(id),
            TokenView::Level(level),
            TokenView::Number(code as u64),
            TokenView::Activity(Ok(activity)),
            TokenView::Text(text),
            TokenView::Number(fields.len() as u64),
        ] + fields_tokens(fields) + seq![TokenView::Number(parent)],
        LogMessageView::Result { fields, id, result } => seq![
            TokenView::Number(STDERR_RESULT),
            TokenView::Number(id),
            TokenView::Number(code as u64),
            TokenView::Outcome(Ok(result)),
            TokenView::Number(fields.len() as u64),
        ] + fields_tokens(fields),
        _ => Seq::empty(),
    }
}

/// How the daemon writes messages one after the other.
pub open spec fn messages_tokens(
    messages: Seq<LogMessageView>,
    codes: Seq<u8>,
) -> Seq<TokenView>
    decreases messages.len(),
{
    if messages.len() == 0 {
        Seq::empty()
    } else {
        message_tokens(messages[0], codes[0]) + messages_tokens(messages.skip(1), codes.skip(1))
    }
}

/// What becomes of tokens after a state that was reached with messages already logged.
pub open spec fn continued(messages: Seq<LogMessageView>, rest: Drained) -> Drained {
    match rest {
        Drained::Going { state, messages: more } => Drained::Going {
            state,
            messages: messages + more,
        },
        Drained::Failed { failure, messages: more } => Drained::Failed {
            failure,
            messages: messages + more,
        },
    }
}

/// A stream can be read in two parts: what becomes of the whole is what becomes of the second part
/// after the first.
pub proof fn streams_can_be_split(
    state: DrainView,
    first: Seq<TokenView>,
    second: Seq<TokenView>,
)
    requires
        drained(state, first) is Going,
    ensures
        drained(state, first + second) == continued(
            drained(state, first)->Going_messages,
            drained(drained(state, first)->Going_state, second),
        ),
    decreases first.len(),
{
    if first.len() == 0 {
        assert(first + second =~= second);
        assert(drained(state, first + second) =~= continued(
            Seq::empty(),
            drained(state, second),
        ));
    } else {
        assert((first + second)[0] == first[0]);
        assert((first + second).skip(1) =~= first.skip(1) + second);
        let next = after(state, first[0]);
        assert(next is Go);
        streams_can_be_split(next->Go_state, first.skip(1), second);
        let rest = drained(next->Go_state, first.skip(1));
        let message = match next->Go_message {
            Some(message) => seq![message],
            None => Seq::empty(),
        };
        let tail = drained(rest->Going_state, second);
        match tail {
            Drained::Going { messages, .. } => {
                assert(message + (rest->Going_messages + messages) =~= (message
                    + rest->Going_messages) + messages);
            },
            Drained::Failed { messages, .. } => {
                assert(message + (rest->Going_messages + messages) =~= (message
                    + rest->Going_messages) + messages);
            },
        }
    }
}

/// What becomes of the end of the fields.
spec fn fields_done(head: HeadView, fields: Seq<FieldView>) -> Drained {
    match after_fields(head, fields) {
        After::Go { state, message } => logged_before(
            message,
            Drained::Going { state, messages: Seq::empty() },
        ),
        After::Fail(failure) => Drained::Failed { failure, messages: Seq::empty() },
    }
}

proof fn lemma_fields(head: HeadView, done: Seq<FieldView>, rest: Seq<FieldView>)
    requires
        rest.len() > 0,
        can_be_sent(rest),
    ensures
        drained(
            DrainView::FieldType { head, left: rest.len() as u64, fields: done },
            fields_tokens(rest),
        ) =~= fields_done(head, done + rest),
    decreases rest.len(),
{
    let left = rest.len() as u64;
    let tokens = fields_tokens(rest);
    let field = rest[0];
    let more = done.push(field);
    let start = DrainView::FieldType { head, left, fields: done };
    assert(tokens.skip(2) =~= fields_tokens(rest.skip(1)));
    assert(tokens.skip(1).skip(1) =~= tokens.skip(2));
    match field {
        FieldView::Int(n) => {
            assert(tokens[0] == TokenView::Number(0));
            assert(tokens.skip(1)[0] == TokenView::Number(n));
        },
        FieldView::String(bytes) => {
            decode_utf8_encode_utf8(bytes);
            assert(tokens[0] == TokenView::Number(1));
            assert(tokens.skip(1)[0] == TokenView::Text(decode_utf8(bytes)));
        },
    }
    if rest.len() == 1 {
        assert(tokens.skip(2) =~= Seq::empty());
        assert(done + rest =~= more);
        reveal_with_fuel(drained, 3);
        assert(drained(start, tokens) =~= fields_done(head, more));
    } else {
        assert forall|i: int| 0 <= i < rest.skip(1).len() implies ((
        #[trigger] rest.skip(1)[i]) matches FieldView::String(bytes) ==> valid_utf8(bytes)) by {
            assert(rest.skip(1)[i] == rest[i + 1]);
        }
        lemma_fields(head, more, rest.skip(1));
        assert(more + rest.skip(1) =~= done + rest);
        let next = DrainView::FieldType { head, left: (left - 1) as u64, fields: more };
        reveal_with_fuel(drained, 3);
        let tail = drained(next, fields_tokens(rest.skip(1)));
        assert(drained(start, tokens) =~= tail);
    }
}

proof fn lemma_field_list(head: HeadView, fields: Seq<FieldView>)
    requires
        can_be_sent(fields),
    ensures
        drained(
            DrainView::FieldCount { head },
            seq![TokenView::Number(fields.len() as u64)] + fields_tokens(fields),
        ) =~= fields_done(head, fields),
{
    let tokens = seq![TokenView::Number(fields.len() as u64)] + fields_tokens(fields);
    assert(tokens.skip(1) =~= fields_tokens(fields));
    if fields.len() == 0 {
        assert(fields =~= Seq::empty());
        reveal_with_fuel(drained, 2);
    } else {
        lemma_fields(head, Seq::empty(), fields);
        assert(Seq::<FieldView>::empty() + fields =~= fields);
    }
}

/// Whatever message the daemon writes is the message that is logged.
pub proof fn messages_are_logged_as_sent(message: LogMessageView, code: u8)
    requires
        is_sent(message),
    ensures
        drained(DrainView::Begin, message_tokens(message, code)) =~= (Drained::Going {
            state: DrainView::Begin,
            messages: seq![message],
        }),
{
    let tokens = message_tokens(message, code);
    match message {
        LogMessageView::Start { fields: Some(fields), id, level, parent, text, activity } => {
            let head = HeadView::Activity { id, level, activity, text };
            let intro = seq![
                TokenView::Number(STDERR_START_ACTIVITY),
                TokenView::Number(id),
                TokenView::Level(level),
                TokenView::Number(code as u64),
                TokenView::Activity(Ok(activity)),
                TokenView::Text(text),
            ];
            let list = seq![TokenView::Number(fields.len() as u64)] + fields_tokens(fields);
            let outro = seq![TokenView::Number(parent)];
            assert(tokens =~= intro + (list + outro));
            lemma_introduction(intro, head, code);
            lemma_field_list(head, fields);
            streams_can_be_split(DrainView::FieldCount { head }, list, outro);
            streams_can_be_split(DrainView::Begin, intro, list + outro);
            reveal_with_fuel(drained, 2);
            assert(outro.skip(1) =~= Seq::empty());
        },
        LogMessageView::Result { fields, id, result } => {
            let head = HeadView::Outcome { id, result };
            let intro = seq![
                TokenView::Number(STDERR_RESULT),
                TokenView::Number(id),
                TokenView::Number(code as u64),
                TokenView::Outcome(Ok(result)),
            ];
            let list = seq![TokenView::Number(fields.len() as u64)] + fields_tokens(fields);
            assert(tokens =~= intro + list);
            lemma_introduction(intro, head, code);
            lemma_field_list(head, fields);
            streams_can_be_split(DrainView::Begin, intro, list);
        },
        _ => {
            assert(tokens.skip(1).skip(1) =~= Seq::empty());
            reveal_with_fuel(drained, 3);
        },
    }
}

proof fn lemma_introduction(intro: Seq<TokenView>, head: HeadView, code: u8)
    requires
        match head {
            HeadView::Activity { id, level, activity, text } => intro == seq![
                TokenView::Number(STDERR_START_ACTIVITY),
                TokenView::Number(id),
                TokenView::Level(level),
                TokenView::Number(code as u64),
                TokenView::Activity(Ok(activity)),
                TokenView::Text(text),
            ],
            HeadView::Outcome { id, result } => intro == seq![
                TokenView::Number(STDERR_RESULT),
                TokenView::Number(id),
                TokenView::Number(code as u64),
                TokenView::Outcome(Ok(result)),
            ],
        },
    ensures
        drained(DrainView::Begin, intro) =~= (Drained::Going {
            state: DrainView::FieldCount { head },
            messages: Seq::empty(),
        }),
{
    reveal_with_fuel(drained, 7);
    let t1 = intro.skip(1);
    let t2 = t1.skip(1);
    let t3 = t2.skip(1);
    let t4 = t3.skip(1);
    match head {
        HeadView::Activity { .. } => {
            let t5 = t4.skip(1);
            assert(t5.skip(1) =~= Seq::empty());
        },
        HeadView::Outcome { .. } => {
            assert(t4 =~= Seq::empty());
        },
    }
}

/// A stream of messages that the daemon ends is logged message by message, in order.
pub proof fn streams_are_logged_in_order(messages: Seq<LogMessageView>, codes: Seq<u8>)
    requires
        codes.len() == messages.len(),
        forall|i: int| 0 <= i < messages.len() ==> is_sent(#[trigger] messages[i]),
    ensures
        drained(
            DrainView::Begin,
            messages_tokens(messages, codes) + seq![TokenView::Number(STDERR_LAST)],
        ) =~= (Drained::Going { state: DrainView::Over, messages }),
    decreases messages.len(),
{
    let last = seq![TokenView::Number(STDERR_LAST)];
    let tokens = messages_tokens(messages, codes) + last;
    if messages.len() == 0 {
        assert(tokens =~= last);
        assert(last.skip(1) =~= Seq::empty());
        reveal_with_fuel(drained, 2);
        assert(messages =~= Seq::empty());
    } else {
        let first = message_tokens(messages[0], codes[0]);
        let rest = messages_tokens(messages.skip(1), codes.skip(1)) + last;
        assert(tokens =~= first + rest);
        messages_are_logged_as_sent(messages[0], codes[0]);
        assert forall|i: int| 0 <= i < messages.skip(1).len() implies is_sent(
            #[trigger] messages.skip(1)[i],
        ) by {
            assert(messages.skip(1)[i] == messages[i + 1]);
        }
        streams_are_logged_in_order(messages.skip(1), codes.skip(1));
        streams_can_be_split(DrainView::Begin, first, rest);
        assert(seq![messages[0]] + messages.skip(1) =~= messages);
    }
}

/// An error that the daemon writes is the error that the client reports.
pub proof fn errors_are_reported_as_sent(
    kind: Seq<char>,
    level: VerbosityLevel,
    name: Seq<char>,
    msg: Seq<char>,
    position: u64,
)
    ensures
        drained(
            DrainView::Begin,
            seq![
                TokenView::Number(STDERR_ERROR),
                TokenView::Text(kind),
                TokenView::Level(level),
                TokenView::Text(name),
                TokenView::Text(msg),
                TokenView::Number(position),
            ],
        ) =~= (Drained::Failed {
            failure: Failure::Reported { name, msg },
            messages: Seq::empty(),
        }),
{
    reveal_with_fuel(drained, 7);
    let tokens = seq![
        TokenView::Number(STDERR_ERROR),
        TokenView::Text(kind),
        TokenView::Level(level),
        TokenView::Text(name),
        TokenView::Text(msg),
        TokenView::Number(position),
    ];
    let t5 = tokens.skip(1).skip(1).skip(1).skip(1).skip(1);
    assert(t5[0] == TokenView::Number(position));
}

} // verus!
