//! What the log shows of the output of commands.
use crate::commands::logs::{
    build_name, is_build_log, line_of, logged_at, nix_mark, notable, running_after, without_escapes,
    Level, LogLineView, LogMessageView, VerbosityLevel,
};
use crate::laws::text::{stems_end_at_the_last_dot, texts_are_cut_at_the_first};
use crate::logging::{
    event_text, format_event, is_node_event, level_color, level_name, span_field, FieldsView,
    OrderedFields,
};
use crate::paint::{in_bold, in_dim, in_italics, in_style};
use crate::text::{file_stem, lossy_text};
use vstd::prelude::*;
use vstd::utf8::{
    decode_utf8, encode_utf8, encode_utf8_decode_utf8, encode_utf8_valid_utf8, valid_utf8,
};

verus! {

/// Messages are logged at the level of their name. A notice is as good as a warning, and what is
/// chattier than information is traced, but for what is meant for debugging.
pub proof fn levels_are_those_of_the_messages(level: VerbosityLevel)
    ensures
        logged_at(level) is Error <==> level is Error,
        logged_at(level) is Warn <==> level is Warn || level is Notice,
        logged_at(level) is Info <==> level is Info,
        logged_at(level) is Debug <==> level is Debug,
        logged_at(level) is Trace <==> level is Talkative || level is Chatty || level is Vomit,
{
}

/// The build of the derivation `<directory>/<hash>-<name>.drv` goes by its name.
pub proof fn builds_go_by_the_names_of_their_derivations(
    dir: Seq<char>,
    hash: Seq<char>,
    name: Seq<char>,
    path: Seq<char>,
)
    requires
        !hash.contains('-'),
        !hash.contains('/'),
        !name.contains('/'),
        path == dir.push('/') + (hash.push('-') + name + ".drv"@),
    ensures
        build_name(encode_utf8(path)) == name,
{
    reveal_strlit(".drv");
    reveal_strlit("drv");
    let stem = hash.push('-') + name;
    assert forall|k: int| 0 <= k < stem.len() implies stem[k] != '/' by {
        if k < hash.len() {
            assert(hash.contains(hash[k]));
        } else if k > hash.len() {
            assert(name.contains(name[k - hash.len() - 1]));
        }
    }
    assert(path =~= dir.push('/') + (stem.push('.') + "drv"@));
    stems_end_at_the_last_dot(dir, stem, "drv"@);
    texts_are_cut_at_the_first(hash, '-', name);
    encode_utf8_decode_utf8(path);
    encode_utf8_valid_utf8(path);
}

/// A path that is no text is shown as it is, with what is no text replaced, and so is one that
/// names no file.
pub proof fn builds_without_a_name_go_by_their_path(path: Seq<u8>)
    ensures
        !valid_utf8(path) ==> build_name(path) == lossy_text(path),
        valid_utf8(path) && file_stem(decode_utf8(path)) is None ==> build_name(path)
            == decode_utf8(path),
{
}

/// The builds that run are those that started and did not stop, each under the name of its
/// derivation. No other message changes them.
pub proof fn builds_run_until_they_stop(
    names: Map<u64, Seq<char>>,
    message: LogMessageView,
    other: u64,
)
    ensures
        ({
            let after = running_after(names, message);
            &&& (message matches LogMessageView::Start { fields: Some(fields), id, activity, .. }
                && activity is Build && fields.len() > 0 && fields[0] is String) ==> {
                &&& after.contains_key(message->Start_id)
                &&& after[message->Start_id] == build_name(
                    message->Start_fields->0[0]->String_0,
                )
                &&& other != message->Start_id ==> after.contains_key(other)
                    == names.contains_key(other) && after[other] == names[other]
            }
            &&& message is Stop ==> {
                &&& !after.contains_key(message->Stop_id)
                &&& other != message->Stop_id ==> after.contains_key(other)
                    == names.contains_key(other)
                &&& other != message->Stop_id && names.contains_key(other) ==> after[other]
                    == names[other]
            }
            &&& message is Start && !(message->activity is Build) ==> after == names
            &&& message is Start && message->Start_fields is None ==> after == names
            &&& message is Msg || message is Result || message is SetPhase ==> after == names
        }),
{
}

/// A message is logged by its text, at its level, and for no build. A line of a build log is
/// information on the build that it belongs to. Nothing else is logged, and no empty text is.
/// What is logged has no escape sequences.
pub proof fn messages_are_logged_by_their_text(
    names: Map<u64, Seq<char>>,
    message: LogMessageView,
)
    ensures
        message is Start && message->text.len() > 0 ==> line_of(names, message) == Some(
            LogLineView {
                level: logged_at(message->Start_level),
                build: None,
                text: without_escapes(message->text),
            },
        ),
        message is Msg && message->msg.len() > 0 ==> line_of(names, message) == Some(
            LogLineView {
                level: logged_at(message->Msg_level),
                build: None,
                text: without_escapes(message->msg),
            },
        ),
        message is Start && message->text.len() == 0 ==> line_of(names, message) is None,
        message is Msg && message->msg.len() == 0 ==> line_of(names, message) is None,
        message is Stop || message is SetPhase ==> line_of(names, message) is None,
        message is Result && !(message->result is BuildLogLine) ==> line_of(names, message)
            is None,
        message is Result && (message->Result_fields.len() == 0
            || !(message->Result_fields[0] is String)) ==> line_of(names, message) is None,
        message is Result && message->result is BuildLogLine && message->Result_fields.len() > 0
            && message->Result_fields[0] is String ==> ({
            let text = lossy_text(message->Result_fields[0]->String_0);
            &&& text.len() == 0 ==> line_of(names, message) is None
            &&& text.len() > 0 ==> line_of(names, message) is Some
            &&& text.len() > 0 ==> ({
                let line = line_of(names, message)->0;
                &&& line.level is Info
                &&& line.text == without_escapes(text)
                &&& names.contains_key(message->Result_id) ==> line.build == Some(
                    names[message->Result_id],
                )
                &&& !names.contains_key(message->Result_id) ==> line.build is None
            })
        }),
{
}

/// Only results can be lines of a build log, and only errors and warnings are kept. Messages of
/// nix are marked by what is written here.
pub proof fn errors_and_warnings_are_notable(message: LogMessageView, line: LogLineView)
    ensures
        is_build_log(message) <==> message is Result && message->result is BuildLogLine,
        notable(line) <==> line.level is Error || line.level is Warn,
        nix_mark().len() == "@nix "@.len(),
        forall|k: int| 0 <= k < 5 ==> #[trigger] nix_mark()[k] as char == "@nix "@[k],
{
    reveal_strlit("@nix ");
}

/// Levels are told apart by their color and by their name, and the names are of one width.
pub proof fn levels_are_told_apart(level: Level)
    ensures
        level is Trace ==> level_color(level) is Purple && level_name(level) == "TRACE"@,
        level is Debug ==> level_color(level) is Blue && level_name(level) == "DEBUG"@,
        level is Info ==> level_color(level) is Green && level_name(level) == " INFO"@,
        level is Warn ==> level_color(level) is Yellow && level_name(level) == " WARN"@,
        level is Error ==> level_color(level) is Red && level_name(level) == "ERROR"@,
        level_name(level).len() == 5,
{
    reveal_strlit("TRACE");
    reveal_strlit("DEBUG");
    reveal_strlit(" INFO");
    reveal_strlit(" WARN");
    reveal_strlit("ERROR");
}

/// A message and a build have places of their own, where the last one counts. Every other field
/// is written by its name and value behind those that came before.
pub proof fn fields_have_their_places(fields: FieldsView, name: Seq<char>, value: Seq<char>)
    ensures
        fields.with("message"@, value) == (FieldsView { msg: value, has_fields: true, ..fields }),
        fields.with("msg"@, value) == (FieldsView { msg: value, has_fields: true, ..fields }),
        fields.with("build"@, value) == (FieldsView { build: value, has_fields: true, ..fields }),
        name != "message"@ && name != "msg"@ && name != "build"@ && fields.other.len() == 0
            ==> fields.with(name, value) == (FieldsView {
            other: name + "="@ + value,
            has_fields: true,
            ..fields
        }),
        name != "message"@ && name != "msg"@ && name != "build"@ && fields.other.len() > 0
            ==> fields.with(name, value) == (FieldsView {
            other: fields.other + ", "@ + name + "="@ + value,
            has_fields: true,
            ..fields
        }),
        !FieldsView::none().has_fields,
        FieldsView::none().msg.len() == 0,
        FieldsView::none().build.len() == 0,
        FieldsView::none().other.len() == 0,
{
    reveal_strlit("message");
    reveal_strlit("msg");
    reveal_strlit("build");
    assert("build"@.len() == 5);
    assert("msg"@.len() == 3);
    assert("message"@.len() == 7);
    assert(Seq::<char>::empty() + name + "="@ + value =~= name + "="@ + value);
}

/// The line of an event has its level, the node, the step, the build, the message and the other
/// fields, in this order. What there is none of is left out.
pub proof fn events_are_one_line(
    level: Level,
    node: Seq<char>,
    step: Seq<char>,
    fields: FieldsView,
)
    ensures
        fields.build.len() > 0 && fields.msg.len() > 0 && fields.other.len() > 0 ==> event_text(
            level,
            node,
            Some(step),
            fields,
            false,
        ) == level_name(level) + " "@ + node + " "@ + step + " "@ + fields.build + "> "@
            + fields.msg + " "@ + fields.other + "\n"@,
        fields.build.len() == 0 && fields.msg.len() > 0 && fields.other.len() == 0 ==> event_text(
            level,
            node,
            Some(step),
            fields,
            false,
        ) == level_name(level) + " "@ + node + " "@ + step + " "@ + fields.msg + "\n"@,
        fields.build.len() == 0 && fields.msg.len() == 0 && fields.other.len() == 0 ==> event_text(
            level,
            node,
            None,
            fields,
            false,
        ) == level_name(level) + " "@ + node + "\n"@,
        fields.build.len() > 0 && fields.msg.len() > 0 && fields.other.len() > 0 ==> event_text(
            level,
            node,
            Some(step),
            fields,
            true,
        ) == in_style(level_color(level), level_name(level)) + " "@ + node + " "@ + in_italics(
            step,
        ) + " "@ + in_dim(fields.build) + in_dim(">"@) + " "@ + fields.msg + " "@ + fields.other
            + "\n"@,
        fields.build.len() == 0 && fields.msg.len() > 0 && fields.other.len() == 0 ==> event_text(
            level,
            node,
            None,
            fields,
            true,
        ) == in_style(level_color(level), level_name(level)) + " "@ + node + " "@ + fields.msg
            + "\n"@,
{
    reveal_strlit(" ");
    reveal_strlit(">");
    reveal_strlit("> ");
    let plain = level_name(level);
    let colored = in_style(level_color(level), level_name(level));
    if fields.build.len() > 0 && fields.msg.len() > 0 && fields.other.len() > 0 {
        assert(event_text(level, node, Some(step), fields, false) =~= plain + " "@ + node + " "@
            + step + " "@ + fields.build + "> "@ + fields.msg + " "@ + fields.other + "\n"@);
        assert(event_text(level, node, Some(step), fields, true) =~= colored + " "@ + node + " "@
            + in_italics(step) + " "@ + in_dim(fields.build) + in_dim(">"@) + " "@ + fields.msg
            + " "@ + fields.other + "\n"@);
    }
    if fields.build.len() == 0 && fields.msg.len() > 0 && fields.other.len() == 0 {
        assert(event_text(level, node, Some(step), fields, false) =~= plain + " "@ + node + " "@
            + step + " "@ + fields.msg + "\n"@);
        assert(event_text(level, node, None, fields, true) =~= colored + " "@ + node + " "@
            + fields.msg + "\n"@);
    }
    if fields.build.len() == 0 && fields.msg.len() == 0 && fields.other.len() == 0 {
        assert(event_text(level, node, None, fields, false) =~= plain + " "@ + node + "\n"@);
    }
}

/// What stands before the events of a node is its name, and an event belongs to a node where it
/// happens while a plan is executed. An event without fields is not written.
pub proof fn events_of_nodes_begin_with_the_node(
    name: &str,
    value: &str,
    shown: String,
    parent: Option<&str>,
    names_node: bool,
    is_of_node: bool,
)
    ensures
        call_ensures(span_field, (name, value, false), shown) ==> {
            &&& name@ == "node"@ ==> shown@ == value@
            &&& name@ != "node"@ ==> shown@.len() == 0
        },
        call_ensures(span_field, (name, value, true), shown) ==> {
            &&& name@ == "node"@ ==> shown@ == in_bold(value@)
            &&& name@ != "node"@ ==> shown@.len() == 0
        },
        call_ensures(is_node_event, (parent, names_node), is_of_node) ==> (is_of_node
            <==> names_node && parent is Some && parent->0@ == "execute"@),
{
}

/// An event with fields is written, by what it says.
pub proof fn events_with_fields_are_written(
    level: Level,
    node: &str,
    step: &str,
    fields: &OrderedFields,
    colors: bool,
    r: Option<String>,
)
    ensures
        call_ensures(format_event, (level, node, Some(step), fields, colors), r) ==> {
            &&& r is Some <==> fields@.has_fields
            &&& r is Some ==> r->0@ == event_text(level, node@, Some(step@), fields@, colors)
        },
        call_ensures(format_event, (level, node, None, fields, colors), r) ==> {
            &&& r is Some <==> fields@.has_fields
            &&& r is Some ==> r->0@ == event_text(level, node@, None, fields@, colors)
        },
{
}

} // verus!
