//! How events are written while nodes are worked on.
use crate::commands::logs::Level;
use crate::paint::{bold, dimmed, in_bold, in_dim, in_italics, in_style, italic, styled, Color};
use crate::text::same;
use vstd::prelude::*;

verus! {

/// The color of a level.
pub open spec fn level_color(level: Level) -> Color {
    match level {
        Level::Trace => Color::Purple,
        Level::Debug => Color::Blue,
        Level::Info => Color::Green,
        Level::Warn => Color::Yellow,
        Level::Error => Color::Red,
    }
}

/// The color of a level.
pub fn get_style(level: Level) -> (r: Color)
    ensures
        r == level_color(level),
{
    match level {
        Level::Trace => Color::Purple,
        Level::Debug => Color::Blue,
        Level::Info => Color::Green,
        Level::Warn => Color::Yellow,
        Level::Error => Color::Red,
    }
}

/// The name of a level, all of one width.
pub open spec fn level_name(level: Level) -> Seq<char> {
    match level {
        Level::Trace => "TRACE"@,
        Level::Debug => "DEBUG"@,
        Level::Info => " INFO"@,
        Level::Warn => " WARN"@,
        Level::Error => "ERROR"@,
    }
}

/// The name of a level.
pub fn fmt_level(level: Level) -> (r: &'static str)
    ensures
        r@ == level_name(level),
{
    match level {
        Level::Trace => "TRACE",
        Level::Debug => "DEBUG",
        Level::Info => " INFO",
        Level::Warn => " WARN",
        Level::Error => "ERROR",
    }
}

/// What stands in a span before the events in it: the name of the node, where a field is that.
pub fn span_field(name: &str, value: &str, colors: bool) -> (s: String)
    ensures
        s@ == if name@ != "node"@ {
            Seq::empty()
        } else if colors {
            in_bold(value@)
        } else {
            value@
        },
{
    if !same(name, "node") {
        return String::new();
    }
    if colors {
        bold(value)
    } else {
        value.to_owned()
    }
}

/// Whether an event is written in a way of its own: its outermost span is the work on a node.
pub fn is_node_event(parent: Option<&str>, names_node: bool) -> (r: bool)
    ensures
        r == (names_node && (parent matches Some(name) && name@ == "execute"@)),
{
    match parent {
        Some(name) => same(name, "execute") && names_node,
        None => false,
    }
}

/// The fields of an event, put in order.
#[derive(Debug)]
pub struct OrderedFields {
    pub msg: String,
    pub build: String,
    pub other: String,
    pub has_fields: bool,
}

/// What the fields hold.
#[verifier::ext_equal]
pub ghost struct FieldsView {
    pub msg: Seq<char>,
    pub build: Seq<char>,
    pub other: Seq<char>,
    pub has_fields: bool,
}

impl View for OrderedFields {
    type V = FieldsView;

    open spec fn view(&self) -> FieldsView {
        FieldsView {
            msg: self.msg@,
            build: self.build@,
            other: self.other@,
            has_fields: self.has_fields,
        }
    }
}

impl FieldsView {
    /// No field at all.
    pub open spec fn none() -> FieldsView {
        FieldsView {
            msg: Seq::empty(),
            build: Seq::empty(),
            other: Seq::empty(),
            has_fields: false,
        }
    }

    /// The fields with one more.
    pub open spec fn with(self, name: Seq<char>, value: Seq<char>) -> FieldsView {
        if name == "message"@ || name == "msg"@ {
            FieldsView { msg: value, has_fields: true, ..self }
        } else if name == "build"@ {
            FieldsView { build: value, has_fields: true, ..self }
        } else {
            FieldsView {
                other: (if self.other.len() > 0 {
                    self.other + ", "@
                } else {
                    Seq::empty()
                }) + name + "="@ + value,
                has_fields: true,
                ..self
            }
        }
    }
}

impl OrderedFields {
    /// No field at all.
    pub fn new() -> (r: Self)
        ensures
            r@ == FieldsView::none(),
    {
        let r = OrderedFields {
            msg: String::new(),
            build: String::new(),
            other: String::new(),
            has_fields: false,
        };
        assert(r@ =~= FieldsView::none());
        r
    }

    /// Takes note of a field. The message and the build stand apart from all others.
    pub fn record(&mut self, name: &str, value: &str)
        ensures
            final(self)@ == old(self)@.with(name@, value@),
    {
        self.has_fields = true;
        if same(name, "message") || same(name, "msg") {
            self.msg = value.to_owned();
        } else if same(name, "build") {
            self.build = value.to_owned();
        } else {
            let mut other = String::new();
            if !self.other.as_str().is_empty() {
                other.push_str(self.other.as_str());
                other.push_str(", ");
            }
            assert(other@ =~= if old(self)@.other.len() > 0 {
                old(self)@.other + ", "@
            } else {
                Seq::empty()
            });
            other.push_str(name);
            other.push_str("=");
            other.push_str(value);
            self.other = other;
        }
        assert(self@ =~= old(self)@.with(name@, value@));
    }
}

/// A text behind a space, where there is any.
pub open spec fn spaced(text: Seq<char>) -> Seq<char> {
    if text.len() > 0 {
        " "@ + text
    } else {
        Seq::empty()
    }
}

/// The line of an event: its level, the node, the step, the build, the message, and the other
/// fields.
pub open spec fn event_text(
    level: Level,
    node: Seq<char>,
    step: Option<Seq<char>>,
    fields: FieldsView,
    colors: bool,
) -> Seq<char> {
    (if colors {
        in_style(level_color(level), level_name(level))
    } else {
        level_name(level)
    }) + " "@ + node + (match step {
        Some(step) => " "@ + if colors {
            in_italics(step)
        } else {
            step
        },
        None => Seq::empty(),
    }) + (if fields.build.len() == 0 {
        Seq::empty()
    } else if colors {
        " "@ + in_dim(fields.build) + in_dim(">"@)
    } else {
        " "@ + fields.build + ">"@
    }) + spaced(fields.msg) + spaced(fields.other) + "\n"@
}

/// Writes the line of an event. Without fields there is none.
pub fn format_event(
    level: Level,
    node: &str,
    step: Option<&str>,
    fields: &OrderedFields,
    colors: bool,
) -> (r: Option<String>)
    ensures
        match r {
            Some(line) => fields@.has_fields && line@ == event_text(
                level,
                node@,
                match step {
                    Some(step) => Some(step@),
                    None => None,
                },
                fields@,
                colors,
            ),
            None => !fields@.has_fields,
        },
{
    if !fields.has_fields {
        return None;
    }
    let mut line = if colors {
        styled(get_style(level), fmt_level(level))
    } else {
        fmt_level(level).to_owned()
    };
    line.push_str(" ");
    line.push_str(node);
    let mut place = String::new();
    if let Some(step) = step {
        place.push_str(" ");
        if colors {
            place.push_str(italic(step).as_str());
        } else {
            place.push_str(step);
        }
    }
    assert(place@ =~= match step {
        Some(step) => " "@ + if colors {
            in_italics(step@)
        } else {
            step@
        },
        None => Seq::empty(),
    });
    line.push_str(place.as_str());
    let mut build = String::new();
    if !fields.build.as_str().is_empty() {
        build.push_str(" ");
        if colors {
            build.push_str(dimmed(fields.build.as_str()).as_str());
            build.push_str(dimmed(">").as_str());
        } else {
            build.push_str(fields.build.as_str());
            build.push_str(">");
        }
    }
    assert(build@ =~= if fields@.build.len() == 0 {
        Seq::empty()
    } else if colors {
        " "@ + in_dim(fields@.build) + in_dim(">"@)
    } else {
        " "@ + fields@.build + ">"@
    });
    line.push_str(build.as_str());
    line.push_str(behind_space(fields.msg.as_str()).as_str());
    line.push_str(behind_space(fields.other.as_str()).as_str());
    line.push_str("\n");
    Some(line)
}

fn behind_space(text: &str) -> (s: String)
    ensures
        s@ == spaced(text@),
{
    let mut s = String::new();
    if !text.is_empty() {
        s.push_str(" ");
        s.push_str(text);
        assert(s@ =~= " "@ + text@);
    }
    s
}

/// Takes note of a signal. The first interrupt asks for an end, and the user is told so; later ones
/// change nothing.
pub fn handle_signal(is_interrupt: bool, should_shutdown: &mut bool) -> (r: Option<String>)
    ensures
        *final(should_shutdown) == (*old(should_shutdown) || is_interrupt),
        match r {
            Some(text) => is_interrupt && !*old(should_shutdown) && text@
                == "Received SIGINT, attempting to shut down executor tasks."@,
            None => !is_interrupt || *old(should_shutdown),
        },
{
    if is_interrupt && !*should_shutdown {
        *should_shutdown = true;
        return Some("Received SIGINT, attempting to shut down executor tasks.".to_owned());
    }
    None
}

} // verus!
