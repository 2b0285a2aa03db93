use wire::commands::logs::Level;
use wire::logging::{
    fmt_level, format_event, get_style, handle_signal, is_node_event, span_field, OrderedFields,
};
use wire::paint::Color;

#[test]
fn levels_have_names_and_colors() {
    assert_eq!(fmt_level(Level::Trace), "TRACE");
    assert_eq!(fmt_level(Level::Debug), "DEBUG");
    assert_eq!(fmt_level(Level::Info), " INFO");
    assert_eq!(fmt_level(Level::Warn), " WARN");
    assert_eq!(fmt_level(Level::Error), "ERROR");
    assert_eq!(get_style(Level::Trace), Color::Purple);
    assert_eq!(get_style(Level::Warn), Color::Yellow);
}

#[test]
fn events_are_written_in_order() {
    let mut fields = OrderedFields::new();
    fields.record("path", "\"/x\"");
    fields.record("message", "copying");
    fields.record("build", "hello");
    fields.record("done", "true");
    assert_eq!(
        format_event(Level::Info, "node-a", Some("Build"), &fields, false).unwrap(),
        " INFO node-a Build hello> copying path=\"/x\", done=true\n"
    );
    assert_eq!(
        format_event(Level::Info, "node-a", Some("Build"), &fields, true).unwrap(),
        "\x1b[32m INFO\x1b[0m node-a \x1b[3mBuild\x1b[0m \x1b[2mhello\x1b[0m\x1b[2m>\x1b[0m copying path=\"/x\", done=true\n"
    );
}

#[test]
fn each_level_is_painted() {
    let mut fields = OrderedFields::new();
    fields.record("msg", "m");
    let levels = [
        (Level::Trace, "\x1b[35mTRACE"),
        (Level::Debug, "\x1b[34mDEBUG"),
        (Level::Info, "\x1b[32m INFO"),
        (Level::Warn, "\x1b[33m WARN"),
        (Level::Error, "\x1b[31mERROR"),
    ];
    for (level, start) in levels {
        assert_eq!(
            format_event(level, "n", None, &fields, true).unwrap(),
            format!("{start}\x1b[0m n m\n")
        );
    }
}

#[test]
fn events_without_fields_are_not_written() {
    assert!(format_event(Level::Info, "n", None, &OrderedFields::new(), false).is_none());
}

#[test]
fn only_nodes_are_named() {
    assert_eq!(span_field("node", "a", false), "a");
    assert_eq!(span_field("node", "a", true), "\x1b[1ma\x1b[0m");
    assert_eq!(span_field("other", "a", true), "");
    assert!(is_node_event(Some("execute"), true));
    assert!(!is_node_event(Some("execute"), false));
    assert!(!is_node_event(Some("eval_hive"), true));
    assert!(!is_node_event(None, true));
}

#[test]
fn the_first_interrupt_counts() {
    let mut quit = false;
    assert!(handle_signal(false, &mut quit).is_none());
    assert!(!quit);
    assert_eq!(
        handle_signal(true, &mut quit).unwrap(),
        "Received SIGINT, attempting to shut down executor tasks."
    );
    assert!(quit);
    assert!(handle_signal(true, &mut quit).is_none());
    assert!(quit);
}
