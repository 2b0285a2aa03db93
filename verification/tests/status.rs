use wire::hive::node::Name;
use wire::status::{NodeStatus, NumStatusCount, Screen, Status, StatusWorker, UiMessage};

fn name(text: &str) -> Name {
    Name(text.to_string())
}

fn running(status: &str) -> NodeStatus {
    NodeStatus::Running { status: status.to_string(), last_log: None }
}

const SCREEN: Screen = Screen { rows: 24, cols: 80, seconds: 3, colors: false };

#[test]
fn every_node_is_counted_once() {
    let mut status = Status::new();
    status.add_many(vec![name("a"), name("b"), name("c"), name("d")]);
    status.set_status(name("a"), running("Ping"));
    status.set_status(name("b"), NodeStatus::Failed);
    status.set_status(name("c"), NodeStatus::Succeeded);
    assert_eq!(
        status.count_statuses(),
        NumStatusCount { finished: 2, running: 1, failed: 1 }
    );
}

#[test]
fn statuses_are_rendered() {
    assert_eq!(NodeStatus::Failed.render(false), "Failed");
    assert_eq!(NodeStatus::Failed.render(true), "\x1b[31mFailed\x1b[39m");
    assert_eq!(NodeStatus::Pending.render(true), "\x1b[2mWaiting\x1b[0m");
    assert_eq!(NodeStatus::Succeeded.render(true), "\x1b[32mSucceeded\x1b[39m");
    assert_eq!(running("Build").render(false), "Build");
    assert_eq!(running("Build").render(true), "\x1b[34;49mBuild\x1b[0m");
    assert!(NodeStatus::Failed.discriminant() < NodeStatus::Succeeded.discriminant());
}

#[test]
fn headers_count_nodes() {
    let mut status = Status::new();
    assert_eq!(status.get_header(0, false), "[0 / 0] 0s");
    status.add_many(vec![name("a"), name("b"), name("c"), name("d")]);
    status.set_status(name("a"), running("Ping"));
    status.set_status(name("b"), NodeStatus::Failed);
    status.set_status(name("c"), NodeStatus::Succeeded);
    assert_eq!(status.get_header(3, false), "[2 / 4 (1 Failed, 1 Deploying)] 3s");
    assert_eq!(
        status.get_header(3, true),
        "[2 / 4 (\x1b[31m1\x1b[39m Failed, \x1b[34m1\x1b[39m Deploying)] 3s"
    );
}

#[test]
fn held_lines_are_written_in_order() {
    let mut worker = StatusWorker::new(false);
    assert_eq!(
        String::from_utf8(worker.handle(UiMessage::LogLine(b"zero\n".to_vec()), SCREEN)).unwrap(),
        "zero\n"
    );
    worker.handle(UiMessage::Takeover, SCREEN);
    assert!(worker.handle(UiMessage::LogLine(b"one\n".to_vec()), SCREEN).is_empty());
    assert!(worker.handle(UiMessage::LogLine(b"two\n".to_vec()), SCREEN).is_empty());
    let out = String::from_utf8(worker.handle(UiMessage::Release, SCREEN)).unwrap();
    let one = out.find("one\n").unwrap();
    let two = out.find("two\n").unwrap();
    assert!(one < two);
}

#[test]
fn the_bar_is_shown_below_the_log() {
    let mut worker = StatusWorker::new(true);
    worker.handle(UiMessage::AddMany(vec![name("node-a")]), SCREEN);
    worker.handle(UiMessage::SetStatus(name("node-a"), running("Ping")), SCREEN);
    let out = String::from_utf8(worker.tick(SCREEN)).unwrap();
    assert_eq!(out, "\r\x1b[2K[0 / 1 (1 Deploying)] 3s\n  node-a Ping");
    worker.handle(
        UiMessage::ContextLogLine {
            name: name("node-a"),
            build_name: Some("hello".to_string()),
            log: "compiling\nmore".to_string(),
        },
        SCREEN,
    );
    let out = String::from_utf8(worker.tick(SCREEN)).unwrap();
    assert_eq!(
        out,
        "\r\x1b[2K\x1b[1A\r\x1b[2K[0 / 1 (1 Deploying)] 3s\n  node-a Ping hello> compiling"
    );
    worker.handle(UiMessage::Takeover, SCREEN);
    assert!(worker.tick(SCREEN).is_empty());
}

#[test]
fn the_bar_keeps_to_the_screen() {
    let mut worker = StatusWorker::new(true);
    let names = ["e", "d", "c", "b", "a"].map(name).to_vec();
    worker.handle(UiMessage::AddMany(names), SCREEN);
    let narrow = Screen { rows: 6, cols: 10, seconds: 3, colors: false };
    let out = String::from_utf8(worker.tick(narrow)).unwrap();
    assert!(out.starts_with("\r\x1b[2K[0 / 5] 3s\n  a "), "{out:?}");
    assert!(out.contains("\n  b ") && !out.contains("\n  c "), "{out:?}");
    assert!(out.ends_with("\n  ... and 3 more"), "{out:?}");
    let narrower = Screen { cols: 8, ..narrow };
    let out = String::from_utf8(worker.tick(narrower)).unwrap();
    assert!(out.contains("[0 / ..."), "{out:?}");
    assert!(!out.contains("[0 / 5]"), "{out:?}");
}

#[test]
fn failed_nodes_come_first() {
    let mut worker = StatusWorker::new(true);
    worker.handle(UiMessage::AddMany(vec![name("a"), name("b"), name("c")]), SCREEN);
    worker.handle(UiMessage::SetStatus(name("b"), NodeStatus::Succeeded), SCREEN);
    worker.handle(UiMessage::SetStatus(name("c"), NodeStatus::Failed), SCREEN);
    let out = String::from_utf8(worker.tick(SCREEN)).unwrap();
    assert_eq!(out, "\r\x1b[2K[2 / 3 (1 Failed)] 3s\n  c Failed\n  a Waiting");
}

#[test]
fn long_names_are_cut() {
    let mut worker = StatusWorker::new(true);
    worker.handle(UiMessage::AddMany(vec![name("abcdefghijklmnopqrstuvwxyz")]), SCREEN);
    let out = String::from_utf8(worker.tick(SCREEN)).unwrap();
    assert!(out.ends_with("\n  abcdefghijklmnopqrst... Waiting"), "{out:?}");
}
