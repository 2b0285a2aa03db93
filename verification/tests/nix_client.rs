use wire::commands::logs::{LogMessage, VerbosityLevel};
use wire::errors::HiveLibError;
use wire::hive::node::Name;
use wire::nix_client::closure::ClosureCollector;
use wire::nix_client::framing::{framed_write, FRAME_SIZE};
use wire::nix_client::handshake::{
    Handshake, HandshakeAction, HandshakeEvent, CLIENT_ONE, CLIENT_VERSION, SERVER_ONE,
};
use wire::nix_client::operations::{
    add_to_store_nar, build, get_nar_stream, query, query_derivation_output_map, query_missing,
    query_reply, query_valid_paths, shutdown_guard, DerivedPath, DerivedPathOutput, Operation,
    PathInfo, QueryMissingResult, ReplyValue, ReplyWant, WireAddToStoreNarRequest, WireValue,
};
use wire::nix_client::push::{
    announce, get_common_copy_path_help, DaemonPush, PushAction, PushEvent,
};
use wire::nix_client::stderr::{
    DrainState, DrainStep, Token, Want, STDERR_ERROR, STDERR_LAST, STDERR_NEXT,
};
use wire::nix_client::{NixDaemonClientError, ProtocolVersion};
use wire::store_path::SafeStorePath;

fn path(text: &str) -> SafeStorePath {
    SafeStorePath::of_absolute_path(text.to_string())
}

fn version(minor: u8) -> ProtocolVersion {
    ProtocolVersion::from_parts(1, minor)
}

fn info(size: u64) -> PathInfo {
    PathInfo {
        deriver: None,
        nar_hash: "hash".to_string(),
        references: vec![path("/r")],
        registration_time: 5,
        nar_size: size,
        ultimate: true,
        signatures: vec!["sig".to_string()],
        ca: None,
    }
}

#[test]
fn closures_list_references_first() {
    let graph = [
        ("/root", vec!["/a", "/b", "/root"]),
        ("/a", vec!["/c"]),
        ("/b", vec!["/c", "/a"]),
        ("/c", vec![]),
    ];
    let mut collector = ClosureCollector::new(&path("/root"));
    while let Some(asked) = collector.next() {
        let (_, references) =
            graph.iter().find(|(name, _)| path(name) == asked).unwrap();
        collector.found(Some(references.iter().map(|r| path(r)).collect())).unwrap();
    }
    let list = collector.finish();
    assert_eq!(list, [path("/c"), path("/a"), path("/b"), path("/root")]);
}

#[test]
fn closures_go_through_references_in_order() {
    let graph = [
        ("/root", vec!["/z", "/a", "/m"]),
        ("/a", vec!["/y", "/b"]),
        ("/b", vec![]),
        ("/m", vec!["/z"]),
        ("/y", vec![]),
        ("/z", vec!["/root"]),
    ];
    let mut collector = ClosureCollector::new(&path("/root"));
    let mut asked_for = Vec::new();
    while let Some(asked) = collector.next() {
        let (name, references) =
            graph.iter().find(|(name, _)| path(name) == asked).unwrap();
        asked_for.push(*name);
        collector.found(Some(references.iter().map(|r| path(r)).collect())).unwrap();
    }
    assert_eq!(asked_for, ["/root", "/m", "/z", "/a", "/b", "/y"]);
    let list = collector.finish();
    let expected = ["/z", "/y", "/b", "/a", "/m", "/root"];
    assert_eq!(list, expected.map(|name| path(name)));
}

#[test]
fn closures_of_missing_paths_fail() {
    let mut collector = ClosureCollector::new(&path("/gone"));
    assert_eq!(collector.next(), Some(path("/gone")));
    assert!(matches!(
        collector.found(None),
        Err(NixDaemonClientError::NixDaemonOperationFailed(text))
            if text == "/gone does not exist in store"
    ));
}

#[test]
fn handshakes_agree_on_a_version() {
    let (state, action) = Handshake::start();
    assert!(matches!(action, HandshakeAction::ReadNumber(written) if written == [CLIENT_ONE]));
    let (state, action) = state.next(HandshakeEvent::Number(SERVER_ONE));
    assert!(matches!(action, HandshakeAction::ReadVersion));
    let (state, action) = state.next(HandshakeEvent::Version(Ok(version(38))));
    assert!(matches!(
        action,
        HandshakeAction::ReadText(written, 10) if written == [CLIENT_VERSION, 0, 0]
    ));
    let (state, action) = state.next(HandshakeEvent::Text("2.28.3".to_string()));
    assert!(matches!(action, HandshakeAction::ReadNumber(written) if written.is_empty()));
    let (_, action) = state.next(HandshakeEvent::Number(1));
    assert!(matches!(action, HandshakeAction::Finish(Ok(agreed)) if agreed == version(38)));
    assert_eq!(CLIENT_VERSION, (1 << 8) | 35);
}

#[test]
fn strangers_are_not_talked_to() {
    let (state, _) = Handshake::start();
    let (_, action) = state.next(HandshakeEvent::Number(42));
    assert!(matches!(
        action,
        HandshakeAction::Finish(Err(NixDaemonClientError::NixDaemonInvalidResponse(text)))
            if text == "daemon returned invalid magic in handshake: 42"
    ));
    let (_, action) = Handshake::Answered.next(HandshakeEvent::Version(Err("old".to_string())));
    assert!(matches!(
        action,
        HandshakeAction::Finish(Err(NixDaemonClientError::NixDaemonInvalidResponse(text)))
            if text == "old"
    ));
}

#[test]
fn the_stream_is_drained() {
    let mut state = DrainState::Begin;
    let tokens = vec![
        Token::Number(STDERR_NEXT),
        Token::Text("hello".to_string()),
        Token::Number(STDERR_LAST),
    ];
    let mut logged = Vec::new();
    for token in tokens {
        assert!(state.want(false).unwrap().is_some());
        match state.step(token) {
            DrainStep::Go(next, message) => {
                logged.extend(message);
                state = next;
            }
            DrainStep::Fail(error) => panic!("{error:?}"),
        }
    }
    assert!(matches!(state.want(false), Ok(None)));
    assert_eq!(logged.len(), 1);
    assert!(matches!(
        &logged[0],
        LogMessage::Msg { level: VerbosityLevel::Info, msg } if msg == "hello"
    ));
}

#[test]
fn errors_of_the_daemon_are_reported() {
    let mut state = DrainState::Begin;
    let tokens = vec![
        Token::Number(STDERR_ERROR),
        Token::Text("Error".to_string()),
        Token::Level(VerbosityLevel::Error),
        Token::Text("name".to_string()),
        Token::Text("message".to_string()),
        Token::Number(0),
    ];
    let mut failure = None;
    for token in tokens {
        match state.step(token) {
            DrainStep::Go(next, _) => state = next,
            DrainStep::Fail(error) => {
                failure = Some(error);
                break;
            }
        }
    }
    assert!(matches!(
        failure,
        Some(NixDaemonClientError::NixDaemonOperationError { name, msg })
            if name == "name" && msg == "message"
    ));
}

#[test]
fn unknown_messages_are_refused() {
    assert_eq!(DrainState::Begin.want(false).unwrap(), Some(Want::Number));
    assert!(matches!(DrainState::Begin.want(true), Err(NixDaemonClientError::Sigint)));
    let told = DrainState::OutcomeKind { id: 1, code: 101 };
    assert_eq!(told.want(true).unwrap(), Some(Want::Outcome(101)));
    assert_eq!(DrainState::Over.want(true).unwrap(), None);
    assert!(matches!(
        DrainState::Begin.step(Token::Number(0xbeef)),
        DrainStep::Fail(NixDaemonClientError::NixDaemonInvalidResponse(text))
            if text == "unknown daemon message type in stderr stream: beef"
    ));
    assert!(shutdown_guard(false).is_ok());
    assert!(matches!(shutdown_guard(true), Err(NixDaemonClientError::Sigint)));
}

#[test]
fn old_daemons_cannot_do_everything() {
    let out = path("/x");
    let list = Vec::new();
    let too_old = |error: NixDaemonClientError, minor: u8, name: &str| match error {
        NixDaemonClientError::NixDaemonProtocolVersion { wanted, have: _, operation } => {
            assert_eq!(wanted, version(minor));
            assert_eq!(operation, name);
        }
        other => panic!("{other:?}"),
    };
    too_old(query(version(16), &out).unwrap_err(), 17, "QueryPathInfo");
    too_old(get_nar_stream(version(16), &out).unwrap_err(), 17, "NarFromPath");
    too_old(
        query_derivation_output_map(version(21), &out).unwrap_err(),
        19,
        "QueryMissing",
    );
    too_old(query_missing(version(18), &list).unwrap_err(), 19, "QueryMissing");
    let request = WireAddToStoreNarRequest::of_path_info(path("/x"), info(1));
    too_old(add_to_store_nar(version(22), request).unwrap_err(), 23, "AddToStoreNar");
    assert!(ProtocolVersion::from_parts(2, 0).at_least(1, 35));
    assert!(query(version(17), &out).is_ok());
    assert!(query_derivation_output_map(version(22), &out).is_ok());
}

#[test]
fn requests_are_written_in_order() {
    let values = query_valid_paths(version(27), vec![path("/x")], true);
    assert!(matches!(
        &values[..],
        [WireValue::Operation(Operation::QueryValidPaths), WireValue::StorePaths(list), WireValue::Bool(true)]
            if *list == [path("/x")]
    ));
    assert_eq!(query_valid_paths(version(26), Vec::new(), true).len(), 2);

    let drv = path("/nix/store/x.drv");
    let names = vec!["out".to_string(), "dev".to_string()];
    let derived = DerivedPath { store_path: &drv, outputs: DerivedPathOutput::OutputNames(&names) };
    assert_eq!(derived.serialize(), "/nix/store/x.drv!out,dev");
    let list = vec![derived];
    let values = build(version(35), &list);
    assert!(matches!(
        &values[..],
        [WireValue::Operation(Operation::BuildPaths), WireValue::DerivedPaths(texts), WireValue::Number(0)]
            if *texts == ["/nix/store/x.drv!out,dev"]
    ));
    assert_eq!(build(version(14), &list).len(), 2);

    let request = WireAddToStoreNarRequest::of_path_info(path("/x"), info(9));
    let values = add_to_store_nar(version(23), request).unwrap();
    assert_eq!(values.len(), 12);
    assert!(matches!(&values[1], WireValue::StorePath(at) if *at == path("/x")));
    assert!(matches!(&values[3], WireValue::Text(hash) if hash == "hash"));
    assert!(matches!(values[6], WireValue::Number(9)));
    assert!(matches!(values[7], WireValue::Bool(false)));
    assert!(matches!(values[10], WireValue::Bool(false)));
    assert!(matches!(values[11], WireValue::Bool(true)));
}

#[test]
fn answers_on_paths_are_read() {
    assert!(query_reply(version(35), false).is_none());
    let wants = query_reply(version(17), true).unwrap();
    assert_eq!(wants.len(), 8);
    assert_eq!(wants[7], ReplyWant::ContentAddress);
    let read = |ca: &str| {
        PathInfo::of_reply(
            version(17),
            vec![
                ReplyValue::MaybeStorePath(Some(path("/d"))),
                ReplyValue::Text("hash".to_string()),
                ReplyValue::StorePaths(vec![path("/r")]),
                ReplyValue::Number(1),
                ReplyValue::Number(2),
                ReplyValue::Bool(true),
                ReplyValue::Texts(vec!["s".to_string()]),
                ReplyValue::ContentAddress(ca.to_string(), Some("understood".to_string())),
            ],
        )
    };
    let known = read("text");
    assert_eq!(known.deriver, Some(path("/d")));
    assert_eq!((known.registration_time, known.nar_size, known.ultimate), (1, 2, true));
    assert_eq!(known.signatures, ["s"]);
    assert_eq!(known.ca.as_deref(), Some("understood"));
    assert!(read("").ca.is_none());

    assert_eq!(query_reply(version(15), true).unwrap().len(), 5);
    let old = PathInfo::of_reply(
        version(15),
        vec![
            ReplyValue::MaybeStorePath(None),
            ReplyValue::Text("hash".to_string()),
            ReplyValue::StorePaths(Vec::new()),
            ReplyValue::Number(1),
            ReplyValue::Number(2),
        ],
    );
    assert!(!old.ultimate && old.signatures.is_empty() && old.ca.is_none());
}

#[test]
fn missing_paths_are_reported() {
    let list = || Some(vec![path("/a"), path("/b"), path("/a")]);
    assert!(QueryMissingResult::try_deserialize(list(), list(), None, Some(1), Some(1)).is_none());
    let result =
        QueryMissingResult::try_deserialize(list(), Some(vec![path("/s")]), list(), Some(12), Some(1))
            .unwrap();
    assert_eq!(
        result.report(false),
        [
            "The following 2 paths will be built: \n\t/a\n\t/b",
            "1 paths will be substituted for 12 bytes: \n\t/s"
        ]
    );
    assert_eq!(
        result.report(true)[1],
        "\x1b[32m1\x1b[39m paths will be substituted for 12 bytes: \n\t/s"
    );
    assert_eq!(
        QueryMissingResult::cannot_report(),
        "daemon does not support QueryMissing, cannot log which paths will be built or substituted"
    );
}

#[test]
fn frames_hold_the_stream() {
    assert_eq!(FRAME_SIZE, 64 * 1024);
    assert_eq!(framed_write(b"abc"), b"\x03\0\0\0\0\0\0\0abc");
    assert_eq!(framed_write(b""), [0; 8]);
    let stream: Vec<u8> = (0..1000u32).map(|n| n as u8).collect();
    let mut frames = Vec::new();
    for chunk in stream.chunks(300) {
        frames.extend(framed_write(chunk));
    }
    frames.extend(framed_write(&[]));
    let mut read = Vec::new();
    let mut at = 0;
    loop {
        let mut length = [0; 8];
        length.copy_from_slice(&frames[at..at + 8]);
        let length = u64::from_le_bytes(length) as usize;
        at += 8;
        if length == 0 {
            break;
        }
        read.extend_from_slice(&frames[at..at + length]);
        at += length;
    }
    assert_eq!(at, frames.len());
    assert_eq!(read, stream);
}

#[test]
fn what_the_target_lacks_is_uploaded() {
    let name = Name("n".to_string());
    let closure = vec![path("/c"), path("/a"), path("/root")];
    let on_target = vec![path("/a"), path("/a")];
    assert_eq!(announce(&closure, &on_target).unwrap(), "pushing 2");
    assert!(announce(&on_target, &closure).is_none());
    let mut push = DaemonPush::new(&name, "host".to_string(), &closure, &on_target);
    let mut event = PushEvent::Started;
    let mut uploaded = Vec::new();
    loop {
        match push.next(event) {
            PushAction::Query { path, note } => {
                assert_eq!(note, format!("copying '{}' to node host", path.to_absolute_path()));
                event = PushEvent::Queried(Ok(Some(info(uploaded.len() as u64))));
            }
            PushAction::Upload { path, nar_size, request } => {
                assert_eq!(nar_size, uploaded.len() as u64);
                assert!(request.dont_check_sigs && !request.ultimate && !request.repair);
                uploaded.push(path);
                event = PushEvent::Uploaded(Ok(()));
            }
            PushAction::Finish(result) => {
                assert!(result.is_ok());
                break;
            }
        }
    }
    assert_eq!(uploaded, [path("/c"), path("/root")]);
}

#[test]
fn uploads_that_fail_end_the_copy() {
    let name = Name("n".to_string());
    let closure = vec![path("/x")];
    let start = || DaemonPush::new(&name, "host".to_string(), &closure, &Vec::new());

    let action = start().next(PushEvent::Queried(Ok(None)));
    assert!(matches!(
        action,
        PushAction::Finish(Err(HiveLibError::NixCopyError {
            error: NixDaemonClientError::NixDaemonOperationFailed(text),
            help: None,
            ..
        })) if text == "selected /x for upload does not exist in local store"
    ));

    let distrust = || NixDaemonClientError::NixDaemonOperationError {
        name: "Error".to_string(),
        msg: "error: unexpected end-of-file".to_string(),
    };
    assert!(get_common_copy_path_help(&distrust()).is_some());
    assert!(get_common_copy_path_help(&NixDaemonClientError::Sigint).is_none());
    let action = start().next(PushEvent::Uploaded(Err(distrust())));
    assert!(matches!(
        action,
        PushAction::Finish(Err(HiveLibError::NixCopyError { help: Some(_), .. }))
    ));
}
