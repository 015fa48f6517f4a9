use build_actor::actor::{ActorState, BuildRequest, ChannelMessageOutcome, Component};
use build_actor::messaging::events::{message_event, StreamEvent};
use build_actor::messaging::handler::{ChannelCommand, MessageHandler, StatusReport};
use build_actor::messaging::json::JsonValue;
use build_actor::messaging::messages::{status_name, LogLevel};
use build_actor::state::{BuildOutput, BuildState, BuildStatus};

fn obj(fields: Vec<(&str, JsonValue)>) -> JsonValue {
    JsonValue::Object(fields.into_iter().map(|(k, v)| (k.to_string(), v)).collect())
}

fn s(t: &str) -> JsonValue {
    JsonValue::Str(t.to_string())
}

fn text_of(v: &JsonValue) -> String {
    match v {
        JsonValue::Str(s) => s.clone(),
        JsonValue::Number(n) => n.clone(),
        _ => panic!("expected text"),
    }
}

#[test]
fn json_members() {
    let v = obj(vec![("a", s("x")), ("b", JsonValue::Bool(true)), ("a", s("y"))]);
    assert_eq!(v.str_member("a"), Some("x".to_string()));
    assert_eq!(v.str_member("b"), None);
    assert_eq!(v.str_member("c"), None);
    assert!(v.get("b").is_some());
    assert!(s("x").get("a").is_none());
    assert_eq!(s("x").as_str(), Some(&"x".to_string()));
}

#[test]
fn handler_trivial_entry_points() {
    assert_eq!(MessageHandler::init(Some(vec![1]), ("x".to_string(),)), Ok((Some(vec![1]),)));
    assert_eq!(MessageHandler::handle_send(None, (vec![],)), Ok((None,)));
    assert_eq!(MessageHandler::handle_request(Some(vec![2]), (vec![9],)), Ok((Some(vec![2]), (vec![],))));
    let (state, (accept,)) = MessageHandler::handle_channel_open(Some(vec![3]), (vec![],)).unwrap();
    assert_eq!(state, Some(vec![3]));
    assert!(accept.accepted);
    assert!(accept.message.is_none());
    assert_eq!(MessageHandler::handle_channel_close(Some(vec![4]), ("c".to_string(),)), Ok((Some(vec![4]),)));
}

#[test]
fn handler_start_build_command() {
    let msg = obj(vec![
        ("command", s("start_build")),
        ("fs_hash", s("fs")),
        ("store_id", s("st")),
        ("build_store_id", s("out")),
    ]);
    match MessageHandler::handle_channel_message(Ok(msg), "ch".to_string()).unwrap() {
        ChannelCommand::StartBuild(state) => {
            assert_eq!(state.fs_hash, "fs");
            assert_eq!(state.store_id, "st");
            assert_eq!(state.build_store_id, "out");
            assert_eq!(state.channel_id.as_deref(), Some("ch"));
            assert_eq!(state.status, BuildStatus::NotStarted);
        }
        _ => panic!("expected a build"),
    }
}

#[test]
fn handler_command_errors() {
    let r = MessageHandler::handle_channel_message(Err("eof".to_string()), "c".to_string());
    assert!(matches!(r, Err(ref m) if m == "Failed to parse message: eof"));
    let r = MessageHandler::handle_channel_message(Ok(obj(vec![])), "c".to_string());
    assert!(matches!(r, Err(ref m) if m == "Missing 'command' field"));
    let r = MessageHandler::handle_channel_message(Ok(obj(vec![("command", s("start_build"))])), "c".to_string());
    assert!(matches!(r, Err(ref m) if m == "Missing 'fs_hash' parameter"));
    let r = MessageHandler::handle_channel_message(
        Ok(obj(vec![("command", s("start_build")), ("fs_hash", s("f"))])),
        "c".to_string(),
    );
    assert!(matches!(r, Err(ref m) if m == "Missing 'store_id' parameter"));
    let r = MessageHandler::handle_channel_message(
        Ok(obj(vec![("command", s("start_build")), ("fs_hash", s("f")), ("store_id", s("s"))])),
        "c".to_string(),
    );
    match r {
        Ok(ChannelCommand::StartBuild(state)) => {
            assert_eq!(state.fs_hash, "f");
            assert_eq!(state.store_id, "s");
            assert_eq!(state.build_store_id, "");
            assert_eq!(state.channel_id.as_deref(), Some("c"));
        }
        _ => panic!("a start without a build store starts a build"),
    }
    let r = MessageHandler::handle_channel_message(Ok(obj(vec![("command", s("dance"))])), "c".to_string());
    assert!(matches!(r, Err(ref m) if m == "Unknown command: dance"));
    let r = MessageHandler::handle_channel_message(Ok(obj(vec![("command", s("check_status"))])), "c".to_string());
    assert!(matches!(r, Ok(ChannelCommand::CheckStatus)));
}

#[test]
fn check_status_reports() {
    match MessageHandler::check_status(None).unwrap() {
        StatusReport::Log { level, message } => {
            assert_eq!(level, LogLevel::Error);
            assert_eq!(message, "No build state available");
        }
        _ => panic!("expected a log"),
    }
    let mut st = BuildState::new("s".to_string(), "f".to_string());
    st.set_status(BuildStatus::Building);
    match MessageHandler::check_status(Some(Ok(st))).unwrap() {
        StatusReport::Progress { status, description } => {
            assert_eq!(status, BuildStatus::Building);
            assert_eq!(description, "Current build status: Building");
        }
        _ => panic!("expected progress"),
    }
    let r = MessageHandler::check_status(Some(Err("bad".to_string())));
    assert!(matches!(r, Err(ref m) if m == "Failed to deserialize state: bad"));
    assert_eq!(status_name(BuildStatus::NotStarted), "NotStarted");
}

fn streaming_state() -> ActorState {
    let mut st = ActorState::empty();
    st.active_channel = Some("ch".to_string());
    st.operation_id = Some("op".to_string());
    st.event_sequence = 5;
    st
}

#[test]
fn stream_event_numbers_events() {
    let mut st = streaming_state();
    let a = st.stream_event(message_event("output.log", "one".to_string())).unwrap();
    let b = st.stream_event(message_event("output.log", "two".to_string())).unwrap();
    assert_eq!(a.channel_id, "ch");
    assert_eq!(text_of(a.body.get("sequence").unwrap()), "5");
    assert_eq!(text_of(b.body.get("sequence").unwrap()), "6");
    assert_eq!(text_of(a.body.get("source").unwrap()), "build-actor");
    assert_eq!(text_of(a.body.get("operation_id").unwrap()), "op");
    assert_eq!(text_of(a.body.get("event_type").unwrap()), "output.log");
    assert_eq!(text_of(a.body.get("content").unwrap().get("message").unwrap()), "one");
    assert_eq!(st.event_sequence, 7);

    let mut quiet = ActorState::empty();
    quiet.active_channel = Some("ch".to_string());
    assert!(quiet.stream_event(StreamEvent { event_type: "x".to_string(), content: JsonValue::Null }).is_none());
    assert_eq!(quiet.event_sequence, 0);
}

#[test]
fn channel_open_acknowledges_operations() {
    let ev = obj(vec![("event_type", s("operation.started")), ("operation_id", s("op-1"))]);
    let (st, ack) = Component::handle_channel_open(Some(Ok(ActorState::empty())), Ok(ev)).unwrap();
    let st = st.unwrap();
    assert_eq!(st.operation_id.as_deref(), Some("op-1"));
    assert_eq!(st.event_sequence, 1);
    let ack = ack.unwrap();
    assert_eq!(text_of(ack.get("event_type").unwrap()), "operation.acknowledged");
    assert_eq!(text_of(ack.get("sequence").unwrap()), "0");
    assert_eq!(text_of(ack.get("operation_id").unwrap()), "op-1");
    assert_eq!(text_of(ack.get("content").unwrap().get("status").unwrap()), "ready");

    let other = || Ok(obj(vec![("event_type", s("other"))]));
    let (st, ack) = Component::handle_channel_open(Some(Ok(ActorState::empty())), other()).unwrap();
    assert!(ack.is_none());
    assert!(st.unwrap().operation_id.is_none());

    let ev = obj(vec![("event_type", s("operation.started")), ("operation_id", s("op-1"))]);
    let (st, ack) = Component::handle_channel_open(None, Ok(ev)).unwrap();
    assert!(st.is_none() && ack.is_none());
    let (st, ack) = Component::handle_channel_open(None, Err("y".to_string())).unwrap();
    assert!(st.is_none() && ack.is_none());

    let r = Component::handle_channel_open(
        Some(Ok(ActorState::empty())),
        Ok(obj(vec![("event_type", s("operation.started"))])),
    );
    assert!(matches!(r, Err(ref m) if m == "Missing operation_id in channel open request"));
    let r = Component::handle_channel_open(Some(Err("x".to_string())), Ok(JsonValue::Null));
    assert!(matches!(r, Err(ref m) if m == "Failed to parse state: x"));
    let r = Component::handle_channel_open(Some(Ok(ActorState::empty())), Err("y".to_string()));
    assert!(matches!(r, Err(ref m) if m == "Failed to parse channel open message: y"));
}

fn build_request(content: Vec<(&str, JsonValue)>) -> JsonValue {
    obj(vec![("event_type", s("build.request")), ("content", obj(content))])
}

#[test]
fn channel_message_starts_a_build() {
    let msg = build_request(vec![("fs_hash", s("fs")), ("store_id", s("st")), ("build_store_id", s("out"))]);
    let mut st = streaming_state();
    st.active_channel = None;
    match Component::handle_channel_message(Some(Ok(st)), "ch".to_string(), Ok(msg)).unwrap() {
        ChannelMessageOutcome::Build { state, started } => {
            assert_eq!(state.fs_hash, "fs");
            assert_eq!(state.store_id, "st");
            assert_eq!(state.build_store_id, "out");
            assert_eq!(state.active_channel.as_deref(), Some("ch"));
            assert_eq!(state.event_sequence, 6);
            let started = started.unwrap();
            assert_eq!(text_of(started.body.get("event_type").unwrap()), "build.started");
            assert_eq!(text_of(started.body.get("content").unwrap().get("fs_hash").unwrap()), "fs");

            let out = BuildOutput {
                success: false,
                stdout: String::new(),
                stderr: String::new(),
                wasm_path: None,
                wasm_hash: None,
                build_logs: vec![],
                error: Some("broke".to_string()),
            };
            let (state, done, close) = Component::finish_build_request(state, out);
            assert_eq!(close.as_deref(), Some("ch"));
            assert_eq!(state.status, BuildStatus::Failed);
            assert_eq!(state.event_sequence, 7);
            let done = done.unwrap();
            let content = done.body.get("content").unwrap();
            assert_eq!(text_of(content.get("message").unwrap()), "Build operation failed");
            assert_eq!(text_of(content.get("error").unwrap()), "broke");
        }
        _ => panic!("expected a build"),
    }
}

#[test]
fn channel_message_errors_and_other_messages() {
    assert!(matches!(
        Component::handle_channel_message(None, "c".to_string(), Ok(JsonValue::Null)),
        Ok(ChannelMessageOutcome::NoState)
    ));
    let r = Component::handle_channel_message(Some(Err("s".to_string())), "c".to_string(), Ok(JsonValue::Null));
    assert!(matches!(r, Err(ref m) if m == "Failed to parse state: s"));
    let r = Component::handle_channel_message(Some(Ok(ActorState::empty())), "c".to_string(), Err("m".to_string()));
    assert!(matches!(r, Err(ref m) if m == "Failed to parse channel message: m"));
    let r = Component::handle_channel_message(
        Some(Ok(ActorState::empty())),
        "c".to_string(),
        Ok(obj(vec![("event_type", s("build.request"))])),
    );
    assert!(matches!(r, Err(ref m) if m == "Missing content in build request"));
    let r = Component::handle_channel_message(Some(Ok(ActorState::empty())), "c".to_string(), Ok(build_request(vec![])));
    assert!(matches!(r, Err(ref m) if m == "Missing fs_hash in build request"));
    let r = Component::handle_channel_message(
        Some(Ok(ActorState::empty())),
        "c".to_string(),
        Ok(build_request(vec![("fs_hash", s("f"))])),
    );
    assert!(matches!(r, Err(ref m) if m == "Missing store_id in build request"));
    let r = Component::handle_channel_message(
        Some(Ok(ActorState::empty())),
        "c".to_string(),
        Ok(build_request(vec![("fs_hash", s("f")), ("store_id", s("s"))])),
    );
    assert!(matches!(r, Err(ref m) if m == "Missing build_store_id in build request"));
    match Component::handle_channel_message(Some(Ok(ActorState::empty())), "c".to_string(), Ok(obj(vec![]))).unwrap() {
        ChannelMessageOutcome::Updated(st) => assert_eq!(st.active_channel.as_deref(), Some("c")),
        _ => panic!("expected the state"),
    }
}

#[test]
fn channel_close_forgets_the_active_channel() {
    let st = Component::handle_channel_close(Some(Ok(streaming_state())), "ch").unwrap().unwrap();
    assert!(st.active_channel.is_none());
    assert!(st.operation_id.is_none());
    assert_eq!(st.event_sequence, 5);
    let st = Component::handle_channel_close(Some(Ok(streaming_state())), "other").unwrap().unwrap();
    assert_eq!(st.active_channel.as_deref(), Some("ch"));
    assert!(Component::handle_channel_close(None, "ch").unwrap().is_none());
    let r = Component::handle_channel_close(Some(Err("bad".to_string())), "ch");
    assert!(matches!(r, Err(ref m) if m == "Failed to parse state: bad"));
}

#[test]
fn requests_create_fresh_states() {
    let req = BuildRequest { fs_hash: "f".to_string(), store_id: "s".to_string(), build_store_id: "o".to_string() };
    let st = Component::handle_request(Ok(req)).unwrap();
    assert_eq!(st.fs_hash, "f");
    assert_eq!(st.store_id, "s");
    assert_eq!(st.build_store_id, "o");
    assert_eq!(st.status, BuildStatus::NotStarted);
    assert_eq!(st.event_sequence, 0);
    let r = Component::handle_request(Err("eof".to_string()));
    assert!(matches!(r, Err(ref m) if m == "Failed to parse initialization data: eof"));
}
