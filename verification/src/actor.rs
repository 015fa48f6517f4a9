//! The actor's handling of channel traffic: opening a build channel,
//! taking a build request on it, reporting progress events in sequence, and
//! closing it.

use vstd::prelude::*;
use crate::messaging::events::{
    event2, event3, member, opt_text, opt_text_view, StreamEvent,
};
use crate::messaging::json::{
    fields_view, get_spec, str_member_spec, JsonValue, JsonView,
};
use crate::state::{clone_opt_string, status_after, BuildOutput, BuildStatus};
use crate::text::{decimal, decimal_spec};

verus! {

/// A build request: the filesystem to build, the store that holds it, and
/// the store that receives the module.
#[derive(Debug)]
pub struct BuildRequest {
    pub fs_hash: String,
    pub store_id: String,
    pub build_store_id: String,
}

/// The state the actor keeps between messages.
#[derive(Debug)]
pub struct ActorState {
    pub store_id: String,
    pub build_store_id: String,
    /// Content reference to the filesystem root in the content store.
    pub fs_hash: String,
    pub status: BuildStatus,
    pub build_output: Option<BuildOutput>,
    /// The channel on which events are streamed.
    pub active_channel: Option<String>,
    /// The operation the streamed events belong to.
    pub operation_id: Option<String>,
    /// The sequence number of the next streamed event.
    pub event_sequence: u32,
}

/// An event ready to be sent: the channel and the JSON body.
#[derive(Debug)]
pub struct OutgoingEvent {
    pub channel_id: String,
    pub body: JsonValue,
}

/// The name this actor signs its events with.
pub open spec fn source_name() -> Seq<char> {
    "build-actor"@
}

/// The body of a streamed event.
pub open spec fn event_body(
    event_type: Seq<char>,
    sequence: nat,
    operation_id: Seq<char>,
    content: JsonView,
) -> JsonView {
    JsonView::Object(
        seq![
            ("event_type"@, JsonView::Str(event_type)),
            ("source"@, JsonView::Str(source_name())),
            ("sequence"@, JsonView::Number(decimal_spec(sequence))),
            ("operation_id"@, JsonView::Str(operation_id)),
            ("content"@, content),
        ],
    )
}

/// Whether the state streams events: it has a channel and an operation.
pub open spec fn streams(s: ActorState) -> bool {
    s.active_channel is Some && s.operation_id is Some
}

/// The state and the other fields are equal, the sequence aside.
pub open spec fn same_but_sequence(a: ActorState, b: ActorState) -> bool {
    &&& a.store_id == b.store_id
    &&& a.build_store_id == b.build_store_id
    &&& a.fs_hash == b.fs_hash
    &&& a.status == b.status
    &&& a.build_output == b.build_output
    &&& a.active_channel == b.active_channel
    &&& a.operation_id == b.operation_id
}

/// A JSON object from five members.
fn object5(
    m1: (String, JsonValue),
    m2: (String, JsonValue),
    m3: (String, JsonValue),
    m4: (String, JsonValue),
    m5: (String, JsonValue),
) -> (j: JsonValue)
    ensures
        j.view() == JsonView::Object(
            seq![
                (m1.0@, m1.1.view()),
                (m2.0@, m2.1.view()),
                (m3.0@, m3.1.view()),
                (m4.0@, m4.1.view()),
                (m5.0@, m5.1.view()),
            ],
        ),
{
    let ghost g = seq![
        (m1.0@, m1.1.view()),
        (m2.0@, m2.1.view()),
        (m3.0@, m3.1.view()),
        (m4.0@, m4.1.view()),
        (m5.0@, m5.1.view()),
    ];
    let fields = vec![m1, m2, m3, m4, m5];
    proof {
        assert(fields_view(fields@) =~= g);
    }
    JsonValue::object(fields)
}

/// A JSON object from two members.
fn object2(m1: (String, JsonValue), m2: (String, JsonValue)) -> (j: JsonValue)
    ensures
        j.view() == JsonView::Object(seq![(m1.0@, m1.1.view()), (m2.0@, m2.1.view())]),
{
    let ghost g = seq![(m1.0@, m1.1.view()), (m2.0@, m2.1.view())];
    let fields = vec![m1, m2];
    proof {
        assert(fields_view(fields@) =~= g);
    }
    JsonValue::object(fields)
}

impl ActorState {
    /// The state of an actor that has seen nothing yet.
    pub fn empty() -> (s: Self)
        ensures
            s.store_id@.len() == 0,
            s.build_store_id@.len() == 0,
            s.fs_hash@.len() == 0,
            s.status == BuildStatus::NotStarted,
            s.build_output is None,
            s.active_channel is None,
            s.operation_id is None,
            s.event_sequence == 0,
    {
        ActorState {
            store_id: String::new(),
            build_store_id: String::new(),
            fs_hash: String::new(),
            status: BuildStatus::NotStarted,
            build_output: None,
            active_channel: None,
            operation_id: None,
            event_sequence: 0,
        }
    }

    /// Frames `event` for the active channel and operation, numbered with
    /// the next sequence number, which then moves on; without a channel or
    /// an operation there is nothing to send and nothing changes.
    pub fn stream_event(&mut self, event: StreamEvent) -> (r: Option<OutgoingEvent>)
        requires
            streams(*old(self)) ==> old(self).event_sequence < u32::MAX,
        ensures
            same_but_sequence(*final(self), *old(self)),
            streams(*old(self)) ==> {
                &&& r matches Some(o) && o.channel_id == old(self).active_channel.unwrap()
                    && o.body.view() == event_body(
                    event@.event_type,
                    old(self).event_sequence as nat,
                    old(self).operation_id.unwrap()@,
                    event@.content,
                )
                &&& final(self).event_sequence == old(self).event_sequence + 1
            },
            !streams(*old(self)) ==> r is None && final(self).event_sequence
                == old(self).event_sequence,
    {
        match (&self.active_channel, &self.operation_id) {
            (Some(channel), Some(operation)) => {
                let body = object5(
                    member("event_type", JsonValue::Str(event.event_type)),
                    member("source", JsonValue::text("build-actor")),
                    member("sequence", JsonValue::Number(decimal(self.event_sequence as u64))),
                    member("operation_id", JsonValue::Str(operation.clone())),
                    member("content", event.content),
                );
                let out = OutgoingEvent { channel_id: channel.clone(), body };
                self.event_sequence = self.event_sequence + 1;
                Some(out)
            },
            _ => None,
        }
    }
}

/// The actor's entry points for channel traffic and requests.
pub struct Component;

/// What a message on a channel leads to.
#[derive(Debug)]
pub enum ChannelMessageOutcome {
    /// There is no state: the message is ignored and the state stays absent.
    NoState,
    /// The state to keep, now bound to the channel; no build was asked for.
    Updated(ActorState),
    /// A build request: the state to run the build with, and the event that
    /// announces the start of the build, if the state streams.
    Build { state: ActorState, started: Option<OutgoingEvent> },
}

/// The content of the acknowledgment of an operation.
pub open spec fn ack_content() -> JsonView {
    JsonView::Object(
        seq![
            ("status"@, JsonView::Str("ready"@)),
            ("message"@, JsonView::Str("Build actor ready to process build request"@)),
        ],
    )
}

/// Whether `v` is a build request that carries all it needs.
pub open spec fn complete_build_request(v: JsonView) -> bool {
    &&& str_member_spec(v, "event_type"@) == Some("build.request"@)
    &&& get_spec(v, "content"@) matches Some(c) && {
        &&& str_member_spec(c, "fs_hash"@) is Some
        &&& str_member_spec(c, "store_id"@) is Some
        &&& str_member_spec(c, "build_store_id"@) is Some
    }
}

impl Component {
    /// Opening a channel: without a state the channel is refused and no
    /// state is kept (`None`, no acknowledgment); a state, or an opening
    /// message, that did not parse is refused with the reason. An
    /// `operation.started` message binds the state to its `operation_id`
    /// (which it must carry), restarts the event sequence, and the channel is
    /// accepted with an acknowledgment; any other message leaves the state as
    /// it was and the channel is not accepted (no acknowledgment).
    pub fn handle_channel_open(state: Option<Result<ActorState, String>>, event: Result<
        JsonValue,
        String,
    >) -> (r: Result<(Option<ActorState>, Option<JsonValue>), String>)
        ensures
            match state {
                None => r matches Ok((None, None)),
                Some(Err(e)) => r matches Err(m) && m@ == "Failed to parse state: "@ + e@,
                Some(Ok(s0)) => match event {
                    Err(e) => r matches Err(m) && m@ == "Failed to parse channel open message: "@
                        + e@,
                    Ok(v) => if str_member_spec(v.view(), "event_type"@) == Some(
                        "operation.started"@,
                    ) {
                        match str_member_spec(v.view(), "operation_id"@) {
                            None => r matches Err(m) && m@
                                == "Missing operation_id in channel open request"@,
                            Some(op) => r matches Ok((Some(s), Some(ack))) && {
                                &&& s.operation_id matches Some(o) && o@ == op
                                &&& s.event_sequence == 1
                                &&& ack.view() == event_body(
                                    "operation.acknowledged"@,
                                    0,
                                    op,
                                    ack_content(),
                                )
                                &&& s.store_id == s0.store_id
                                &&& s.build_store_id == s0.build_store_id
                                &&& s.fs_hash == s0.fs_hash
                                &&& s.status == s0.status
                                &&& s.build_output == s0.build_output
                                &&& s.active_channel == s0.active_channel
                            },
                        }
                    } else {
                        r matches Ok((Some(s), None)) && s == s0
                    },
                },
            },
    {
        let mut s = match state {
            None => {
                return Ok((None, None));
            },
            Some(Err(e)) => {
                return Err(String::from_str("Failed to parse state: ").concat(e.as_str()));
            },
            Some(Ok(s)) => s,
        };
        let v = match event {
            Ok(v) => v,
            Err(e) => {
                return Err(String::from_str("Failed to parse channel open message: ").concat(e.as_str()));
            },
        };
        match v.str_member("event_type") {
            Some(t) => {
                if t.eq(&String::from_str("operation.started")) {
                    let op = match v.str_member("operation_id") {
                        Some(op) => op,
                        None => {
                            return Err(String::from_str("Missing operation_id in channel open request"));
                        },
                    };
                    s.operation_id = Some(op.clone());
                    s.event_sequence = 0;
                    let content = object2(
                        member("status", JsonValue::text("ready")),
                        member("message", JsonValue::text("Build actor ready to process build request")),
                    );
                    let ack = object5(
                        member("event_type", JsonValue::text("operation.acknowledged")),
                        member("source", JsonValue::text("build-actor")),
                        member("sequence", JsonValue::Number(decimal(s.event_sequence as u64))),
                        member("operation_id", JsonValue::Str(op)),
                        member("content", content),
                    );
                    s.event_sequence = s.event_sequence + 1;
                    return Ok((Some(s), Some(ack)));
                }
            },
            None => {},
        }
        Ok((Some(s), None))
    }
}

impl Component {
    /// A message on channel `channel_id`. Without a state it is ignored; a
    /// state or a message that did not parse is refused. Otherwise the state
    /// is bound to the channel; a `build.request` whose `content` carries
    /// `fs_hash`, `store_id` and `build_store_id` sets them, resets the
    /// status, and announces the build (when the state streams) — a request
    /// that lacks one of them is refused with the reason. Any other message
    /// keeps the state, bound to the channel.
    pub fn handle_channel_message(
        state: Option<Result<ActorState, String>>,
        channel_id: String,
        msg: Result<JsonValue, String>,
    ) -> (r: Result<ChannelMessageOutcome, String>)
        requires
            state matches Some(Ok(s)) ==> (msg matches Ok(v) ==> (complete_build_request(v.view())
                && s.operation_id is Some ==> s.event_sequence < u32::MAX)),
        ensures
            match state {
                None => r matches Ok(ChannelMessageOutcome::NoState),
                Some(Err(e)) => r matches Err(m) && m@ == "Failed to parse state: "@ + e@,
                Some(Ok(s0)) => match msg {
                    Err(e) => r matches Err(m) && m@ == "Failed to parse channel message: "@ + e@,
                    Ok(v) => if str_member_spec(v.view(), "event_type"@) == Some("build.request"@) {
                        match get_spec(v.view(), "content"@) {
                            None => r matches Err(m) && m@ == "Missing content in build request"@,
                            Some(c) => if str_member_spec(c, "fs_hash"@) is None {
                                r matches Err(m) && m@ == "Missing fs_hash in build request"@
                            } else if str_member_spec(c, "store_id"@) is None {
                                r matches Err(m) && m@ == "Missing store_id in build request"@
                            } else if str_member_spec(c, "build_store_id"@) is None {
                                r matches Err(m) && m@ == "Missing build_store_id in build request"@
                            } else {
                                r matches Ok(ChannelMessageOutcome::Build { state: s, started }) && {
                                    &&& Some(s.fs_hash@) == str_member_spec(c, "fs_hash"@)
                                    &&& Some(s.store_id@) == str_member_spec(c, "store_id"@)
                                    &&& Some(s.build_store_id@) == str_member_spec(
                                        c,
                                        "build_store_id"@,
                                    )
                                    &&& s.status == BuildStatus::NotStarted
                                    &&& s.build_output == s0.build_output
                                    &&& s.active_channel matches Some(ch) && ch@ == channel_id@
                                    &&& s.operation_id == s0.operation_id
                                    &&& if s0.operation_id is Some {
                                        &&& started matches Some(o) && o.channel_id@ == channel_id@
                                            && o.body.view() == event_body(
                                            "build.started"@,
                                            s0.event_sequence as nat,
                                            s0.operation_id.unwrap()@,
                                            JsonView::Object(
                                                seq![
                                                    ("message"@, JsonView::Str("Build process starting"@)),
                                                    ("fs_hash"@, JsonView::Str(s.fs_hash@)),
                                                ],
                                            ),
                                        )
                                        &&& s.event_sequence == s0.event_sequence + 1
                                    } else {
                                        &&& started is None
                                        &&& s.event_sequence == s0.event_sequence
                                    }
                                }
                            },
                        }
                    } else {
                        r matches Ok(ChannelMessageOutcome::Updated(s)) && {
                            &&& s.store_id == s0.store_id
                            &&& s.build_store_id == s0.build_store_id
                            &&& s.fs_hash == s0.fs_hash
                            &&& s.status == s0.status
                            &&& s.build_output == s0.build_output
                            &&& s.active_channel matches Some(ch) && ch@ == channel_id@
                            &&& s.operation_id == s0.operation_id
                            &&& s.event_sequence == s0.event_sequence
                        }
                    },
                },
            },
    {
        let mut s = match state {
            None => {
                return Ok(ChannelMessageOutcome::NoState);
            },
            Some(Err(e)) => {
                return Err(String::from_str("Failed to parse state: ").concat(e.as_str()));
            },
            Some(Ok(s)) => s,
        };
        s.active_channel = Some(channel_id);
        let v = match msg {
            Ok(v) => v,
            Err(e) => {
                return Err(String::from_str("Failed to parse channel message: ").concat(e.as_str()));
            },
        };
        let is_build = match v.str_member("event_type") {
            Some(t) => t.eq(&String::from_str("build.request")),
            None => false,
        };
        if !is_build {
            return Ok(ChannelMessageOutcome::Updated(s));
        }
        let content = match v.get("content") {
            Some(c) => c,
            None => {
                return Err(String::from_str("Missing content in build request"));
            },
        };
        let fs_hash = match content.str_member("fs_hash") {
            Some(x) => x,
            None => {
                return Err(String::from_str("Missing fs_hash in build request"));
            },
        };
        let store_id = match content.str_member("store_id") {
            Some(x) => x,
            None => {
                return Err(String::from_str("Missing store_id in build request"));
            },
        };
        let build_store_id = match content.str_member("build_store_id") {
            Some(x) => x,
            None => {
                return Err(String::from_str("Missing build_store_id in build request"));
            },
        };
        s.fs_hash = fs_hash.clone();
        s.store_id = store_id;
        s.build_store_id = build_store_id;
        s.status = BuildStatus::NotStarted;
        let started = s.stream_event(
            event2(
                "build.started",
                member("message", JsonValue::text("Build process starting")),
                member("fs_hash", JsonValue::Str(fs_hash)),
            ),
        );
        Ok(ChannelMessageOutcome::Build { state: s, started })
    }

    /// After the build that a channel message asked for: the output is
    /// recorded, the status settles on it, the completion of the operation
    /// is announced (when the state streams), and then the channel the
    /// request came on is to be closed (the third part).
    pub fn finish_build_request(state: ActorState, output: BuildOutput) -> (r: (
        ActorState,
        Option<OutgoingEvent>,
        Option<String>,
    ))
        requires
            streams(state) ==> state.event_sequence < u32::MAX,
        ensures
            r.0.build_output matches Some(o) && o@ == output@,
            r.0.status == status_after(output.success),
            r.0.store_id == state.store_id,
            r.0.build_store_id == state.build_store_id,
            r.0.fs_hash == state.fs_hash,
            r.0.active_channel == state.active_channel,
            r.0.operation_id == state.operation_id,
            streams(state) ==> {
                &&& r.1 matches Some(o) && o.channel_id == state.active_channel.unwrap()
                    && o.body.view() == event_body(
                    "operation.completed"@,
                    state.event_sequence as nat,
                    state.operation_id.unwrap()@,
                    JsonView::Object(
                        seq![
                            (
                                "message"@,
                                JsonView::Str(
                                    if output.success {
                                        "Build operation success"@
                                    } else {
                                        "Build operation failed"@
                                    },
                                ),
                            ),
                            ("success"@, JsonView::Bool(output.success)),
                            ("error"@, opt_text_view(output@.error)),
                        ],
                    ),
                )
                &&& r.0.event_sequence == state.event_sequence + 1
            },
            !streams(state) ==> r.1 is None && r.0.event_sequence == state.event_sequence,
            r.2 == state.active_channel,
    {
        let mut s = state;
        let success = output.success;
        let error = clone_opt_string(&output.error);
        s.build_output = Some(output);
        s.status = if success {
            BuildStatus::Completed
        } else {
            BuildStatus::Failed
        };
        let message = if success {
            "Build operation success"
        } else {
            "Build operation failed"
        };
        let ev = event3(
            "operation.completed",
            member("message", JsonValue::text(message)),
            member("success", JsonValue::Bool(success)),
            member("error", opt_text(error)),
        );
        let sent = s.stream_event(ev);
        let close = match &s.active_channel {
            Some(c) => Some(c.clone()),
            None => None,
        };
        (s, sent, close)
    }

    /// Closing channel `channel_id`: without a state there is nothing to
    /// keep; a state that did not parse is refused; if the channel is the
    /// active one, the state forgets it and its operation.
    pub fn handle_channel_close(state: Option<Result<ActorState, String>>, channel_id: &str) -> (r:
        Result<Option<ActorState>, String>)
        ensures
            match state {
                None => r matches Ok(None),
                Some(Err(e)) => r matches Err(m) && m@ == "Failed to parse state: "@ + e@,
                Some(Ok(s0)) => r matches Ok(Some(s)) && {
                    &&& s.store_id == s0.store_id
                    &&& s.build_store_id == s0.build_store_id
                    &&& s.fs_hash == s0.fs_hash
                    &&& s.status == s0.status
                    &&& s.build_output == s0.build_output
                    &&& s.event_sequence == s0.event_sequence
                    &&& if s0.active_channel matches Some(c) && c@ == channel_id@ {
                        s.active_channel is None && s.operation_id is None
                    } else {
                        s.active_channel == s0.active_channel && s.operation_id == s0.operation_id
                    }
                },
            },
    {
        let mut s = match state {
            None => {
                return Ok(None);
            },
            Some(Err(e)) => {
                return Err(String::from_str("Failed to parse state: ").concat(e.as_str()));
            },
            Some(Ok(s)) => s,
        };
        let matches = match &s.active_channel {
            Some(c) => c.eq(&String::from_str(channel_id)),
            None => false,
        };
        if matches {
            s.active_channel = None;
            s.operation_id = None;
        }
        Ok(Some(s))
    }

    /// The state for a build request: a request that did not parse is
    /// refused; otherwise a fresh state for its filesystem and stores.
    pub fn handle_request(req: Result<BuildRequest, String>) -> (r: Result<ActorState, String>)
        ensures
            match req {
                Err(e) => r matches Err(m) && m@ == "Failed to parse initialization data: "@ + e@,
                Ok(q) => r matches Ok(s) && {
                    &&& s.store_id == q.store_id
                    &&& s.build_store_id == q.build_store_id
                    &&& s.fs_hash == q.fs_hash
                    &&& s.status == BuildStatus::NotStarted
                    &&& s.build_output is None
                    &&& s.active_channel is None
                    &&& s.operation_id is None
                    &&& s.event_sequence == 0
                },
            },
    {
        match req {
            Err(e) => Err(String::from_str("Failed to parse initialization data: ").concat(e.as_str())),
            Ok(q) => Ok(
                ActorState {
                    store_id: q.store_id,
                    build_store_id: q.build_store_id,
                    fs_hash: q.fs_hash,
                    status: BuildStatus::NotStarted,
                    build_output: None,
                    active_channel: None,
                    operation_id: None,
                    event_sequence: 0,
                },
            ),
        }
    }
}

} // verus!
