//! Running the build command and collecting what it produced.
//!
//! The command, the listing of the target directory, the reading of the
//! WebAssembly module and its storing are outside operations: the execution
//! is a machine that asks for them one at a time and decides, from each
//! outcome, what the build output is.

use vstd::prelude::*;
use crate::messaging::events::{
    event2, event3, events_view, member, message_event, message_event_spec, event_spec,
    EventView, StreamEvent,
};
use crate::messaging::json::{JsonValue, JsonView};
use crate::state::{strings_view, BuildOutput, BuildOutputView};
use crate::text::{
    decimal, decimal_spec, ends_with, ends_with_spec, lines_of, lines_spec, trim, trim_spec,
};

verus! {

/// The directory in which the build leaves the WebAssembly module.
pub open spec fn target_dir() -> Seq<char> {
    "target/wasm32-unknown-unknown/release"@
}

/// What stands in the output for the error stream, which the command does
/// not hand back.
pub open spec fn stderr_note() -> Seq<char> {
    "Stderr not available from host function"@
}

/// A build output with a single log line.
pub open spec fn output_view(
    success: bool,
    stdout: Seq<char>,
    stderr: Seq<char>,
    wasm_path: Option<Seq<char>>,
    wasm_hash: Option<Seq<char>>,
    log: Seq<char>,
    error: Option<Seq<char>>,
) -> BuildOutputView {
    BuildOutputView { success, stdout, stderr, wasm_path, wasm_hash, build_logs: seq![log], error }
}

/// The first of `files` whose name ends in `.wasm`.
pub open spec fn first_wasm(files: Seq<Seq<char>>) -> Option<Seq<char>>
    decreases files.len(),
{
    if files.len() == 0 {
        None
    } else if ends_with_spec(files[0], ".wasm"@) {
        Some(files[0])
    } else {
        first_wasm(files.drop_first())
    }
}

/// The events that report the command's output: one for each line that is
/// not blank, with the line trimmed and its index.
pub open spec fn stdout_events(lines: Seq<Seq<char>>) -> Seq<EventView>
    decreases lines.len(),
{
    if lines.len() == 0 {
        Seq::empty()
    } else {
        let before = stdout_events(lines.drop_last());
        let t = trim_spec(lines.last());
        if t.len() == 0 {
            before
        } else {
            before.push(
                event_spec(
                    "output.stdout"@,
                    seq![
                        ("message"@, JsonView::Str(t)),
                        ("line"@, JsonView::Number(decimal_spec((lines.len() - 1) as nat))),
                    ],
                ),
            )
        }
    }
}

/// What a build execution waits for.
pub enum ExecPhase {
    /// The outcome of the build command.
    Running,
    /// The files of the target directory; the command's output is kept.
    Listing(String),
    /// The module's bytes; the command's output and the module's path are kept.
    Reading(String, String),
    /// The storing of the module; the output to report on success is kept.
    Storing(BuildOutput),
    /// Nothing: the execution is done.
    Finished,
}

/// Abstract value of an [`ExecPhase`].
pub enum ExecPhaseView {
    Running,
    Listing(Seq<char>),
    Reading(Seq<char>, Seq<char>),
    Storing(BuildOutputView),
    Finished,
}

/// A build execution in progress.
pub struct BuildExecution {
    build_store_id: String,
    store_wasm: bool,
    streaming: bool,
    phase: ExecPhase,
}

/// Abstract value of a [`BuildExecution`].
pub struct BuildExecutionView {
    pub build_store_id: Seq<char>,
    pub store_wasm: bool,
    pub streaming: bool,
    pub phase: ExecPhaseView,
}

impl View for BuildExecution {
    type V = BuildExecutionView;

    closed spec fn view(&self) -> BuildExecutionView {
        BuildExecutionView {
            build_store_id: self.build_store_id@,
            store_wasm: self.store_wasm,
            streaming: self.streaming,
            phase: match self.phase {
                ExecPhase::Running => ExecPhaseView::Running,
                ExecPhase::Listing(o) => ExecPhaseView::Listing(o@),
                ExecPhase::Reading(o, p) => ExecPhaseView::Reading(o@, p@),
                ExecPhase::Storing(out) => ExecPhaseView::Storing(out@),
                ExecPhase::Finished => ExecPhaseView::Finished,
            },
        }
    }
}

/// An operation the execution asks for.
#[derive(Debug)]
pub enum ExecRequest {
    /// Run `program` with `args` in directory `dir`; its standard output is
    /// the outcome.
    RunCommand { dir: String, program: String, args: Vec<String> },
    /// List the names of the files in the directory at this path.
    ListFiles(String),
    /// Read the local file at this path.
    ReadFile(String),
    /// Store `content` under `label` in the store `store_id`.
    StoreAtLabel { store_id: String, label: String, content: Vec<u8> },
    /// Nothing more: the build output, or why the build could not finish.
    Done(Result<BuildOutput, String>),
}

/// Abstract value of an [`ExecRequest`].
pub enum ExecRequestView {
    RunCommand { dir: Seq<char>, program: Seq<char>, args: Seq<Seq<char>> },
    ListFiles(Seq<char>),
    ReadFile(Seq<char>),
    StoreAtLabel { store_id: Seq<char>, label: Seq<char>, content: Seq<u8> },
    Done(Result<BuildOutputView, Seq<char>>),
}

impl View for ExecRequest {
    type V = ExecRequestView;

    open spec fn view(&self) -> ExecRequestView {
        match self {
            ExecRequest::RunCommand { dir, program, args } => ExecRequestView::RunCommand {
                dir: dir@,
                program: program@,
                args: strings_view(*args),
            },
            ExecRequest::ListFiles(p) => ExecRequestView::ListFiles(p@),
            ExecRequest::ReadFile(p) => ExecRequestView::ReadFile(p@),
            ExecRequest::StoreAtLabel { store_id, label, content } => ExecRequestView::StoreAtLabel {
                store_id: store_id@,
                label: label@,
                content: content@,
            },
            ExecRequest::Done(Ok(o)) => ExecRequestView::Done(Ok(o@)),
            ExecRequest::Done(Err(m)) => ExecRequestView::Done(Err(m@)),
        }
    }
}

/// The outcome of an operation the execution asked for.
pub enum ExecReply {
    Ran(Result<String, String>),
    Listed(Result<Vec<String>, String>),
    Read(Result<Vec<u8>, String>),
    Stored(Result<(), String>),
}

/// Abstract value of an [`ExecReply`].
pub enum ExecReplyView {
    Ran(Result<Seq<char>, Seq<char>>),
    Listed(Result<Seq<Seq<char>>, Seq<char>>),
    Read(Result<Seq<u8>, Seq<char>>),
    Stored(Result<(), Seq<char>>),
}

impl View for ExecReply {
    type V = ExecReplyView;

    open spec fn view(&self) -> ExecReplyView {
        match self {
            ExecReply::Ran(Ok(o)) => ExecReplyView::Ran(Ok(o@)),
            ExecReply::Ran(Err(e)) => ExecReplyView::Ran(Err(e@)),
            ExecReply::Listed(Ok(f)) => ExecReplyView::Listed(Ok(strings_view(*f))),
            ExecReply::Listed(Err(e)) => ExecReplyView::Listed(Err(e@)),
            ExecReply::Read(Ok(b)) => ExecReplyView::Read(Ok(b@)),
            ExecReply::Read(Err(e)) => ExecReplyView::Read(Err(e@)),
            ExecReply::Stored(Ok(())) => ExecReplyView::Stored(Ok(())),
            ExecReply::Stored(Err(e)) => ExecReplyView::Stored(Err(e@)),
        }
    }
}

/// Whether `r` answers the operation that phase `p` waits for.
pub open spec fn exec_answers(p: ExecPhaseView, r: ExecReplyView) -> bool {
    match p {
        ExecPhaseView::Running => r is Ran,
        ExecPhaseView::Listing(_) => r is Listed,
        ExecPhaseView::Reading(_, _) => r is Read,
        ExecPhaseView::Storing(_) => r is Stored,
        ExecPhaseView::Finished => false,
    }
}

/// A step of the execution: the new state, the request, the events.
pub type ExecStep = (BuildExecutionView, ExecRequestView, Seq<EventView>);

/// The events of a streaming execution, and none otherwise.
pub open spec fn exec_events(s: BuildExecutionView, events: Seq<EventView>) -> Seq<EventView> {
    if s.streaming {
        events
    } else {
        Seq::empty()
    }
}

/// The execution stops with `r`, reporting `events` if it streams.
pub open spec fn exec_finish(
    s: BuildExecutionView,
    r: Result<BuildOutputView, Seq<char>>,
    events: Seq<EventView>,
) -> ExecStep {
    (
        BuildExecutionView { phase: ExecPhaseView::Finished, ..s },
        ExecRequestView::Done(r),
        exec_events(s, events),
    )
}

/// The arguments of the build command.
pub open spec fn build_args() -> Seq<Seq<char>> {
    seq![
        "develop"@,
        "--command"@,
        "bash"@,
        "-c"@,
        "cargo component build --target wasm32-unknown-unknown --release"@,
    ]
}

/// The execution right after it is started: it asks to run the command.
pub open spec fn exec_start_spec(build_store_id: Seq<char>, store_wasm: bool, streaming: bool) -> ExecStep {
    let s = BuildExecutionView { build_store_id, store_wasm, streaming, phase: ExecPhaseView::Running };
    (
        s,
        ExecRequestView::RunCommand { dir: "."@, program: "nix"@, args: build_args() },
        exec_events(
            s,
            seq![
                event_spec(
                    "build.compiling"@,
                    seq![
                        ("message"@, JsonView::Str("Compiling with cargo component build"@)),
                        ("target"@, JsonView::Str("wasm32-unknown-unknown"@)),
                        ("release"@, JsonView::Bool(true)),
                    ],
                ),
            ],
        ),
    )
}

/// One transition of a build execution, on the outcome of its last request.
pub open spec fn exec_resume_spec(s: BuildExecutionView, r: ExecReplyView) -> ExecStep {
    match (s.phase, r) {
        (ExecPhaseView::Running, ExecReplyView::Ran(Err(e))) => {
            let m = "Failed to execute build command: "@ + e;
            exec_finish(
                s,
                Ok(output_view(false, Seq::empty(), m, None, None, "Build command failed"@, Some(m))),
                seq![
                    event_spec(
                        "build.failed"@,
                        seq![("message"@, JsonView::Str(m)), ("error"@, JsonView::Str(e))],
                    ),
                ],
            )
        },
        (ExecPhaseView::Running, ExecReplyView::Ran(Ok(stdout))) => (
            BuildExecutionView { phase: ExecPhaseView::Listing(stdout), ..s },
            ExecRequestView::ListFiles(target_dir()),
            exec_events(
                s,
                stdout_events(lines_spec(stdout)).push(
                    message_event_spec("build.linking"@, "Linking WebAssembly module"@),
                ),
            ),
        ),
        (ExecPhaseView::Listing(stdout), ExecReplyView::Listed(Err(e))) => {
            let m = "Failed to list target directory: "@ + e;
            exec_finish(
                s,
                Ok(
                    output_view(
                        false,
                        stdout,
                        stderr_note(),
                        None,
                        None,
                        "Failed to list target directory"@,
                        Some(m),
                    ),
                ),
                seq![
                    event_spec(
                        "build.error"@,
                        seq![("message"@, JsonView::Str(m)), ("error"@, JsonView::Str(e))],
                    ),
                ],
            )
        },
        (ExecPhaseView::Listing(stdout), ExecReplyView::Listed(Ok(files))) => {
            let found = message_event_spec(
                "output.log"@,
                "Found "@ + decimal_spec(files.len()) + " files in target directory"@,
            );
            match first_wasm(files) {
                None => exec_finish(
                    s,
                    Ok(
                        output_view(
                            false,
                            stdout,
                            stderr_note(),
                            None,
                            None,
                            "No WASM file found"@,
                            Some("No WASM file found"@),
                        ),
                    ),
                    seq![found, message_event_spec("build.error"@, "No WASM file found after build"@)],
                ),
                Some(f) => {
                    let p = target_dir() + "/"@ + f;
                    (
                        BuildExecutionView { phase: ExecPhaseView::Reading(stdout, p), ..s },
                        ExecRequestView::ReadFile(p),
                        exec_events(
                            s,
                            seq![
                                found,
                                event_spec(
                                    "build.packaging"@,
                                    seq![
                                        ("message"@, JsonView::Str("Found WASM file: "@ + f)),
                                        ("path"@, JsonView::Str(p)),
                                    ],
                                ),
                            ],
                        ),
                    )
                },
            }
        },
        (ExecPhaseView::Reading(stdout, p), ExecReplyView::Read(Err(e))) => {
            let m = "Failed to read WASM file: "@ + e;
            exec_finish(
                s,
                Ok(
                    output_view(
                        false,
                        stdout,
                        stderr_note(),
                        Some(p),
                        None,
                        "Failed to read WASM file"@,
                        Some(m),
                    ),
                ),
                seq![
                    event_spec(
                        "build.error"@,
                        seq![
                            ("message"@, JsonView::Str(m)),
                            ("path"@, JsonView::Str(p)),
                            ("error"@, JsonView::Str(e)),
                        ],
                    ),
                ],
            )
        },
        (ExecPhaseView::Reading(stdout, p), ExecReplyView::Read(Ok(bytes))) => {
            let n = decimal_spec(bytes.len());
            let hash = "wasm-"@ + n;
            let out = output_view(
                true,
                stdout,
                stderr_note(),
                Some(p),
                Some(hash),
                "Build completed successfully"@,
                None,
            );
            if s.store_wasm {
                (
                    BuildExecutionView { phase: ExecPhaseView::Storing(out), ..s },
                    ExecRequestView::StoreAtLabel {
                        store_id: s.build_store_id,
                        label: "wasm"@,
                        content: bytes,
                    },
                    exec_events(
                        s,
                        seq![
                            event_spec(
                                "build.storing"@,
                                seq![
                                    (
                                        "message"@,
                                        JsonView::Str("Storing WASM file ("@ + n + " bytes)"@),
                                    ),
                                    ("hash"@, JsonView::Str(hash)),
                                    ("size"@, JsonView::Number(n)),
                                ],
                            ),
                        ],
                    ),
                )
            } else {
                exec_finish(s, Ok(out), Seq::empty())
            }
        },
        (ExecPhaseView::Storing(out), ExecReplyView::Stored(Err(e))) => exec_finish(
            s,
            Err("Failed to store WASM file: "@ + e),
            Seq::empty(),
        ),
        (ExecPhaseView::Storing(out), ExecReplyView::Stored(Ok(()))) => exec_finish(
            s,
            Ok(out),
            Seq::empty(),
        ),
        _ => (s, ExecRequestView::Done(Err(Seq::empty())), Seq::empty()),
    }
}

/// Streaming changes only what an execution reports: from the same state
/// and outcome, the execution moves to the same state (its streaming flag
/// aside) and asks for the same operation whether it streams or not, it
/// starts with the same request either way, and without streaming it
/// reports nothing.
pub proof fn law_execution_streaming_only_adds_events(
    s: BuildExecutionView,
    r: ExecReplyView,
    streaming: bool,
)
    ensures
        exec_resume_spec(s, r).0.streaming == s.streaming,
        ({
            let a = exec_resume_spec(s, r);
            let b = exec_resume_spec(BuildExecutionView { streaming, ..s }, r);
            &&& a.1 == b.1
            &&& a.0 == BuildExecutionView { streaming: s.streaming, ..b.0 }
        }),
        exec_start_spec(s.build_store_id, s.store_wasm, s.streaming).1 == exec_start_spec(
            s.build_store_id,
            s.store_wasm,
            streaming,
        ).1,
        !s.streaming ==> exec_resume_spec(s, r).2 == Seq::<EventView>::empty(),
        !s.streaming ==> exec_start_spec(s.build_store_id, s.store_wasm, s.streaming).2 == Seq::<
            EventView,
        >::empty(),
{
}

/// A build output with a single log line.
fn output(
    success: bool,
    stdout: String,
    stderr: String,
    wasm_path: Option<String>,
    wasm_hash: Option<String>,
    log: &str,
    error: Option<String>,
) -> (o: BuildOutput)
    ensures
        o@ == output_view(
            success,
            stdout@,
            stderr@,
            match wasm_path {
                Some(p) => Some(p@),
                None => None,
            },
            match wasm_hash {
                Some(h) => Some(h@),
                None => None,
            },
            log@,
            match error {
                Some(e) => Some(e@),
                None => None,
            },
        ),
{
    let build_logs = vec![String::from_str(log)];
    proof {
        assert(strings_view(build_logs) =~= seq![log@]);
    }
    BuildOutput { success, stdout, stderr, wasm_path, wasm_hash, build_logs, error }
}

/// The events that report the lines of the command's output.
fn stdout_line_events(stdout: &str) -> (v: Vec<StreamEvent>)
    ensures
        events_view(v@) == stdout_events(lines_spec(stdout@)),
{
    let lines = lines_of(stdout);
    let ghost lv = lines@.map_values(|x: String| x@);
    let mut v: Vec<StreamEvent> = Vec::new();
    let mut i: usize = 0;
    proof {
        assert(lv.take(0) =~= Seq::<Seq<char>>::empty());
        assert(events_view(v@) =~= Seq::<EventView>::empty());
    }
    while i < lines.len()
        invariant
            lv == lines@.map_values(|x: String| x@),
            lv == lines_spec(stdout@),
            i <= lines.len(),
            events_view(v@) == stdout_events(lv.take(i as int)),
        decreases lines.len() - i,
    {
        let t = trim(lines[i].as_str());
        proof {
            assert(lv.take(i + 1).drop_last() =~= lv.take(i as int));
            assert(lv.take(i + 1).last() == lines@[i as int]@);
            assert(lv.take(i + 1).len() - 1 == i);
        }
        if t.as_str().unicode_len() > 0 {
            let ghost before = events_view(v@);
            let ev = event2(
                "output.stdout",
                member("message", JsonValue::Str(t)),
                member("line", JsonValue::Number(decimal(i as u64))),
            );
            v.push(ev);
            proof {
                assert(events_view(v@) =~= before.push(ev@));
            }
        }
        i = i + 1;
    }
    proof {
        assert(lv.take(lines.len() as int) =~= lv);
    }
    v
}

/// The first file whose name ends in `.wasm`.
fn first_wasm_file(files: &Vec<String>) -> (r: Option<String>)
    ensures
        match r {
            Some(f) => first_wasm(strings_view(*files)) == Some(f@),
            None => first_wasm(strings_view(*files)).is_none(),
        },
{
    let ghost fv = strings_view(*files);
    let mut i: usize = 0;
    proof {
        assert(fv.skip(0) =~= fv);
    }
    while i < files.len()
        invariant
            fv == strings_view(*files),
            i <= files.len(),
            first_wasm(fv) == first_wasm(fv.skip(i as int)),
        decreases files.len() - i,
    {
        proof {
            assert(fv.skip(i as int).drop_first() =~= fv.skip(i + 1));
            assert(fv.skip(i as int)[0] == files@[i as int]@);
        }
        if ends_with(files[i].as_str(), ".wasm") {
            return Some(files[i].clone());
        }
        i = i + 1;
    }
    None
}

impl BuildExecution {
    /// Whether the execution waits for the outcome of an operation.
    pub open spec fn pending(&self) -> bool {
        !(self@.phase is Finished)
    }

    fn finish(&mut self, r: Result<BuildOutput, String>, events: Vec<StreamEvent>) -> (q: (
        ExecRequest,
        Vec<StreamEvent>,
    ))
        ensures
            final(self)@ == exec_finish(
                old(self)@,
                match r {
                    Ok(o) => Ok(o@),
                    Err(m) => Err(m@),
                },
                events_view(events@),
            ).0,
            q.0@ == exec_finish(
                old(self)@,
                match r {
                    Ok(o) => Ok(o@),
                    Err(m) => Err(m@),
                },
                events_view(events@),
            ).1,
            events_view(q.1@) == exec_finish(
                old(self)@,
                match r {
                    Ok(o) => Ok(o@),
                    Err(m) => Err(m@),
                },
                events_view(events@),
            ).2,
    {
        self.phase = ExecPhase::Finished;
        if self.streaming {
            (ExecRequest::Done(r), events)
        } else {
            let none: Vec<StreamEvent> = Vec::new();
            proof {
                assert(events_view(none@) =~= Seq::<EventView>::empty());
            }
            (ExecRequest::Done(r), none)
        }
    }

    /// Goes on with the outcome of the operation the execution asked for;
    /// the events are those a streaming execution reports on the way.
    pub fn resume(&mut self, reply: ExecReply) -> (r: (ExecRequest, Vec<StreamEvent>))
        requires
            old(self).pending(),
            exec_answers(old(self)@.phase, reply@),
        ensures
            final(self)@ == exec_resume_spec(old(self)@, reply@).0,
            r.0@ == exec_resume_spec(old(self)@, reply@).1,
            events_view(r.1@) == exec_resume_spec(old(self)@, reply@).2,
            final(self).pending() <==> !(r.0 is Done),
    {
        let mut phase = ExecPhase::Finished;
        std::mem::swap(&mut phase, &mut self.phase);
        match phase {
            ExecPhase::Running => match reply {
                ExecReply::Ran(Err(e)) => {
                    let m = String::from_str("Failed to execute build command: ").concat(e.as_str());
                    let ev = event2(
                        "build.failed",
                        member("message", JsonValue::Str(m.clone())),
                        member("error", JsonValue::Str(e)),
                    );
                    let out = output(
                        false,
                        String::new(),
                        m.clone(),
                        None,
                        None,
                        "Build command failed",
                        Some(m),
                    );
                    let events = vec![ev];
                    proof {
                        assert(events_view(events@) =~= seq![ev@]);
                    }
                    self.finish(Ok(out), events)
                },
                ExecReply::Ran(Ok(stdout)) => {
                    let mut events: Vec<StreamEvent> = Vec::new();
                    if self.streaming {
                        events = stdout_line_events(stdout.as_str());
                        let ghost before = events_view(events@);
                        let ev = message_event("build.linking", String::from_str("Linking WebAssembly module"));
                        events.push(ev);
                        proof {
                            assert(events_view(events@) =~= before.push(ev@));
                        }
                    } else {
                        proof {
                            assert(events_view(events@) =~= Seq::<EventView>::empty());
                        }
                    }
                    self.phase = ExecPhase::Listing(stdout);
                    (ExecRequest::ListFiles(String::from_str("target/wasm32-unknown-unknown/release")), events)
                },
                _ => (ExecRequest::Done(Err(String::new())), Vec::new()),
            },
            ExecPhase::Listing(stdout) => match reply {
                ExecReply::Listed(Err(e)) => {
                    let m = String::from_str("Failed to list target directory: ").concat(e.as_str());
                    let ev = event2(
                        "build.error",
                        member("message", JsonValue::Str(m.clone())),
                        member("error", JsonValue::Str(e)),
                    );
                    let out = output(
                        false,
                        stdout,
                        String::from_str("Stderr not available from host function"),
                        None,
                        None,
                        "Failed to list target directory",
                        Some(m),
                    );
                    let events = vec![ev];
                    proof {
                        assert(events_view(events@) =~= seq![ev@]);
                    }
                    self.finish(Ok(out), events)
                },
                ExecReply::Listed(Ok(files)) => {
                    let found = message_event(
                        "output.log",
                        String::from_str("Found ").concat(decimal(files.len() as u64).as_str()).concat(
                            " files in target directory",
                        ),
                    );
                    proof {
                        assert(strings_view(files).len() == files.len());
                    }
                    match first_wasm_file(&files) {
                        None => {
                            let ev = message_event(
                                "build.error",
                                String::from_str("No WASM file found after build"),
                            );
                            let out = output(
                                false,
                                stdout,
                                String::from_str("Stderr not available from host function"),
                                None,
                                None,
                                "No WASM file found",
                                Some(String::from_str("No WASM file found")),
                            );
                            let ghost g1 = found@;
                            let events = vec![found, ev];
                            proof {
                                assert(events_view(events@) =~= seq![g1, ev@]);
                            }
                            self.finish(Ok(out), events)
                        },
                        Some(f) => {
                            let p = String::from_str("target/wasm32-unknown-unknown/release").concat(
                                "/",
                            ).concat(f.as_str());
                            let mut events: Vec<StreamEvent> = Vec::new();
                            if self.streaming {
                                let ghost g1 = found@;
                                let ev = event2(
                                    "build.packaging",
                                    member(
                                        "message",
                                        JsonValue::Str(String::from_str("Found WASM file: ").concat(f.as_str())),
                                    ),
                                    member("path", JsonValue::Str(p.clone())),
                                );
                                events = vec![found, ev];
                                proof {
                                    assert(events_view(events@) =~= seq![g1, ev@]);
                                }
                            } else {
                                proof {
                                    assert(events_view(events@) =~= Seq::<EventView>::empty());
                                }
                            }
                            self.phase = ExecPhase::Reading(stdout, p.clone());
                            (ExecRequest::ReadFile(p), events)
                        },
                    }
                },
                _ => (ExecRequest::Done(Err(String::new())), Vec::new()),
            },
            ExecPhase::Reading(stdout, p) => match reply {
                ExecReply::Read(Err(e)) => {
                    let m = String::from_str("Failed to read WASM file: ").concat(e.as_str());
                    let ev = event3(
                        "build.error",
                        member("message", JsonValue::Str(m.clone())),
                        member("path", JsonValue::Str(p.clone())),
                        member("error", JsonValue::Str(e)),
                    );
                    let out = output(
                        false,
                        stdout,
                        String::from_str("Stderr not available from host function"),
                        Some(p),
                        None,
                        "Failed to read WASM file",
                        Some(m),
                    );
                    let events = vec![ev];
                    proof {
                        assert(events_view(events@) =~= seq![ev@]);
                    }
                    self.finish(Ok(out), events)
                },
                ExecReply::Read(Ok(bytes)) => {
                    let n = decimal(bytes.len() as u64);
                    let hash = String::from_str("wasm-").concat(n.as_str());
                    let out = output(
                        true,
                        stdout,
                        String::from_str("Stderr not available from host function"),
                        Some(p),
                        Some(hash.clone()),
                        "Build completed successfully",
                        None,
                    );
                    if self.store_wasm {
                        let mut events: Vec<StreamEvent> = Vec::new();
                        if self.streaming {
                            let ev = event3(
                                "build.storing",
                                member(
                                    "message",
                                    JsonValue::Str(
                                        String::from_str("Storing WASM file (").concat(n.as_str()).concat(
                                            " bytes)",
                                        ),
                                    ),
                                ),
                                member("hash", JsonValue::Str(hash)),
                                member("size", JsonValue::Number(n)),
                            );
                            events = vec![ev];
                            proof {
                                assert(events_view(events@) =~= seq![ev@]);
                            }
                        } else {
                            proof {
                                assert(events_view(events@) =~= Seq::<EventView>::empty());
                            }
                        }
                        let q = ExecRequest::StoreAtLabel {
                            store_id: self.build_store_id.clone(),
                            label: String::from_str("wasm"),
                            content: bytes,
                        };
                        self.phase = ExecPhase::Storing(out);
                        (q, events)
                    } else {
                        let none: Vec<StreamEvent> = Vec::new();
                        proof {
                            assert(events_view(none@) =~= Seq::<EventView>::empty());
                        }
                        self.finish(Ok(out), none)
                    }
                },
                _ => (ExecRequest::Done(Err(String::new())), Vec::new()),
            },
            ExecPhase::Storing(out) => match reply {
                ExecReply::Stored(Err(e)) => {
                    let none: Vec<StreamEvent> = Vec::new();
                    proof {
                        assert(events_view(none@) =~= Seq::<EventView>::empty());
                    }
                    self.finish(Err(String::from_str("Failed to store WASM file: ").concat(e.as_str())), none)
                },
                ExecReply::Stored(Ok(())) => {
                    let none: Vec<StreamEvent> = Vec::new();
                    proof {
                        assert(events_view(none@) =~= Seq::<EventView>::empty());
                    }
                    self.finish(Ok(out), none)
                },
                _ => (ExecRequest::Done(Err(String::new())), Vec::new()),
            },
            ExecPhase::Finished => (ExecRequest::Done(Err(String::new())), Vec::new()),
        }
    }
}

/// Starts a build execution: the first request runs the build command.
fn start_execution(build_store_id: &str, store_wasm: bool, streaming: bool) -> (r: (
    BuildExecution,
    ExecRequest,
    Vec<StreamEvent>,
))
    ensures
        r.0@ == exec_start_spec(build_store_id@, store_wasm, streaming).0,
        r.1@ == exec_start_spec(build_store_id@, store_wasm, streaming).1,
        events_view(r.2@) == exec_start_spec(build_store_id@, store_wasm, streaming).2,
        r.0.pending(),
{
    let x = BuildExecution {
        build_store_id: String::from_str(build_store_id),
        store_wasm,
        streaming,
        phase: ExecPhase::Running,
    };
    let args = vec![
        String::from_str("develop"),
        String::from_str("--command"),
        String::from_str("bash"),
        String::from_str("-c"),
        String::from_str("cargo component build --target wasm32-unknown-unknown --release"),
    ];
    proof {
        assert(strings_view(args) =~= build_args());
    }
    let q = ExecRequest::RunCommand {
        dir: String::from_str("."),
        program: String::from_str("nix"),
        args,
    };
    let mut events: Vec<StreamEvent> = Vec::new();
    if streaming {
        let ev = event3(
            "build.compiling",
            member("message", JsonValue::text("Compiling with cargo component build")),
            member("target", JsonValue::text("wasm32-unknown-unknown")),
            member("release", JsonValue::Bool(true)),
        );
        events = vec![ev];
        proof {
            assert(events_view(events@) =~= seq![ev@]);
        }
    } else {
        proof {
            assert(events_view(events@) =~= Seq::<EventView>::empty());
        }
    }
    (x, q, events)
}

/// Starts the build of the extracted sources: runs the build command, looks
/// for the WebAssembly module and reads it.
pub fn execute_build() -> (r: (BuildExecution, ExecRequest))
    ensures
        r.0@ == exec_start_spec(Seq::empty(), false, false).0,
        r.1@ == exec_start_spec(Seq::empty(), false, false).1,
        r.0.pending(),
{
    let (x, q, _events) = start_execution("", false, false);
    proof {
        reveal_strlit("");
        assert(""@ =~= Seq::<char>::empty());
    }
    (x, q)
}

/// As `execute_build`, and the module is then stored under the label `wasm`
/// in the store `build_store_id`.
pub fn execute_build_and_store(build_store_id: &str) -> (r: (BuildExecution, ExecRequest))
    ensures
        r.0@ == exec_start_spec(build_store_id@, true, false).0,
        r.1@ == exec_start_spec(build_store_id@, true, false).1,
        r.0.pending(),
{
    let (x, q, _events) = start_execution(build_store_id, true, false);
    (x, q)
}

/// As `execute_build_and_store`, reporting progress events on the way.
pub fn execute_build_with_streaming(build_store_id: &str) -> (r: (
    BuildExecution,
    ExecRequest,
    Vec<StreamEvent>,
))
    ensures
        r.0@ == exec_start_spec(build_store_id@, true, true).0,
        r.1@ == exec_start_spec(build_store_id@, true, true).1,
        events_view(r.2@) == exec_start_spec(build_store_id@, true, true).2,
        r.0.pending(),
{
    start_execution(build_store_id, true, true)
}

} // verus!
