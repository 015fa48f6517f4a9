//! The build process: extract the sources, then build them.
//!
//! Listing the root directory, extracting the entries and executing the
//! build are each carried out outside (by the listing, extraction and
//! execution machines and the host); the process decides from their
//! outcomes what comes next and what the build output is.

use vstd::prelude::*;
use crate::filesystem::models::{listing_view, ContentStore, DirectoryEntry, DirectoryEntryView};
use crate::messaging::events::{
    event2, event3, events_view, member, message_event, message_event_spec, event_spec, opt_text,
    opt_text_view, EventView, StreamEvent,
};
use crate::messaging::handler::StatusReport;
use crate::messaging::json::{get_spec, member_spec, str_member_spec, JsonValue, JsonView};
use crate::state::{
    clone_opt_string, opt_view, failed_output_view, status_after, BuildOutput, BuildOutputView, BuildState, BuildStatus,
};
use crate::text::{decimal, decimal_spec};

verus! {

/// What a build pipeline waits for.
#[derive(Debug, Clone, Copy, PartialEq, Eq, Structural)]
pub enum PipelinePhase {
    /// The listing of the root directory.
    ListingRoot,
    /// The extraction of the root directory's entries.
    Extracting,
    /// The execution of the build.
    Executing,
    /// Nothing: the build is over.
    Finished,
}

/// A build in progress.
pub struct BuildPipeline {
    fs_hash: String,
    store_id: String,
    build_store_id: String,
    store_wasm: bool,
    streaming: bool,
    phase: PipelinePhase,
}

/// Abstract value of a [`BuildPipeline`].
pub struct PipelineView {
    pub fs_hash: Seq<char>,
    pub store_id: Seq<char>,
    pub build_store_id: Seq<char>,
    pub store_wasm: bool,
    pub streaming: bool,
    pub phase: PipelinePhase,
}

impl View for BuildPipeline {
    type V = PipelineView;

    closed spec fn view(&self) -> PipelineView {
        PipelineView {
            fs_hash: self.fs_hash@,
            store_id: self.store_id@,
            build_store_id: self.build_store_id@,
            store_wasm: self.store_wasm,
            streaming: self.streaming,
            phase: self.phase,
        }
    }
}

/// A stage of the build that the pipeline hands out.
#[derive(Debug)]
pub enum PipelineRequest {
    /// List the root directory of the filesystem `fs_hash` in store `store_id`.
    ListRoot { fs_hash: String, store_id: String },
    /// Extract `entries`, the root directory's entries, of that filesystem.
    Extract { fs_hash: String, store_id: String, entries: Vec<DirectoryEntry> },
    /// Execute the build; with `store_wasm`, store the module in `build_store_id`.
    Execute { build_store_id: String, store_wasm: bool },
    /// Nothing more: the build output.
    Done(BuildOutput),
}

/// Abstract value of a [`PipelineRequest`].
pub enum PipelineRequestView {
    ListRoot { fs_hash: Seq<char>, store_id: Seq<char> },
    Extract { fs_hash: Seq<char>, store_id: Seq<char>, entries: Seq<DirectoryEntryView> },
    Execute { build_store_id: Seq<char>, store_wasm: bool },
    Done(BuildOutputView),
}

impl View for PipelineRequest {
    type V = PipelineRequestView;

    open spec fn view(&self) -> PipelineRequestView {
        match self {
            PipelineRequest::ListRoot { fs_hash, store_id } => PipelineRequestView::ListRoot {
                fs_hash: fs_hash@,
                store_id: store_id@,
            },
            PipelineRequest::Extract { fs_hash, store_id, entries } => PipelineRequestView::Extract {
                fs_hash: fs_hash@,
                store_id: store_id@,
                entries: listing_view(entries@),
            },
            PipelineRequest::Execute { build_store_id, store_wasm } => PipelineRequestView::Execute {
                build_store_id: build_store_id@,
                store_wasm: *store_wasm,
            },
            PipelineRequest::Done(o) => PipelineRequestView::Done(o@),
        }
    }
}

/// The outcome of a stage.
pub enum PipelineReply {
    Listed(Result<Vec<DirectoryEntry>, String>),
    Extracted(Result<(), String>),
    Executed(Result<BuildOutput, String>),
}

/// Abstract value of a [`PipelineReply`].
pub enum PipelineReplyView {
    Listed(Result<Seq<DirectoryEntryView>, Seq<char>>),
    Extracted(Result<(), Seq<char>>),
    Executed(Result<BuildOutputView, Seq<char>>),
}

impl View for PipelineReply {
    type V = PipelineReplyView;

    open spec fn view(&self) -> PipelineReplyView {
        match self {
            PipelineReply::Listed(Ok(l)) => PipelineReplyView::Listed(Ok(listing_view(l@))),
            PipelineReply::Listed(Err(e)) => PipelineReplyView::Listed(Err(e@)),
            PipelineReply::Extracted(Ok(())) => PipelineReplyView::Extracted(Ok(())),
            PipelineReply::Extracted(Err(e)) => PipelineReplyView::Extracted(Err(e@)),
            PipelineReply::Executed(Ok(o)) => PipelineReplyView::Executed(Ok(o@)),
            PipelineReply::Executed(Err(e)) => PipelineReplyView::Executed(Err(e@)),
        }
    }
}

/// Whether `r` answers the stage that phase `p` waits for.
pub open spec fn stage_answers(p: PipelinePhase, r: PipelineReplyView) -> bool {
    match p {
        PipelinePhase::ListingRoot => r is Listed,
        PipelinePhase::Extracting => r is Extracted,
        PipelinePhase::Executing => r is Executed,
        PipelinePhase::Finished => false,
    }
}

/// A step of the pipeline: the new state, the request, the events.
pub type PipelineStep = (PipelineView, PipelineRequestView, Seq<EventView>);

/// The events of a streaming pipeline, and none otherwise.
pub open spec fn stage_events(s: PipelineView, events: Seq<EventView>) -> Seq<EventView> {
    if s.streaming {
        events
    } else {
        Seq::empty()
    }
}

/// The build ends with output `o`.
pub open spec fn pipeline_finish(s: PipelineView, o: BuildOutputView, events: Seq<EventView>) -> PipelineStep {
    (
        PipelineView { phase: PipelinePhase::Finished, ..s },
        PipelineRequestView::Done(o),
        stage_events(s, events),
    )
}

/// The event that reports a failed extraction.
pub open spec fn extraction_failed_event(m: Seq<char>, e: Seq<char>) -> EventView {
    event_spec(
        "build.extraction_failed"@,
        seq![("message"@, JsonView::Str(m)), ("error"@, JsonView::Str(e))],
    )
}

/// A build right after it is started: it asks for the root listing.
pub open spec fn pipeline_start_spec(
    fs_hash: Seq<char>,
    store_id: Seq<char>,
    build_store_id: Seq<char>,
    store_wasm: bool,
    streaming: bool,
) -> PipelineStep {
    let s = PipelineView {
        fs_hash,
        store_id,
        build_store_id,
        store_wasm,
        streaming,
        phase: PipelinePhase::ListingRoot,
    };
    (
        s,
        PipelineRequestView::ListRoot { fs_hash, store_id },
        stage_events(
            s,
            seq![message_event_spec("build.extracting"@, "Extracting code from content store"@)],
        ),
    )
}

/// One transition of a build, on the outcome of its last stage.
pub open spec fn pipeline_resume_spec(s: PipelineView, r: PipelineReplyView) -> PipelineStep {
    match (s.phase, r) {
        (PipelinePhase::ListingRoot, PipelineReplyView::Listed(Err(e))) => pipeline_finish(
            s,
            failed_output_view(e),
            seq![extraction_failed_event("Failed to list root directory: "@ + e, e)],
        ),
        (PipelinePhase::ListingRoot, PipelineReplyView::Listed(Ok(entries))) => (
            PipelineView { phase: PipelinePhase::Extracting, ..s },
            PipelineRequestView::Extract { fs_hash: s.fs_hash, store_id: s.store_id, entries },
            stage_events(
                s,
                seq![
                    message_event_spec(
                        "output.log"@,
                        "Found "@ + decimal_spec(entries.len()) + " entries at root"@,
                    ),
                ],
            ),
        ),
        (PipelinePhase::Extracting, PipelineReplyView::Extracted(Err(e))) => pipeline_finish(
            s,
            failed_output_view(e),
            seq![extraction_failed_event("Failed to process directories: "@ + e, e)],
        ),
        (PipelinePhase::Extracting, PipelineReplyView::Extracted(Ok(()))) => (
            PipelineView { phase: PipelinePhase::Executing, ..s },
            PipelineRequestView::Execute {
                build_store_id: s.build_store_id,
                store_wasm: s.store_wasm,
            },
            stage_events(
                s,
                seq![
                    message_event_spec(
                        "build.extraction_complete"@,
                        "Successfully extracted all files from virtual filesystem"@,
                    ),
                    message_event_spec("build.environment_setup"@, "Setting up build environment"@),
                ],
            ),
        ),
        (PipelinePhase::Executing, PipelineReplyView::Executed(Ok(o))) => pipeline_finish(
            s,
            o,
            seq![
                event_spec(
                    if o.success {
                        "build.completed"@
                    } else {
                        "build.failed"@
                    },
                    seq![
                        (
                            "message"@,
                            JsonView::Str(
                                if o.success {
                                    "Build completed successfully"@
                                } else {
                                    "Build failed"@
                                },
                            ),
                        ),
                        ("wasm_path"@, opt_text_view(o.wasm_path)),
                        ("success"@, JsonView::Bool(o.success)),
                    ],
                ),
            ],
        ),
        (PipelinePhase::Executing, PipelineReplyView::Executed(Err(e))) => pipeline_finish(
            s,
            failed_output_view(e),
            seq![
                event_spec(
                    "build.failed"@,
                    seq![("message"@, JsonView::Str("Build failed: "@ + e)), ("error"@, JsonView::Str(e))],
                ),
            ],
        ),
        _ => (s, PipelineRequestView::Done(failed_output_view(Seq::empty())), Seq::empty()),
    }
}

/// Streaming changes only what a build reports: from the same state and
/// outcome, the build moves to the same state (its streaming flag aside) and
/// hands out the same stage whether it streams or not, it starts with the
/// same request either way, and without streaming it reports nothing.
pub proof fn law_pipeline_streaming_only_adds_events(
    s: PipelineView,
    r: PipelineReplyView,
    streaming: bool,
)
    ensures
        pipeline_resume_spec(s, r).0.streaming == s.streaming,
        ({
            let a = pipeline_resume_spec(s, r);
            let b = pipeline_resume_spec(PipelineView { streaming, ..s }, r);
            &&& a.1 == b.1
            &&& a.0 == PipelineView { streaming: s.streaming, ..b.0 }
        }),
        pipeline_start_spec(s.fs_hash, s.store_id, s.build_store_id, s.store_wasm, s.streaming).1
            == pipeline_start_spec(s.fs_hash, s.store_id, s.build_store_id, s.store_wasm, streaming).1,
        !s.streaming ==> pipeline_resume_spec(s, r).2 == Seq::<EventView>::empty(),
        !s.streaming ==> pipeline_start_spec(
            s.fs_hash,
            s.store_id,
            s.build_store_id,
            s.store_wasm,
            s.streaming,
        ).2 == Seq::<EventView>::empty(),
{
}

/// The error of a stage that failed, when `r` reports one for the stage
/// that phase `p` waits for.
pub open spec fn stage_failure(p: PipelinePhase, r: PipelineReplyView) -> Option<Seq<char>> {
    match (p, r) {
        (PipelinePhase::ListingRoot, PipelineReplyView::Listed(Err(e))) => Some(e),
        (PipelinePhase::Extracting, PipelineReplyView::Extracted(Err(e))) => Some(e),
        (PipelinePhase::Executing, PipelineReplyView::Executed(Err(e))) => Some(e),
        _ => None,
    }
}

/// How a build ends: it reports success only when its execution stage ran
/// and returned a successful output, which is then the build's output as
/// it stands; the output the execution returns is passed on unchanged; and
/// a stage that fails (the root listing, the extraction or the execution)
/// ends the build with a failed output that carries nothing but that
/// stage's error.
pub proof fn law_build_succeeds_only_when_execution_does(s: PipelineView, r: PipelineReplyView)
    ensures
        ({
            let next = pipeline_resume_spec(s, r);
            next.1 matches PipelineRequestView::Done(o) ==> {
                &&& o.success ==> s.phase == PipelinePhase::Executing && r == PipelineReplyView::Executed(
                    Ok(o),
                )
                &&& s.phase == PipelinePhase::Executing ==> (r matches PipelineReplyView::Executed(Ok(x))
                    ==> o == x)
                &&& stage_failure(s.phase, r) matches Some(e) ==> {
                    &&& !o.success
                    &&& o.error == Some(e)
                    &&& o.stdout.len() == 0
                    &&& o.stderr.len() == 0
                    &&& o.wasm_path is None
                    &&& o.wasm_hash is None
                    &&& o.build_logs.len() == 0
                }
            }
        }),
{
}

/// The event a streaming build reports when its execution returns output
/// `o` agrees with `o`: it is `build.completed`, with the message "Build
/// completed successfully", when `o` succeeded, and `build.failed`, with the
/// message "Build failed", when it did not; it carries `o`'s success and
/// module path.
pub proof fn law_streamed_completion_agrees_with_output(s: PipelineView, o: BuildOutputView)
    requires
        s.phase == PipelinePhase::Executing,
        s.streaming,
    ensures
        ({
            let ev = pipeline_resume_spec(s, PipelineReplyView::Executed(Ok(o))).2;
            &&& ev.len() == 1
            &&& o.success ==> ev[0].event_type == "build.completed"@ && str_member_spec(
                ev[0].content,
                "message"@,
            ) == Some("Build completed successfully"@)
            &&& !o.success ==> ev[0].event_type == "build.failed"@ && str_member_spec(
                ev[0].content,
                "message"@,
            ) == Some("Build failed"@)
            &&& get_spec(ev[0].content, "success"@) == Some(JsonView::Bool(o.success))
            &&& get_spec(ev[0].content, "wasm_path"@) == Some(opt_text_view(o.wasm_path))
        }),
{
    reveal_strlit("message");
    reveal_strlit("success");
    reveal_strlit("wasm_path");
    assert("message"@[0] != "success"@[0]);
    assert("message"@[0] != "wasm_path"@[0]);
    assert("wasm_path"@[0] != "success"@[0]);
    let msg = if o.success {
        "Build completed successfully"@
    } else {
        "Build failed"@
    };
    let ms = seq![
        ("message"@, JsonView::Str(msg)),
        ("wasm_path"@, opt_text_view(o.wasm_path)),
        ("success"@, JsonView::Bool(o.success)),
    ];
    let ev = pipeline_resume_spec(s, PipelineReplyView::Executed(Ok(o))).2;
    assert(ev[0].content == JsonView::Object(ms));
    assert(ms.drop_first()[0] == ms[1]);
    assert(ms.drop_first().drop_first()[0] == ms[2]);
    assert(member_spec(ms, "message"@) == Some(JsonView::Str(msg)));
    assert(member_spec(ms.drop_first(), "wasm_path"@) == Some(opt_text_view(o.wasm_path)));
    assert(member_spec(ms, "wasm_path"@) == Some(opt_text_view(o.wasm_path)));
    assert(member_spec(ms.drop_first().drop_first(), "success"@) == Some(JsonView::Bool(o.success)));
    assert(member_spec(ms.drop_first(), "success"@) == Some(JsonView::Bool(o.success)));
}

impl BuildPipeline {
    /// Whether the build waits for the outcome of a stage.
    pub open spec fn pending(&self) -> bool {
        !(self@.phase == PipelinePhase::Finished)
    }

    fn finish(&mut self, o: BuildOutput, events: Vec<StreamEvent>) -> (r: (PipelineRequest, Vec<StreamEvent>))
        ensures
            final(self)@ == pipeline_finish(old(self)@, o@, events_view(events@)).0,
            r.0@ == pipeline_finish(old(self)@, o@, events_view(events@)).1,
            events_view(r.1@) == pipeline_finish(old(self)@, o@, events_view(events@)).2,
    {
        self.phase = PipelinePhase::Finished;
        if self.streaming {
            (PipelineRequest::Done(o), events)
        } else {
            let none: Vec<StreamEvent> = Vec::new();
            proof {
                assert(events_view(none@) =~= Seq::<EventView>::empty());
            }
            (PipelineRequest::Done(o), none)
        }
    }

    /// Goes on with the outcome of the stage the build asked for; the events
    /// are those a streaming build reports on the way.
    pub fn resume(&mut self, reply: PipelineReply) -> (r: (PipelineRequest, Vec<StreamEvent>))
        requires
            old(self).pending(),
            stage_answers(old(self)@.phase, reply@),
        ensures
            final(self)@ == pipeline_resume_spec(old(self)@, reply@).0,
            r.0@ == pipeline_resume_spec(old(self)@, reply@).1,
            events_view(r.1@) == pipeline_resume_spec(old(self)@, reply@).2,
            final(self).pending() <==> !(r.0 is Done),
    {
        match self.phase {
            PipelinePhase::ListingRoot => match reply {
                PipelineReply::Listed(Err(e)) => {
                    let m = String::from_str("Failed to list root directory: ").concat(e.as_str());
                    let ev = event2(
                        "build.extraction_failed",
                        member("message", JsonValue::Str(m)),
                        member("error", JsonValue::Str(e.clone())),
                    );
                    let events = vec![ev];
                    proof {
                        assert(events_view(events@) =~= seq![ev@]);
                    }
                    self.finish(BuildState::failed_output(e), events)
                },
                PipelineReply::Listed(Ok(entries)) => {
                    let mut events: Vec<StreamEvent> = Vec::new();
                    if self.streaming {
                        let ev = message_event(
                            "output.log",
                            String::from_str("Found ").concat(decimal(entries.len() as u64).as_str()).concat(
                                " entries at root",
                            ),
                        );
                        events = vec![ev];
                        proof {
                            assert(events_view(events@) =~= seq![ev@]);
                        }
                    } else {
                        proof {
                            assert(events_view(events@) =~= Seq::<EventView>::empty());
                        }
                    }
                    proof {
                        assert(listing_view(entries@).len() == entries.len());
                    }
                    self.phase = PipelinePhase::Extracting;
                    let q = PipelineRequest::Extract {
                        fs_hash: self.fs_hash.clone(),
                        store_id: self.store_id.clone(),
                        entries,
                    };
                    (q, events)
                },
                _ => (PipelineRequest::Done(BuildState::failed_output(String::new())), Vec::new()),
            },
            PipelinePhase::Extracting => match reply {
                PipelineReply::Extracted(Err(e)) => {
                    let m = String::from_str("Failed to process directories: ").concat(e.as_str());
                    let ev = event2(
                        "build.extraction_failed",
                        member("message", JsonValue::Str(m)),
                        member("error", JsonValue::Str(e.clone())),
                    );
                    let events = vec![ev];
                    proof {
                        assert(events_view(events@) =~= seq![ev@]);
                    }
                    self.finish(BuildState::failed_output(e), events)
                },
                PipelineReply::Extracted(Ok(())) => {
                    let mut events: Vec<StreamEvent> = Vec::new();
                    if self.streaming {
                        let e1 = message_event(
                            "build.extraction_complete",
                            String::from_str("Successfully extracted all files from virtual filesystem"),
                        );
                        let e2 = message_event(
                            "build.environment_setup",
                            String::from_str("Setting up build environment"),
                        );
                        let ghost g1 = e1@;
                        let ghost g2 = e2@;
                        events = vec![e1, e2];
                        proof {
                            assert(events_view(events@) =~= seq![g1, g2]);
                        }
                    } else {
                        proof {
                            assert(events_view(events@) =~= Seq::<EventView>::empty());
                        }
                    }
                    self.phase = PipelinePhase::Executing;
                    let q = PipelineRequest::Execute {
                        build_store_id: self.build_store_id.clone(),
                        store_wasm: self.store_wasm,
                    };
                    (q, events)
                },
                _ => (PipelineRequest::Done(BuildState::failed_output(String::new())), Vec::new()),
            },
            PipelinePhase::Executing => match reply {
                PipelineReply::Executed(Ok(o)) => {
                    let success = o.success;
                    let ev = event3(
                        if success {
                            "build.completed"
                        } else {
                            "build.failed"
                        },
                        member(
                            "message",
                            JsonValue::text(
                                if success {
                                    "Build completed successfully"
                                } else {
                                    "Build failed"
                                },
                            ),
                        ),
                        member("wasm_path", opt_text(crate::state::clone_opt_string(&o.wasm_path))),
                        member("success", JsonValue::Bool(success)),
                    );
                    let events = vec![ev];
                    proof {
                        assert(events_view(events@) =~= seq![ev@]);
                    }
                    self.finish(o, events)
                },
                PipelineReply::Executed(Err(e)) => {
                    let m = String::from_str("Build failed: ").concat(e.as_str());
                    let ev = event2(
                        "build.failed",
                        member("message", JsonValue::Str(m)),
                        member("error", JsonValue::Str(e.clone())),
                    );
                    let events = vec![ev];
                    proof {
                        assert(events_view(events@) =~= seq![ev@]);
                    }
                    self.finish(BuildState::failed_output(e), events)
                },
                _ => (PipelineRequest::Done(BuildState::failed_output(String::new())), Vec::new()),
            },
            PipelinePhase::Finished => (
                PipelineRequest::Done(BuildState::failed_output(String::new())),
                Vec::new(),
            ),
        }
    }
}

fn start_pipeline(
    fs_hash: &str,
    store_id: &str,
    build_store_id: &str,
    store_wasm: bool,
    streaming: bool,
) -> (r: (BuildPipeline, PipelineRequest, Vec<StreamEvent>))
    ensures
        r.0@ == pipeline_start_spec(fs_hash@, store_id@, build_store_id@, store_wasm, streaming).0,
        r.1@ == pipeline_start_spec(fs_hash@, store_id@, build_store_id@, store_wasm, streaming).1,
        events_view(r.2@) == pipeline_start_spec(
            fs_hash@,
            store_id@,
            build_store_id@,
            store_wasm,
            streaming,
        ).2,
        r.0.pending(),
{
    let x = BuildPipeline {
        fs_hash: String::from_str(fs_hash),
        store_id: String::from_str(store_id),
        build_store_id: String::from_str(build_store_id),
        store_wasm,
        streaming,
        phase: PipelinePhase::ListingRoot,
    };
    let q = PipelineRequest::ListRoot {
        fs_hash: String::from_str(fs_hash),
        store_id: String::from_str(store_id),
    };
    let mut events: Vec<StreamEvent> = Vec::new();
    if streaming {
        let ev = message_event("build.extracting", String::from_str("Extracting code from content store"));
        events = vec![ev];
        proof {
            assert(events_view(events@) =~= seq![ev@]);
        }
    } else {
        proof {
            assert(events_view(events@) =~= Seq::<EventView>::empty());
        }
    }
    (x, q, events)
}

/// Starts the build of the filesystem `fs_hash` of store `store_id`; the
/// module is stored in `build_store_id`.
pub fn start_build(fs_hash: &str, store_id: &str, build_store_id: &str) -> (r: (
    BuildPipeline,
    PipelineRequest,
))
    ensures
        r.0@ == pipeline_start_spec(fs_hash@, store_id@, build_store_id@, true, false).0,
        r.1@ == pipeline_start_spec(fs_hash@, store_id@, build_store_id@, true, false).1,
        r.0.pending(),
{
    let (x, q, _events) = start_pipeline(fs_hash, store_id, build_store_id, true, false);
    (x, q)
}

/// As `start_build`, reporting progress events on the way.
pub fn start_build_with_streaming(fs_hash: &str, store_id: &str, build_store_id: &str) -> (r: (
    BuildPipeline,
    PipelineRequest,
    Vec<StreamEvent>,
))
    ensures
        r.0@ == pipeline_start_spec(fs_hash@, store_id@, build_store_id@, true, true).0,
        r.1@ == pipeline_start_spec(fs_hash@, store_id@, build_store_id@, true, true).1,
        events_view(r.2@) == pipeline_start_spec(fs_hash@, store_id@, build_store_id@, true, true).2,
        r.0.pending(),
{
    start_pipeline(fs_hash, store_id, build_store_id, true, true)
}

/// The status of a build process once its build hands out `q`, the status
/// having been `old`: `Building` when the build is executed, the status the
/// output settles on when the build is over, and unchanged otherwise.
pub open spec fn status_after_stage(q: PipelineRequestView, old: BuildStatus) -> BuildStatus {
    match q {
        PipelineRequestView::Done(o) => status_after(o.success),
        PipelineRequestView::Execute { .. } => BuildStatus::Building,
        _ => old,
    }
}

/// The status a build process has while its build waits in phase `p`.
pub open spec fn status_in_phase(p: PipelinePhase) -> BuildStatus {
    match p {
        PipelinePhase::ListingRoot => BuildStatus::Extracting,
        PipelinePhase::Extracting => BuildStatus::Extracting,
        PipelinePhase::Executing => BuildStatus::Building,
        PipelinePhase::Finished => BuildStatus::Failed,
    }
}

/// The statuses of a build process follow the stages of its build: while
/// the sources are listed and extracted the status is `Extracting`, while
/// the build is executed it is `Building`, and when the build is over it is
/// `Completed` exactly when the output reports success, `Failed` otherwise.
pub proof fn law_status_follows_stages(s: PipelineView, r: PipelineReplyView, status: BuildStatus)
    requires
        s.phase != PipelinePhase::Finished,
        stage_answers(s.phase, r),
        status == status_in_phase(s.phase),
    ensures
        ({
            let next = pipeline_resume_spec(s, r);
            match next.1 {
                PipelineRequestView::Done(o) => {
                    &&& next.0.phase == PipelinePhase::Finished
                    &&& status_after_stage(next.1, status) == (if o.success {
                        BuildStatus::Completed
                    } else {
                        BuildStatus::Failed
                    })
                },
                _ => status_after_stage(next.1, status) == status_in_phase(next.0.phase),
            }
        }),
{
}

/// A build process: the build state, the content store that holds the
/// sources, and the build in progress.
pub struct BuildProcess {
    state: BuildState,
    content_store: ContentStore,
    pipeline: BuildPipeline,
}

impl BuildProcess {
    /// The build state.
    pub closed spec fn build_state(&self) -> BuildState {
        self.state
    }

    /// The build in progress.
    pub closed spec fn pipeline(&self) -> PipelineView {
        self.pipeline@
    }

    /// The store the sources are read from.
    pub closed spec fn source_store(&self) -> Seq<char> {
        self.content_store.store_id@
    }

    /// Whether the build waits for the outcome of a stage.
    pub open spec fn pending(&self) -> bool {
        self.pipeline().phase != PipelinePhase::Finished
    }

    /// A process for the build that `state` describes, on the content store
    /// that the state names; nothing is started yet.
    pub fn new(state: BuildState) -> (p: Self)
        ensures
            p.build_state() == state,
            p.source_store() == state.store_id@,
            !p.pending(),
    {
        let store_id = state.store_id.clone();
        BuildProcess {
            state,
            content_store: ContentStore::new(store_id),
            pipeline: BuildPipeline {
                fs_hash: String::new(),
                store_id: String::new(),
                build_store_id: String::new(),
                store_wasm: false,
                streaming: false,
                phase: PipelinePhase::Finished,
            },
        }
    }

    /// Starts the build: the status becomes `Extracting` and the first stage
    /// is the listing of the root directory of the state's filesystem.
    pub fn start(&mut self) -> (q: PipelineRequest)
        ensures
            final(self).build_state().status == BuildStatus::Extracting,
            final(self).build_state().store_id == old(self).build_state().store_id,
            final(self).build_state().fs_hash == old(self).build_state().fs_hash,
            final(self).build_state().build_output == old(self).build_state().build_output,
            final(self).build_state().channel_id == old(self).build_state().channel_id,
            final(self).build_state().build_store_id == old(self).build_state().build_store_id,
            final(self).source_store() == old(self).source_store(),
            final(self).pipeline() == pipeline_start_spec(
                old(self).build_state().fs_hash@,
                old(self).source_store(),
                old(self).build_state().build_store_id@,
                false,
                false,
            ).0,
            q@ == pipeline_start_spec(
                old(self).build_state().fs_hash@,
                old(self).source_store(),
                old(self).build_state().build_store_id@,
                false,
                false,
            ).1,
            final(self).pending(),
    {
        self.state.set_status(BuildStatus::Extracting);
        let (x, q, _events) = start_pipeline(
            self.state.fs_hash.as_str(),
            self.content_store.store_id(),
            self.state.build_store_id.as_str(),
            false,
            false,
        );
        self.pipeline = x;
        q
    }

    /// Goes on with the outcome of the stage the build asked for. The status
    /// becomes `Building` when the build is executed; when the build is over
    /// its output is recorded, which settles the status.
    pub fn resume(&mut self, reply: PipelineReply) -> (q: PipelineRequest)
        requires
            old(self).pending(),
            stage_answers(old(self).pipeline().phase, reply@),
        ensures
            final(self).pipeline() == pipeline_resume_spec(old(self).pipeline(), reply@).0,
            q@ == pipeline_resume_spec(old(self).pipeline(), reply@).1,
            final(self).source_store() == old(self).source_store(),
            final(self).build_state().store_id == old(self).build_state().store_id,
            final(self).build_state().fs_hash == old(self).build_state().fs_hash,
            final(self).build_state().channel_id == old(self).build_state().channel_id,
            final(self).build_state().build_store_id == old(self).build_state().build_store_id,
            final(self).build_state().status == status_after_stage(q@, old(self).build_state().status),
            match q@ {
                PipelineRequestView::Done(o) => {
                    &&& final(self).build_state().build_output is Some
                    &&& final(self).build_state().build_output.unwrap()@ == o
                },
                _ => final(self).build_state().build_output == old(self).build_state().build_output,
            },
            final(self).pending() <==> !(q is Done),
    {
        let (q, _events) = self.pipeline.resume(reply);
        match q {
            PipelineRequest::Done(o) => {
                self.state.set_build_output(o.clone());
                PipelineRequest::Done(o)
            },
            PipelineRequest::Execute { build_store_id, store_wasm } => {
                self.state.set_status(BuildStatus::Building);
                PipelineRequest::Execute { build_store_id, store_wasm }
            },
            other => other,
        }
    }

    /// The current build state.
    pub fn state(&self) -> (s: &BuildState)
        ensures
            *s == self.build_state(),
    {
        &self.state
    }
}

/// The description of the progress report for a build entering `status`.
pub open spec fn progress_description(status: BuildStatus) -> Seq<char> {
    match status {
        BuildStatus::Extracting => "Extracting files from content store"@,
        BuildStatus::Building => "Running cargo build command"@,
        _ => Seq::empty(),
    }
}

/// Whether `r` is the progress report for a build entering `status`.
pub open spec fn is_progress_report(r: StatusReport, status: BuildStatus) -> bool {
    r matches StatusReport::Progress { status: st, description } && st == status
        && description@ == progress_description(status)
}

/// Whether `r` is the report of a build that ended with output `o`.
pub open spec fn is_completion_report(r: StatusReport, o: BuildOutputView) -> bool {
    r matches StatusReport::BuildComplete { success, wasm_path, wasm_hash, error } && success
        == o.success && opt_view(wasm_path) == o.wasm_path && opt_view(wasm_hash) == o.wasm_hash
        && opt_view(error) == o.error
}

/// The reports owed once a build hands out `q`: progress when the build is
/// executed, the completion report when it is over, and nothing otherwise.
pub open spec fn stage_reports(q: PipelineRequestView, reports: Seq<StatusReport>) -> bool {
    match q {
        PipelineRequestView::Execute { .. } => reports.len() == 1 && is_progress_report(
            reports[0],
            BuildStatus::Building,
        ),
        PipelineRequestView::Done(o) => reports.len() == 1 && is_completion_report(reports[0], o),
        _ => reports.len() == 0,
    }
}

impl BuildProcess {
    /// As [`BuildProcess::start`], reporting the progress: the build is
    /// extracting.
    pub fn start_with_progress(&mut self) -> (r: (PipelineRequest, Vec<StatusReport>))
        ensures
            final(self).build_state().status == BuildStatus::Extracting,
            final(self).build_state().store_id == old(self).build_state().store_id,
            final(self).build_state().fs_hash == old(self).build_state().fs_hash,
            final(self).build_state().build_output == old(self).build_state().build_output,
            final(self).build_state().channel_id == old(self).build_state().channel_id,
            final(self).build_state().build_store_id == old(self).build_state().build_store_id,
            final(self).source_store() == old(self).source_store(),
            final(self).pipeline() == pipeline_start_spec(
                old(self).build_state().fs_hash@,
                old(self).source_store(),
                old(self).build_state().build_store_id@,
                false,
                false,
            ).0,
            r.0@ == pipeline_start_spec(
                old(self).build_state().fs_hash@,
                old(self).source_store(),
                old(self).build_state().build_store_id@,
                false,
                false,
            ).1,
            final(self).pending(),
            r.1@.len() == 1,
            is_progress_report(r.1@[0], BuildStatus::Extracting),
    {
        let q = self.start();
        let report = StatusReport::Progress {
            status: BuildStatus::Extracting,
            description: String::from_str("Extracting files from content store"),
        };
        (q, vec![report])
    }

    /// As [`BuildProcess::resume`], reporting the progress: the build is
    /// building when it is executed, and when it is over the completion
    /// report carries the output's success, module path and hash, and error.
    pub fn resume_with_progress(&mut self, reply: PipelineReply) -> (r: (PipelineRequest, Vec<StatusReport>))
        requires
            old(self).pending(),
            stage_answers(old(self).pipeline().phase, reply@),
        ensures
            final(self).pipeline() == pipeline_resume_spec(old(self).pipeline(), reply@).0,
            r.0@ == pipeline_resume_spec(old(self).pipeline(), reply@).1,
            final(self).source_store() == old(self).source_store(),
            final(self).build_state().store_id == old(self).build_state().store_id,
            final(self).build_state().fs_hash == old(self).build_state().fs_hash,
            final(self).build_state().channel_id == old(self).build_state().channel_id,
            final(self).build_state().build_store_id == old(self).build_state().build_store_id,
            final(self).build_state().status == status_after_stage(
                r.0@,
                old(self).build_state().status,
            ),
            match r.0@ {
                PipelineRequestView::Done(o) => {
                    &&& final(self).build_state().build_output is Some
                    &&& final(self).build_state().build_output.unwrap()@ == o
                },
                _ => final(self).build_state().build_output == old(self).build_state().build_output,
            },
            final(self).pending() <==> !(r.0 is Done),
            stage_reports(r.0@, r.1@),
    {
        let q = self.resume(reply);
        let mut reports: Vec<StatusReport> = Vec::new();
        match &q {
            PipelineRequest::Execute { .. } => {
                reports.push(
                    StatusReport::Progress {
                        status: BuildStatus::Building,
                        description: String::from_str("Running cargo build command"),
                    },
                );
            },
            PipelineRequest::Done(o) => {
                reports.push(
                    StatusReport::BuildComplete {
                        success: o.success,
                        wasm_path: clone_opt_string(&o.wasm_path),
                        wasm_hash: clone_opt_string(&o.wasm_hash),
                        error: clone_opt_string(&o.error),
                    },
                );
            },
            _ => {},
        }
        (q, reports)
    }
}

} // verus!
