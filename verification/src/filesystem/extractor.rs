//! Extracting the virtual filesystem to the local filesystem.
//!
//! The extraction walks the directory tree depth first, in the order of each
//! listing: a directory is created locally and then listed and walked, a file
//! is read from the store and written locally. Every step is an outside
//! operation, so the walk is a machine that asks for one operation at a time
//! and is handed its outcome.

use vstd::prelude::*;
use vstd::utf8::encode_utf8;
use crate::filesystem::models::{
    entry_path, entry_path_spec, listing_view, ContentStore, DirectoryEntry, DirectoryEntryView,
};
use crate::messaging::events::{
    event1, event3, events_view, member, message_event, message_event_spec, event_spec,
    EventView, StreamEvent,
};
use crate::messaging::json::{JsonValue, JsonView};
use crate::text::{decimal, decimal_spec};

verus! {

/// A directory being walked: its path, its entries and the index of the
/// next entry to visit.
pub struct Frame {
    path: String,
    entries: Vec<DirectoryEntry>,
    next: usize,
}

/// Abstract value of a [`Frame`].
pub struct FrameView {
    pub path: Seq<char>,
    pub entries: Seq<DirectoryEntryView>,
    pub next: nat,
}

impl View for Frame {
    type V = FrameView;

    closed spec fn view(&self) -> FrameView {
        FrameView { path: self.path@, entries: listing_view(self.entries@), next: self.next as nat }
    }
}

/// The abstract values of a stack of frames.
pub open spec fn frames_view(v: Seq<Frame>) -> Seq<FrameView> {
    v.map_values(|f: Frame| f@)
}

/// What an extraction waits for.
pub enum ExtractPhase {
    /// The listing of the root directory.
    ListingRoot,
    /// The creation of the local directory for this entry path.
    Creating(String),
    /// The listing of the directory at this entry path.
    Listing(String),
    /// The content of the file at this entry path.
    Reading(String),
    /// The writing of the local file for this entry path.
    Writing(String),
    /// Nothing: the extraction is done.
    Finished,
}

/// Abstract value of an [`ExtractPhase`].
pub enum ExtractPhaseView {
    ListingRoot,
    Creating(Seq<char>),
    Listing(Seq<char>),
    Reading(Seq<char>),
    Writing(Seq<char>),
    Finished,
}

/// An extraction in progress.
pub struct Extraction {
    fs_hash: String,
    frames: Vec<Frame>,
    phase: ExtractPhase,
    streaming: bool,
}

/// Abstract value of an [`Extraction`].
pub struct ExtractionView {
    pub fs_hash: Seq<char>,
    pub frames: Seq<FrameView>,
    pub phase: ExtractPhaseView,
    pub streaming: bool,
}

impl View for Extraction {
    type V = ExtractionView;

    closed spec fn view(&self) -> ExtractionView {
        ExtractionView {
            fs_hash: self.fs_hash@,
            frames: frames_view(self.frames@),
            phase: match self.phase {
                ExtractPhase::ListingRoot => ExtractPhaseView::ListingRoot,
                ExtractPhase::Creating(p) => ExtractPhaseView::Creating(p@),
                ExtractPhase::Listing(p) => ExtractPhaseView::Listing(p@),
                ExtractPhase::Reading(p) => ExtractPhaseView::Reading(p@),
                ExtractPhase::Writing(p) => ExtractPhaseView::Writing(p@),
                ExtractPhase::Finished => ExtractPhaseView::Finished,
            },
            streaming: self.streaming,
        }
    }
}

/// An operation the extraction asks for.
#[derive(Debug)]
pub enum ExtractRequest {
    /// Create the local directory at this path.
    CreateDir(String),
    /// List the directory at the path (second) in the filesystem whose root
    /// has the hash (first).
    ListDirectory(String, String),
    /// Read the file at the path (second) in the filesystem whose root has
    /// the hash (first).
    ReadFile(String, String),
    /// Write the content (second) to the local file at the path (first).
    WriteFile(String, String),
    /// Nothing more: the extraction succeeded, or the message says why not.
    Done(Result<(), String>),
}

/// Abstract value of an [`ExtractRequest`].
pub enum ExtractRequestView {
    CreateDir(Seq<char>),
    ListDirectory(Seq<char>, Seq<char>),
    ReadFile(Seq<char>, Seq<char>),
    WriteFile(Seq<char>, Seq<char>),
    Done(Result<(), Seq<char>>),
}

/// The abstract value of an outcome that carries only an error.
pub open spec fn unit_result_view(r: Result<(), String>) -> Result<(), Seq<char>> {
    match r {
        Ok(()) => Ok(()),
        Err(m) => Err(m@),
    }
}

impl View for ExtractRequest {
    type V = ExtractRequestView;

    open spec fn view(&self) -> ExtractRequestView {
        match self {
            ExtractRequest::CreateDir(p) => ExtractRequestView::CreateDir(p@),
            ExtractRequest::ListDirectory(h, p) => ExtractRequestView::ListDirectory(h@, p@),
            ExtractRequest::ReadFile(h, p) => ExtractRequestView::ReadFile(h@, p@),
            ExtractRequest::WriteFile(p, c) => ExtractRequestView::WriteFile(p@, c@),
            ExtractRequest::Done(r) => ExtractRequestView::Done(unit_result_view(*r)),
        }
    }
}

/// The outcome of an operation the extraction asked for.
pub enum ExtractReply {
    Created(Result<(), String>),
    Listed(Result<Vec<DirectoryEntry>, String>),
    Read(Result<String, String>),
    Written(Result<(), String>),
}

/// Abstract value of an [`ExtractReply`].
pub enum ExtractReplyView {
    Created(Result<(), Seq<char>>),
    Listed(Result<Seq<DirectoryEntryView>, Seq<char>>),
    Read(Result<Seq<char>, Seq<char>>),
    Written(Result<(), Seq<char>>),
}

impl View for ExtractReply {
    type V = ExtractReplyView;

    open spec fn view(&self) -> ExtractReplyView {
        match self {
            ExtractReply::Created(r) => ExtractReplyView::Created(unit_result_view(*r)),
            ExtractReply::Listed(Ok(l)) => ExtractReplyView::Listed(Ok(listing_view(l@))),
            ExtractReply::Listed(Err(m)) => ExtractReplyView::Listed(Err(m@)),
            ExtractReply::Read(Ok(c)) => ExtractReplyView::Read(Ok(c@)),
            ExtractReply::Read(Err(m)) => ExtractReplyView::Read(Err(m@)),
            ExtractReply::Written(r) => ExtractReplyView::Written(unit_result_view(*r)),
        }
    }
}

/// Whether `r` answers the operation that phase `p` waits for.
pub open spec fn answers(p: ExtractPhaseView, r: ExtractReplyView) -> bool {
    match p {
        ExtractPhaseView::ListingRoot => r is Listed,
        ExtractPhaseView::Creating(_) => r is Created,
        ExtractPhaseView::Listing(_) => r is Listed,
        ExtractPhaseView::Reading(_) => r is Read,
        ExtractPhaseView::Writing(_) => r is Written,
        ExtractPhaseView::Finished => false,
    }
}

/// A step of the extraction: the new state, the request, the events.
pub type ExtractStep = (ExtractionView, ExtractRequestView, Seq<EventView>);

/// The extraction stops with `r`.
pub open spec fn extract_finish(s: ExtractionView, r: Result<(), Seq<char>>, events: Seq<EventView>) -> ExtractStep {
    (ExtractionView { phase: ExtractPhaseView::Finished, ..s }, ExtractRequestView::Done(r), events)
}

/// The events of a streaming extraction, and none otherwise.
pub open spec fn if_streaming(s: ExtractionView, events: Seq<EventView>) -> Seq<EventView> {
    if s.streaming {
        events
    } else {
        Seq::empty()
    }
}

/// The extraction fails on the entry at `path` with message `m`, whose
/// cause is `e`.
pub open spec fn extract_fail(s: ExtractionView, m: Seq<char>, path: Seq<char>, e: Seq<char>) -> ExtractStep {
    extract_finish(
        s,
        Err(m),
        if_streaming(
            s,
            seq![
                event_spec(
                    "build.error"@,
                    seq![
                        ("message"@, JsonView::Str(m)),
                        ("path"@, JsonView::Str(path)),
                        ("error"@, JsonView::Str(e)),
                    ],
                ),
            ],
        ),
    )
}

/// The extraction starts on the entry `e` of the directory at `dir`.
pub open spec fn start_entry(s: ExtractionView, dir: Seq<char>, e: DirectoryEntryView) -> ExtractStep {
    let p = entry_path_spec(dir, e.name);
    if e.entry_type == "directory"@ {
        (
            ExtractionView { phase: ExtractPhaseView::Creating(p), ..s },
            ExtractRequestView::CreateDir("."@ + p),
            if_streaming(
                s,
                seq![
                    message_event_spec("output.log"@, "Processing directory: "@ + p),
                    event_spec("build.creating_directory"@, seq![("path"@, JsonView::Str(p))]),
                ],
            ),
        )
    } else {
        (
            ExtractionView { phase: ExtractPhaseView::Reading(p), ..s },
            ExtractRequestView::ReadFile(s.fs_hash, p),
            if_streaming(
                s,
                seq![
                    message_event_spec("output.log"@, "Processing file: "@ + p),
                    event_spec("build.extracting_file"@, seq![("path"@, JsonView::Str(p))]),
                ],
            ),
        )
    }
}

/// The extraction moves to the next entry that is left to visit, leaving
/// every directory whose entries are all visited; it is done when no
/// directory is left.
pub open spec fn advance_spec(s: ExtractionView) -> ExtractStep
    decreases s.frames.len(),
{
    if s.frames.len() == 0 {
        extract_finish(s, Ok(()), Seq::empty())
    } else {
        let f = s.frames.last();
        if f.next < f.entries.len() {
            let s2 = ExtractionView {
                frames: s.frames.drop_last().push(FrameView { next: f.next + 1, ..f }),
                ..s
            };
            start_entry(s2, f.path, f.entries[f.next as int])
        } else {
            advance_spec(ExtractionView { frames: s.frames.drop_last(), ..s })
        }
    }
}

/// One transition of an extraction, on the outcome of its last request.
pub open spec fn extract_resume_spec(s: ExtractionView, r: ExtractReplyView) -> ExtractStep {
    match (s.phase, r) {
        (ExtractPhaseView::ListingRoot, ExtractReplyView::Listed(Err(e))) => extract_finish(
            s,
            Err(e),
            Seq::empty(),
        ),
        (ExtractPhaseView::ListingRoot, ExtractReplyView::Listed(Ok(entries))) => advance_spec(
            ExtractionView { frames: seq![FrameView { path: "/"@, entries, next: 0 }], ..s },
        ),
        (ExtractPhaseView::Creating(p), ExtractReplyView::Created(Err(e))) => {
            let m = "Failed to create directory "@ + p + ": "@ + e;
            extract_fail(s, m, p, e)
        },
        (ExtractPhaseView::Creating(p), ExtractReplyView::Created(Ok(()))) => (
            ExtractionView { phase: ExtractPhaseView::Listing(p), ..s },
            ExtractRequestView::ListDirectory(s.fs_hash, p),
            Seq::empty(),
        ),
        (ExtractPhaseView::Listing(p), ExtractReplyView::Listed(Err(e))) => {
            let m = "Failed to list directory "@ + p + ": "@ + e;
            extract_fail(s, m, p, e)
        },
        (ExtractPhaseView::Listing(p), ExtractReplyView::Listed(Ok(entries))) => {
            let a = advance_spec(
                ExtractionView { frames: s.frames.push(FrameView { path: p, entries, next: 0 }), ..s },
            );
            let found = message_event_spec(
                "output.log"@,
                "Found "@ + decimal_spec(entries.len()) + " entries in "@ + p,
            );
            (a.0, a.1, if_streaming(s, seq![found]) + a.2)
        },
        (ExtractPhaseView::Reading(p), ExtractReplyView::Read(Err(e))) => {
            let m = "Failed to read file "@ + p + ": "@ + e;
            extract_fail(s, m, p, e)
        },
        (ExtractPhaseView::Reading(p), ExtractReplyView::Read(Ok(c))) => (
            ExtractionView { phase: ExtractPhaseView::Writing(p), ..s },
            ExtractRequestView::WriteFile("."@ + p, c),
            if_streaming(
                s,
                seq![
                    message_event_spec(
                        "output.log"@,
                        "Extracted file: "@ + p + " ("@ + decimal_spec(utf8_len(c)) + " bytes)"@,
                    ),
                ],
            ),
        ),
        (ExtractPhaseView::Writing(p), ExtractReplyView::Written(Err(e))) => {
            let m = "Failed to write file "@ + p + ": "@ + e;
            extract_fail(s, m, p, e)
        },
        (ExtractPhaseView::Writing(p), ExtractReplyView::Written(Ok(()))) => advance_spec(s),
        _ => (s, ExtractRequestView::Done(Err(Seq::empty())), Seq::empty()),
    }
}

/// The length in bytes of the UTF-8 encoding of `c`, as `str::len` reports it.
pub open spec fn utf8_len(c: Seq<char>) -> nat {
    (encode_utf8(c).len() as usize) as nat
}

/// After moving on, the extraction waits for an operation exactly when it
/// has asked for one.
pub proof fn lemma_advance_pending(s: ExtractionView)
    ensures
        !(advance_spec(s).0.phase is Finished) <==> !(advance_spec(s).1 is Done),
    decreases s.frames.len(),
{
    if s.frames.len() > 0 {
        let f = s.frames.last();
        if f.next >= f.entries.len() {
            lemma_advance_pending(ExtractionView { frames: s.frames.drop_last(), ..s });
        }
    }
}

/// Moving on does not depend on what the extraction waited for before.
pub proof fn lemma_advance_phase(s: ExtractionView, p: ExtractPhaseView)
    ensures
        advance_spec(ExtractionView { phase: p, ..s }) == advance_spec(s),
    decreases s.frames.len(),
{
    if s.frames.len() > 0 {
        let f = s.frames.last();
        if f.next >= f.entries.len() {
            lemma_advance_phase(ExtractionView { frames: s.frames.drop_last(), ..s }, p);
        }
    }
}

/// The state invariant of an extraction: every directory's next index is
/// within its entries.
pub open spec fn extraction_wf(s: ExtractionView) -> bool {
    forall|i: int| 0 <= i < s.frames.len() ==> #[trigger] s.frames[i].next <= s.frames[i].entries.len()
}

impl Extraction {
    /// Whether the extraction waits for the outcome of an operation.
    pub open spec fn pending(&self) -> bool {
        !(self@.phase is Finished)
    }

    /// The state invariant of an extraction.
    pub open spec fn wf(&self) -> bool {
        extraction_wf(self@)
    }

    fn finish(&mut self, r: Result<(), String>) -> (q: ExtractRequest)
        ensures
            final(self)@ == extract_finish(old(self)@, unit_result_view(r), Seq::empty()).0,
            q@ == extract_finish(old(self)@, unit_result_view(r), Seq::empty()).1,
    {
        self.phase = ExtractPhase::Finished;
        ExtractRequest::Done(r)
    }

    fn fail(&mut self, m: String, path: String, e: String) -> (r: (ExtractRequest, Vec<StreamEvent>))
        ensures
            final(self)@ == extract_fail(old(self)@, m@, path@, e@).0,
            r.0@ == extract_fail(old(self)@, m@, path@, e@).1,
            events_view(r.1@) == extract_fail(old(self)@, m@, path@, e@).2,
    {
        let mut events: Vec<StreamEvent> = Vec::new();
        if self.streaming {
            let ev = event3(
                "build.error",
                member("message", JsonValue::Str(m.clone())),
                member("path", JsonValue::Str(path)),
                member("error", JsonValue::Str(e)),
            );
            events.push(ev);
        }
        proof {
            assert(events_view(events@) =~= extract_fail(old(self)@, m@, path@, e@).2);
        }
        let q = self.finish(Err(m));
        (q, events)
    }

    fn start_entry(&mut self, dir: &String, name: &String, entry_type: &String) -> (r: (
        ExtractRequest,
        Vec<StreamEvent>,
    ))
        ensures
            final(self)@ == start_entry(
                old(self)@,
                dir@,
                DirectoryEntryView { name: name@, entry_type: entry_type@, path: Seq::empty() },
            ).0,
            r.0@ == start_entry(
                old(self)@,
                dir@,
                DirectoryEntryView { name: name@, entry_type: entry_type@, path: Seq::empty() },
            ).1,
            events_view(r.1@) == start_entry(
                old(self)@,
                dir@,
                DirectoryEntryView { name: name@, entry_type: entry_type@, path: Seq::empty() },
            ).2,
    {
        let p = entry_path(dir.as_str(), name.as_str());
        let mut events: Vec<StreamEvent> = Vec::new();
        if entry_type.eq(&String::from_str("directory")) {
            if self.streaming {
                events.push(
                    message_event(
                        "output.log",
                        String::from_str("Processing directory: ").concat(p.as_str()),
                    ),
                );
                events.push(event1("build.creating_directory", member("path", JsonValue::Str(p.clone()))));
            }
            let q = ExtractRequest::CreateDir(String::from_str(".").concat(p.as_str()));
            self.phase = ExtractPhase::Creating(p);
            proof {
                let t = start_entry(
                    old(self)@,
                    dir@,
                    DirectoryEntryView { name: name@, entry_type: entry_type@, path: Seq::empty() },
                );
                assert(events_view(events@) =~= t.2);
            }
            (q, events)
        } else {
            if self.streaming {
                events.push(
                    message_event(
                        "output.log",
                        String::from_str("Processing file: ").concat(p.as_str()),
                    ),
                );
                events.push(event1("build.extracting_file", member("path", JsonValue::Str(p.clone()))));
            }
            let q = ExtractRequest::ReadFile(self.fs_hash.clone(), p.clone());
            self.phase = ExtractPhase::Reading(p);
            proof {
                let t = start_entry(
                    old(self)@,
                    dir@,
                    DirectoryEntryView { name: name@, entry_type: entry_type@, path: Seq::empty() },
                );
                assert(events_view(events@) =~= t.2);
            }
            (q, events)
        }
    }

    fn advance(&mut self) -> (r: (ExtractRequest, Vec<StreamEvent>))
        requires
            old(self).wf(),
        ensures
            final(self)@ == advance_spec(old(self)@).0,
            r.0@ == advance_spec(old(self)@).1,
            events_view(r.1@) == advance_spec(old(self)@).2,
            final(self).wf(),
            final(self).pending() <==> !(r.0 is Done),
    {
        proof {
            lemma_advance_pending(old(self)@);
        }
        while self.frames.len() > 0 && self.frames[self.frames.len() - 1].next
            >= self.frames[self.frames.len() - 1].entries.len()
            invariant
                self.wf(),
                advance_spec(self@) == advance_spec(old(self)@),
            decreases self.frames.len(),
        {
            let ghost before = self@;
            self.frames.pop();
            proof {
                assert(self@.frames =~= before.frames.drop_last());
                assert(self@ == ExtractionView { frames: before.frames.drop_last(), ..before });
            }
        }
        if self.frames.len() == 0 {
            let q = self.finish(Ok(()));
            let events: Vec<StreamEvent> = Vec::new();
            proof {
                assert(events_view(events@) =~= Seq::<EventView>::empty());
            }
            (q, events)
        } else {
            let ghost before = self@;
            let mut f = self.frames.pop().unwrap();
            let k = f.next;
            let name = f.entries[k].name.clone();
            let entry_type = f.entries[k].entry_type.clone();
            let dir = f.path.clone();
            f.next = k + 1;
            self.frames.push(f);
            proof {
                let fv = before.frames.last();
                assert(self@.frames =~= before.frames.drop_last().push(
                    FrameView { next: fv.next + 1, ..fv },
                ));
                assert forall|i: int| 0 <= i < self@.frames.len() implies #[trigger] self@.frames[i].next
                    <= self@.frames[i].entries.len() by {
                    if i < self@.frames.len() - 1 {
                        assert(self@.frames[i] == before.frames[i]);
                    }
                }
            }
            self.start_entry(&dir, &name, &entry_type)
        }
    }
}

impl Extraction {
    /// Goes on with the outcome of the operation the extraction asked for;
    /// the events are those a streaming extraction reports on the way.
    pub fn resume(&mut self, reply: ExtractReply) -> (r: (ExtractRequest, Vec<StreamEvent>))
        requires
            old(self).pending(),
            old(self).wf(),
            answers(old(self)@.phase, reply@),
        ensures
            final(self)@ == extract_resume_spec(old(self)@, reply@).0,
            r.0@ == extract_resume_spec(old(self)@, reply@).1,
            events_view(r.1@) == extract_resume_spec(old(self)@, reply@).2,
            final(self).wf(),
            final(self).pending() <==> !(r.0 is Done),
    {
        let mut phase = ExtractPhase::Finished;
        std::mem::swap(&mut phase, &mut self.phase);
        proof {
            assert(self@ == ExtractionView { phase: ExtractPhaseView::Finished, ..old(self)@ });
            lemma_advance_phase(self@, old(self)@.phase);
        }
        match phase {
            ExtractPhase::ListingRoot => match reply {
                ExtractReply::Listed(Err(e)) => {
                    let q = self.finish(Err(e));
                    let events: Vec<StreamEvent> = Vec::new();
                    proof {
                        assert(events_view(events@) =~= Seq::<EventView>::empty());
                    }
                    (q, events)
                },
                ExtractReply::Listed(Ok(entries)) => {
                    let ghost ev = listing_view(entries@);
                    self.frames = Vec::new();
                    self.frames.push(Frame { path: String::from_str("/"), entries, next: 0 });
                    proof {
                        assert(self@.frames =~= seq![FrameView { path: "/"@, entries: ev, next: 0 }]);
                        lemma_advance_phase(self@, old(self)@.phase);
                    }
                    self.advance()
                },
                _ => (ExtractRequest::Done(Err(String::new())), Vec::new()),
            },
            ExtractPhase::Creating(p) => match reply {
                ExtractReply::Created(Err(e)) => {
                    let m = String::from_str("Failed to create directory ").concat(p.as_str()).concat(
                        ": ",
                    ).concat(e.as_str());
                    self.fail(m, p, e)
                },
                ExtractReply::Created(Ok(())) => {
                    let q = ExtractRequest::ListDirectory(self.fs_hash.clone(), p.clone());
                    self.phase = ExtractPhase::Listing(p);
                    let events: Vec<StreamEvent> = Vec::new();
                    proof {
                        assert(events_view(events@) =~= Seq::<EventView>::empty());
                    }
                    (q, events)
                },
                _ => (ExtractRequest::Done(Err(String::new())), Vec::new()),
            },
            ExtractPhase::Listing(p) => match reply {
                ExtractReply::Listed(Err(e)) => {
                    let m = String::from_str("Failed to list directory ").concat(p.as_str()).concat(
                        ": ",
                    ).concat(e.as_str());
                    self.fail(m, p, e)
                },
                ExtractReply::Listed(Ok(entries)) => {
                    let n = entries.len();
                    let ghost ev = listing_view(entries@);
                    let mut found: Vec<StreamEvent> = Vec::new();
                    if self.streaming {
                        let text = String::from_str("Found ").concat(decimal(n as u64).as_str()).concat(
                            " entries in ",
                        ).concat(p.as_str());
                        found.push(message_event("output.log", text));
                    }
                    let ghost before = self@;
                    self.frames.push(Frame { path: p, entries, next: 0 });
                    proof {
                        assert(self@.frames =~= before.frames.push(
                            FrameView { path: p@, entries: ev, next: 0 },
                        ));
                        assert(ev.len() == n);
                        lemma_advance_phase(self@, old(self)@.phase);
                    }
                    let (q, mut rest) = self.advance();
                    let ghost rest_v = events_view(rest@);
                    found.append(&mut rest);
                    proof {
                        assert(events_view(found@) =~= if_streaming(
                            old(self)@,
                            seq![
                                message_event_spec(
                                    "output.log"@,
                                    "Found "@ + decimal_spec(ev.len()) + " entries in "@ + p@,
                                ),
                            ],
                        ) + rest_v);
                    }
                    (q, found)
                },
                _ => (ExtractRequest::Done(Err(String::new())), Vec::new()),
            },
            ExtractPhase::Reading(p) => match reply {
                ExtractReply::Read(Err(e)) => {
                    let m = String::from_str("Failed to read file ").concat(p.as_str()).concat(
                        ": ",
                    ).concat(e.as_str());
                    self.fail(m, p, e)
                },
                ExtractReply::Read(Ok(content)) => {
                    let mut events: Vec<StreamEvent> = Vec::new();
                    if self.streaming {
                        let size = content.as_str().len();
                        let text = String::from_str("Extracted file: ").concat(p.as_str()).concat(
                            " (",
                        ).concat(decimal(size as u64).as_str()).concat(" bytes)");
                        events.push(message_event("output.log", text));
                    }
                    let q = ExtractRequest::WriteFile(String::from_str(".").concat(p.as_str()), content);
                    self.phase = ExtractPhase::Writing(p);
                    proof {
                        assert(events_view(events@) =~= extract_resume_spec(old(self)@, reply@).2);
                    }
                    (q, events)
                },
                _ => (ExtractRequest::Done(Err(String::new())), Vec::new()),
            },
            ExtractPhase::Writing(p) => match reply {
                ExtractReply::Written(Err(e)) => {
                    let m = String::from_str("Failed to write file ").concat(p.as_str()).concat(
                        ": ",
                    ).concat(e.as_str());
                    self.fail(m, p, e)
                },
                ExtractReply::Written(Ok(())) => self.advance(),
                _ => (ExtractRequest::Done(Err(String::new())), Vec::new()),
            },
            ExtractPhase::Finished => (ExtractRequest::Done(Err(String::new())), Vec::new()),
        }
    }
}

/// The extraction of the entries of the directory at `path`, started.
pub open spec fn walk_start_spec(
    fs_hash: Seq<char>,
    path: Seq<char>,
    entries: Seq<DirectoryEntryView>,
    streaming: bool,
) -> ExtractStep {
    advance_spec(
        ExtractionView {
            fs_hash,
            frames: seq![FrameView { path, entries, next: 0 }],
            phase: ExtractPhaseView::Finished,
            streaming,
        },
    )
}

/// Moving on does not depend on streaming, but for what it reports.
proof fn lemma_advance_streaming(s: ExtractionView, streaming: bool)
    ensures
        advance_spec(ExtractionView { streaming, ..s }).1 == advance_spec(s).1,
        advance_spec(ExtractionView { streaming, ..s }).0 == (ExtractionView {
            streaming,
            ..advance_spec(s).0
        }),
        advance_spec(s).0.streaming == s.streaming,
        !s.streaming ==> advance_spec(s).2 == Seq::<EventView>::empty(),
    decreases s.frames.len(),
{
    if s.frames.len() > 0 {
        let f = s.frames.last();
        if f.next >= f.entries.len() {
            lemma_advance_streaming(ExtractionView { frames: s.frames.drop_last(), ..s }, streaming);
        }
    }
}

/// Streaming changes only what an extraction reports: from the same state
/// and outcome, the extraction moves to the same state (its streaming flag
/// aside) and asks for the same operation whether it streams or not, the
/// walk of a directory's entries starts with the same request either way,
/// and without streaming it reports nothing.
pub proof fn law_extraction_streaming_only_adds_events(
    s: ExtractionView,
    r: ExtractReplyView,
    streaming: bool,
    path: Seq<char>,
    entries: Seq<DirectoryEntryView>,
)
    ensures
        extract_resume_spec(s, r).0.streaming == s.streaming,
        ({
            let a = extract_resume_spec(s, r);
            let b = extract_resume_spec(ExtractionView { streaming, ..s }, r);
            &&& a.1 == b.1
            &&& a.0 == ExtractionView { streaming: s.streaming, ..b.0 }
        }),
        walk_start_spec(s.fs_hash, path, entries, s.streaming).1 == walk_start_spec(
            s.fs_hash,
            path,
            entries,
            streaming,
        ).1,
        walk_start_spec(s.fs_hash, path, entries, s.streaming).0 == (ExtractionView {
            streaming: s.streaming,
            ..walk_start_spec(s.fs_hash, path, entries, streaming).0
        }),
        !s.streaming ==> extract_resume_spec(s, r).2 == Seq::<EventView>::empty(),
        !s.streaming ==> walk_start_spec(s.fs_hash, path, entries, s.streaming).2 == Seq::<
            EventView,
        >::empty(),
{
    let t = ExtractionView { streaming, ..s };
    let w = ExtractionView {
        fs_hash: s.fs_hash,
        frames: seq![FrameView { path, entries, next: 0 }],
        phase: ExtractPhaseView::Finished,
        streaming: s.streaming,
    };
    lemma_advance_streaming(w, streaming);
    lemma_advance_streaming(ExtractionView { streaming, ..w }, s.streaming);
    match (s.phase, r) {
        (ExtractPhaseView::ListingRoot, ExtractReplyView::Listed(Ok(l))) => {
            let s1 = ExtractionView { frames: seq![FrameView { path: "/"@, entries: l, next: 0 }], ..s };
            lemma_advance_streaming(s1, streaming);
            assert(ExtractionView { streaming, ..s1 } == ExtractionView {
                frames: seq![FrameView { path: "/"@, entries: l, next: 0 }],
                ..t
            });
        },
        (ExtractPhaseView::Listing(p), ExtractReplyView::Listed(Ok(l))) => {
            let s1 = ExtractionView { frames: s.frames.push(FrameView { path: p, entries: l, next: 0 }), ..s };
            lemma_advance_streaming(s1, streaming);
            assert(ExtractionView { streaming, ..s1 } == ExtractionView {
                frames: t.frames.push(FrameView { path: p, entries: l, next: 0 }),
                ..t
            });
            if !s.streaming {
                assert(if_streaming(s, seq![message_event_spec("output.log"@, "Found "@ + decimal_spec(l.len()) + " entries in "@ + p)]) + advance_spec(s1).2 =~= Seq::<EventView>::empty());
            }
        },
        (ExtractPhaseView::Writing(p), ExtractReplyView::Written(Ok(()))) => {
            lemma_advance_streaming(s, streaming);
        },
        _ => {},
    }
}

fn start_walk(fs_hash: &str, path: &str, entries: Vec<DirectoryEntry>, streaming: bool) -> (r: (
    Extraction,
    ExtractRequest,
    Vec<StreamEvent>,
))
    ensures
        r.0@ == walk_start_spec(fs_hash@, path@, listing_view(entries@), streaming).0,
        r.1@ == walk_start_spec(fs_hash@, path@, listing_view(entries@), streaming).1,
        events_view(r.2@) == walk_start_spec(fs_hash@, path@, listing_view(entries@), streaming).2,
        r.0.wf(),
        r.0.pending() <==> !(r.1 is Done),
{
    let ghost ev = listing_view(entries@);
    let mut frames: Vec<Frame> = Vec::new();
    frames.push(Frame { path: String::from_str(path), entries, next: 0 });
    let mut x = Extraction {
        fs_hash: String::from_str(fs_hash),
        frames,
        phase: ExtractPhase::Finished,
        streaming,
    };
    proof {
        assert(x@.frames =~= seq![FrameView { path: path@, entries: ev, next: 0 }]);
    }
    let (q, events) = x.advance();
    (x, q, events)
}

impl ContentStore {
    /// Starts extracting the entries of the directory at `path` (and, in
    /// turn, of its subdirectories) from the filesystem whose root has hash
    /// `fs_hash`.
    pub fn process_directory(&self, fs_hash: &str, path: &str, entries: Vec<DirectoryEntry>) -> (r: (
        Extraction,
        ExtractRequest,
    ))
        ensures
            r.0@ == walk_start_spec(fs_hash@, path@, listing_view(entries@), false).0,
            r.1@ == walk_start_spec(fs_hash@, path@, listing_view(entries@), false).1,
            r.0.wf(),
            r.0.pending() <==> !(r.1 is Done),
    {
        let (x, q, _events) = start_walk(fs_hash, path, entries, false);
        (x, q)
    }

    /// As `process_directory`, reporting progress events on the way.
    pub fn process_directory_with_streaming(
        &self,
        fs_hash: &str,
        path: &str,
        entries: Vec<DirectoryEntry>,
    ) -> (r: (Extraction, ExtractRequest, Vec<StreamEvent>))
        ensures
            r.0@ == walk_start_spec(fs_hash@, path@, listing_view(entries@), true).0,
            r.1@ == walk_start_spec(fs_hash@, path@, listing_view(entries@), true).1,
            events_view(r.2@) == walk_start_spec(fs_hash@, path@, listing_view(entries@), true).2,
            r.0.wf(),
            r.0.pending() <==> !(r.1 is Done),
    {
        start_walk(fs_hash, path, entries, true)
    }

    /// Starts extracting the whole filesystem whose root has hash `fs_hash`:
    /// the first request is the listing of its root directory.
    pub fn extract_filesystem(&self, fs_hash: &str) -> (r: (Extraction, ExtractRequest))
        ensures
            r.0@ == (ExtractionView {
                fs_hash: fs_hash@,
                frames: Seq::empty(),
                phase: ExtractPhaseView::ListingRoot,
                streaming: false,
            }),
            r.1@ == ExtractRequestView::ListDirectory(fs_hash@, "/"@),
            r.0.wf(),
            r.0.pending(),
    {
        let x = Extraction {
            fs_hash: String::from_str(fs_hash),
            frames: Vec::new(),
            phase: ExtractPhase::ListingRoot,
            streaming: false,
        };
        proof {
            assert(x@.frames =~= Seq::<FrameView>::empty());
        }
        (x, ExtractRequest::ListDirectory(String::from_str(fs_hash), String::from_str("/")))
    }
}

} // verus!
