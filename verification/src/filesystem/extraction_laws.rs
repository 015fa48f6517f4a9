//! What an extraction does, stated as a depth-first walk over a model of
//! the host, and the proofs that driving the extraction with the host's
//! answers has the walk's outcome, and ends whenever the walk does.

use vstd::prelude::*;
use crate::filesystem::extractor::{
    law_extraction_streaming_only_adds_events, advance_spec, extract_resume_spec, extraction_wf, walk_start_spec, ExtractPhaseView,
    ExtractReplyView, ExtractRequestView, ExtractionView, FrameView,
};
use crate::filesystem::models::{entry_path_spec, DirectoryEntryView};

verus! {

/// The host, as an extraction sees it: the outcome of each operation on
/// each path.
pub struct HostModel {
    pub create_dir: spec_fn(Seq<char>) -> Result<(), Seq<char>>,
    pub list: spec_fn(Seq<char>) -> Result<Seq<DirectoryEntryView>, Seq<char>>,
    pub read: spec_fn(Seq<char>) -> Result<Seq<char>, Seq<char>>,
    pub write: spec_fn(Seq<char>, Seq<char>) -> Result<(), Seq<char>>,
}

/// The host's answer to a request.
pub open spec fn host_answer(h: HostModel, q: ExtractRequestView) -> ExtractReplyView {
    match q {
        ExtractRequestView::CreateDir(p) => ExtractReplyView::Created((h.create_dir)(p)),
        ExtractRequestView::ListDirectory(_, p) => ExtractReplyView::Listed((h.list)(p)),
        ExtractRequestView::ReadFile(_, p) => ExtractReplyView::Read((h.read)(p)),
        ExtractRequestView::WriteFile(p, c) => ExtractReplyView::Written((h.write)(p, c)),
        ExtractRequestView::Done(_) => ExtractReplyView::Created(Ok(())),
    }
}

/// Visiting the entry `e` of the directory at `dir`, exploring at most `d`
/// levels further down: a directory is created locally, listed, and its
/// entries walked; a file is read and written locally. The outcome is the
/// first failure's message, or nothing when the depth runs out.
pub open spec fn visit_entry(h: HostModel, dir: Seq<char>, e: DirectoryEntryView, d: nat) -> Option<
    Result<(), Seq<char>>,
>
    decreases d, 0nat,
{
    let p = entry_path_spec(dir, e.name);
    if e.entry_type == "directory"@ {
        match (h.create_dir)("."@ + p) {
            Err(x) => Some(Err("Failed to create directory "@ + p + ": "@ + x)),
            Ok(()) => match (h.list)(p) {
                Err(x) => Some(Err("Failed to list directory "@ + p + ": "@ + x)),
                Ok(sub) => if d == 0 {
                    None
                } else {
                    walk_entries(h, p, sub, (d - 1) as nat)
                },
            },
        }
    } else {
        match (h.read)(p) {
            Err(x) => Some(Err("Failed to read file "@ + p + ": "@ + x)),
            Ok(c) => match (h.write)("."@ + p, c) {
                Err(x) => Some(Err("Failed to write file "@ + p + ": "@ + x)),
                Ok(()) => Some(Ok(())),
            },
        }
    }
}

/// Visiting `entries` of the directory at `dir` in order, depth first,
/// stopping at the first failure.
pub open spec fn walk_entries(
    h: HostModel,
    dir: Seq<char>,
    entries: Seq<DirectoryEntryView>,
    d: nat,
) -> Option<Result<(), Seq<char>>>
    decreases d, entries.len() + 1,
{
    if entries.len() == 0 {
        Some(Ok(()))
    } else {
        match visit_entry(h, dir, entries[0], d) {
            Some(Ok(())) => walk_entries(h, dir, entries.drop_first(), d),
            other => other,
        }
    }
}

/// Finishing the directories on a stack, the innermost first.
pub open spec fn continue_frames(h: HostModel, frames: Seq<FrameView>, d: nat) -> Option<
    Result<(), Seq<char>>,
>
    decreases frames.len(),
{
    if frames.len() == 0 {
        Some(Ok(()))
    } else {
        let f = frames.last();
        match walk_entries(h, f.path, f.entries.skip(f.next as int), d) {
            Some(Ok(())) => continue_frames(h, frames.drop_last(), d),
            other => other,
        }
    }
}

/// After a directory at `p` is created: it is listed and walked, then the
/// directories on the stack are finished.
pub open spec fn after_create(h: HostModel, s: ExtractionView, p: Seq<char>, d: nat) -> Option<
    Result<(), Seq<char>>,
> {
    match (h.list)(p) {
        Err(x) => Some(Err("Failed to list directory "@ + p + ": "@ + x)),
        Ok(sub) => if d == 0 {
            None
        } else {
            match walk_entries(h, p, sub, (d - 1) as nat) {
                Some(Ok(())) => continue_frames(h, s.frames, d),
                other => other,
            }
        },
    }
}

/// After the content `c` of the file at `p` is read.
pub open spec fn after_read(h: HostModel, s: ExtractionView, p: Seq<char>, c: Seq<char>, d: nat) -> Option<
    Result<(), Seq<char>>,
> {
    match (h.write)("."@ + p, c) {
        Err(x) => Some(Err("Failed to write file "@ + p + ": "@ + x)),
        Ok(()) => continue_frames(h, s.frames, d),
    }
}

/// The outcome an extraction at `(s, q)` is bound to reach, given the host.
pub open spec fn extract_expect(h: HostModel, s: ExtractionView, q: ExtractRequestView, d: nat) -> Option<
    Result<(), Seq<char>>,
> {
    match q {
        ExtractRequestView::Done(r) => Some(r),
        _ => match s.phase {
            ExtractPhaseView::ListingRoot => match (h.list)("/"@) {
                Err(x) => Some(Err(x)),
                Ok(entries) => walk_entries(h, "/"@, entries, d),
            },
            ExtractPhaseView::Creating(p) => match (h.create_dir)("."@ + p) {
                Err(x) => Some(Err("Failed to create directory "@ + p + ": "@ + x)),
                Ok(()) => after_create(h, s, p, d),
            },
            ExtractPhaseView::Listing(p) => after_create(h, s, p, d),
            ExtractPhaseView::Reading(p) => match (h.read)(p) {
                Err(x) => Some(Err("Failed to read file "@ + p + ": "@ + x)),
                Ok(c) => after_read(h, s, p, c, d),
            },
            ExtractPhaseView::Writing(p) => match q {
                ExtractRequestView::WriteFile(_, c) => after_read(h, s, p, c, d),
                _ => None,
            },
            ExtractPhaseView::Finished => None,
        },
    }
}

/// The configurations an extraction passes through between its requests.
pub open spec fn extract_config(s: ExtractionView, q: ExtractRequestView) -> bool {
    &&& extraction_wf(s)
    &&& (q is Done <==> s.phase is Finished)
    &&& match s.phase {
        ExtractPhaseView::ListingRoot => q == ExtractRequestView::ListDirectory(s.fs_hash, "/"@),
        ExtractPhaseView::Creating(p) => q == ExtractRequestView::CreateDir("."@ + p),
        ExtractPhaseView::Listing(p) => q == ExtractRequestView::ListDirectory(s.fs_hash, p),
        ExtractPhaseView::Reading(p) => q == ExtractRequestView::ReadFile(s.fs_hash, p),
        ExtractPhaseView::Writing(p) => q matches ExtractRequestView::WriteFile(w, _) && w == "."@ + p,
        ExtractPhaseView::Finished => true,
    }
}

/// The outcome of an extraction that runs from `(s, q)` for at most `fuel`
/// steps, each request answered by the host; nothing if it needs more.
pub open spec fn extract_run(h: HostModel, s: ExtractionView, q: ExtractRequestView, fuel: nat) -> Option<
    Result<(), Seq<char>>,
>
    decreases fuel,
{
    match q {
        ExtractRequestView::Done(r) => Some(r),
        _ => if fuel == 0 {
            None
        } else {
            let next = extract_resume_spec(s, host_answer(h, q));
            extract_run(h, next.0, next.1, (fuel - 1) as nat)
        },
    }
}

/// The number of requests that visiting the entry `e` of the directory at
/// `dir` makes, exploring at most `d` levels further down.
pub open spec fn visit_steps(h: HostModel, dir: Seq<char>, e: DirectoryEntryView, d: nat) -> nat
    decreases d, 0nat,
{
    let p = entry_path_spec(dir, e.name);
    if e.entry_type == "directory"@ {
        match (h.create_dir)("."@ + p) {
            Err(_) => 1,
            Ok(()) => match (h.list)(p) {
                Err(_) => 2,
                Ok(sub) => if d == 0 {
                    2
                } else {
                    2 + walk_steps(h, p, sub, (d - 1) as nat)
                },
            },
        }
    } else {
        match (h.read)(p) {
            Err(_) => 1,
            Ok(_) => 2,
        }
    }
}

/// The number of requests that visiting `entries` in order makes, up to
/// the first failure.
pub open spec fn walk_steps(h: HostModel, dir: Seq<char>, entries: Seq<DirectoryEntryView>, d: nat) -> nat
    decreases d, entries.len() + 1,
{
    if entries.len() == 0 {
        0
    } else {
        visit_steps(h, dir, entries[0], d) + match visit_entry(h, dir, entries[0], d) {
            Some(Ok(())) => walk_steps(h, dir, entries.drop_first(), d),
            _ => 0,
        }
    }
}

/// The number of requests that finishing the directories on a stack makes.
pub open spec fn frames_steps(h: HostModel, frames: Seq<FrameView>, d: nat) -> nat
    decreases frames.len(),
{
    if frames.len() == 0 {
        0
    } else {
        let f = frames.last();
        walk_steps(h, f.path, f.entries.skip(f.next as int), d) + match walk_entries(
            h,
            f.path,
            f.entries.skip(f.next as int),
            d,
        ) {
            Some(Ok(())) => frames_steps(h, frames.drop_last(), d),
            _ => 0,
        }
    }
}

/// The number of requests made from the listing of a created directory on.
pub open spec fn after_create_steps(h: HostModel, s: ExtractionView, p: Seq<char>, d: nat) -> nat {
    match (h.list)(p) {
        Err(_) => 1,
        Ok(sub) => if d == 0 {
            1
        } else {
            1 + walk_steps(h, p, sub, (d - 1) as nat) + match walk_entries(h, p, sub, (d - 1) as nat) {
                Some(Ok(())) => frames_steps(h, s.frames, d),
                _ => 0,
            }
        },
    }
}

/// The number of requests made from the writing of a file that was read.
pub open spec fn after_read_steps(h: HostModel, s: ExtractionView, p: Seq<char>, c: Seq<char>, d: nat) -> nat {
    1 + match (h.write)("."@ + p, c) {
        Err(_) => 0,
        Ok(()) => frames_steps(h, s.frames, d),
    }
}

/// The number of requests an extraction at `(s, q)` still makes, given the
/// host.
pub open spec fn extract_steps(h: HostModel, s: ExtractionView, q: ExtractRequestView, d: nat) -> nat {
    match q {
        ExtractRequestView::Done(_) => 0,
        _ => match s.phase {
            ExtractPhaseView::ListingRoot => 1 + match (h.list)("/"@) {
                Err(_) => 0,
                Ok(entries) => walk_steps(h, "/"@, entries, d),
            },
            ExtractPhaseView::Creating(p) => 1 + match (h.create_dir)("."@ + p) {
                Err(_) => 0,
                Ok(()) => after_create_steps(h, s, p, d),
            },
            ExtractPhaseView::Listing(p) => after_create_steps(h, s, p, d),
            ExtractPhaseView::Reading(p) => 1 + match (h.read)(p) {
                Err(_) => 0,
                Ok(c) => after_read_steps(h, s, p, c, d),
            },
            ExtractPhaseView::Writing(p) => match q {
                ExtractRequestView::WriteFile(_, c) => after_read_steps(h, s, p, c, d),
                _ => 0,
            },
            ExtractPhaseView::Finished => 0,
        },
    }
}

proof fn lemma_visit_mono(h: HostModel, dir: Seq<char>, e: DirectoryEntryView, d: nat, d2: nat)
    requires
        d <= d2,
        visit_entry(h, dir, e, d) is Some,
    ensures
        visit_entry(h, dir, e, d2) == visit_entry(h, dir, e, d),
        visit_steps(h, dir, e, d2) == visit_steps(h, dir, e, d),
    decreases d, 0nat,
{
    let p = entry_path_spec(dir, e.name);
    if e.entry_type == "directory"@ {
        if let Ok(()) = (h.create_dir)("."@ + p) {
            if let Ok(sub) = (h.list)(p) {
                if d > 0 {
                    lemma_walk_mono(h, p, sub, (d - 1) as nat, (d2 - 1) as nat);
                }
            }
        }
    }
}

proof fn lemma_walk_mono(h: HostModel, dir: Seq<char>, entries: Seq<DirectoryEntryView>, d: nat, d2: nat)
    requires
        d <= d2,
        walk_entries(h, dir, entries, d) is Some,
    ensures
        walk_entries(h, dir, entries, d2) == walk_entries(h, dir, entries, d),
        walk_steps(h, dir, entries, d2) == walk_steps(h, dir, entries, d),
    decreases d, entries.len() + 1,
{
    if entries.len() > 0 {
        assert(walk_steps(h, dir, entries, d) == visit_steps(h, dir, entries[0], d) + match visit_entry(h, dir, entries[0], d) {
            Some(Ok(())) => walk_steps(h, dir, entries.drop_first(), d),
            _ => 0,
        });
        assert(walk_steps(h, dir, entries, d2) == visit_steps(h, dir, entries[0], d2) + match visit_entry(h, dir, entries[0], d2) {
            Some(Ok(())) => walk_steps(h, dir, entries.drop_first(), d2),
            _ => 0,
        });
        assert(walk_entries(h, dir, entries, d) == (match visit_entry(h, dir, entries[0], d) {
            Some(Ok(())) => walk_entries(h, dir, entries.drop_first(), d),
            other => other,
        }));
        assert(visit_entry(h, dir, entries[0], d) is Some);
        lemma_visit_mono(h, dir, entries[0], d, d2);
        assert(visit_entry(h, dir, entries[0], d2) == visit_entry(h, dir, entries[0], d));
        if let Some(Ok(_)) = visit_entry(h, dir, entries[0], d) {
            lemma_walk_mono(h, dir, entries.drop_first(), d, d2);
            assert(walk_entries(h, dir, entries, d) == walk_entries(h, dir, entries.drop_first(), d));
            assert(walk_entries(h, dir, entries, d2) == walk_entries(h, dir, entries.drop_first(), d2));
        } else {
            assert(walk_entries(h, dir, entries, d) == visit_entry(h, dir, entries[0], d));
        }
    }
}

proof fn lemma_frames_mono(h: HostModel, frames: Seq<FrameView>, d: nat, d2: nat)
    requires
        d <= d2,
        continue_frames(h, frames, d) is Some,
    ensures
        continue_frames(h, frames, d2) == continue_frames(h, frames, d),
    decreases frames.len(),
{
    if frames.len() > 0 {
        let f = frames.last();
        lemma_walk_mono(h, f.path, f.entries.skip(f.next as int), d, d2);
        if let Some(Ok(_)) = walk_entries(h, f.path, f.entries.skip(f.next as int), d) {
            lemma_frames_mono(h, frames.drop_last(), d, d2);
        }
    }
}

/// Moving on to the next entry leads to the outcome of finishing the
/// directories on the stack.
proof fn lemma_advance_expect(h: HostModel, s: ExtractionView, d: nat)
    requires
        extraction_wf(s),
    ensures
        extract_config(advance_spec(s).0, advance_spec(s).1),
        extract_expect(h, advance_spec(s).0, advance_spec(s).1, d) == continue_frames(h, s.frames, d),
        extract_steps(h, advance_spec(s).0, advance_spec(s).1, d) == frames_steps(h, s.frames, d),
    decreases s.frames.len(),
{
    if s.frames.len() > 0 {
        let f = s.frames.last();
        if f.next < f.entries.len() {
            let s2 = ExtractionView {
                frames: s.frames.drop_last().push(FrameView { next: f.next + 1, ..f }),
                ..s
            };
            let rest = f.entries.skip(f.next as int);
            assert(rest[0] == f.entries[f.next as int]);
            assert(rest.drop_first() =~= f.entries.skip(f.next + 1int));
            assert(s2.frames.drop_last() =~= s.frames.drop_last());
            assert(s2.frames.last() == FrameView { next: f.next + 1, ..f });
            assert(extraction_wf(s2)) by {
                assert forall|i: int| 0 <= i < s2.frames.len() implies #[trigger] s2.frames[i].next
                    <= s2.frames[i].entries.len() by {
                    if i < s2.frames.len() - 1 {
                        assert(s2.frames[i] == s.frames[i]);
                    }
                }
            }
            let e = f.entries[f.next as int];
            let after = f.entries.skip(f.next + 1int);
            let parent = s.frames.drop_last();
            assert(walk_entries(h, f.path, rest, d) == (match visit_entry(h, f.path, e, d) {
                Some(Ok(())) => walk_entries(h, f.path, after, d),
                other => other,
            }));
            assert(continue_frames(h, s.frames, d) == (match walk_entries(h, f.path, rest, d) {
                Some(Ok(())) => continue_frames(h, parent, d),
                other => other,
            }));
            assert(continue_frames(h, s2.frames, d) == (match walk_entries(h, f.path, after, d) {
                Some(Ok(())) => continue_frames(h, parent, d),
                other => other,
            }));
            assert(walk_steps(h, f.path, rest, d) == visit_steps(h, f.path, e, d) + match visit_entry(h, f.path, e, d) {
                Some(Ok(())) => walk_steps(h, f.path, after, d),
                _ => 0,
            });
            assert(frames_steps(h, s.frames, d) == walk_steps(h, f.path, rest, d) + match walk_entries(h, f.path, rest, d) {
                Some(Ok(())) => frames_steps(h, parent, d),
                _ => 0,
            });
            assert(frames_steps(h, s2.frames, d) == walk_steps(h, f.path, after, d) + match walk_entries(h, f.path, after, d) {
                Some(Ok(())) => frames_steps(h, parent, d),
                _ => 0,
            });
            let p = entry_path_spec(f.path, e.name);
            if e.entry_type == "directory"@ {
                if let Ok(()) = (h.create_dir)("."@ + p) {
                    if let Ok(sub) = (h.list)(p) {
                        if d > 0 {
                            assert(visit_entry(h, f.path, e, d) == walk_entries(h, p, sub, (d - 1) as nat));
                        }
                    }
                }
            } else {
                if let Ok(c) = (h.read)(p) {
                    if let Ok(()) = (h.write)("."@ + p, c) {
                        assert(visit_entry(h, f.path, e, d) is Some);
                    }
                }
            }
        } else {
            let s3 = ExtractionView { frames: s.frames.drop_last(), ..s };
            assert(f.entries.skip(f.next as int) =~= Seq::<DirectoryEntryView>::empty());
            assert(extraction_wf(s3)) by {
                assert forall|i: int| 0 <= i < s3.frames.len() implies #[trigger] s3.frames[i].next
                    <= s3.frames[i].entries.len() by {
                    assert(s3.frames[i] == s.frames[i]);
                }
            }
            lemma_advance_expect(h, s3, d);
        }
    }
}

proof fn lemma_after_create_mono(h: HostModel, s: ExtractionView, p: Seq<char>, d: nat)
    ensures
        after_create(h, s, p, d) is Some ==> after_create(h, s, p, d + 1) == after_create(h, s, p, d),
{
    if let Ok(sub) = (h.list)(p) {
        if d > 0 && after_create(h, s, p, d) is Some {
            lemma_walk_mono(h, p, sub, (d - 1) as nat, d);
            if let Some(Ok(_)) = walk_entries(h, p, sub, (d - 1) as nat) {
                lemma_frames_mono(h, s.frames, d, d + 1);
            }
        }
    }
}

proof fn lemma_after_read_mono(h: HostModel, s: ExtractionView, p: Seq<char>, c: Seq<char>, d: nat)
    ensures
        after_read(h, s, p, c, d) is Some ==> after_read(h, s, p, c, d + 1) == after_read(h, s, p, c, d),
{
    if let Ok(()) = (h.write)("."@ + p, c) {
        if continue_frames(h, s.frames, d) is Some {
            lemma_frames_mono(h, s.frames, d, d + 1);
        }
    }
}

proof fn lemma_unit_outcome(w: Option<Result<(), Seq<char>>>)
    ensures
        (match w {
            Some(Ok(())) => Some(Ok(())),
            other => other,
        }) == w,
{
    if let Some(Ok(u)) = w {
        assert(u == ());
    }
}

/// One step of an extraction, answered by the host, keeps the outcome it is
/// bound to reach, with one level less to explore.
proof fn lemma_extract_step(h: HostModel, s: ExtractionView, q: ExtractRequestView, d: nat)
    requires
        extract_config(s, q),
        !(q is Done),
    ensures
        ({
            let next = extract_resume_spec(s, host_answer(h, q));
            &&& extract_config(next.0, next.1)
            &&& extract_expect(h, next.0, next.1, d) is Some ==> extract_expect(h, s, q, d + 1)
                == extract_expect(h, next.0, next.1, d)
        }),
{
    match s.phase {
        ExtractPhaseView::ListingRoot => {
            if let Ok(entries) = (h.list)("/"@) {
                let s1 = ExtractionView { frames: seq![FrameView { path: "/"@, entries, next: 0 }], ..s };
                assert(extraction_wf(s1)) by {
                    assert forall|i: int| 0 <= i < s1.frames.len() implies #[trigger] s1.frames[i].next
                        <= s1.frames[i].entries.len() by {
                        assert(s1.frames[i] == FrameView { path: "/"@, entries, next: 0 });
                    }
                }
                lemma_advance_expect(h, s1, d);
                assert(s1.frames.drop_last() =~= Seq::<FrameView>::empty());
                assert(entries.skip(0) =~= entries);
                let w = walk_entries(h, "/"@, entries, d);
                assert(continue_frames(h, s1.frames, d) == (match w {
                    Some(Ok(())) => continue_frames(h, Seq::<FrameView>::empty(), d),
                    other => other,
                }));
                lemma_unit_outcome(w);
                assert(continue_frames(h, s1.frames, d) == w);
                if w is Some {
                    lemma_walk_mono(h, "/"@, entries, d, d + 1);
                }
            }
        },
        ExtractPhaseView::Creating(p) => {
            if let Ok(()) = (h.create_dir)("."@ + p) {
                lemma_after_create_mono(h, s, p, d);
            }
        },
        ExtractPhaseView::Listing(p) => {
            if let Ok(sub) = (h.list)(p) {
                let s1 = ExtractionView {
                    frames: s.frames.push(FrameView { path: p, entries: sub, next: 0 }),
                    ..s
                };
                assert(extraction_wf(s1)) by {
                    assert forall|i: int| 0 <= i < s1.frames.len() implies #[trigger] s1.frames[i].next
                        <= s1.frames[i].entries.len() by {
                        if i < s.frames.len() {
                            assert(s1.frames[i] == s.frames[i]);
                        }
                    }
                }
                lemma_advance_expect(h, s1, d);
                assert(s1.frames.drop_last() =~= s.frames);
                assert(sub.skip(0) =~= sub);
                if let Some(Ok(_)) = walk_entries(h, p, sub, d) {
                    if continue_frames(h, s.frames, d) is Some {
                        lemma_frames_mono(h, s.frames, d, d + 1);
                    }
                }
            }
        },
        ExtractPhaseView::Reading(p) => {
            if let Ok(c) = (h.read)(p) {
                lemma_after_read_mono(h, s, p, c, d);
            }
        },
        ExtractPhaseView::Writing(p) => {
            if let ExtractRequestView::WriteFile(_, c) = q {
                if let Ok(()) = (h.write)("."@ + p, c) {
                    lemma_advance_expect(h, s, d);
                    if continue_frames(h, s.frames, d) is Some {
                        lemma_frames_mono(h, s.frames, d, d + 1);
                    }
                }
            }
        },
        ExtractPhaseView::Finished => {},
    }
}

/// One step of an extraction whose outcome within `d` levels is settled
/// keeps that outcome, with one request less left to make.
proof fn lemma_extract_step_count(h: HostModel, s: ExtractionView, q: ExtractRequestView, d: nat)
    requires
        extract_config(s, q),
        !(q is Done),
        extract_expect(h, s, q, d) is Some,
    ensures
        ({
            let next = extract_resume_spec(s, host_answer(h, q));
            &&& extract_config(next.0, next.1)
            &&& extract_expect(h, next.0, next.1, d) == extract_expect(h, s, q, d)
            &&& extract_steps(h, next.0, next.1, d) + 1 == extract_steps(h, s, q, d)
        }),
{
    lemma_extract_step(h, s, q, d);
    match s.phase {
        ExtractPhaseView::ListingRoot => {
            if let Ok(entries) = (h.list)("/"@) {
                let f = FrameView { path: "/"@, entries, next: 0 };
                let s1 = ExtractionView { frames: seq![f], ..s };
                assert(extraction_wf(s1)) by {
                    assert forall|i: int| 0 <= i < s1.frames.len() implies #[trigger] s1.frames[i].next
                        <= s1.frames[i].entries.len() by {
                        assert(s1.frames[i] == f);
                    }
                }
                lemma_advance_expect(h, s1, d);
                assert(s1.frames.drop_last() =~= Seq::<FrameView>::empty());
                assert(entries.skip(0) =~= entries);
                let w = walk_entries(h, "/"@, entries, d);
                assert(continue_frames(h, s1.frames, d) == (match w {
                    Some(Ok(())) => continue_frames(h, Seq::<FrameView>::empty(), d),
                    other => other,
                }));
                assert(frames_steps(h, s1.frames, d) == walk_steps(h, "/"@, entries, d) + match w {
                    Some(Ok(())) => frames_steps(h, Seq::<FrameView>::empty(), d),
                    _ => 0,
                });
                lemma_unit_outcome(w);
            }
        },
        ExtractPhaseView::Listing(p) => {
            if let Ok(sub) = (h.list)(p) {
                let f = FrameView { path: p, entries: sub, next: 0 };
                let s1 = ExtractionView { frames: s.frames.push(f), ..s };
                assert(extraction_wf(s1)) by {
                    assert forall|i: int| 0 <= i < s1.frames.len() implies #[trigger] s1.frames[i].next
                        <= s1.frames[i].entries.len() by {
                        if i < s.frames.len() {
                            assert(s1.frames[i] == s.frames[i]);
                        }
                    }
                }
                lemma_advance_expect(h, s1, d);
                assert(s1.frames.drop_last() =~= s.frames);
                assert(sub.skip(0) =~= sub);
                lemma_walk_mono(h, p, sub, (d - 1) as nat, d);
                assert(continue_frames(h, s1.frames, d) == (match walk_entries(h, p, sub, d) {
                    Some(Ok(())) => continue_frames(h, s.frames, d),
                    other => other,
                }));
                assert(frames_steps(h, s1.frames, d) == walk_steps(h, p, sub, d) + match walk_entries(h, p, sub, d) {
                    Some(Ok(())) => frames_steps(h, s.frames, d),
                    _ => 0,
                });
            }
        },
        ExtractPhaseView::Writing(p) => {
            if let ExtractRequestView::WriteFile(_, c) = q {
                if let Ok(()) = (h.write)("."@ + p, c) {
                    lemma_advance_expect(h, s, d);
                }
            }
        },
        _ => {},
    }
}

/// An extraction whose outcome within `d` levels is settled reaches it
/// after as many steps as it has requests left to make.
proof fn lemma_extract_completes(h: HostModel, s: ExtractionView, q: ExtractRequestView, d: nat)
    requires
        extract_config(s, q),
        extract_expect(h, s, q, d) is Some,
    ensures
        extract_run(h, s, q, extract_steps(h, s, q, d)) == extract_expect(h, s, q, d),
    decreases extract_steps(h, s, q, d),
{
    if !(q is Done) {
        lemma_extract_step_count(h, s, q, d);
        let next = extract_resume_spec(s, host_answer(h, q));
        lemma_extract_completes(h, next.0, next.1, d);
    }
}

proof fn lemma_extract_run(h: HostModel, s: ExtractionView, q: ExtractRequestView, fuel: nat)
    requires
        extract_config(s, q),
    ensures
        extract_run(h, s, q, fuel) matches Some(r) ==> extract_expect(h, s, q, fuel) == Some(r),
    decreases fuel,
{
    if !(q is Done) && fuel > 0 {
        lemma_extract_step(h, s, q, (fuel - 1) as nat);
        let next = extract_resume_spec(s, host_answer(h, q));
        lemma_extract_run(h, next.0, next.1, (fuel - 1) as nat);
    }
}

/// An extraction of the entries of the directory at `path` whose every
/// request is answered by the host, and which ends within `fuel` steps
/// with outcome `r`, has the outcome of the depth-first walk of those
/// entries: each directory is created, listed and walked before the next
/// entry, each file is read and then written with what was read, and the
/// first failure ends the walk with its message.
pub proof fn law_extraction_walks_depth_first(
    h: HostModel,
    fs_hash: Seq<char>,
    path: Seq<char>,
    entries: Seq<DirectoryEntryView>,
    streaming: bool,
    fuel: nat,
)
    ensures
        ({
            let start = walk_start_spec(fs_hash, path, entries, streaming);
            extract_run(h, start.0, start.1, fuel) matches Some(r) ==> walk_entries(
                h,
                path,
                entries,
                fuel,
            ) == Some(r)
        }),
{
    let s0 = ExtractionView {
        fs_hash,
        frames: seq![FrameView { path, entries, next: 0 }],
        phase: ExtractPhaseView::Finished,
        streaming,
    };
    assert(extraction_wf(s0)) by {
        assert forall|i: int| 0 <= i < s0.frames.len() implies #[trigger] s0.frames[i].next
            <= s0.frames[i].entries.len() by {
            assert(s0.frames[i] == FrameView { path, entries, next: 0 });
        }
    }
    lemma_advance_expect(h, s0, fuel);
    assert(s0.frames.drop_last() =~= Seq::<FrameView>::empty());
    assert(entries.skip(0) =~= entries);
    let w = walk_entries(h, path, entries, fuel);
    assert(continue_frames(h, s0.frames, fuel) == (match w {
        Some(Ok(())) => continue_frames(h, Seq::<FrameView>::empty(), fuel),
        other => other,
    }));
    lemma_unit_outcome(w);
    let start = walk_start_spec(fs_hash, path, entries, streaming);
    lemma_extract_run(h, start.0, start.1, fuel);
}

/// A whole-filesystem extraction whose every request is answered by the
/// host, and which ends within `fuel` steps with outcome `r`: the root
/// listing's failure, or the depth-first walk of the root's entries.
pub proof fn law_filesystem_extraction(h: HostModel, fs_hash: Seq<char>, fuel: nat)
    ensures
        ({
            let s = ExtractionView {
                fs_hash,
                frames: Seq::empty(),
                phase: ExtractPhaseView::ListingRoot,
                streaming: false,
            };
            let q = ExtractRequestView::ListDirectory(fs_hash, "/"@);
            extract_run(h, s, q, fuel) matches Some(r) ==> Some(r) == match (h.list)("/"@) {
                Err(x) => Some(Err(x)),
                Ok(root_entries) => walk_entries(h, "/"@, root_entries, fuel),
            }
        }),
{
    let s = ExtractionView {
        fs_hash,
        frames: Seq::empty(),
        phase: ExtractPhaseView::ListingRoot,
        streaming: false,
    };
    let q = ExtractRequestView::ListDirectory(fs_hash, "/"@);
    lemma_extract_run(h, s, q, fuel);
}

/// An extraction of the entries of the directory at `path` whose every
/// request is answered by the host ends whenever the depth-first walk of
/// those entries has an outcome within `d` levels: after exactly as many
/// requests as the walk makes, with the walk's outcome.
pub proof fn law_extraction_ends(
    h: HostModel,
    fs_hash: Seq<char>,
    path: Seq<char>,
    entries: Seq<DirectoryEntryView>,
    streaming: bool,
    d: nat,
)
    requires
        walk_entries(h, path, entries, d) is Some,
    ensures
        ({
            let start = walk_start_spec(fs_hash, path, entries, streaming);
            extract_run(h, start.0, start.1, walk_steps(h, path, entries, d)) == walk_entries(
                h,
                path,
                entries,
                d,
            )
        }),
{
    let f = FrameView { path, entries, next: 0 };
    let s0 = ExtractionView {
        fs_hash,
        frames: seq![f],
        phase: ExtractPhaseView::Finished,
        streaming,
    };
    assert(extraction_wf(s0)) by {
        assert forall|i: int| 0 <= i < s0.frames.len() implies #[trigger] s0.frames[i].next
            <= s0.frames[i].entries.len() by {
            assert(s0.frames[i] == f);
        }
    }
    lemma_advance_expect(h, s0, d);
    assert(s0.frames.drop_last() =~= Seq::<FrameView>::empty());
    assert(entries.skip(0) =~= entries);
    let w = walk_entries(h, path, entries, d);
    assert(continue_frames(h, s0.frames, d) == (match w {
        Some(Ok(())) => continue_frames(h, Seq::<FrameView>::empty(), d),
        other => other,
    }));
    assert(frames_steps(h, s0.frames, d) == walk_steps(h, path, entries, d) + match w {
        Some(Ok(())) => frames_steps(h, Seq::<FrameView>::empty(), d),
        _ => 0,
    });
    lemma_unit_outcome(w);
    let start = walk_start_spec(fs_hash, path, entries, streaming);
    lemma_extract_completes(h, start.0, start.1, d);
}

/// A whole-filesystem extraction whose every request is answered by the
/// host ends whenever the root listing fails or the depth-first walk of the
/// root's entries has an outcome within `d` levels: after the root listing
/// and the walk's requests, with that failure or the walk's outcome.
pub proof fn law_filesystem_extraction_ends(h: HostModel, fs_hash: Seq<char>, d: nat)
    requires
        match (h.list)("/"@) {
            Err(_) => true,
            Ok(root_entries) => walk_entries(h, "/"@, root_entries, d) is Some,
        },
    ensures
        ({
            let s = ExtractionView {
                fs_hash,
                frames: Seq::empty(),
                phase: ExtractPhaseView::ListingRoot,
                streaming: false,
            };
            let q = ExtractRequestView::ListDirectory(fs_hash, "/"@);
            let fuel = 1 + match (h.list)("/"@) {
                Err(_) => 0,
                Ok(root_entries) => walk_steps(h, "/"@, root_entries, d),
            };
            extract_run(h, s, q, fuel) == match (h.list)("/"@) {
                Err(x) => Some(Err(x)),
                Ok(root_entries) => walk_entries(h, "/"@, root_entries, d),
            }
        }),
{
    let s = ExtractionView {
        fs_hash,
        frames: Seq::empty(),
        phase: ExtractPhaseView::ListingRoot,
        streaming: false,
    };
    let q = ExtractRequestView::ListDirectory(fs_hash, "/"@);
    lemma_extract_completes(h, s, q, d);
}

/// The requests an extraction running from `(s, q)` for at most `fuel`
/// steps makes, in order, each answered by the host.
pub open spec fn extract_trace(h: HostModel, s: ExtractionView, q: ExtractRequestView, fuel: nat) -> Seq<
    ExtractRequestView,
>
    decreases fuel,
{
    match q {
        ExtractRequestView::Done(_) => Seq::empty(),
        _ => if fuel == 0 {
            Seq::empty()
        } else {
            let next = extract_resume_spec(s, host_answer(h, q));
            seq![q] + extract_trace(h, next.0, next.1, (fuel - 1) as nat)
        },
    }
}

/// From the same configuration, streaming or not, an extraction makes the
/// same requests and reaches the same outcome.
proof fn lemma_extract_streaming_run(
    h: HostModel,
    s: ExtractionView,
    q: ExtractRequestView,
    streaming: bool,
    fuel: nat,
)
    ensures
        extract_run(h, ExtractionView { streaming, ..s }, q, fuel) == extract_run(h, s, q, fuel),
        extract_trace(h, ExtractionView { streaming, ..s }, q, fuel) == extract_trace(h, s, q, fuel),
    decreases fuel,
{
    if !(q is Done) && fuel > 0 {
        let r = host_answer(h, q);
        law_extraction_streaming_only_adds_events(s, r, streaming, Seq::empty(), Seq::empty());
        let t = ExtractionView { streaming, ..s };
        law_extraction_streaming_only_adds_events(t, r, s.streaming, Seq::empty(), Seq::empty());
        let a = extract_resume_spec(s, r);
        let b = extract_resume_spec(t, r);
        assert(ExtractionView { streaming: s.streaming, ..t } == s);
        assert(b.0 == ExtractionView { streaming, ..a.0 });
        lemma_extract_streaming_run(h, a.0, a.1, streaming, (fuel - 1) as nat);
    }
}

/// The extraction of a directory's entries with streaming asks the host
/// for the same operations, in the same order, as the extraction without
/// it, and ends with the same outcome (for any number of steps).
pub proof fn law_streaming_extraction_runs_alike(
    h: HostModel,
    fs_hash: Seq<char>,
    path: Seq<char>,
    entries: Seq<DirectoryEntryView>,
    fuel: nat,
)
    ensures
        ({
            let a = walk_start_spec(fs_hash, path, entries, true);
            let b = walk_start_spec(fs_hash, path, entries, false);
            &&& extract_run(h, a.0, a.1, fuel) == extract_run(h, b.0, b.1, fuel)
            &&& extract_trace(h, a.0, a.1, fuel) == extract_trace(h, b.0, b.1, fuel)
        }),
{
    let a = walk_start_spec(fs_hash, path, entries, true);
    let b = walk_start_spec(fs_hash, path, entries, false);
    let s = ExtractionView { fs_hash, frames: Seq::empty(), phase: ExtractPhaseView::Finished, streaming: true };
    law_extraction_streaming_only_adds_events(s, ExtractReplyView::Created(Ok(())), false, path, entries);
    assert(a.0 == ExtractionView { streaming: true, ..b.0 });
    lemma_extract_streaming_run(h, b.0, b.1, true, fuel);
}

} // verus!
