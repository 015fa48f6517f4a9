//! Whole runs of a build execution and of a build, each operation answered
//! by a model of the host, and the proof that streaming changes neither the
//! operations asked for nor the outcome.

use vstd::prelude::*;
use crate::builder::execution::{
    build_args, first_wasm, target_dir, exec_resume_spec, exec_start_spec, law_execution_streaming_only_adds_events,
    BuildExecutionView, ExecReplyView, ExecRequestView,
};
use crate::builder::process::{
    law_pipeline_streaming_only_adds_events, pipeline_resume_spec, pipeline_start_spec,
    PipelinePhase, PipelineReplyView, PipelineRequestView, PipelineView,
};
use crate::filesystem::extraction_laws::{
    extract_run, law_streaming_extraction_runs_alike, HostModel,
};
use crate::filesystem::extractor::walk_start_spec;
use crate::state::BuildOutputView;
use crate::text::{decimal_spec, ends_with_spec};

verus! {

/// The host, as a build execution sees it: the outcome of each operation.
pub struct ExecHostModel {
    pub run: spec_fn(Seq<char>, Seq<char>, Seq<Seq<char>>) -> Result<Seq<char>, Seq<char>>,
    pub list_files: spec_fn(Seq<char>) -> Result<Seq<Seq<char>>, Seq<char>>,
    pub read_file: spec_fn(Seq<char>) -> Result<Seq<u8>, Seq<char>>,
    pub store: spec_fn(Seq<char>, Seq<char>, Seq<u8>) -> Result<(), Seq<char>>,
}

/// The host's answer to a request of a build execution.
pub open spec fn exec_answer(h: ExecHostModel, q: ExecRequestView) -> ExecReplyView {
    match q {
        ExecRequestView::RunCommand { dir, program, args } => ExecReplyView::Ran((h.run)(dir, program, args)),
        ExecRequestView::ListFiles(p) => ExecReplyView::Listed((h.list_files)(p)),
        ExecRequestView::ReadFile(p) => ExecReplyView::Read((h.read_file)(p)),
        ExecRequestView::StoreAtLabel { store_id, label, content } => ExecReplyView::Stored(
            (h.store)(store_id, label, content),
        ),
        ExecRequestView::Done(_) => ExecReplyView::Stored(Ok(())),
    }
}

/// The outcome of a build execution that runs from `(s, q)` for at most
/// `fuel` steps, each request answered by the host; nothing if it needs more.
pub open spec fn exec_run(h: ExecHostModel, s: BuildExecutionView, q: ExecRequestView, fuel: nat) -> Option<
    Result<BuildOutputView, Seq<char>>,
>
    decreases fuel,
{
    match q {
        ExecRequestView::Done(r) => Some(r),
        _ => if fuel == 0 {
            None
        } else {
            let next = exec_resume_spec(s, exec_answer(h, q));
            exec_run(h, next.0, next.1, (fuel - 1) as nat)
        },
    }
}

/// The requests a build execution running from `(s, q)` for at most `fuel`
/// steps makes, in order.
pub open spec fn exec_trace(h: ExecHostModel, s: BuildExecutionView, q: ExecRequestView, fuel: nat) -> Seq<
    ExecRequestView,
>
    decreases fuel,
{
    match q {
        ExecRequestView::Done(_) => Seq::empty(),
        _ => if fuel == 0 {
            Seq::empty()
        } else {
            let next = exec_resume_spec(s, exec_answer(h, q));
            seq![q] + exec_trace(h, next.0, next.1, (fuel - 1) as nat)
        },
    }
}

proof fn lemma_exec_streaming_run(
    h: ExecHostModel,
    s: BuildExecutionView,
    q: ExecRequestView,
    streaming: bool,
    fuel: nat,
)
    ensures
        exec_run(h, BuildExecutionView { streaming, ..s }, q, fuel) == exec_run(h, s, q, fuel),
        exec_trace(h, BuildExecutionView { streaming, ..s }, q, fuel) == exec_trace(h, s, q, fuel),
    decreases fuel,
{
    if !(q is Done) && fuel > 0 {
        let r = exec_answer(h, q);
        law_execution_streaming_only_adds_events(s, r, streaming);
        let t = BuildExecutionView { streaming, ..s };
        law_execution_streaming_only_adds_events(t, r, s.streaming);
        let a = exec_resume_spec(s, r);
        assert(BuildExecutionView { streaming: s.streaming, ..t } == s);
        assert(exec_resume_spec(t, r).0 == BuildExecutionView { streaming, ..a.0 });
        lemma_exec_streaming_run(h, a.0, a.1, streaming, (fuel - 1) as nat);
    }
}

/// A build execution with streaming asks the host for the same operations,
/// in the same order and with the same arguments, as the execution without
/// it, and ends with the same outcome (for any number of steps).
pub proof fn law_streaming_execution_runs_alike(
    h: ExecHostModel,
    build_store_id: Seq<char>,
    store_wasm: bool,
    fuel: nat,
)
    ensures
        ({
            let a = exec_start_spec(build_store_id, store_wasm, true);
            let b = exec_start_spec(build_store_id, store_wasm, false);
            &&& exec_run(h, a.0, a.1, fuel) == exec_run(h, b.0, b.1, fuel)
            &&& exec_trace(h, a.0, a.1, fuel) == exec_trace(h, b.0, b.1, fuel)
        }),
{
    let b = exec_start_spec(build_store_id, store_wasm, false);
    lemma_exec_streaming_run(h, b.0, b.1, true, fuel);
}

/// The host, as a build sees it: the filesystem side and the build side.
pub struct BuildHostModel {
    pub fs: HostModel,
    pub commands: ExecHostModel,
}

/// The outcome of a stage of a build, the stage's own operations being
/// answered by the host (at most `fuel` of them); nothing if it needs more.
/// The extraction and the execution stream when the build does.
pub open spec fn stage_answer(bh: BuildHostModel, q: PipelineRequestView, streaming: bool, fuel: nat) -> Option<
    PipelineReplyView,
> {
    match q {
        PipelineRequestView::ListRoot { .. } => Some(PipelineReplyView::Listed((bh.fs.list)("/"@))),
        PipelineRequestView::Extract { fs_hash, entries, .. } => {
            let st = walk_start_spec(fs_hash, "/"@, entries, streaming);
            match extract_run(bh.fs, st.0, st.1, fuel) {
                Some(r) => Some(PipelineReplyView::Extracted(r)),
                None => None,
            }
        },
        PipelineRequestView::Execute { build_store_id, store_wasm } => {
            let st = exec_start_spec(build_store_id, store_wasm, streaming);
            match exec_run(bh.commands, st.0, st.1, fuel) {
                Some(r) => Some(PipelineReplyView::Executed(r)),
                None => None,
            }
        },
        PipelineRequestView::Done(_) => None,
    }
}

/// The output of a build that runs from `(s, q)` for at most `fuel` stages,
/// each stage carried out with at most `fuel` operations; nothing if it
/// needs more.
pub open spec fn build_run(bh: BuildHostModel, s: PipelineView, q: PipelineRequestView, fuel: nat) -> Option<
    BuildOutputView,
>
    decreases fuel,
{
    match q {
        PipelineRequestView::Done(o) => Some(o),
        _ => if fuel == 0 {
            None
        } else {
            match stage_answer(bh, q, s.streaming, fuel) {
                None => None,
                Some(r) => {
                    let next = pipeline_resume_spec(s, r);
                    build_run(bh, next.0, next.1, (fuel - 1) as nat)
                },
            }
        },
    }
}

/// The stages a build running from `(s, q)` hands out, in order.
pub open spec fn build_trace(bh: BuildHostModel, s: PipelineView, q: PipelineRequestView, fuel: nat) -> Seq<
    PipelineRequestView,
>
    decreases fuel,
{
    match q {
        PipelineRequestView::Done(_) => Seq::empty(),
        _ => if fuel == 0 {
            Seq::empty()
        } else {
            match stage_answer(bh, q, s.streaming, fuel) {
                None => seq![q],
                Some(r) => {
                    let next = pipeline_resume_spec(s, r);
                    seq![q] + build_trace(bh, next.0, next.1, (fuel - 1) as nat)
                },
            }
        },
    }
}

/// A stage is carried out alike, streaming or not.
proof fn lemma_stage_answer_streaming(bh: BuildHostModel, q: PipelineRequestView, streaming: bool, fuel: nat)
    ensures
        stage_answer(bh, q, streaming, fuel) == stage_answer(bh, q, false, fuel),
{
    match q {
        PipelineRequestView::Extract { fs_hash, entries, .. } => {
            law_streaming_extraction_runs_alike(bh.fs, fs_hash, "/"@, entries, fuel);
        },
        PipelineRequestView::Execute { build_store_id, store_wasm } => {
            law_streaming_execution_runs_alike(bh.commands, build_store_id, store_wasm, fuel);
        },
        _ => {},
    }
}

proof fn lemma_build_streaming_run(
    bh: BuildHostModel,
    s: PipelineView,
    q: PipelineRequestView,
    streaming: bool,
    fuel: nat,
)
    ensures
        build_run(bh, PipelineView { streaming, ..s }, q, fuel) == build_run(bh, s, q, fuel),
        build_trace(bh, PipelineView { streaming, ..s }, q, fuel) == build_trace(bh, s, q, fuel),
    decreases fuel,
{
    if !(q is Done) && fuel > 0 {
        lemma_stage_answer_streaming(bh, q, streaming, fuel);
        lemma_stage_answer_streaming(bh, q, s.streaming, fuel);
        if let Some(r) = stage_answer(bh, q, s.streaming, fuel) {
            law_pipeline_streaming_only_adds_events(s, r, streaming);
            let t = PipelineView { streaming, ..s };
            law_pipeline_streaming_only_adds_events(t, r, s.streaming);
            let a = pipeline_resume_spec(s, r);
            assert(PipelineView { streaming: s.streaming, ..t } == s);
            assert(pipeline_resume_spec(t, r).0 == PipelineView { streaming, ..a.0 });
            lemma_build_streaming_run(bh, a.0, a.1, streaming, (fuel - 1) as nat);
        }
    }
}

/// A build with streaming hands out the same stages as a build without it,
/// each stage's extraction or execution asking the host for the same
/// operations (see `law_streaming_extraction_runs_alike` and
/// `law_streaming_execution_runs_alike`), and ends with the same build
/// output (for any bound on the steps).
pub proof fn law_streaming_build_runs_alike(
    bh: BuildHostModel,
    fs_hash: Seq<char>,
    store_id: Seq<char>,
    build_store_id: Seq<char>,
    fuel: nat,
)
    ensures
        ({
            let a = pipeline_start_spec(fs_hash, store_id, build_store_id, true, true);
            let b = pipeline_start_spec(fs_hash, store_id, build_store_id, true, false);
            &&& build_run(bh, a.0, a.1, fuel) == build_run(bh, b.0, b.1, fuel)
            &&& build_trace(bh, a.0, a.1, fuel) == build_trace(bh, b.0, b.1, fuel)
        }),
{
    let b = pipeline_start_spec(fs_hash, store_id, build_store_id, true, false);
    lemma_build_streaming_run(bh, b.0, b.1, true, fuel);
}

/// Whether the file name `f` names a WebAssembly module.
pub open spec fn is_module_name(f: Seq<char>) -> bool {
    ends_with_spec(f, ".wasm"@)
}

/// The first module name among `files` stands at an index where no earlier
/// file is a module; without one, no file is a module.
proof fn lemma_first_wasm(files: Seq<Seq<char>>)
    ensures
        match first_wasm(files) {
            Some(f) => exists|i: int|
                0 <= i < files.len() && files[i] == f && is_module_name(f) && forall|j: int|
                    0 <= j < i ==> !is_module_name(#[trigger] files[j]),
            None => forall|i: int| 0 <= i < files.len() ==> !is_module_name(#[trigger] files[i]),
        },
    decreases files.len(),
{
    if files.len() > 0 {
        let rest = files.drop_first();
        lemma_first_wasm(rest);
        if !is_module_name(files[0]) {
            match first_wasm(rest) {
                Some(f) => {
                    let i = choose|i: int|
                        0 <= i < rest.len() && rest[i] == f && is_module_name(f) && forall|j: int|
                            0 <= j < i ==> !is_module_name(#[trigger] rest[j]);
                    assert(files[i + 1] == f);
                    assert forall|j: int| 0 <= j < i + 1 implies !is_module_name(#[trigger] files[j]) by {
                        if j > 0 {
                            assert(files[j] == rest[j - 1]);
                        }
                    }
                },
                None => {
                    assert forall|i: int| 0 <= i < files.len() implies !is_module_name(#[trigger] files[i]) by {
                        if i > 0 {
                            assert(files[i] == rest[i - 1]);
                        }
                    }
                },
            }
        }
    }
}

/// The build command runs, and the target directory it leaves lists no
/// `.wasm` file.
pub open spec fn no_module_listed(h: ExecHostModel) -> bool {
    &&& (h.run)("."@, "nix"@, build_args()) is Ok
    &&& (h.list_files)(target_dir()) matches Ok(files)
    &&& forall|i: int| 0 <= i < files.len() ==> !is_module_name(#[trigger] files[i])
}

/// A build execution whose every operation is answered by the host, and
/// which ends with a build output `o`:
/// - `o` reports success exactly when it carries a module hash and no error;
/// - when it succeeds, its module is the first `.wasm` file that the host
///   lists in the target directory, the one at `target_dir/<name>`; the
///   module was read there, its hash is `wasm-<size in bytes>`, and, when the
///   execution stores modules, the host stored exactly those bytes under the
///   label `wasm` in the build store;
/// - when the command ran and the target directory lists no `.wasm` file,
///   `o` fails with "No WASM file found" and names no module.
pub proof fn law_execution_succeeds_only_with_a_module(
    h: ExecHostModel,
    build_store_id: Seq<char>,
    store_wasm: bool,
    streaming: bool,
    fuel: nat,
)
    ensures
        ({
            let st = exec_start_spec(build_store_id, store_wasm, streaming);
            exec_run(h, st.0, st.1, fuel) matches Some(Ok(o)) ==> {
                &&& o.success <==> (o.wasm_hash is Some && o.error is None)
                &&& o.success ==> exists|files: Seq<Seq<char>>, i: int|
                    #![trigger files[i]]
                    {
                        &&& (h.list_files)(target_dir()) == Ok::<Seq<Seq<char>>, Seq<char>>(files)
                        &&& 0 <= i < files.len()
                        &&& is_module_name(files[i])
                        &&& forall|j: int| 0 <= j < i ==> !is_module_name(#[trigger] files[j])
                        &&& o.wasm_path == Some(target_dir() + "/"@ + files[i])
                        &&& (h.read_file)(target_dir() + "/"@ + files[i]) matches Ok(bytes)
                        &&& o.wasm_hash == Some("wasm-"@ + decimal_spec(bytes.len()))
                        &&& store_wasm ==> (h.store)(build_store_id, "wasm"@, bytes) is Ok
                    }
                &&& no_module_listed(h) ==> {
                    &&& !o.success
                    &&& o.error == Some("No WASM file found"@)
                    &&& o.wasm_path is None
                }
            }
        }),
{
    reveal_with_fuel(exec_run, 6);
    reveal_strlit("No WASM file found");
    let st = exec_start_spec(build_store_id, store_wasm, streaming);
    if let Ok(files) = (h.list_files)(target_dir()) {
        lemma_first_wasm(files);
    }
}

} // verus!
