use build_actor::builder::execution::{
    execute_build, execute_build_and_store, execute_build_with_streaming, ExecReply, ExecRequest,
};
use build_actor::builder::output::DefaultBuildResultSender;
use build_actor::builder::process::{
    start_build, start_build_with_streaming, BuildProcess, PipelineReply, PipelineRequest,
};
use build_actor::filesystem::models::DirectoryEntry;
use build_actor::messaging::handler::StatusReport;
use build_actor::messaging::json::JsonValue;
use build_actor::state::{BuildOutput, BuildState, BuildStatus};

fn text_of(v: &JsonValue) -> String {
    match v {
        JsonValue::Str(s) => s.clone(),
        JsonValue::Number(n) => n.clone(),
        _ => panic!("expected text"),
    }
}

fn member<'a>(v: &'a JsonValue, key: &str) -> &'a JsonValue {
    v.get(key).expect("member")
}

#[test]
fn execution_success_without_storing() {
    let (mut x, q) = execute_build();
    match q {
        ExecRequest::RunCommand { dir, program, args } => {
            assert_eq!(dir, ".");
            assert_eq!(program, "nix");
            assert_eq!(
                args,
                vec!["develop", "--command", "bash", "-c", "cargo component build --target wasm32-unknown-unknown --release"]
            );
        }
        _ => panic!("expected the command"),
    }
    let (q, ev) = x.resume(ExecReply::Ran(Ok("compiled\n".to_string())));
    assert!(ev.is_empty());
    assert!(matches!(q, ExecRequest::ListFiles(ref p) if p == "target/wasm32-unknown-unknown/release"));
    let (q, _) = x.resume(ExecReply::Listed(Ok(vec!["a.d".to_string(), "m.wasm".to_string(), "n.wasm".to_string()])));
    assert!(matches!(q, ExecRequest::ReadFile(ref p) if p == "target/wasm32-unknown-unknown/release/m.wasm"));
    let (q, _) = x.resume(ExecReply::Read(Ok(vec![0u8; 12345])));
    match q {
        ExecRequest::Done(Ok(o)) => {
            assert!(o.success);
            assert_eq!(o.stdout, "compiled\n");
            assert_eq!(o.stderr, "Stderr not available from host function");
            assert_eq!(o.wasm_path.as_deref(), Some("target/wasm32-unknown-unknown/release/m.wasm"));
            assert_eq!(o.wasm_hash.as_deref(), Some("wasm-12345"));
            assert_eq!(o.build_logs, vec!["Build completed successfully".to_string()]);
            assert_eq!(o.error, None);
        }
        _ => panic!("expected the output"),
    }
}

#[test]
fn execution_stores_the_module() {
    let (mut x, _q) = execute_build_and_store("out-store");
    let _ = x.resume(ExecReply::Ran(Ok(String::new())));
    let _ = x.resume(ExecReply::Listed(Ok(vec!["m.wasm".to_string()])));
    let (q, _) = x.resume(ExecReply::Read(Ok(vec![1, 2, 3])));
    match q {
        ExecRequest::StoreAtLabel { store_id, label, content } => {
            assert_eq!(store_id, "out-store");
            assert_eq!(label, "wasm");
            assert_eq!(content, vec![1, 2, 3]);
        }
        _ => panic!("expected the store"),
    }
    let (q, _) = x.resume(ExecReply::Stored(Ok(())));
    assert!(matches!(q, ExecRequest::Done(Ok(ref o)) if o.success && o.wasm_hash.as_deref() == Some("wasm-3")));

    let (mut x, _q) = execute_build_and_store("out-store");
    let _ = x.resume(ExecReply::Ran(Ok(String::new())));
    let _ = x.resume(ExecReply::Listed(Ok(vec!["m.wasm".to_string()])));
    let _ = x.resume(ExecReply::Read(Ok(vec![1])));
    let (q, _) = x.resume(ExecReply::Stored(Err("full".to_string())));
    assert!(matches!(q, ExecRequest::Done(Err(ref m)) if m == "Failed to store WASM file: full"));
}

#[test]
fn execution_failures() {
    let (mut x, _q) = execute_build();
    let (q, _) = x.resume(ExecReply::Ran(Err("no nix".to_string())));
    match q {
        ExecRequest::Done(Ok(o)) => {
            assert!(!o.success);
            assert_eq!(o.stdout, "");
            assert_eq!(o.stderr, "Failed to execute build command: no nix");
            assert_eq!(o.build_logs, vec!["Build command failed".to_string()]);
            assert_eq!(o.error.as_deref(), Some("Failed to execute build command: no nix"));
        }
        _ => panic!("expected the output"),
    }

    let (mut x, _q) = execute_build();
    let _ = x.resume(ExecReply::Ran(Ok("out".to_string())));
    let (q, _) = x.resume(ExecReply::Listed(Err("missing".to_string())));
    assert!(matches!(q, ExecRequest::Done(Ok(ref o)) if o.error.as_deref() == Some("Failed to list target directory: missing")
        && o.build_logs == vec!["Failed to list target directory".to_string()] && o.stdout == "out"));

    let (mut x, _q) = execute_build();
    let _ = x.resume(ExecReply::Ran(Ok("out".to_string())));
    let (q, _) = x.resume(ExecReply::Listed(Ok(vec!["x.d".to_string()])));
    assert!(matches!(q, ExecRequest::Done(Ok(ref o)) if o.error.as_deref() == Some("No WASM file found")
        && o.wasm_path.is_none()));

    let (mut x, _q) = execute_build();
    let _ = x.resume(ExecReply::Ran(Ok("out".to_string())));
    let _ = x.resume(ExecReply::Listed(Ok(vec!["m.wasm".to_string()])));
    let (q, _) = x.resume(ExecReply::Read(Err("denied".to_string())));
    assert!(matches!(q, ExecRequest::Done(Ok(ref o)) if o.error.as_deref() == Some("Failed to read WASM file: denied")
        && o.wasm_path.as_deref() == Some("target/wasm32-unknown-unknown/release/m.wasm") && o.wasm_hash.is_none()));
}

#[test]
fn streaming_execution_events() {
    let (mut x, _q, ev) = execute_build_with_streaming("out");
    assert_eq!(ev.len(), 1);
    assert_eq!(ev[0].event_type, "build.compiling");
    assert_eq!(text_of(member(&ev[0].content, "target")), "wasm32-unknown-unknown");
    let (_q, ev) = x.resume(ExecReply::Ran(Ok("  first  \n\n\tsecond\r\n".to_string())));
    let types: Vec<_> = ev.iter().map(|e| e.event_type.clone()).collect();
    assert_eq!(types, vec!["output.stdout", "output.stdout", "build.linking"]);
    assert_eq!(text_of(member(&ev[0].content, "message")), "first");
    assert_eq!(text_of(member(&ev[0].content, "line")), "0");
    assert_eq!(text_of(member(&ev[1].content, "message")), "second");
    assert_eq!(text_of(member(&ev[1].content, "line")), "2");
    let (_q, ev) = x.resume(ExecReply::Listed(Ok(vec!["a".to_string(), "m.wasm".to_string()])));
    assert_eq!(text_of(member(&ev[0].content, "message")), "Found 2 files in target directory");
    assert_eq!(ev[1].event_type, "build.packaging");
    assert_eq!(text_of(member(&ev[1].content, "message")), "Found WASM file: m.wasm");
    let (_q, ev) = x.resume(ExecReply::Read(Ok(vec![0; 7])));
    assert_eq!(ev[0].event_type, "build.storing");
    assert_eq!(text_of(member(&ev[0].content, "message")), "Storing WASM file (7 bytes)");
    assert_eq!(text_of(member(&ev[0].content, "hash")), "wasm-7");
    assert_eq!(text_of(member(&ev[0].content, "size")), "7");
}

fn entry(name: &str) -> DirectoryEntry {
    DirectoryEntry { name: name.to_string(), entry_type: "file".to_string(), path: format!("/{}", name) }
}

#[test]
fn pipeline_runs_its_stages() {
    let (mut p, q) = start_build("fs", "src-store", "out-store");
    assert!(matches!(q, PipelineRequest::ListRoot { ref fs_hash, ref store_id } if fs_hash == "fs" && store_id == "src-store"));
    let (q, ev) = p.resume(PipelineReply::Listed(Ok(vec![entry("a")])));
    assert!(ev.is_empty());
    assert!(matches!(q, PipelineRequest::Extract { ref entries, .. } if entries.len() == 1));
    let (q, _) = p.resume(PipelineReply::Extracted(Ok(())));
    assert!(matches!(q, PipelineRequest::Execute { ref build_store_id, store_wasm: true } if build_store_id == "out-store"));
    let out = BuildState::failed_output("boom".to_string());
    let (q, _) = p.resume(PipelineReply::Executed(Ok(out)));
    assert!(matches!(q, PipelineRequest::Done(ref o) if o.error.as_deref() == Some("boom")));
}

#[test]
fn pipeline_failures_become_failed_outputs() {
    let (mut p, _q) = start_build("fs", "s", "o");
    let (q, _) = p.resume(PipelineReply::Listed(Err("no root".to_string())));
    assert!(matches!(q, PipelineRequest::Done(ref o) if !o.success && o.error.as_deref() == Some("no root")));

    let (mut p, _q) = start_build("fs", "s", "o");
    let _ = p.resume(PipelineReply::Listed(Ok(vec![])));
    let (q, _) = p.resume(PipelineReply::Extracted(Err("bad dir".to_string())));
    assert!(matches!(q, PipelineRequest::Done(ref o) if o.error.as_deref() == Some("bad dir")));

    let (mut p, _q) = start_build("fs", "s", "o");
    let _ = p.resume(PipelineReply::Listed(Ok(vec![])));
    let _ = p.resume(PipelineReply::Extracted(Ok(())));
    let (q, _) = p.resume(PipelineReply::Executed(Err("store".to_string())));
    assert!(matches!(q, PipelineRequest::Done(ref o) if o.error.as_deref() == Some("store") && o.build_logs.is_empty()));
}

#[test]
fn streaming_pipeline_events() {
    let (mut p, _q, ev) = start_build_with_streaming("fs", "s", "o");
    assert_eq!(ev[0].event_type, "build.extracting");
    let (_q, ev) = p.resume(PipelineReply::Listed(Ok(vec![entry("a"), entry("b")])));
    assert_eq!(text_of(member(&ev[0].content, "message")), "Found 2 entries at root");
    let (_q, ev) = p.resume(PipelineReply::Extracted(Ok(())));
    let types: Vec<_> = ev.iter().map(|e| e.event_type.clone()).collect();
    assert_eq!(types, vec!["build.extraction_complete", "build.environment_setup"]);
    let out = BuildOutput {
        success: true,
        stdout: String::new(),
        stderr: String::new(),
        wasm_path: Some("p.wasm".to_string()),
        wasm_hash: Some("wasm-1".to_string()),
        build_logs: vec![],
        error: None,
    };
    let (_q, ev) = p.resume(PipelineReply::Executed(Ok(out)));
    assert_eq!(ev[0].event_type, "build.completed");
    assert_eq!(text_of(member(&ev[0].content, "message")), "Build completed successfully");
    assert_eq!(text_of(member(&ev[0].content, "wasm_path")), "p.wasm");

    let (mut p, _q, _ev) = start_build_with_streaming("fs", "s", "o");
    let (_q, ev) = p.resume(PipelineReply::Listed(Err("gone".to_string())));
    assert_eq!(ev[0].event_type, "build.extraction_failed");
    assert_eq!(text_of(member(&ev[0].content, "message")), "Failed to list root directory: gone");
}

#[test]
fn build_process_statuses_follow_the_stages() {
    let mut state = BuildState::new("src-store".to_string(), "fs".to_string());
    state.build_store_id = "out".to_string();
    let mut process = BuildProcess::new(state);
    let q = process.start();
    assert_eq!(process.state().status, BuildStatus::Extracting);
    assert!(matches!(q, PipelineRequest::ListRoot { ref store_id, .. } if store_id == "src-store"));
    let q = process.resume(PipelineReply::Listed(Ok(vec![])));
    assert!(matches!(q, PipelineRequest::Extract { .. }));
    assert_eq!(process.state().status, BuildStatus::Extracting);
    let q = process.resume(PipelineReply::Extracted(Ok(())));
    assert!(matches!(q, PipelineRequest::Execute { store_wasm: false, .. }));
    assert_eq!(process.state().status, BuildStatus::Building);
    let out = BuildOutput {
        success: true,
        stdout: "ok".to_string(),
        stderr: String::new(),
        wasm_path: None,
        wasm_hash: None,
        build_logs: vec![],
        error: None,
    };
    let q = process.resume(PipelineReply::Executed(Ok(out)));
    assert!(matches!(q, PipelineRequest::Done(ref o) if o.success));
    assert_eq!(process.state().status, BuildStatus::Completed);
    assert_eq!(process.state().build_output.as_ref().unwrap().stdout, "ok");
}

#[test]
fn build_process_records_extraction_failure() {
    let mut process = BuildProcess::new(BuildState::new("s".to_string(), "fs".to_string()));
    let _ = process.start();
    let q = process.resume(PipelineReply::Listed(Err("no root".to_string())));
    assert!(matches!(q, PipelineRequest::Done(_)));
    assert_eq!(process.state().status, BuildStatus::Failed);
    assert_eq!(process.state().build_output.as_ref().unwrap().error.as_deref(), Some("no root"));
}

#[test]
fn result_message_reports_the_output() {
    let out = BuildOutput {
        success: false,
        stdout: "o".to_string(),
        stderr: "e".to_string(),
        wasm_path: None,
        wasm_hash: Some("wasm-9".to_string()),
        build_logs: vec!["l1".to_string(), "l2".to_string()],
        error: Some("bad".to_string()),
    };
    let m = DefaultBuildResultSender.build_result_message(&out);
    assert_eq!(text_of(member(&m, "action")), "build_result");
    assert!(matches!(member(&m, "success"), JsonValue::Bool(false)));
    assert_eq!(text_of(member(&m, "wasm_hash")), "wasm-9");
    match member(&m, "logs") {
        JsonValue::Array(items) => {
            assert_eq!(items.len(), 2);
            assert_eq!(text_of(&items[1]), "l2");
        }
        _ => panic!("expected an array"),
    }
    assert_eq!(text_of(member(&m, "error")), "bad");
    assert_eq!(text_of(member(&m, "stdout")), "o");
    assert_eq!(text_of(member(&m, "stderr")), "e");
}

fn execution_replies() -> Vec<ExecReply> {
    vec![
        ExecReply::Ran(Ok("one\n two \n".to_string())),
        ExecReply::Listed(Ok(vec!["lib.d".to_string(), "m.wasm".to_string()])),
        ExecReply::Read(Ok(vec![9, 9, 9, 9])),
        ExecReply::Stored(Ok(())),
    ]
}

#[test]
fn streaming_execution_asks_what_the_plain_one_asks() {
    let (mut plain, q1) = execute_build_and_store("out");
    let (mut streamed, q2, _) = execute_build_with_streaming("out");
    assert_eq!(format!("{:?}", q1), format!("{:?}", q2));
    for (a, b) in execution_replies().into_iter().zip(execution_replies()) {
        let (q1, ev1) = plain.resume(a);
        let (q2, _) = streamed.resume(b);
        assert_eq!(format!("{:?}", q1), format!("{:?}", q2));
        assert!(ev1.is_empty());
    }
}

#[test]
fn streaming_pipeline_hands_out_the_plain_stages() {
    let (mut plain, q1) = start_build("fs", "src", "out");
    let (mut streamed, q2, _) = start_build_with_streaming("fs", "src", "out");
    assert_eq!(format!("{:?}", q1), format!("{:?}", q2));
    let replies = || {
        vec![
            PipelineReply::Listed(Ok(vec![entry("a"), entry("b")])),
            PipelineReply::Extracted(Ok(())),
            PipelineReply::Executed(Err("crashed".to_string())),
        ]
    };
    for (a, b) in replies().into_iter().zip(replies()) {
        let (q1, ev1) = plain.resume(a);
        let (q2, _) = streamed.resume(b);
        assert_eq!(format!("{:?}", q1), format!("{:?}", q2));
        assert!(ev1.is_empty());
    }
}

#[test]
fn build_process_reports_progress_and_completion() {
    let mut process = BuildProcess::new(BuildState::new("s".to_string(), "fs".to_string()));
    let (_q, reports) = process.start_with_progress();
    assert!(matches!(&reports[..], [StatusReport::Progress { status: BuildStatus::Extracting, description }]
        if description == "Extracting files from content store"));
    let (_q, reports) = process.resume_with_progress(PipelineReply::Listed(Ok(vec![])));
    assert!(reports.is_empty());
    let (_q, reports) = process.resume_with_progress(PipelineReply::Extracted(Ok(())));
    assert!(matches!(&reports[..], [StatusReport::Progress { status: BuildStatus::Building, description }]
        if description == "Running cargo build command"));
    let out = BuildOutput {
        success: true,
        stdout: String::new(),
        stderr: String::new(),
        wasm_path: Some("target/m.wasm".to_string()),
        wasm_hash: Some("wasm-3".to_string()),
        build_logs: vec![],
        error: None,
    };
    let (q, reports) = process.resume_with_progress(PipelineReply::Executed(Ok(out)));
    assert!(matches!(q, PipelineRequest::Done(_)));
    match &reports[..] {
        [StatusReport::BuildComplete { success, wasm_path, wasm_hash, error }] => {
            assert!(*success);
            assert_eq!(wasm_path.as_deref(), Some("target/m.wasm"));
            assert_eq!(wasm_hash.as_deref(), Some("wasm-3"));
            assert!(error.is_none());
        }
        _ => panic!("expected the completion report"),
    }
    assert_eq!(process.state().status, BuildStatus::Completed);
}
