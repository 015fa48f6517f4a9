use build_actor::error::BuildActorError;
use build_actor::state::{BuildOutput, BuildState, BuildStatus};
use build_actor::text::{decimal, ends_with, lines_of, path_components, split_chars, trim};

fn output(success: bool) -> BuildOutput {
    BuildOutput {
        success,
        stdout: "out".to_string(),
        stderr: String::new(),
        wasm_path: None,
        wasm_hash: None,
        build_logs: vec!["log".to_string()],
        error: None,
    }
}

#[test]
fn set_build_output_settles_the_status() {
    let mut st = BuildState::new("s".to_string(), "f".to_string());
    st.set_build_output(output(true));
    assert_eq!(st.status, BuildStatus::Completed);
    assert_eq!(st.build_output.as_ref().unwrap().build_logs, vec!["log".to_string()]);
    st.set_build_output(output(false)).set_status(BuildStatus::Extracting);
    assert_eq!(st.status, BuildStatus::Extracting);
    st.set_build_output(output(false));
    assert_eq!(st.status, BuildStatus::Failed);
    assert!(st.build_store_id.is_empty());
    assert!(st.channel_id.is_none());
}

#[test]
fn failed_output_carries_only_the_error() {
    let o = BuildState::failed_output("nope".to_string());
    assert!(!o.success);
    assert!(o.stdout.is_empty() && o.stderr.is_empty() && o.build_logs.is_empty());
    assert!(o.wasm_path.is_none() && o.wasm_hash.is_none());
    assert_eq!(o.error.as_deref(), Some("nope"));
    let c = o.clone();
    assert_eq!(c.error, o.error);
}

#[test]
fn errors_describe_themselves() {
    assert_eq!(BuildActorError::StoreError("a".to_string()).describe(), "Store error: a");
    assert_eq!(BuildActorError::FilesystemError("b".to_string()).describe(), "Filesystem error: b");
    assert_eq!(BuildActorError::BuildError("c".to_string()).describe(), "Build error: c");
    assert_eq!(BuildActorError::SerializationError("d".to_string()).describe(), "Serialization error: d");
    assert_eq!(BuildActorError::ConfigurationError("e".to_string()).describe(), "Configuration error: e");
    assert_eq!(BuildActorError::OtherError("f".to_string()).describe(), "Error: f");
    let e: BuildActorError = "g".to_string().into();
    assert!(matches!(e, BuildActorError::OtherError(ref m) if m == "g"));
    let json_err = serde_json::from_str::<u8>("x").unwrap_err();
    assert!(matches!(BuildActorError::from(json_err), BuildActorError::SerializationError(ref m) if !m.is_empty()));
    let utf8_err = String::from_utf8(vec![0xff]).unwrap_err();
    assert!(matches!(BuildActorError::from(utf8_err), BuildActorError::OtherError(ref m) if !m.is_empty()));
}

#[test]
fn text_helpers() {
    assert_eq!(decimal(0), "0");
    assert_eq!(decimal(1234567890123), "1234567890123");
    assert_eq!(decimal(u64::MAX), "18446744073709551615");
    assert!(ends_with("m.wasm", ".wasm"));
    assert!(!ends_with("m.wasm.d", ".wasm"));
    assert!(!ends_with("asm", ".wasm"));
    assert_eq!(trim(" \t a b \r\n"), "a b");
    assert_eq!(trim("\u{3000}x\u{a0}"), "x");
    assert_eq!(trim("   "), "");
    assert_eq!(lines_of("a\nb\r\n\nc"), vec!["a", "b", "", "c"]);
    assert_eq!(lines_of("a\r\nb\r"), vec!["a", "b\r"]);
    let text = "x\r\n\r\ny\n \r\nz\r";
    assert_eq!(lines_of(text), text.lines().collect::<Vec<_>>());
    assert_eq!(lines_of("a\n"), vec!["a"]);
    assert!(lines_of("").is_empty());
    assert_eq!(split_chars("/a//b/", '/'), vec!["", "a", "", "b", ""]);
    assert_eq!(path_components("/a//b/"), vec!["a", "b"]);
    assert!(path_components("/").is_empty());
}
