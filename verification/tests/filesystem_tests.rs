use std::collections::HashMap;

use build_actor::filesystem::extractor::{ExtractReply, ExtractRequest};
use build_actor::filesystem::models::{
    entry_path, type_word, ContentStore, DirectoryEntry, FSNode, FetchError, NodeType,
};
use build_actor::filesystem::reader::{utf8_failure_message, ListRequest, ReadRequest};
use build_actor::messaging::json::JsonValue;

fn dir(entries: &[(&str, &str)]) -> FSNode {
    FSNode {
        entries: Some(entries.iter().map(|(n, h)| (n.to_string(), h.to_string())).collect()),
        content: None,
        node_type: NodeType::Directory,
    }
}

fn file(content: &[u8]) -> FSNode {
    FSNode { entries: None, content: Some(content.to_vec()), node_type: NodeType::File }
}

/// root -> { src: dir { main.rs: file }, Cargo.toml: file }
fn sample_store() -> HashMap<String, FSNode> {
    let mut m = HashMap::new();
    m.insert("root".to_string(), dir(&[("src", "h-src"), ("Cargo.toml", "h-cargo")]));
    m.insert("h-src".to_string(), dir(&[("main.rs", "h-main")]));
    m.insert("h-main".to_string(), file(b"fn main() {}"));
    m.insert("h-cargo".to_string(), file(b"[package]"));
    m
}

fn fetch(store: &HashMap<String, FSNode>, hash: &str) -> Result<FSNode, FetchError> {
    match store.get(hash) {
        Some(n) => Ok(FSNode {
            entries: n.entries.clone(),
            content: n.content.clone(),
            node_type: n.node_type,
        }),
        None => Err(FetchError::Retrieve(format!("no content for {}", hash))),
    }
}

fn list(store: &HashMap<String, FSNode>, fs_hash: &str, path: &str) -> Result<Vec<DirectoryEntry>, String> {
    let cs = ContentStore::new("store".to_string());
    let (mut l, mut q) = cs.list_directory(fs_hash, path);
    loop {
        match q {
            ListRequest::Fetch(h) => q = l.resume(fetch(store, &h)),
            ListRequest::Done(r) => return r,
        }
    }
}

fn read(store: &HashMap<String, FSNode>, fs_hash: &str, path: &str) -> Result<Vec<u8>, String> {
    let cs = ContentStore::new("store".to_string());
    let (mut r, mut q) = cs.read_file_content(fs_hash, path);
    loop {
        match q {
            ReadRequest::Fetch(h) => q = r.resume(fetch(store, &h)),
            ReadRequest::Done(x) => return x,
        }
    }
}

fn summary(entries: &[DirectoryEntry]) -> Vec<(String, String, String)> {
    entries.iter().map(|e| (e.name.clone(), e.entry_type.clone(), e.path.clone())).collect()
}

#[test]
fn lists_the_root_directory() {
    let store = sample_store();
    let entries = list(&store, "root", "/").unwrap();
    assert_eq!(
        summary(&entries),
        vec![
            ("src".to_string(), "directory".to_string(), "/src".to_string()),
            ("Cargo.toml".to_string(), "file".to_string(), "/Cargo.toml".to_string()),
        ]
    );
}

#[test]
fn lists_a_subdirectory() {
    let store = sample_store();
    let entries = list(&store, "root", "/src").unwrap();
    assert_eq!(
        summary(&entries),
        vec![("main.rs".to_string(), "file".to_string(), "/src/main.rs".to_string())]
    );
}

#[test]
fn listing_reports_missing_component() {
    let store = sample_store();
    assert_eq!(list(&store, "root", "/nope").unwrap_err(), "Path component not found: nope");
}

#[test]
fn listing_a_file_is_refused() {
    let store = sample_store();
    assert_eq!(list(&store, "root", "/Cargo.toml").unwrap_err(), "Path is not a directory: /Cargo.toml");
    assert_eq!(
        list(&store, "root", "/Cargo.toml/x").unwrap_err(),
        "Path component is not a directory: x"
    );
}

#[test]
fn listing_reports_root_failures() {
    let store = sample_store();
    assert_eq!(
        list(&store, "missing", "/").unwrap_err(),
        "Failed to retrieve filesystem root: no content for missing"
    );
    let cs = ContentStore::new("s".to_string());
    let (mut l, _q) = cs.list_directory("root", "/");
    match l.resume(Err(FetchError::Parse("bad json".to_string()))) {
        ListRequest::Done(Err(m)) => assert_eq!(m, "Failed to parse filesystem node: bad json"),
        _ => panic!("expected a parse failure"),
    }
    let mut only_file = HashMap::new();
    only_file.insert("root".to_string(), file(b"x"));
    assert_eq!(list(&only_file, "root", "/").unwrap_err(), "Root is not a valid directory");
}

#[test]
fn listing_reports_child_fetch_failures() {
    let mut store = sample_store();
    store.remove("h-cargo");
    assert_eq!(
        list(&store, "root", "/").unwrap_err(),
        "Failed to retrieve node content: no content for h-cargo"
    );
    let cs = ContentStore::new("s".to_string());
    let (mut l, _q) = cs.list_directory("root", "/src");
    let _ = l.resume(fetch(&sample_store(), "root"));
    match l.resume(Err(FetchError::Parse("oops".to_string()))) {
        ListRequest::Done(Err(m)) => assert_eq!(m, "Failed to parse node: oops"),
        _ => panic!("expected a parse failure"),
    }
}

#[test]
fn reads_a_nested_file() {
    let store = sample_store();
    assert_eq!(read(&store, "root", "/src/main.rs").unwrap(), b"fn main() {}".to_vec());
    assert_eq!(read(&store, "root", "Cargo.toml").unwrap(), b"[package]".to_vec());
}

#[test]
fn read_errors() {
    let store = sample_store();
    assert_eq!(read(&store, "root", "/").unwrap_err(), "Cannot read root directory as a file");
    assert_eq!(read(&store, "root", "").unwrap_err(), "Invalid file path");
    assert_eq!(read(&store, "root", "/src/lib.rs").unwrap_err(), "File not found: lib.rs");
    assert_eq!(read(&store, "root", "/src").unwrap_err(), "Path does not point to a file: /src");
    assert_eq!(
        read(&store, "root", "/Cargo.toml/x").unwrap_err(),
        "Parent path is not a directory"
    );
    assert_eq!(read(&store, "root", "/a/b").unwrap_err(), "Path component not found: a");
}

#[test]
fn read_file_decodes_utf8() {
    let cs = ContentStore::new("s".to_string());
    assert_eq!(cs.read_file(Ok("héllo".as_bytes().to_vec())).unwrap(), "héllo");
    assert_eq!(cs.read_file(Err("gone".to_string())).unwrap_err(), "gone");
    let e = cs.read_file(Ok(vec![0xff, 0xfe])).unwrap_err();
    let detail = String::from_utf8(vec![0xff, 0xfe]).unwrap_err().to_string();
    assert_eq!(e, format!("Failed to convert file content to string: {}", detail));
    assert_eq!(
        utf8_failure_message("bad byte"),
        "Failed to convert file content to string: bad byte"
    );
}

#[test]
fn get_node_maps_fetch_errors() {
    let cs = ContentStore::new("s".to_string());
    assert_eq!(cs.store_id(), "s");
    assert_eq!(
        cs.get_node(Err(FetchError::Retrieve("x".to_string()))).unwrap_err(),
        "Failed to retrieve node content: x"
    );
    assert_eq!(cs.get_node(Err(FetchError::Parse("y".to_string()))).unwrap_err(), "Failed to parse node: y");
    assert!(cs.get_node(Ok(file(b"a"))).is_ok());
}

#[test]
fn entry_paths_and_type_words() {
    assert_eq!(entry_path("/", "a"), "/a");
    assert_eq!(entry_path("/src", "a"), "/src/a");
    assert_eq!(type_word(NodeType::File), "file");
    assert_eq!(type_word(NodeType::Directory), "directory");
}

#[test]
fn child_hash_finds_entries() {
    let d = dir(&[("a", "h1"), ("b", "h2")]);
    assert!(d.is_listable());
    assert!(!d.is_readable());
    assert_eq!(d.child_hash(&"b".to_string()), Some("h2".to_string()));
    assert_eq!(d.child_hash(&"c".to_string()), None);
}

/// Drives an extraction against the sample store, recording the operations.
fn extract(streaming: bool, fail_write: Option<&str>) -> (Vec<String>, Result<(), String>, Vec<String>) {
    let store = sample_store();
    let cs = ContentStore::new("store".to_string());
    let root = list(&store, "root", "/").unwrap();
    let mut ops = Vec::new();
    let mut event_types = Vec::new();
    let (mut x, mut q, evs) = if streaming {
        cs.process_directory_with_streaming("root", "/", root)
    } else {
        let (x, q) = cs.process_directory("root", "/", root);
        (x, q, Vec::new())
    };
    event_types.extend(evs.into_iter().map(|e| e.event_type));
    loop {
        let reply = match q {
            ExtractRequest::Done(r) => return (ops, r, event_types),
            ExtractRequest::CreateDir(p) => {
                ops.push(format!("mkdir {}", p));
                ExtractReply::Created(Ok(()))
            }
            ExtractRequest::ListDirectory(h, p) => {
                ops.push(format!("list {}", p));
                ExtractReply::Listed(list(&store, &h, &p))
            }
            ExtractRequest::ReadFile(h, p) => {
                ops.push(format!("read {}", p));
                let content = read(&store, &h, &p);
                ExtractReply::Read(cs.read_file(content))
            }
            ExtractRequest::WriteFile(p, c) => {
                ops.push(format!("write {} {}", p, c));
                if fail_write == Some(p.as_str()) {
                    ExtractReply::Written(Err("disk full".to_string()))
                } else {
                    ExtractReply::Written(Ok(()))
                }
            }
        };
        let (next, evs) = x.resume(reply);
        event_types.extend(evs.into_iter().map(|e| e.event_type));
        q = next;
    }
}

#[test]
fn extraction_walks_depth_first() {
    let (ops, result, events) = extract(false, None);
    assert_eq!(result, Ok(()));
    assert_eq!(
        ops,
        vec![
            "mkdir ./src".to_string(),
            "list /src".to_string(),
            "read /src/main.rs".to_string(),
            "write ./src/main.rs fn main() {}".to_string(),
            "read /Cargo.toml".to_string(),
            "write ./Cargo.toml [package]".to_string(),
        ]
    );
    assert!(events.is_empty());
}

#[test]
fn streaming_extraction_reports_events() {
    let (_ops, result, events) = extract(true, None);
    assert_eq!(result, Ok(()));
    assert_eq!(
        events,
        vec![
            "output.log",
            "build.creating_directory",
            "output.log",
            "output.log",
            "build.extracting_file",
            "output.log",
            "output.log",
            "build.extracting_file",
            "output.log",
        ]
    );
}

#[test]
fn extraction_stops_at_the_first_failure() {
    let (ops, result, events) = extract(true, Some("./src/main.rs"));
    assert_eq!(result, Err("Failed to write file /src/main.rs: disk full".to_string()));
    assert_eq!(ops.len(), 4);
    assert_eq!(events.last().unwrap(), "build.error");
}

#[test]
fn streaming_extraction_event_content() {
    let cs = ContentStore::new("store".to_string());
    let entries = vec![DirectoryEntry {
        name: "a.txt".to_string(),
        entry_type: "file".to_string(),
        path: "/a.txt".to_string(),
    }];
    let (mut x, q, evs) = cs.process_directory_with_streaming("root", "/", entries);
    match q {
        ExtractRequest::ReadFile(h, p) => {
            assert_eq!(h, "root");
            assert_eq!(p, "/a.txt");
        }
        _ => panic!("expected a read"),
    }
    match &evs[0].content {
        JsonValue::Object(fields) => {
            assert_eq!(fields[0].0, "message");
            match &fields[0].1 {
                JsonValue::Str(m) => assert_eq!(m, "Processing file: /a.txt"),
                _ => panic!("expected text"),
            }
        }
        _ => panic!("expected an object"),
    }
    let (q, evs) = x.resume(ExtractReply::Read(Ok("héllo".to_string())));
    match q {
        ExtractRequest::WriteFile(p, c) => {
            assert_eq!(p, "./a.txt");
            assert_eq!(c, "héllo");
        }
        _ => panic!("expected a write"),
    }
    match &evs[0].content {
        JsonValue::Object(fields) => match &fields[0].1 {
            JsonValue::Str(m) => assert_eq!(m, "Extracted file: /a.txt (6 bytes)"),
            _ => panic!("expected text"),
        },
        _ => panic!("expected an object"),
    }
    let (q, _evs) = x.resume(ExtractReply::Written(Ok(())));
    assert!(matches!(q, ExtractRequest::Done(Ok(()))));
}

#[test]
fn extract_filesystem_starts_with_the_root_listing() {
    let store = sample_store();
    let cs = ContentStore::new("store".to_string());
    let (mut x, q) = cs.extract_filesystem("root");
    match q {
        ExtractRequest::ListDirectory(h, p) => {
            assert_eq!(h, "root");
            assert_eq!(p, "/");
        }
        _ => panic!("expected the root listing"),
    }
    let (q, _) = x.resume(ExtractReply::Listed(list(&store, "root", "/")));
    match q {
        ExtractRequest::CreateDir(p) => assert_eq!(p, "./src"),
        _ => panic!("expected a directory"),
    }
    let (mut x, _q) = cs.extract_filesystem("root");
    let (q, _) = x.resume(ExtractReply::Listed(Err("no root".to_string())));
    assert!(matches!(q, ExtractRequest::Done(Err(m)) if m == "no root"));
}

#[test]
fn extraction_error_messages() {
    let cs = ContentStore::new("store".to_string());
    let entries = vec![DirectoryEntry {
        name: "d".to_string(),
        entry_type: "directory".to_string(),
        path: "/d".to_string(),
    }];
    let (mut x, _q) = cs.process_directory("root", "/", entries);
    let (q, evs) = x.resume(ExtractReply::Created(Err("exists".to_string())));
    assert!(matches!(q, ExtractRequest::Done(Err(m)) if m == "Failed to create directory /d: exists"));
    assert!(evs.is_empty());

    let entries = vec![DirectoryEntry {
        name: "d".to_string(),
        entry_type: "directory".to_string(),
        path: "/d".to_string(),
    }];
    let (mut x, _q) = cs.process_directory("root", "/", entries);
    let (_q, _evs) = x.resume(ExtractReply::Created(Ok(())));
    let (q, _evs) = x.resume(ExtractReply::Listed(Err("gone".to_string())));
    assert!(matches!(q, ExtractRequest::Done(Err(m)) if m == "Failed to list directory /d: gone"));

    let entries = vec![DirectoryEntry {
        name: "f".to_string(),
        entry_type: "file".to_string(),
        path: "/f".to_string(),
    }];
    let (mut x, _q) = cs.process_directory("root", "/sub", entries);
    let (q, _evs) = x.resume(ExtractReply::Read(Err("gone".to_string())));
    assert!(matches!(q, ExtractRequest::Done(Err(m)) if m == "Failed to read file /sub/f: gone"));
}

#[test]
fn streaming_extraction_asks_what_the_plain_one_asks() {
    for fail in [None, Some("./Cargo.toml")] {
        let (plain_ops, plain_result, plain_events) = extract(false, fail);
        let (streamed_ops, streamed_result, _) = extract(true, fail);
        assert_eq!(plain_ops, streamed_ops);
        assert_eq!(plain_result, streamed_result);
        assert!(plain_events.is_empty());
    }
}

#[test]
fn listed_files_read_back_at_their_paths() {
    let store = sample_store();
    for dir in ["/", "/src"] {
        let listing = list(&store, "root", dir).unwrap();
        let mut names: Vec<_> = listing.iter().map(|e| e.name.clone()).collect();
        names.sort();
        names.dedup();
        assert_eq!(names.len(), listing.len());
        for e in listing.iter().filter(|e| e.entry_type == "file") {
            let content = read(&store, "root", &e.path).unwrap();
            assert!(!content.is_empty());
        }
    }
    assert_eq!(read(&store, "root", "/Cargo.toml").unwrap(), b"[package]".to_vec());
}
