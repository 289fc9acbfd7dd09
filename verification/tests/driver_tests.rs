//! End-to-end drives of the fallback chain against scripted collaborators,
//! the way an execution-context driver composes the stage functions.

use std::collections::HashMap;

use rustdoc_lookup::orchestrate::{Invocation, StageOutput};
use rustdoc_lookup::output::CommandOutput;
use rustdoc_lookup::parse::parse_argument;
use rustdoc_lookup::resolve::{
    after_convert, after_local_read, after_remote_response, after_store, store_query, AfterLocal,
    AfterRemote, AfterStore,
};
use rustdoc_lookup::types::{CommandError, ParsedCommand, SourceTag};

/// Scripted collaborator state: what the store, the filesystem and the
/// remote host would answer, and a count of remote fetches.
struct World {
    store: HashMap<(String, String), String>,
    files: HashMap<String, Vec<u8>>,
    remote: HashMap<String, (u16, Vec<u8>)>,
    fetches: usize,
    fetched_urls: Vec<String>,
}

impl World {
    fn convert(bytes: &[u8]) -> Result<String, String> {
        match String::from_utf8(bytes.to_vec()) {
            Ok(s) => Ok(format!("converted:{s}")),
            Err(_) => Err("not markup".to_string()),
        }
    }
}

/// Drives one lookup the way the background stage does: store, then the
/// local build tree, then the remote host.
fn drive_lookup(
    world: &mut World,
    argument: &str,
    root: Option<String>,
) -> Result<CommandOutput, CommandError> {
    let cmd = parse_argument(Some(argument))?;
    let req = match &cmd {
        ParsedCommand::Lookup(req) => req.clone(),
        _ => panic!("expected a lookup"),
    };
    let mut inv = Invocation::new(cmd);
    inv.begin();

    let store_text = world
        .store
        .get(&(req.crate_name.clone(), store_query(&req.item_path)))
        .cloned();
    let (source, bytes) = match after_store(&req, &root, store_text) {
        AfterStore::Resolved { result } => {
            inv.complete(Ok(StageOutput::Resolved { result }));
            return Ok(inv.finalize());
        }
        AfterStore::ReadLocal { path } => match after_local_read(&req, world.files.get(&path).cloned()) {
            AfterLocal::Convert { bytes } => (SourceTag::Local, bytes),
            AfterLocal::FetchRemote { url } => {
                world.fetches += 1;
                world.fetched_urls.push(url.clone());
                let response = world.remote.get(&url).cloned().ok_or("no route".to_string());
                match after_remote_response(response) {
                    AfterRemote::Convert { bytes } => (SourceTag::Remote, bytes),
                    AfterRemote::Fail { error } => {
                        inv.complete(Err(error.clone()));
                        return Err(error);
                    }
                }
            }
        },
        AfterStore::FetchRemote { url } => {
            world.fetches += 1;
            world.fetched_urls.push(url.clone());
            let response = world.remote.get(&url).cloned().ok_or("no route".to_string());
            match after_remote_response(response) {
                AfterRemote::Convert { bytes } => (SourceTag::Remote, bytes),
                AfterRemote::Fail { error } => {
                    inv.complete(Err(error.clone()));
                    return Err(error);
                }
            }
        }
    };
    match after_convert(source, World::convert(&bytes)) {
        Ok(result) => {
            inv.complete(Ok(StageOutput::Resolved { result }));
            Ok(inv.finalize())
        }
        Err(error) => {
            inv.complete(Err(error.clone()));
            Err(error)
        }
    }
}

fn world() -> World {
    World {
        store: HashMap::new(),
        files: HashMap::new(),
        remote: HashMap::new(),
        fetches: 0,
        fetched_urls: Vec::new(),
    }
}

#[test]
fn store_hit_touches_nothing_else() {
    let mut w = world();
    w.store
        .insert(("tokio".to_string(), "sync::Mutex".to_string()), "cached docs".to_string());
    let out = drive_lookup(&mut w, "tokio::sync::Mutex", Some("/ws".to_string())).unwrap();
    assert_eq!(out.text, "cached docs");
    assert_eq!(out.sections[0].descriptor.source, SourceTag::Local);
    assert_eq!(w.fetches, 0);
}

#[test]
fn store_miss_uses_local_file() {
    let mut w = world();
    w.files.insert(
        "/ws/target/doc/tokio/sync/Mutex/index.html".to_string(),
        b"page".to_vec(),
    );
    let out = drive_lookup(&mut w, "tokio::sync::Mutex", Some("/ws".to_string())).unwrap();
    assert_eq!(out.text, "converted:page");
    assert_eq!(out.sections[0].descriptor.source, SourceTag::Local);
    assert_eq!(w.fetches, 0);
}

#[test]
fn double_miss_fetches_remote_exactly_once() {
    let mut w = world();
    w.remote.insert(
        "https://docs.rs/tokio/latest/tokio/sync/Mutex".to_string(),
        (200, b"remote page".to_vec()),
    );
    let out = drive_lookup(&mut w, "tokio::sync::Mutex", Some("/ws".to_string())).unwrap();
    assert_eq!(out.text, "converted:remote page");
    assert_eq!(out.sections[0].descriptor.source, SourceTag::Remote);
    assert_eq!(w.fetches, 1);
    assert_eq!(w.fetched_urls, vec!["https://docs.rs/tokio/latest/tokio/sync/Mutex".to_string()]);
}

#[test]
fn client_error_status_carries_its_code() {
    let mut w = world();
    w.remote.insert(
        "https://docs.rs/tokio/latest/tokio/sync/Mutex".to_string(),
        (410, b"gone".to_vec()),
    );
    let err = drive_lookup(&mut w, "tokio::sync::Mutex", None).unwrap_err();
    assert_eq!(err, CommandError::RemoteStatusError { code: 410, snippet: b"gone".to_vec() });
    assert_eq!(w.fetches, 1);
}

#[test]
fn index_drive_confirms_and_never_resolves() {
    let cmd = parse_argument(Some("--index serde")).unwrap();
    let crate_name = match &cmd {
        ParsedCommand::Index(req) => req.crate_name.clone(),
        _ => panic!("expected an index request"),
    };
    let w = world();
    let mut inv = Invocation::new(cmd);
    inv.begin();
    let plan =
        rustdoc_lookup::index::dispatch_index(crate_name, Some("/ws".to_string())).unwrap();
    let text = rustdoc_lookup::index::after_index(&plan.crate_name, Ok(())).unwrap();
    inv.complete(Ok(StageOutput::Indexed { text }));
    let out = inv.finalize();
    assert_eq!(out.text, "Indexed serde");
    assert_eq!(w.fetches, 0);
}

#[test]
fn identical_lookups_yield_byte_identical_text() {
    let mut w = world();
    w.files.insert(
        "/ws/target/doc/serde/index.html".to_string(),
        b"serde page".to_vec(),
    );
    let first = drive_lookup(&mut w, "serde", Some("/ws".to_string())).unwrap();
    let second = drive_lookup(&mut w, "serde", Some("/ws".to_string())).unwrap();
    assert_eq!(first.text.as_bytes(), second.text.as_bytes());
    assert_eq!(first.sections[0].end, second.sections[0].end);
}
