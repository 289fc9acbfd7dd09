use rustdoc_lookup::index::{after_index, dispatch_index, index_confirmation};
use rustdoc_lookup::orchestrate::{Invocation, InvocationPhase, StageOutput};
use rustdoc_lookup::output::{index_placeholder_label, make_output, placeholder_label,
    SectionDescriptor};
use rustdoc_lookup::parse::parse_argument;
use rustdoc_lookup::search::format_search_results;
use rustdoc_lookup::types::{CommandError, ParsedCommand, ResolutionResult, SourceTag};

#[test]
fn output_has_one_section_spanning_all_bytes() {
    let d = SectionDescriptor {
        source: SourceTag::Remote,
        crate_name: "tokio".to_string(),
        item_query: None,
    };
    let out = make_output("caf\u{e9} docs".to_string(), d);
    assert_eq!(out.text, "caf\u{e9} docs");
    assert!(!out.run_commands_in_text);
    assert_eq!(out.sections.len(), 1);
    assert_eq!(out.sections[0].start, 0);
    assert_eq!(out.sections[0].end, "caf\u{e9} docs".len());
}

#[test]
fn placeholder_labels_show_source_and_path() {
    let d = SectionDescriptor {
        source: SourceTag::Remote,
        crate_name: "tokio".to_string(),
        item_query: Some("sync::Mutex".to_string()),
    };
    assert_eq!(placeholder_label(&d), "rustdoc (docs.rs): tokio::sync::Mutex");
    let d2 = SectionDescriptor {
        source: SourceTag::Local,
        crate_name: "serde".to_string(),
        item_query: None,
    };
    assert_eq!(placeholder_label(&d2), "rustdoc (local): serde");
    assert_eq!(index_placeholder_label(&d2), "rustdoc index (local): serde");
}

#[test]
fn dispatch_without_root_fails_before_store() {
    let r = dispatch_index("serde".to_string(), None);
    match r {
        Err(e) => assert_eq!(e, CommandError::WorkspaceRootNotFound),
        Ok(_) => panic!("expected a failure"),
    }
}

#[test]
fn dispatch_with_root_binds_crawl() {
    let plan = dispatch_index("serde".to_string(), Some("/ws".to_string())).unwrap();
    assert_eq!(plan.crate_name, "serde");
    assert_eq!(plan.workspace_root, "/ws");
}

#[test]
fn confirmation_text_names_the_crate() {
    assert_eq!(index_confirmation("serde"), "Indexed serde");
}

#[test]
fn store_index_error_propagates() {
    let r = after_index("serde", Err("disk full".to_string()));
    assert_eq!(
        r.unwrap_err(),
        CommandError::StoreIndexError { message: "disk full".to_string() }
    );
}

#[test]
fn store_index_success_confirms() {
    assert_eq!(after_index("serde", Ok(())).unwrap(), "Indexed serde");
}

#[test]
fn cancelled_search_yields_no_candidates() {
    let matches = vec![("tokio".to_string(), "sync::Mutex".to_string())];
    let r = format_search_results(&matches, true);
    assert!(r.is_empty());
}

#[test]
fn search_results_format_as_paths() {
    let matches = vec![
        ("tokio".to_string(), "sync::Mutex".to_string()),
        ("serde".to_string(), "Deserialize".to_string()),
    ];
    let r = format_search_results(&matches, false);
    assert_eq!(r, vec!["tokio::sync::Mutex".to_string(), "serde::Deserialize".to_string()]);
}

#[test]
fn lookup_invocation_finalizes_into_output() {
    let cmd = parse_argument(Some("tokio::sync::Mutex")).unwrap();
    let mut inv = Invocation::new(cmd);
    assert_eq!(inv.phase, InvocationPhase::Idle);
    inv.begin();
    assert_eq!(inv.phase, InvocationPhase::BackgroundRunning);
    let result = ResolutionResult { source: SourceTag::Remote, text: "the docs".to_string() };
    inv.complete(Ok(StageOutput::Resolved { result }));
    assert_eq!(inv.phase, InvocationPhase::Succeeded);
    let out = inv.finalize();
    assert_eq!(inv.phase, InvocationPhase::Finalized);
    assert_eq!(out.text, "the docs");
    assert_eq!(out.sections.len(), 1);
    assert_eq!(out.sections[0].start, 0);
    assert_eq!(out.sections[0].end, "the docs".len());
    assert!(!out.run_commands_in_text);
    assert_eq!(out.sections[0].descriptor.source, SourceTag::Remote);
    assert_eq!(out.sections[0].descriptor.crate_name, "tokio");
    assert_eq!(out.sections[0].descriptor.item_query, Some("sync::Mutex".to_string()));
}

#[test]
fn index_invocation_finalizes_into_output() {
    let cmd = parse_argument(Some("--index serde")).unwrap();
    match &cmd {
        ParsedCommand::Index(req) => assert_eq!(req.crate_name, "serde"),
        _ => panic!("expected an index request"),
    }
    let mut inv = Invocation::new(cmd);
    inv.begin();
    inv.complete(Ok(StageOutput::Indexed { text: index_confirmation("serde") }));
    let out = inv.finalize();
    assert_eq!(out.text, "Indexed serde");
    assert_eq!(out.sections.len(), 1);
    assert_eq!(out.sections[0].end, "Indexed serde".len());
    assert_eq!(out.sections[0].descriptor.source, SourceTag::Local);
    assert_eq!(out.sections[0].descriptor.crate_name, "serde");
    assert_eq!(out.sections[0].descriptor.item_query, None);
}

#[test]
fn failed_invocation_produces_no_output() {
    let cmd = parse_argument(Some("tokio")).unwrap();
    let mut inv = Invocation::new(cmd);
    inv.begin();
    inv.complete(Err(CommandError::TransportError { message: "timed out".to_string() }));
    assert_eq!(inv.phase, InvocationPhase::Failed);
    match inv.outcome {
        Some(Err(e)) => {
            assert_eq!(e, CommandError::TransportError { message: "timed out".to_string() });
        }
        _ => panic!("expected a recorded failure"),
    }
}

#[test]
fn lookup_without_item_path_has_no_item_query() {
    let cmd = parse_argument(Some("serde")).unwrap();
    let mut inv = Invocation::new(cmd);
    inv.begin();
    let result = ResolutionResult { source: SourceTag::Local, text: "t".to_string() };
    inv.complete(Ok(StageOutput::Resolved { result }));
    let out = inv.finalize();
    assert_eq!(out.sections[0].descriptor.item_query, None);
    assert_eq!(out.sections[0].descriptor.source, SourceTag::Local);
}
