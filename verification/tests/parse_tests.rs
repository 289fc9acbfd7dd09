use rustdoc_lookup::parse::parse_argument;
use rustdoc_lookup::types::{CommandError, ParsedCommand};

#[test]
fn parses_nested_item_path() {
    let r = parse_argument(Some("tokio::sync::Mutex")).unwrap();
    match r {
        ParsedCommand::Lookup(req) => {
            assert_eq!(req.crate_name, "tokio");
            assert_eq!(req.item_path, vec!["sync".to_string(), "Mutex".to_string()]);
        }
        _ => panic!("expected a lookup"),
    }
}

#[test]
fn parses_bare_crate_name() {
    let r = parse_argument(Some("serde")).unwrap();
    match r {
        ParsedCommand::Lookup(req) => {
            assert_eq!(req.crate_name, "serde");
            assert!(req.item_path.is_empty());
        }
        _ => panic!("expected a lookup"),
    }
}

#[test]
fn parses_index_flag() {
    let r = parse_argument(Some("--index serde")).unwrap();
    match r {
        ParsedCommand::Index(req) => assert_eq!(req.crate_name, "serde"),
        _ => panic!("expected an index request"),
    }
}

#[test]
fn index_flag_wins_over_item_path() {
    let r = parse_argument(Some("tokio::sync --index serde")).unwrap();
    match r {
        ParsedCommand::Index(req) => assert_eq!(req.crate_name, "serde"),
        _ => panic!("expected an index request"),
    }
}

#[test]
fn last_index_flag_wins() {
    let r = parse_argument(Some("--index serde --index tokio")).unwrap();
    match r {
        ParsedCommand::Index(req) => assert_eq!(req.crate_name, "tokio"),
        _ => panic!("expected an index request"),
    }
}

#[test]
fn absent_argument_is_missing() {
    assert_eq!(parse_argument(None).unwrap_err(), CommandError::MissingArgument);
}

#[test]
fn empty_argument_is_missing() {
    assert_eq!(parse_argument(Some("")).unwrap_err(), CommandError::MissingArgument);
}

#[test]
fn whitespace_argument_is_missing() {
    assert_eq!(parse_argument(Some("   ")).unwrap_err(), CommandError::MissingArgument);
}

#[test]
fn leading_separator_is_missing() {
    assert_eq!(parse_argument(Some("::foo")).unwrap_err(), CommandError::MissingArgument);
}

#[test]
fn bare_index_flag_is_missing_target() {
    assert_eq!(parse_argument(Some("--index")).unwrap_err(), CommandError::MissingIndexTarget);
}

#[test]
fn index_flag_with_blank_target_is_missing_target() {
    assert_eq!(parse_argument(Some("--index ")).unwrap_err(), CommandError::MissingIndexTarget);
}

#[test]
fn tokens_concatenate_without_whitespace() {
    let r = parse_argument(Some("tok io::sync")).unwrap();
    match r {
        ParsedCommand::Lookup(req) => {
            assert_eq!(req.crate_name, "tokio");
            assert_eq!(req.item_path, vec!["sync".to_string()]);
        }
        _ => panic!("expected a lookup"),
    }
}

#[test]
fn tokens_are_trimmed() {
    let r = parse_argument(Some("\ttokio::time \n")).unwrap();
    match r {
        ParsedCommand::Lookup(req) => {
            assert_eq!(req.crate_name, "tokio");
            assert_eq!(req.item_path, vec!["time".to_string()]);
        }
        _ => panic!("expected a lookup"),
    }
}

#[test]
fn trailing_separator_keeps_empty_segment() {
    let r = parse_argument(Some("tokio::")).unwrap();
    match r {
        ParsedCommand::Lookup(req) => {
            assert_eq!(req.crate_name, "tokio");
            assert_eq!(req.item_path, vec!["".to_string()]);
        }
        _ => panic!("expected a lookup"),
    }
}
