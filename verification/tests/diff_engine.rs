use creek::diff::{DiffParser, PatchError, PendingPatch};
use creek::matcher::{apply_patch, FuzzyMatcher};

#[test]
fn test_parser_simple() {
    let mut parser = DiffParser::new();
    let input = vec![
        "Some text before",
        "<<<<<<< SEARCH",
        "foo",
        "bar",
        "=======",
        "baz",
        "qux",
        ">>>>>>> REPLACE",
        "Some text after",
    ];

    let mut patches = Vec::new();
    for line in input {
        if let Some(p) = parser.process_line(line) {
            patches.push(p);
        }
    }

    assert_eq!(patches.len(), 1);
    assert_eq!(patches[0].search_block, "foo\nbar");
    assert_eq!(patches[0].replace_block, "baz\nqux");
}

#[test]
fn test_matcher_exact() {
    let doc = "Hello world\nThis is a test\nGoodbye";
    let search = "This is a test";
    let m = FuzzyMatcher::locate_exact(doc, search).unwrap();
    assert_eq!(&doc[m.start_index..m.end_index], search);
}

#[test]
fn test_matcher_normalized() {
    let doc = "Hello   world\n\tThis is a test\nGoodbye";
    let search = "This is a test";
    let m = FuzzyMatcher::locate_normalized(doc, search).unwrap();
    let extracted = &doc[m.start_index..m.end_index];

    assert!(extracted.contains("This"));
    assert!(extracted.contains("test"));

    let patch = PendingPatch {
        search_block: "This is a test".to_string(),
        replace_block: "That was a test".to_string(),
    };
    let new_doc = apply_patch(doc, patch).unwrap();
    assert!(new_doc.contains("That was a test"));
    assert!(!new_doc.contains("This is a test"));
    assert!(new_doc.contains("Hello   world"));
}

#[test]
fn test_apply_patch_not_found() {
    let doc = "Hello world";
    let patch = PendingPatch {
        search_block: "Not here".to_string(),
        replace_block: "New".to_string(),
    };
    let res = apply_patch(doc, patch);
    assert!(matches!(res, Err(PatchError::NotFound)));
}

use creek::diff::{is_replace_marker_line, is_search_marker_line, is_separator_line};
use creek::document::DocumentService;

#[test]
fn marker_lines_tolerate_counts() {
    assert!(is_search_marker_line("<<<<<<< SEARCH"));
    assert!(is_search_marker_line("  <<< SEARCH"));
    assert!(!is_search_marker_line("<< SEARCH"));
    assert!(!is_search_marker_line("<<<<<<< FIND"));
    assert!(!is_search_marker_line("x <<<<<<< SEARCH"));
    assert!(is_replace_marker_line(">>>>>>> REPLACE"));
    assert!(is_replace_marker_line(">>> REPLACE"));
    assert!(!is_replace_marker_line(">> REPLACE"));
    assert!(is_separator_line("======="));
    assert!(is_separator_line("  ===  "));
    assert!(!is_separator_line("=="));
    assert!(!is_separator_line("==== x"));
}

#[test]
fn parse_all_reads_blocks_and_drops_open_ones() {
    let text = "intro\r\n<<<<<<< SEARCH\r\nfoo\r\n=======\r\nbar\r\n>>>>>>> REPLACE\r\n<<<<<<< SEARCH\nopen";
    let patches = DiffParser::parse_all(text);
    assert_eq!(patches.len(), 1);
    assert_eq!(patches[0].search_block, "foo");
    assert_eq!(patches[0].replace_block, "bar");
}

#[test]
fn parse_all_round_trips_a_canonical_block() {
    let search = "line one\n    indented";
    let replace = "new one\n\nnew two";
    let text = format!("<<<<<<< SEARCH\n{}\n=======\n{}\n>>>>>>> REPLACE\n", search, replace);
    let patches = DiffParser::parse_all(&text);
    assert_eq!(patches.len(), 1);
    assert_eq!(patches[0].search_block, search);
    assert_eq!(patches[0].replace_block, replace);

    // The same block where the answer ends with the closing marker.
    let open_ended = DiffParser::parse_all(text.trim_end());
    assert_eq!(open_ended, patches);
}

#[test]
fn parser_keeps_white_space_at_line_ends() {
    let text = "<<<<<<< SEARCH\n  a \n=======\n\tb  \n\n\n>>>>>>> REPLACE\n";
    let patches = DiffParser::parse_all(text);
    assert_eq!(patches.len(), 1);
    assert_eq!(patches[0].search_block, "  a ");
    assert_eq!(patches[0].replace_block, "\tb  ");

    let mut parser = DiffParser::new();
    assert!(parser.process_line("<<<<<<< SEARCH").is_none());
    assert!(parser.process_line("a ").is_none());
    assert!(parser.process_line("=======").is_none());
    assert!(parser.process_line("").is_none());
    let p = parser.process_line(">>>>>>> REPLACE").unwrap();
    assert_eq!(p.search_block, "a ");
    assert_eq!(p.replace_block, "");
}

#[test]
fn replace_body_with_tolerated_marker_line_is_rejected() {
    let text = "<<<<<<< SEARCH\na\n=======\nb\n<<< SEARCH\nc\n>>>>>>> REPLACE";
    assert_eq!(DiffParser::parse_all(text), Vec::<PendingPatch>::new());
    for body in ["b\n<<< SEARCH\nc", "  <<<< SEARCH now", "===", "x\n  ====  \ny", "b\n<<<<<<<<< SEARCH"] {
        let text = format!("<<<<<<< SEARCH\na\n=======\n{}\n>>>>>>> REPLACE\n", body);
        assert!(DiffParser::parse_all(&text).is_empty(), "body {:?}", body);
        let mut doc = DocumentService::new("a".to_string());
        assert_eq!(doc.process_stream_chunk(&text), Ok(false));
        assert_eq!(doc.get_snapshot().content, "a");
        assert_eq!(doc.version(), 0);
    }
    // A line that only looks a little like a marker is text.
    for body in ["a << SEARCH", "== x ==", "x <<< SEARCH", "=="] {
        let text = format!("<<<<<<< SEARCH\na\n=======\n{}\n>>>>>>> REPLACE\n", body);
        let patches = DiffParser::parse_all(&text);
        assert_eq!(patches.len(), 1, "body {:?}", body);
        assert_eq!(patches[0].replace_block, body);
    }
}

#[test]
fn replace_body_with_marker_is_rejected() {
    for body in ["x\n=======\ny", "<<<<<<< SEARCH", "see >>>>>>> REPLACE here"] {
        let text = format!("<<<<<<< SEARCH\nfoo\n=======\n{}\n>>>>>>> REPLACE\n", body);
        let patches = DiffParser::parse_all(&text);
        assert!(patches.is_empty(), "body {:?}", body);

        let mut doc = DocumentService::new("foo".to_string());
        assert_eq!(doc.process_stream_chunk(&text), Ok(false));
        let snap = doc.get_snapshot();
        assert_eq!(snap.content, "foo");
        assert_eq!(snap.version, 0);
    }
}

#[test]
fn exact_match_uses_byte_offsets() {
    let doc = "caf\u{e9} \u{6cb3}\u{6d41} river";
    let m = FuzzyMatcher::locate_exact(doc, "river").unwrap();
    assert_eq!(&doc[m.start_index..m.end_index], "river");
    assert_eq!(m.start_index, doc.find("river").unwrap());
    assert_eq!(m.confidence_percent, 100);
    assert!(FuzzyMatcher::locate_exact(doc, "creek").is_none());
    let m = FuzzyMatcher::locate_exact(doc, "").unwrap();
    assert_eq!((m.start_index, m.end_index), (0, 0));
}

#[test]
fn normalized_match_spans_whole_lines() {
    let doc = "a\r\n   - one  \r\n\t- two\r\nz";
    let m = FuzzyMatcher::locate_normalized(doc, "- one\n- two").unwrap();
    assert_eq!(&doc[m.start_index..m.end_index], "   - one  \r\n\t- two");
    assert_eq!(m.confidence_percent, 90);
    assert!(FuzzyMatcher::locate_normalized(doc, "").is_none());
    assert!(FuzzyMatcher::locate_normalized(doc, "- two\n- one").is_none());
}

#[test]
fn apply_patch_replaces_first_exact_occurrence() {
    let patch = PendingPatch { search_block: "ab".to_string(), replace_block: "X".to_string() };
    assert_eq!(apply_patch("ab ab ab", patch).unwrap(), "X ab ab");
    let patch = PendingPatch {
        search_block: "Tuesday".to_string(),
        replace_block: "Wednesday".to_string(),
    };
    assert_eq!(
        apply_patch("- Visit the market on Tuesday", patch).unwrap(),
        "- Visit the market on Wednesday"
    );
}

#[test]
fn patch_error_messages() {
    assert_eq!(PatchError::NotFound.message(), "Search block not found in document");
    assert_eq!(
        PatchError::ApplyFailed("boom".to_string()).message(),
        "Failed to apply patch: boom"
    );
}
