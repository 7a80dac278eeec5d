use creek::commands::snapshot_event;
use creek::diff::PendingPatch;
use creek::document::{DocumentService, DocumentState};

#[test]
fn new_document_has_version_zero() {
    let doc = DocumentService::new("hello".to_string());
    let snap = doc.get_snapshot();
    assert_eq!(snap.content, "hello");
    assert_eq!(snap.version, 0);
    assert_eq!(doc.version(), 0);
    let s = DocumentState::new("x".to_string());
    assert_eq!((s.content.as_str(), s.version), ("x", 0));
}

#[test]
fn every_mutation_raises_the_version() {
    let mut doc = DocumentService::new(String::new());
    doc.reset("a".to_string());
    assert_eq!(doc.version(), 1);
    doc.append_content("b");
    assert_eq!(doc.version(), 2);
    assert_eq!(doc.get_snapshot().content, "ab");
    doc.ensure_newlines(2);
    assert_eq!(doc.version(), 3);
    assert_eq!(doc.get_snapshot().content, "ab\n\n");
}

#[test]
fn ensure_newlines_only_adds_what_is_missing() {
    let mut doc = DocumentService::new(String::new());
    doc.ensure_newlines(2);
    assert_eq!(doc.get_snapshot().content, "");
    assert_eq!(doc.version(), 0);

    let mut doc = DocumentService::new("text\n".to_string());
    doc.ensure_newlines(2);
    assert_eq!(doc.get_snapshot().content, "text\n\n");
    assert_eq!(doc.version(), 1);
    doc.ensure_newlines(2);
    assert_eq!(doc.version(), 1);

    let mut doc = DocumentService::new("text\n\n\n".to_string());
    doc.ensure_newlines(2);
    assert_eq!(doc.get_snapshot().content, "text\n\n\n");
    assert_eq!(doc.version(), 0);
}

#[test]
fn refused_patch_leaves_document_unchanged() {
    let mut doc = DocumentService::new("Hello world".to_string());
    let patch =
        PendingPatch { search_block: "Not here".to_string(), replace_block: "New".to_string() };
    let res = doc.apply_patch_to_state(patch);
    assert_eq!(res, Err("Search block not found in document".to_string()));
    let snap = doc.get_snapshot();
    assert_eq!(snap.content, "Hello world");
    assert_eq!(snap.version, 0);
}

#[test]
fn stream_chunk_applies_blocks_in_order() {
    let mut doc = DocumentService::new("one two".to_string());
    let chunk = "<<<<<<< SEARCH\none\n=======\n1\n>>>>>>> REPLACE\n<<<<<<< SEARCH\n1 two\n=======\n1 2\n>>>>>>> REPLACE\n";
    assert_eq!(doc.process_stream_chunk(chunk), Ok(true));
    let snap = doc.get_snapshot();
    assert_eq!(snap.content, "1 2");
    assert_eq!(snap.version, 2);
    assert_eq!(doc.process_stream_chunk("no blocks here"), Ok(false));
    assert_eq!(doc.version(), 2);
}

#[test]
fn stream_chunk_stops_at_first_refused_block() {
    let mut doc = DocumentService::new("one two".to_string());
    let chunk = "<<<<<<< SEARCH\none\n=======\n1\n>>>>>>> REPLACE\n<<<<<<< SEARCH\nmissing\n=======\nx\n>>>>>>> REPLACE\n<<<<<<< SEARCH\ntwo\n=======\n2\n>>>>>>> REPLACE\n";
    assert_eq!(
        doc.process_stream_chunk(chunk),
        Err("Search block not found in document".to_string())
    );
    let snap = doc.get_snapshot();
    assert_eq!(snap.content, "1 two");
    assert_eq!(snap.version, 1);
}

#[test]
fn replace_text_enters_without_tabs_and_search_text_is_not_touched() {
    let mut doc = DocumentService::new("a    b".to_string());
    let miss = PendingPatch { search_block: "a\tb".to_string(), replace_block: "c".to_string() };
    assert_eq!(
        doc.apply_patch_to_state(miss),
        Err("Search block not found in document".to_string())
    );
    assert_eq!(doc.version(), 0);
    let hit = PendingPatch { search_block: "a    b".to_string(), replace_block: "c\td".to_string() };
    assert_eq!(doc.apply_patch_to_state(hit), Ok(()));
    assert_eq!(doc.get_snapshot().content, "c    d");
    assert_eq!(doc.version(), 1);
}

#[test]
fn version_counts_the_changes_and_events_carry_it() {
    let mut doc = DocumentService::new("# Notes".to_string());
    let mut seen = vec![snapshot_event(&doc).version];

    doc.ensure_newlines(2);
    seen.push(snapshot_event(&doc).version);
    doc.ensure_newlines(2);
    seen.push(snapshot_event(&doc).version);
    doc.append_content("- one");
    seen.push(snapshot_event(&doc).version);
    let miss = PendingPatch { search_block: "- two".to_string(), replace_block: "x".to_string() };
    assert!(doc.apply_patch_to_state(miss).is_err());
    seen.push(snapshot_event(&doc).version);
    let hit = PendingPatch { search_block: "- one".to_string(), replace_block: "- 1".to_string() };
    assert!(doc.apply_patch_to_state(hit).is_ok());
    seen.push(snapshot_event(&doc).version);
    doc.reset(String::new());
    seen.push(snapshot_event(&doc).version);

    // Four of the six operations took effect.
    assert_eq!(seen, vec![0, 1, 1, 2, 2, 3, 4]);
    assert!(seen.windows(2).all(|w| w[0] <= w[1]));
    let event = snapshot_event(&doc);
    assert_eq!((event.content.as_str(), event.version), ("", 4));
    assert_eq!(doc.get_snapshot().version, 4);
}

#[test]
fn refused_chunk_needs_no_room_in_the_version_counter() {
    let mut doc = DocumentService::new("alpha".to_string());
    let chunk = "<<<<<<< SEARCH\nbeta\n=======\ngamma\n>>>>>>> REPLACE\n";
    assert_eq!(
        doc.process_stream_chunk(chunk),
        Err("Search block not found in document".to_string())
    );
    let snap = doc.get_snapshot();
    assert_eq!((snap.content.as_str(), snap.version), ("alpha", 0));
}
