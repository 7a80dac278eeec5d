use creek::speech::{
    char_len, split_long_speech, SpeechAggregator, MAX_EDIT_RETRIES, MAX_HISTORY,
    MAX_SPEECH_CHARS, MIN_SPEECH_CHARS,
};

#[test]
fn constants() {
    assert_eq!(MAX_HISTORY, 6);
    assert_eq!(MAX_EDIT_RETRIES, 3);
    assert_eq!(MIN_SPEECH_CHARS, 40);
    assert_eq!(MAX_SPEECH_CHARS, 500);
}

#[test]
fn char_len_counts_characters() {
    assert_eq!(char_len(""), 0);
    assert_eq!(char_len("abc"), 3);
    assert_eq!(char_len("\u{6cb3}\u{6d41}"), 2);
}

#[test]
fn short_speech_is_one_turn() {
    assert_eq!(split_long_speech("   "), Vec::<String>::new());
    assert_eq!(split_long_speech("  hello. world  "), vec!["hello. world".to_string()]);
    let s = format!("{}. {}", "a".repeat(300), "b".repeat(197));
    assert_eq!(s.chars().count(), 499);
    assert_eq!(split_long_speech(&s), vec![s.clone()]);
}

#[test]
fn speech_of_exactly_the_limit_is_cut_at_its_sentence_end() {
    let first = format!("{}.", "a".repeat(300));
    let second = "b".repeat(198);
    let text = format!("{} {}", first, second);
    assert_eq!(text.chars().count(), 500);
    assert_eq!(split_long_speech(&text), vec![first.clone(), second.clone()]);
    // White space around the text does not count.
    assert_eq!(split_long_speech(&format!("  {}\n", text)), vec![first, second]);
    // Without a sentence end there is nowhere to cut before the limit.
    let solid = "c".repeat(500);
    assert_eq!(split_long_speech(&solid), vec![solid.clone()]);
}

#[test]
fn aggregator_splits_a_chunk_of_exactly_the_limit() {
    let mut agg = SpeechAggregator::new();
    assert!(agg.push("short").is_empty());
    let first = format!("{}!", "d".repeat(249));
    let second = "e".repeat(249);
    let chunk = format!("{} {}", first, second);
    assert_eq!(chunk.chars().count(), 500);
    assert_eq!(agg.push(&chunk), vec![first, second]);
    assert_eq!(agg.buf, "short");
}

#[test]
fn long_speech_is_cut_at_sentence_ends() {
    let first = format!("{}.", "a".repeat(299));
    let second = format!("{}\u{3002}", "b".repeat(250));
    let third = "tail without end";
    let text = format!("{} {} {}", first, second, third);
    let parts = split_long_speech(&text);
    assert_eq!(parts, vec![first, second, third.to_string()]);
    for p in &parts {
        assert!(!p.is_empty() && p.chars().count() <= 500);
    }
}

#[test]
fn long_speech_without_sentence_end_is_cut_at_the_limit() {
    let text = "x".repeat(1201);
    let parts = split_long_speech(&text);
    assert_eq!(parts.len(), 3);
    assert_eq!(parts[0].len(), 500);
    assert_eq!(parts[1].len(), 500);
    assert_eq!(parts[2].len(), 201);
}

#[test]
fn aggregator_merges_short_chunks() {
    let mut agg = SpeechAggregator::new();
    assert!(agg.push("   ").is_empty());
    assert_eq!(agg.buf, "");
    assert!(agg.push(" hello ").is_empty());
    assert!(agg.push("world.").is_empty());
    assert_eq!(agg.buf, "hello world.");
    let out = agg.push("this makes the buffer long enough to flush it!");
    assert_eq!(out, vec!["hello world. this makes the buffer long enough to flush it!".to_string()]);
    assert_eq!(agg.buf, "");
}

#[test]
fn aggregator_waits_for_punctuation() {
    let mut agg = SpeechAggregator::default();
    let long_no_punct = "word ".repeat(12);
    assert!(agg.push(&long_no_punct).is_empty());
    assert_eq!(agg.buf, long_no_punct.trim());
    assert_eq!(agg.flush(), long_no_punct.trim());
    assert_eq!(agg.buf, "");
    assert_eq!(agg.flush(), "");
}

#[test]
fn aggregator_flushes_before_a_very_long_chunk() {
    let mut agg = SpeechAggregator::new();
    let held = "b".repeat(45);
    assert!(agg.push(&held).is_empty());
    let long = format!("{}. {}", "c".repeat(400), "d".repeat(200));
    let out = agg.push(&long);
    assert_eq!(out, vec![held, format!("{}.", "c".repeat(400)), "d".repeat(200)]);
    assert_eq!(agg.buf, "");

    let mut agg = SpeechAggregator::new();
    assert!(agg.push("short").is_empty());
    let out = agg.push(&"e".repeat(501));
    assert_eq!(out, vec!["e".repeat(500), "e".to_string()]);
    assert_eq!(agg.buf, "short");
}

#[test]
fn aggregator_flushes_at_the_size_limit() {
    let mut agg = SpeechAggregator::new();
    assert!(agg.push(&"f".repeat(300)).is_empty());
    let out = agg.push(&"g".repeat(250));
    assert_eq!(out.len(), 2);
    assert_eq!(out[0].chars().count(), 500);
    assert_eq!(out[1], "g".repeat(51));
    assert_eq!(agg.buf, "");
}

#[test]
fn long_speech_with_a_sentence_end_is_never_cut_inside_a_word() {
    // No sentence end among the first 500 characters, letters on both sides
    // of character 500, and a sentence end later.
    let run = "abcdefg ".repeat(75);
    let first = format!("{}finished.", run);
    assert!(first.chars().count() > 600);
    let text = format!("{} then the rest", first);
    assert_ne!(text.chars().nth(499), Some(' '));
    assert_ne!(text.chars().nth(500), Some(' '));
    let parts = split_long_speech(&text);
    assert_eq!(parts, vec![first.clone(), "then the rest".to_string()]);

    // Every piece but the last ends with its sentence end.
    let text = format!("{}one! two? three; four\u{3002}five\nsix", run);
    let parts = split_long_speech(&text);
    assert_eq!(
        parts,
        vec![
            format!("{}one!", run),
            "two?".to_string(),
            "three;".to_string(),
            "four\u{3002}".to_string(),
            "five".to_string(),
            "six".to_string(),
        ]
    );
    let kept: String = parts.concat().chars().filter(|c| !c.is_whitespace()).collect();
    let given: String = text.chars().filter(|c| !c.is_whitespace()).collect();
    assert_eq!(kept, given);

    // A sentence end at the very end leaves one piece, however long.
    let text = format!("{}.", "x".repeat(700));
    assert_eq!(split_long_speech(&text), vec![text.clone()]);
}

#[test]
fn aggregator_cuts_a_long_buffer_at_its_sentence_end_only() {
    let mut agg = SpeechAggregator::new();
    let held = format!("{}. and", "h".repeat(30));
    assert!(agg.push(&held).is_empty());
    let more = "m".repeat(480);
    let out = agg.push(&more);
    assert_eq!(out, vec![format!("{}.", "h".repeat(30)), format!("and {}", more)]);
    assert_eq!(agg.buf, "");
}
