use creek::intent::{
    effective_plan, parse_plan_response, parse_rag_need_response, parse_tool_intent_response,
    rag_need_or_default, tool_intent_or_default, DocIntent, PlanStep, ToolIntent,
};

#[test]
fn test_doc_intent_parsing() {
    assert_eq!(DocIntent::from_str("NO-OP"), Some(DocIntent::NoOp));
    assert_eq!(DocIntent::from_str("NOOP"), Some(DocIntent::NoOp));
    assert_eq!(DocIntent::from_str("no-op"), Some(DocIntent::NoOp));
    assert_eq!(DocIntent::from_str("APPEND"), Some(DocIntent::Append));
    assert_eq!(DocIntent::from_str("append"), Some(DocIntent::Append));
    assert_eq!(DocIntent::from_str("EDIT"), Some(DocIntent::Edit));
    assert_eq!(DocIntent::from_str("GREP"), Some(DocIntent::Grep));
    assert_eq!(DocIntent::from_str("CLEAR"), Some(DocIntent::Clear));
    assert_eq!(DocIntent::from_str("UNDO"), Some(DocIntent::Undo));
    assert_eq!(DocIntent::from_str("INVALID"), None);
}

#[test]
fn test_tool_intent() {
    assert_eq!(ToolIntent::NoTool, ToolIntent::NoTool);
    let search = ToolIntent::Search("test query".to_string());
    if let ToolIntent::Search(query) = search {
        assert_eq!(query, "test query");
    } else {
        panic!("Expected Search variant");
    }
}

#[test]
fn doc_intent_is_trimmed_and_has_aliases() {
    assert_eq!(DocIntent::from_str("  edit \n"), Some(DocIntent::Edit));
    assert_eq!(DocIntent::from_str("NO_OP"), Some(DocIntent::NoOp));
    assert_eq!(DocIntent::from_str("undo"), Some(DocIntent::Undo));
    assert_eq!(DocIntent::from_str("NOTH"), None);
    assert_eq!(DocIntent::from_str("noth"), None);
    assert_eq!(DocIntent::from_str(""), None);
    assert_eq!(DocIntent::from_normalized("edit"), None);
    assert_eq!(DocIntent::from_normalized("EDIT"), Some(DocIntent::Edit));
}

#[test]
fn plan_is_read_from_numbered_list() {
    let plan = parse_plan_response(
        "1. [EDIT] Fix the typo in the first paragraph\n2. [GREP] Change all \"Creek\" to \"River\"\n\n3. APPEND Add a summary at the end\n",
    )
    .unwrap();
    assert_eq!(plan.len(), 3);
    assert_eq!(plan[0].intent, "EDIT");
    assert_eq!(plan[0].instruction, "Fix the typo in the first paragraph");
    assert_eq!(plan[1].intent, "GREP");
    assert_eq!(plan[1].instruction, "Change all \"Creek\" to \"River\"");
    assert_eq!(plan[2].intent, "APPEND");
    assert_eq!(plan[2].instruction, "Add a summary at the end");
    assert_eq!(plan[0].to_doc_intent(), Some(DocIntent::Edit));
    assert_eq!(plan[1].effective_intent(), DocIntent::Grep);
}

#[test]
fn plan_falls_back_to_single_word_or_fails() {
    let plan = parse_plan_response("  clear \n").unwrap();
    assert_eq!(plan.len(), 1);
    assert_eq!(plan[0].intent, "clear");
    assert_eq!(plan[0].instruction, "Execute user request based on transcript");
    assert_eq!(plan[0].to_doc_intent(), Some(DocIntent::Clear));

    let err = parse_plan_response("I cannot decide").unwrap_err();
    assert_eq!(err, "Failed to parse intent plan from: 'I cannot decide'");
}

#[test]
fn unknown_intent_word_does_nothing() {
    let plan = parse_plan_response("1. [REWRITE] everything").unwrap();
    assert_eq!(plan.len(), 1);
    assert_eq!(plan[0].to_doc_intent(), None);
    assert_eq!(plan[0].effective_intent(), DocIntent::NoOp);
}

#[test]
fn empty_document_forces_append() {
    let routed = vec![PlanStep { intent: "CLEAR".to_string(), instruction: "wipe".to_string() }];
    let plan = effective_plan("  \n\t ", Some(routed));
    assert_eq!(plan.len(), 1);
    assert_eq!(plan[0].intent, "APPEND");
    assert_eq!(plan[0].instruction, "Initial document content");

    let plan = effective_plan("", None);
    assert_eq!(plan[0].intent, "APPEND");
    assert_eq!(plan[0].instruction, "Initial document content");
}

#[test]
fn failed_plan_router_falls_back_to_append() {
    let plan = effective_plan("# Title", None);
    assert_eq!(plan.len(), 1);
    assert_eq!(plan[0].intent, "APPEND");
    assert_eq!(plan[0].instruction, "Process transcript");

    let routed = vec![PlanStep { intent: "EDIT".to_string(), instruction: "x".to_string() }];
    let plan = effective_plan("# Title", Some(routed));
    assert_eq!(plan[0].intent, "EDIT");
}

#[test]
fn rag_need_answers() {
    assert_eq!(parse_rag_need_response(" TRUE \n"), Ok(true));
    assert_eq!(parse_rag_need_response("false"), Ok(false));
    assert_eq!(
        parse_rag_need_response("Maybe"),
        Err("Failed to parse RAG need from response: 'maybe'".to_string())
    );
    assert!(!rag_need_or_default(Err("x".to_string())));
    assert!(rag_need_or_default(Ok(true)));
}

#[test]
fn tool_intent_answers() {
    assert_eq!(parse_tool_intent_response("none", "hello"), Ok(ToolIntent::NoTool));
    assert_eq!(
        parse_tool_intent_response(" search ", "latest river news"),
        Ok(ToolIntent::Search("latest river news".to_string()))
    );
    assert_eq!(
        parse_tool_intent_response("browse", "x"),
        Err("Failed to parse tool intent from response: 'BROWSE'".to_string())
    );
    assert_eq!(tool_intent_or_default(Err("x".to_string())), ToolIntent::NoTool);
}
