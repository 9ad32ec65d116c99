use autoloop::knowledge::{export_session_id, focus_anchors, knowledge_index, plan_knowledge_export, KnowledgeExport};

#[test]
fn export_session_id_strips_every_anchor_prefix() {
    assert_eq!(export_session_id("anchor:s1"), "s1");
    assert_eq!(export_session_id("anchor:anchor:s1"), "s1");
    assert_eq!(export_session_id("s1"), "s1");
    assert_eq!(export_session_id("anchor"), "anchor");
}

#[test]
fn export_types_map_to_their_records() {
    match plan_knowledge_export("anchor:s1", "brief") {
        KnowledgeExport::Record { key } => assert_eq!(key, "anchor:s1:brief"),
        other => panic!("unexpected plan {:?}", other),
    }
    match plan_knowledge_export("s1", "sla") {
        KnowledgeExport::Record { key } => assert_eq!(key, "observability:s1:sla-report"),
        other => panic!("unexpected plan {:?}", other),
    }
    match plan_knowledge_export("s1", "global-graph") {
        KnowledgeExport::Record { key } => assert_eq!(key, "graph:global:snapshot"),
        other => panic!("unexpected plan {:?}", other),
    }
    match plan_knowledge_export("s1", "something-else") {
        KnowledgeExport::Record { key } => assert_eq!(key, "graph:s1:snapshot"),
        other => panic!("unexpected plan {:?}", other),
    }
    match plan_knowledge_export("s1", "revenue") {
        KnowledgeExport::Listing { prefix } => assert_eq!(prefix, "business:revenue-event:s1:"),
        other => panic!("unexpected plan {:?}", other),
    }
    assert!(matches!(plan_knowledge_export("s1", "dashboard"), KnowledgeExport::Dashboard));
    assert!(matches!(plan_knowledge_export("s1", "replay-report"), KnowledgeExport::ReplayReport));
}

#[test]
fn the_index_lists_the_session_prefixes() {
    match plan_knowledge_export("anchor:s1", "index") {
        KnowledgeExport::Index { prefixes } => {
            assert_eq!(prefixes.len(), 10);
            assert_eq!(prefixes[0], "anchor:s1");
            assert_eq!(prefixes[1], "graph:s1:");
            assert_eq!(prefixes[8], "business:revenue-event:s1:");
            assert_eq!(prefixes[9], "replay:analysis:");
        },
        other => panic!("unexpected plan {:?}", other),
    }
}

#[test]
fn knowledge_index_sorts_and_removes_duplicates() {
    let keys = vec![
        "graph:s1:snapshot".to_string(),
        "anchor:s1".to_string(),
        "graph:s1:snapshot".to_string(),
        "anchor:s1:brief".to_string(),
        "Zeta".to_string(),
        "b".to_string(),
        "é".to_string(),
    ];
    let mut expected = keys.clone();
    expected.sort();
    expected.dedup();
    assert_eq!(knowledge_index(keys), expected);
    assert!(knowledge_index(Vec::new()).is_empty());
}

#[test]
fn focus_anchors_keep_briefed_anchors_that_are_not_deleted() {
    let keys = vec![
        "anchor:b:brief".to_string(),
        "anchor:a:brief".to_string(),
        "anchor:a:brief".to_string(),
        "anchor:c:brief".to_string(),
        "anchor:c:deleted".to_string(),
        "anchor:d:deleted".to_string(),
        "anchor:e".to_string(),
    ];
    assert_eq!(focus_anchors(keys), vec!["anchor:a".to_string(), "anchor:b".to_string()]);
    assert!(focus_anchors(Vec::new()).is_empty());
}
