use tinymemory::service::{
    check_diff_source, conversation_message_key, conversation_namespace, conversation_store_plan,
    entity_hotness_key, default_export_limit, default_limit,
    default_relations_limit, document_address, ensure_response_fits, forgotten_total,
    ingest_outcome, parse_taint, require_text, source_item_key_and_title, source_items_plan,
    source_namespace,
    validate_chat_batch, validate_conversation, validate_ingest_item, IngestItem, IngestOutcome,
    MemoryError, MemoryTaint, SourceItem, MAX_RESPONSE_BYTES, PER_ENTRY_OVERHEAD_BYTES,
};

fn item(source_id: &str, content: &str, mime: Option<&str>) -> IngestItem {
    IngestItem {
        source_id: source_id.into(),
        content: content.into(),
        mime: mime.map(str::to_string),
        namespace: None,
        source_ref: None,
        timestamp: None,
        taint: MemoryTaint::Internal,
    }
}

fn invalid_message(r: Result<(), MemoryError>) -> String {
    match r {
        Err(MemoryError::Invalid(m)) => m,
        other => panic!("expected Invalid, got {other:?}"),
    }
}

#[test]
fn ingest_accepts_decoded_text_only() {
    for mime in [
        "text/plain",
        " Text/Markdown; charset=utf-8",
        "application/ld+json",
        "image/svg+xml",
        "application/json",
        "APPLICATION/XML",
        "application/x-ndjson ; q=1",
    ] {
        assert!(validate_ingest_item(&item("s", "body", Some(mime))).is_ok(), "{mime}");
    }
    assert!(validate_ingest_item(&item("s", "body", None)).is_ok());
    assert_eq!(
        invalid_message(validate_ingest_item(&item("s", "body", Some(" Application/PDF ")))),
        "unsupported MIME 'application/pdf': ingest accepts decoded text only"
    );
}

#[test]
fn each_ingest_refusal_has_its_own_message() {
    let mut tainted = item("s", "body", None);
    tainted.taint = MemoryTaint::ExternalSync;
    assert_eq!(
        invalid_message(validate_ingest_item(&tainted)),
        "ingest cannot preserve a non-default taint in the chunk tier"
    );
    assert_eq!(
        invalid_message(validate_ingest_item(&item("s", " \n ", Some("text/plain")))),
        "ingest content must not be empty"
    );
}

#[test]
fn a_document_is_addressed_by_its_namespace_and_reference() {
    let plain = document_address(&item("doc-1", "body", None)).expect("addressable");
    assert_eq!(plain.namespace, "document:doc-1");
    assert_eq!(plain.key, "doc-1");
    assert_eq!(plain.id, "document:doc-1/doc-1");

    let mut placed = item("doc-2", "body", None);
    placed.namespace = Some("notes".into());
    placed.source_ref = Some("ref-9".into());
    let a = document_address(&placed).unwrap();
    assert_eq!((a.namespace.as_str(), a.key.as_str(), a.id.as_str()), ("notes", "ref-9", "notes/ref-9"));

    match document_address(&item(" ", "body", None)) {
        Err(MemoryError::Invalid(m)) => {
            assert_eq!(m, "document source id and content must not be empty")
        }
        other => panic!("{other:?}"),
    }
}

#[test]
fn a_conversation_batch_is_one_conversation_of_non_blank_messages() {
    assert!(validate_conversation(&vec![]).is_ok());
    assert!(validate_conversation(&vec![item("c1", "hi", None), item("c1", "yo", None)]).is_ok());
    assert_eq!(
        invalid_message(validate_conversation(&vec![item(" ", "hi", None)])),
        "conversation id must not be empty"
    );
    assert_eq!(
        invalid_message(validate_conversation(&vec![item("c1", "hi", None), item("c2", "yo", None)])),
        "conversation batches must contain one conversation and non-empty messages"
    );
    assert_eq!(
        invalid_message(validate_conversation(&vec![item("c1", "hi", None), item("c1", " ", None)])),
        "conversation batches must contain one conversation and non-empty messages"
    );
}

#[test]
fn a_chat_batch_reports_its_first_failing_message() {
    assert!(validate_chat_batch(&vec![]).is_ok());
    assert!(validate_chat_batch(&vec![item("c1", "a", None), item("c1", "b", None)]).is_ok());
    assert_eq!(
        invalid_message(validate_chat_batch(&vec![item("c1", "a", None), item("c2", "b", None)])),
        "ingest_chat batches must contain one conversation"
    );
    assert_eq!(
        invalid_message(validate_chat_batch(&vec![
            item("c1", "a", None),
            item("c1", " ", None),
            item("c2", "b", None),
        ])),
        "ingest content must not be empty"
    );
}

#[test]
fn conversation_messages_default_to_the_conversation_namespace() {
    assert_eq!(conversation_namespace(&item("c", "m", None), "thread-1"), "conversation:thread-1");
    let mut own = item("c", "m", None);
    own.namespace = Some("mine".into());
    assert_eq!(conversation_namespace(&own, "thread-1"), "mine");
}

#[test]
fn a_list_over_the_frame_budget_is_refused_not_truncated() {
    assert_eq!(MAX_RESPONSE_BYTES, 8 * 1024 * 1024);
    assert_eq!(PER_ENTRY_OVERHEAD_BYTES, 512);
    assert!(ensure_response_fits(&vec!["small".to_string(); 10]).is_ok());
    let big = "x".repeat(MAX_RESPONSE_BYTES / 2);
    let refused = ensure_response_fits(&vec![big.clone(), big]).unwrap_err();
    assert_eq!(refused.entries, 2);
    assert_eq!(refused.estimate, (MAX_RESPONSE_BYTES + 2 * PER_ENTRY_OVERHEAD_BYTES) as u128);
    assert!(ensure_response_fits(&vec!["é".repeat(MAX_RESPONSE_BYTES / 2 - 256)]).is_ok());
    assert_eq!(
        refused.message("List"),
        "List would return 2 entries (~8389632 bytes), over the 8388608 byte response ceiling; \
         narrow the query by namespace, category or session"
    );
}

#[test]
fn page_sizes_default_when_unnamed() {
    assert_eq!(default_limit(), 10);
    assert_eq!(default_export_limit(), 50);
    assert_eq!(default_relations_limit(), 100);
}

#[test]
fn only_external_sync_is_external() {
    assert_eq!(parse_taint(&Some("external_sync".into())), MemoryTaint::ExternalSync);
    assert_eq!(parse_taint(&Some("External_Sync".into())), MemoryTaint::Internal);
    assert_eq!(parse_taint(&None), MemoryTaint::Internal);
}

#[test]
fn an_import_counts_written_and_skipped_without_aborting() {
    let mut outcome = IngestOutcome::new();
    outcome.record::<String>(Ok("a/1".into()));
    outcome.record::<String>(Err("bad".into()));
    outcome.record::<String>(Ok("a/2".into()));
    assert_eq!(outcome.written, 2);
    assert_eq!(outcome.skipped, 1);
    assert_eq!(outcome.ids, vec!["a/1".to_string(), "a/2".to_string()]);
}

#[test]
fn an_engine_run_reports_written_chunks_and_one_skip_when_already_ingested() {
    let fresh = ingest_outcome(4, 2, false, vec!["c".into()]);
    assert_eq!((fresh.written, fresh.skipped), (4, 2));
    let again = ingest_outcome(0, 7, true, vec![]);
    assert_eq!((again.written, again.skipped), (0, 1));
    let huge = ingest_outcome(usize::MAX, 0, false, vec![]);
    assert_eq!(huge.written, u32::MAX);
}

#[test]
fn source_items_are_keyed_by_id_and_titled_by_title_or_id() {
    assert_eq!(source_namespace("drive-1"), "source:drive-1");
    let mut it = SourceItem {
        item_id: "item-1".into(),
        title: "  ".into(),
        content: "source body".into(),
        url: None,
        mime: Some("text/plain".into()),
        tags: vec![],
    };
    assert_eq!(
        source_item_key_and_title(&it).unwrap(),
        ("item-1".to_string(), "item-1".to_string())
    );
    it.title = "Source item".into();
    assert_eq!(source_item_key_and_title(&it).unwrap().1, "Source item");
    it.item_id = " ".into();
    match source_item_key_and_title(&it) {
        Err(MemoryError::Invalid(m)) => assert_eq!(m, "source item_id must not be empty"),
        other => panic!("{other:?}"),
    }
}

#[test]
fn forgetting_a_source_counts_documents_and_chunks() {
    assert_eq!(forgotten_total(3, 4), 7);
    assert_eq!(forgotten_total(usize::MAX, 1), usize::MAX as u64);
}

#[test]
fn a_diff_of_another_sources_snapshot_is_refused() {
    assert!(check_diff_source("src-1", "src-1", "snap-2").is_ok());
    match check_diff_source("src-1", "src-2", "snap-2") {
        Err(MemoryError::Invalid(m)) => {
            assert_eq!(m, "snapshot 'snap-2' belongs to a different source")
        }
        other => panic!("{other:?}"),
    }
}

#[test]
fn blank_text_is_refused_with_the_callers_message() {
    assert!(require_text(" q ", "query must not be empty").is_ok());
    assert_eq!(
        invalid_message(require_text(" \t", "query must not be empty")),
        "query must not be empty"
    );
}

#[test]
fn entity_hotness_is_kept_per_namespace() {
    assert_eq!(entity_hotness_key("notes", "person/ada"), "notes:person/ada");
}

#[test]
fn a_conversation_message_is_keyed_by_the_digest_of_its_place_and_content() {
    assert_eq!(
        conversation_message_key("thread-1", 0, "hello", None),
        "message-c8dd48cd0c77096cc258fc097c421b6021903a86329f2b9749be4d2827054ba6"
    );
    assert_eq!(
        conversation_message_key("thread-1", 1, "world", Some("2026-01-02T03:04:05+00:00")),
        "message-bfcac879b13ca9565b8af1c8db2b5f1d4a80c74d2c45e93ca23177bd52c7d2dd"
    );
    assert_ne!(
        conversation_message_key("thread-1", 0, "hello", None),
        conversation_message_key("thread-1", 1, "hello", None),
        "the same words at another position are another message"
    );
}

#[test]
fn a_conversation_batch_is_planned_whole_or_refused_whole() {
    let mut second = item("thread-1", "world", None);
    second.namespace = Some("mine".into());
    second.timestamp = Some("2026-01-02T03:04:05+00:00".into());
    let plan = conversation_store_plan(&vec![item("thread-1", "hello", None), second]).unwrap();
    assert_eq!(
        plan,
        vec![
            (
                "conversation:thread-1".to_string(),
                "message-c8dd48cd0c77096cc258fc097c421b6021903a86329f2b9749be4d2827054ba6".to_string()
            ),
            (
                "mine".to_string(),
                "message-bfcac879b13ca9565b8af1c8db2b5f1d4a80c74d2c45e93ca23177bd52c7d2dd".to_string()
            ),
        ]
    );
    assert!(conversation_store_plan(&vec![]).unwrap().is_empty());
    assert_eq!(
        invalid_message(conversation_store_plan(&vec![item("a", "x", None), item("b", "y", None)]).map(|_| ())),
        "conversation batches must contain one conversation and non-empty messages"
    );
}

fn source_item(id: &str, title: &str) -> SourceItem {
    SourceItem {
        item_id: id.into(),
        title: title.into(),
        content: "body".into(),
        url: None,
        mime: None,
        tags: vec![],
    }
}

#[test]
fn source_items_before_the_first_blank_id_are_stored_and_the_rest_are_not() {
    let (stored, refusal) = source_items_plan(&vec![
        source_item("a", "A"),
        source_item("b", " "),
        source_item("  ", "C"),
        source_item("d", "D"),
    ]);
    assert_eq!(
        stored,
        vec![("a".to_string(), "A".to_string()), ("b".to_string(), "b".to_string())]
    );
    match refusal {
        Some(MemoryError::Invalid(m)) => assert_eq!(m, "source item_id must not be empty"),
        other => panic!("{other:?}"),
    }
    let (all, none) = source_items_plan(&vec![source_item("x", "X")]);
    assert_eq!(all.len(), 1);
    assert!(none.is_none());
}
