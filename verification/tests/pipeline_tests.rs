use std::sync::Arc;
use tinymemory::pipeline::{
    build_composio_pipeline, composio_config, connection_key, is_composio_toolkit_syncable,
    skill_namespace, syncable_composio_toolkits, tree_ingest_plan, ComposioMode,
    ComposioPipelineKind, ComposioSettings, ComposioSyncConfig, ConnectionGuards, PipelineHost,
    SkillDocument, SyncHostConfig,
};

#[test]
fn unsupported_toolkit_is_rejected_before_resolving_credentials() {
    let err = build_composio_pipeline("googlecalendar", "conn-1", ComposioSyncConfig::default())
        .err()
        .expect("unsupported toolkit must be rejected");
    assert!(
        err.contains("does not support toolkit 'googlecalendar'"),
        "got: {err}"
    );
}

#[test]
fn the_syncable_set_is_exactly_the_native_pipelines() {
    for toolkit in syncable_composio_toolkits() {
        assert!(
            build_composio_pipeline(toolkit, "conn-1", ComposioSyncConfig::default()).is_ok(),
            "advertised toolkit '{toolkit}' must build"
        );
    }
    assert!(!is_composio_toolkit_syncable("googlecalendar"));
    assert!(is_composio_toolkit_syncable(" Gmail "));
}

#[test]
fn a_padded_or_mixed_case_toolkit_builds_rather_than_panicking() {
    for toolkit in [" Gmail ", "GMAIL", "gmail\t", " Slack"] {
        assert!(
            build_composio_pipeline(toolkit, "conn-1", ComposioSyncConfig::default()).is_ok(),
            "{toolkit:?} passes the toolkit check and must build"
        );
    }
}

#[test]
fn one_connection_admits_one_run_at_a_time() {
    let mut guards = ConnectionGuards::new();
    let held = guards
        .try_hold_connection("gmail", "guard-single")
        .expect("the first run takes the guard");
    assert!(
        guards.try_hold_connection("gmail", "guard-single").is_none(),
        "a second run of the same connection must be refused, not queued"
    );
    guards.release(held);
    assert!(
        guards.try_hold_connection("gmail", "guard-single").is_some(),
        "the guard must be released when the run ends"
    );
}

#[test]
fn different_connections_hold_independent_guards() {
    let mut guards = ConnectionGuards::new();
    let first = guards
        .try_hold_connection("gmail", "guard-independent-a")
        .expect("the first connection takes its guard");
    let second = guards
        .try_hold_connection("gmail", "guard-independent-b")
        .expect("a different connection has its own guard");
    guards.release(first);
    guards.release(second);
}

#[test]
fn the_guard_key_normalises_the_toolkit_like_the_gate() {
    assert_eq!(
        connection_key(" Gmail ", " conn-1 "),
        connection_key("gmail", "conn-1")
    );
    let mut guards = ConnectionGuards::new();
    let held = guards
        .try_hold_connection("gmail", "guard-normalised")
        .expect("the first run takes the guard");
    assert!(
        guards.try_hold_connection(" GMAIL\t", "guard-normalised").is_none(),
        "a padded, mixed-case toolkit names the same connection"
    );
    guards.release(held);
}

#[test]
fn the_slack_backfill_shares_the_slack_sync_guard() {
    assert_eq!(
        connection_key("slack", "guard-slack"),
        connection_key("Slack", "guard-slack")
    );
    let mut guards = ConnectionGuards::new();
    let held = guards
        .try_hold_connection("slack", "guard-slack")
        .expect("the sync takes the guard");
    assert!(
        guards.try_hold_connection("slack", "guard-slack").is_none(),
        "the backfill must not run while a Slack sync of this connection is running"
    );
    guards.release(held);
}

#[test]
fn each_native_toolkit_selects_its_own_pipeline() {
    let cases = [
        ("clickup", ComposioPipelineKind::ClickUp),
        ("GitHub", ComposioPipelineKind::GitHub),
        ("gmail", ComposioPipelineKind::Gmail),
        (" linear", ComposioPipelineKind::Linear),
        ("Notion", ComposioPipelineKind::Notion),
        ("slack ", ComposioPipelineKind::Slack),
    ];
    for (toolkit, kind) in cases {
        let spec = build_composio_pipeline(toolkit, "conn-9", ComposioSyncConfig::default())
            .expect("native toolkit builds");
        assert_eq!(spec.kind, kind);
        assert_eq!(spec.connection_id, "conn-9");
    }
    let err = build_composio_pipeline(" Jira ", "c", ComposioSyncConfig::default()).unwrap_err();
    assert_eq!(err, "memory sync does not support toolkit ' Jira '");
}

fn document(toolkit: &str, connection: &str) -> SkillDocument {
    SkillDocument {
        namespace_skill_id: "gmail".into(),
        connection_id: connection.into(),
        document_id: "gmail:msg-1".into(),
        title: "Quarterly planning".into(),
        content: "Let's finalise the Q3 roadmap and align on the launch date.".into(),
        toolkit: toolkit.into(),
        metadata: "{\"source\":\"composio-provider-incremental\"}".into(),
    }
}

#[test]
fn a_synced_document_is_keyed_by_its_connection_scope() {
    let plan = tree_ingest_plan(&document("gmail", "conn-1")).expect("scoped document");
    assert_eq!(plan.source_id, "gmail:conn-1:gmail:msg-1");
    assert_eq!(plan.tree_scope, "gmail:conn-1");
    assert_eq!(plan.owner, "gmail-sync:conn-1");
    assert_eq!(plan.provider, "composio:gmail");
    assert_eq!(plan.tags, vec!["composio_sync".to_string(), "gmail".to_string()]);
    assert_eq!(plan.title, "Quarterly planning");
    assert_eq!(plan.body, "Let's finalise the Q3 roadmap and align on the launch date.");
    assert_eq!(plan.source_ref, "gmail:msg-1");
    assert_eq!(
        plan.failure("disk full"),
        "memory-tree ingest failed for source `gmail:conn-1:gmail:msg-1`: disk full"
    );
}

#[test]
fn an_item_without_a_connection_scope_skips_the_tree_but_not_the_store() {
    assert!(tree_ingest_plan(&document("gmail", "   ")).is_none());
    assert!(tree_ingest_plan(&document("", "conn-1")).is_none());
    let host: PipelineHost<(), ()> = PipelineHost::new((), ());
    assert!(host.store_plan(&document("gmail", "   ")).tree.is_none());
    assert!(host.store_plan(&document("gmail", "conn-1")).tree.is_some());
    let plain: PipelineHost<(), ()> = PipelineHost::without_tree_ingest(());
    assert!(plain.store_plan(&document("gmail", "conn-1")).tree.is_none());
}

#[test]
fn the_context_serves_every_capability_from_one_adapter() {
    let host = Arc::new(PipelineHost::<u8, u8>::new(7, 9));
    let context = host.context();
    assert!(Arc::ptr_eq(&context.events, &host));
    assert!(Arc::ptr_eq(&context.documents, &host));
    assert!(Arc::ptr_eq(&context.state, &host));
}

#[test]
fn skill_namespaces_are_prefixed_and_trimmed() {
    assert_eq!(skill_namespace(" gmail "), "skill-gmail");
}

fn host_config(mode: &str, api_key: Option<&str>) -> SyncHostConfig {
    SyncHostConfig {
        composio: ComposioSettings {
            mode: mode.into(),
            api_key: api_key.map(str::to_string),
            entity_id: "default".into(),
        },
        session_token: Ok(Some("session".into())),
        backend_api_url: "https://backend.example".into(),
    }
}

#[test]
fn direct_mode_prefers_the_host_key_then_the_configured_one() {
    let from_host = composio_config(&host_config("DIRECT", Some("cfg-key")), Some("host-key".into()))
        .expect("direct mode with a key");
    assert_eq!(from_host.mode, ComposioMode::Direct);
    assert_eq!(from_host.base_url, "https://backend.composio.dev/api/v3");
    assert_eq!(from_host.api_key.as_deref(), Some("host-key"));
    assert_eq!(from_host.bearer_token, None);
    assert_eq!(from_host.entity_id.as_deref(), Some("default"));

    let from_config = composio_config(&host_config("direct", Some("cfg-key")), None).unwrap();
    assert_eq!(from_config.api_key.as_deref(), Some("cfg-key"));

    let missing = composio_config(&host_config("direct", None), None).unwrap_err();
    assert_eq!(missing, "Composio direct API key is not configured");
}

#[test]
fn every_other_mode_goes_through_the_backend_with_the_session_token() {
    let proxied = composio_config(&host_config("backend", None), None).expect("signed in");
    assert_eq!(proxied.mode, ComposioMode::Proxied);
    assert_eq!(proxied.base_url, "https://backend.example");
    assert_eq!(proxied.bearer_token.as_deref(), Some("session"));
    assert_eq!(proxied.api_key, None);

    let mut signed_out = host_config("backend", None);
    signed_out.session_token = Ok(None);
    assert_eq!(
        composio_config(&signed_out, None).unwrap_err(),
        "OpenHuman backend bearer token is not configured"
    );

    let mut unreadable = host_config("backend", None);
    unreadable.session_token = Err("token store locked".into());
    assert_eq!(composio_config(&unreadable, None).unwrap_err(), "token store locked");
}
