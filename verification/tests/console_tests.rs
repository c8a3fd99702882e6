use tinymemory::console::{
    connected_status, disconnected_status, engine_status, plan_connection, ConnectRequest,
    EnginePlan,
};

fn request(engine: &str, endpoint: Option<&str>, deployment: Option<&str>, key: Option<&str>) -> ConnectRequest {
    ConnectRequest {
        engine: engine.into(),
        deployment: deployment.map(str::to_string),
        endpoint: endpoint.map(str::to_string),
        api_key: key.map(str::to_string),
    }
}

#[test]
fn invalid_engine_deployment_and_cloud_credentials_are_rejected() {
    let cases = [
        (request("unknown", None, None, None), "unknown engine: unknown"),
        (request("supermemory", None, None, None), "supermemory requires an endpoint URL"),
        (
            request("mem0", Some("http://localhost"), Some("other"), None),
            "unknown Mem0 deployment: other",
        ),
        (
            request("mem0", Some("https://api.mem0.ai"), Some("cloud"), None),
            "Mem0 Cloud requires an API key",
        ),
        (
            request("cognee", Some("https://example.invalid"), Some("cloud"), None),
            "Cognee Cloud requires an API key",
        ),
    ];
    for (req, message) in cases {
        assert_eq!(plan_connection(&req).unwrap_err(), message);
    }
}

#[test]
fn the_hosted_mem0_endpoint_is_cloud_unless_told_otherwise() {
    assert_eq!(
        plan_connection(&request("mem0", Some("https://api.mem0.ai"), None, None)).unwrap_err(),
        "Mem0 Cloud requires an API key"
    );
    match plan_connection(&request("mem0", Some("https://api.mem0.ai"), Some("self_hosted"), Some(""))) {
        Ok(EnginePlan::Mem0 { endpoint, api_key, cloud }) => {
            assert_eq!(endpoint, "https://api.mem0.ai");
            assert_eq!(api_key, None, "an empty key is no key");
            assert!(!cloud);
        }
        other => panic!("{other:?}"),
    }
    match plan_connection(&request("mem0", Some("http://localhost:8000"), None, None)) {
        Ok(EnginePlan::Mem0 { cloud, .. }) => assert!(!cloud),
        other => panic!("{other:?}"),
    }
}

#[test]
fn local_and_self_hosted_engines_connect_without_a_key() {
    assert!(matches!(plan_connection(&request("local", None, None, None)), Ok(EnginePlan::Local)));
    match plan_connection(&request("supermemory", Some("http://sm"), None, Some("k"))) {
        Ok(EnginePlan::Supermemory { endpoint, api_key }) => {
            assert_eq!(endpoint, "http://sm");
            assert_eq!(api_key.as_deref(), Some("k"));
        }
        other => panic!("{other:?}"),
    }
    match plan_connection(&request("cognee", Some("http://cg"), None, None)) {
        Ok(EnginePlan::Cognee { cloud, .. }) => assert!(!cloud),
        other => panic!("{other:?}"),
    }
    assert_eq!(
        plan_connection(&request("cognee", Some(""), None, None)).unwrap_err(),
        "cognee requires an endpoint URL"
    );
}

#[test]
fn a_disconnected_console_reports_nothing_bound() {
    let status = disconnected_status();
    assert!(!status.connected);
    assert!(status.driver_id.is_none() && status.engine.is_none() && !status.has_graph);
}

#[test]
fn the_status_reports_the_bound_engine() {
    let status = engine_status(Some(("tinycortex".to_string(), true)));
    assert!(status.connected && status.has_graph);
    assert_eq!(status.driver_id.as_deref(), Some("tinycortex"));
    assert!(status.engine.is_none());
    assert!(!engine_status(None).connected);
}

#[test]
fn a_connect_reports_the_engine_it_bound() {
    let status = connected_status("mem0".to_string(), "mem0".to_string(), false);
    assert!(status.connected);
    assert_eq!(status.engine.as_deref(), Some("mem0"));
    assert_eq!(status.driver_id.as_deref(), Some("mem0"));
    assert!(!status.has_graph);
}
