use tinymemory::config::{
    prepare_setup, ModuleConfig, ProcessSetupSlot, ALREADY_SET_UP, TINYCORTEX_DRIVER_ID,
};

#[test]
fn an_absent_workspace_is_refused() {
    let config = ModuleConfig::default();
    assert!(config.validate().is_err());
}

#[test]
fn a_workspace_alone_is_enough() {
    let config = ModuleConfig {
        workspace_dir: "/tmp/does-not-need-to-exist".into(),
        ..ModuleConfig::default()
    };
    assert!(config.validate().is_ok(), "{:?}", config.validate());
}

#[test]
fn the_refusal_names_the_field_but_never_a_path() {
    let error = ModuleConfig::default().validate().unwrap_err();
    assert!(error.contains("workspace_dir"), "{error}");
}

#[test]
fn the_default_driver_id_is_the_engine_this_module_carries() {
    assert_eq!(ModuleConfig::default().driver_id, TINYCORTEX_DRIVER_ID);
}

#[test]
fn a_credential_nested_in_the_memory_config_is_stripped() {
    let mut config = ModuleConfig {
        workspace_dir: "/tmp/w".into(),
        ..ModuleConfig::default()
    };
    config.memory.agentmemory_secret = Some("bearer-token-value".to_string());
    assert!(config.strip_host_credentials(), "it should report removing one");
    assert!(config.memory.agentmemory_secret.is_none());
}

#[test]
fn stripping_a_config_without_a_credential_reports_nothing_removed() {
    let mut config = ModuleConfig {
        workspace_dir: "/tmp/w".into(),
        ..ModuleConfig::default()
    };
    assert!(!config.strip_host_credentials());
}

#[test]
fn stripping_is_idempotent() {
    let mut config = ModuleConfig {
        workspace_dir: "/tmp/w".into(),
        ..ModuleConfig::default()
    };
    config.memory.agentmemory_secret = Some("t".to_string());
    assert!(config.strip_host_credentials());
    assert!(!config.strip_host_credentials());
}

#[test]
fn a_process_is_set_up_once() {
    let mut slot = ProcessSetupSlot::new();
    let mut config = ModuleConfig {
        workspace_dir: "/tmp/w".into(),
        ..ModuleConfig::default()
    };
    config.memory.agentmemory_secret = Some("t".to_string());
    assert_eq!(prepare_setup(&mut config, &mut slot), Ok(true));
    assert!(config.memory.agentmemory_secret.is_none());
    let mut second = ModuleConfig {
        workspace_dir: "/tmp/w".into(),
        ..ModuleConfig::default()
    };
    assert_eq!(prepare_setup(&mut second, &mut slot), Err(ALREADY_SET_UP.to_string()));
}

#[test]
fn a_refused_config_does_not_use_up_the_setup_slot() {
    let mut slot = ProcessSetupSlot::new();
    let mut blank = ModuleConfig::default();
    assert_eq!(
        prepare_setup(&mut blank, &mut slot),
        Err("workspace_dir must be set".to_string())
    );
    let mut good = ModuleConfig {
        workspace_dir: "/tmp/w".into(),
        ..ModuleConfig::default()
    };
    assert_eq!(prepare_setup(&mut good, &mut slot), Ok(false));
    assert!(slot.claim_process_setup().is_err());
}
