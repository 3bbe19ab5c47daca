use hello_world::config::{
    merge_stack, AzureKeyvaultConfigError, AzureKeyvaultConfigSource, Config, ConfigError,
    CoreConfig, PreinitConfig, SecretEntry, SERVICE_NAME,
};
use hello_world::config_map::ConfigMap;
use hello_world::tracing_controller::Telemetry;

fn map_of(pairs: &[(&str, &str)]) -> ConfigMap {
    let mut m = ConfigMap::new();
    for (k, v) in pairs {
        m.insert(k.to_string(), v.to_string());
    }
    m
}

fn secret(key: &str, value: &str, enabled: bool) -> SecretEntry {
    SecretEntry { key: key.to_string(), value: value.to_string(), enabled }
}

fn vault(url: &str, secrets: &[(&str, &str, bool)]) -> AzureKeyvaultConfigSource {
    let mut source = AzureKeyvaultConfigSource::new(url);
    for (k, v, e) in secrets {
        source.record(secret(k, v, *e));
    }
    source.finish();
    source
}

fn full_file() -> ConfigMap {
    map_of(&[
        ("core.slot", "blue"),
        ("core.stage", "test"),
        ("tracing.allow_reconfigure", "true"),
        ("tracing.telemetry.type", "none"),
        ("FullSqlCns", "Server=local"),
    ])
}

#[test]
fn service_name_is_fixed() {
    assert_eq!(SERVICE_NAME, "hello-world");
}

#[test]
fn core_config_decodes_required_and_optional_keys() {
    let m = map_of(&[
        ("core.slot", "blue"),
        ("core.stage", "prod"),
        ("core.shared_keyvault", "https://shared.vault"),
    ]);
    let core = CoreConfig::decode(&m).unwrap();
    assert_eq!(core.slot, "blue");
    assert_eq!(core.stage, "prod");
    assert_eq!(core.shared_keyvault.as_deref(), Some("https://shared.vault"));
    assert_eq!(core.private_keyvault, None);
}

#[test]
fn core_config_needs_slot_and_stage() {
    let no_slot = map_of(&[("core.stage", "prod")]);
    assert!(matches!(
        CoreConfig::decode(&no_slot),
        Err(ConfigError::MissingOrInvalidConfig(field)) if field == "core.slot"
    ));
    let no_stage = map_of(&[("core.slot", "blue")]);
    assert!(matches!(
        CoreConfig::decode(&no_stage),
        Err(ConfigError::MissingOrInvalidConfig(field)) if field == "core.stage"
    ));
    assert!(matches!(
        CoreConfig::decode(&ConfigMap::new()),
        Err(ConfigError::MissingOrInvalidConfig(field)) if field == "core.slot"
    ));
}

#[test]
fn core_config_equality_is_field_for_field() {
    let a = CoreConfig {
        slot: "blue".to_string(),
        stage: "prod".to_string(),
        shared_keyvault: Some("https://shared.vault".to_string()),
        private_keyvault: None,
    };
    let b = a.clone();
    assert_eq!(a, b);
    let mut c = a.clone();
    c.stage = "test".to_string();
    assert_ne!(a, c);
    let mut d = a.clone();
    d.private_keyvault = Some(String::new());
    assert_ne!(a, d);
    let mut e = a.clone();
    e.shared_keyvault = None;
    assert_ne!(a, e);
    let mut f = a.clone();
    f.slot = "green".to_string();
    assert_ne!(a, f);
}

#[test]
fn preinit_reads_file_and_environment() {
    let file = map_of(&[("core.slot", "blue"), ("core.stage", "test")]);
    let env = map_of(&[("core.private_keyvault", "https://private.vault")]);
    let preinit = PreinitConfig::new(&file, &env).unwrap();
    assert_eq!(preinit.core.slot, "blue");
    assert_eq!(preinit.core.stage, "test");
    assert_eq!(preinit.core.shared_keyvault, None);
    assert_eq!(preinit.core.private_keyvault.as_deref(), Some("https://private.vault"));
}

#[test]
fn preinit_prefers_the_environment() {
    let file = map_of(&[("core.slot", "blue"), ("core.stage", "test")]);
    let env = map_of(&[("core.stage", "prod")]);
    let preinit = PreinitConfig::new(&file, &env).unwrap();
    assert_eq!(preinit.core.slot, "blue");
    assert_eq!(preinit.core.stage, "prod");
}

#[test]
fn preinit_fails_on_a_missing_key() {
    let file = map_of(&[("core.stage", "test")]);
    let env = ConfigMap::new();
    assert!(matches!(
        PreinitConfig::new(&file, &env),
        Err(ConfigError::MissingOrInvalidConfig(field)) if field == "core.slot"
    ));
}

#[test]
fn secret_key_is_the_simple_name() {
    assert_eq!(
        AzureKeyvaultConfigSource::secret_key("https://kv.vault.azure.net/secrets/db-password"),
        "db-password"
    );
    assert_eq!(AzureKeyvaultConfigSource::secret_key("FullSqlCns"), "FullSqlCns");
    assert_eq!(AzureKeyvaultConfigSource::secret_key("https://kv.vault.azure.net/secrets/"), "");
}

#[test]
fn source_keeps_its_address() {
    let mut source = AzureKeyvaultConfigSource::new("https://kv.vault.azure.net");
    assert_eq!(source.keyvault_url(), "https://kv.vault.azure.net");
    source.finish();
    assert_eq!(source.keyvault_url(), "https://kv.vault.azure.net");
    let collected = source.collect().unwrap();
    assert!(!collected.contains_key("db-password"));
}

#[test]
fn unfinished_source_collects_nothing() {
    let mut source = AzureKeyvaultConfigSource::new("https://kv");
    assert!(
        matches!(source.collect(), Err(ConfigError::ConfigSource(address)) if address == "https://kv")
    );
    source.record(secret("db-password", "alpha", true));
    assert!(
        matches!(source.collect(), Err(ConfigError::ConfigSource(address)) if address == "https://kv")
    );
    source.finish();
    let collected = source.collect().unwrap();
    assert_eq!(collected.get("db-password").map(|v| v.as_str()), Some("alpha"));
}

#[test]
fn finished_source_takes_nothing_more() {
    let mut source = vault("https://kv", &[("db-password", "alpha", true)]);
    source.record(secret("db-password", "late", true));
    source.record(secret("token", "late", true));
    let collected = source.collect().unwrap();
    assert_eq!(collected.get("db-password").map(|v| v.as_str()), Some("alpha"));
    assert!(collected.get("token").is_none());
}

#[test]
fn half_read_vault_fails_the_resolution() {
    let mut file = full_file();
    file.insert("core.shared_keyvault".to_string(), "https://shared".to_string());
    let mut shared = AzureKeyvaultConfigSource::new("https://shared");
    shared.record(secret("FullSqlCns", "alpha", true));
    let r = Config::new(&file, &ConfigMap::new(), Some(&shared), None);
    assert!(matches!(r, Err(ConfigError::ConfigSource(address)) if address == "https://shared"));
    shared.finish();
    let config = Config::new(&file, &ConfigMap::new(), Some(&shared), None).unwrap();
    assert_eq!(config.sql_cns, "Server=local");
}

#[test]
fn collect_takes_enabled_secrets_only() {
    let source = vault(
        "https://kv",
        &[("db-password", "alpha", true), ("api-key", "hidden", false), ("FullSqlCns", "cns", true)],
    );
    let collected = source.collect().unwrap();
    assert_eq!(collected.get("db-password").map(|v| v.as_str()), Some("alpha"));
    assert_eq!(collected.get("FullSqlCns").map(|v| v.as_str()), Some("cns"));
    assert!(collected.get("api-key").is_none());
}

#[test]
fn disabled_secret_does_not_hide_an_enabled_one() {
    let source = vault("https://kv", &[("k", "first", true), ("k", "second", false)]);
    let collected = source.collect().unwrap();
    assert_eq!(collected.get("k").map(|v| v.as_str()), Some("first"));
    let source = vault("https://kv", &[("k", "first", true), ("k", "second", true)]);
    let collected = source.collect().unwrap();
    assert_eq!(collected.get("k").map(|v| v.as_str()), Some("second"));
}

#[test]
fn disabled_secrets_never_reach_the_merged_map() {
    let shared = vault("https://shared", &[("db-password", "alpha", false)]);
    let private = vault("https://private", &[("token", "t", false), ("other", "o", true)]);
    let shared_map = shared.collect().unwrap();
    let private_map = private.collect().unwrap();
    let file = map_of(&[("core.slot", "blue")]);
    let merged = merge_stack(Some(&shared_map), Some(&private_map), &file, &ConfigMap::new());
    assert!(merged.get("db-password").is_none());
    assert!(merged.get("token").is_none());
    assert_eq!(merged.get("other").map(|v| v.as_str()), Some("o"));
    assert_eq!(merged.get("core.slot").map(|v| v.as_str()), Some("blue"));
}

#[test]
fn failed_source_collects_nothing() {
    let mut source = vault("https://kv", &[("db-password", "alpha", true)]);
    source.fail("connection refused".to_string());
    assert!(matches!(
        source.collect(),
        Err(ConfigError::Foreign(AzureKeyvaultConfigError::Azure(cause))) if cause == "connection refused"
    ));
}

#[test]
fn failed_source_stays_failed() {
    let mut source = AzureKeyvaultConfigSource::new("https://kv");
    source.fail("first".to_string());
    source.record(secret("db-password", "alpha", true));
    source.fail("second".to_string());
    source.finish();
    assert!(matches!(
        source.collect(),
        Err(ConfigError::Foreign(AzureKeyvaultConfigError::Azure(cause))) if cause == "first"
    ));
    assert_eq!(source.keyvault_url(), "https://kv");
}

#[test]
fn vault_error_converts_into_config_error() {
    let e: ConfigError = AzureKeyvaultConfigError::PreinitMismatch.into();
    assert!(matches!(e, ConfigError::Foreign(AzureKeyvaultConfigError::PreinitMismatch)));
    let e = ConfigError::from(AzureKeyvaultConfigError::Azure("denied".to_string()));
    assert!(
        matches!(e, ConfigError::Foreign(AzureKeyvaultConfigError::Azure(cause)) if cause == "denied")
    );
}

#[test]
fn merge_stack_file_wins_over_vault() {
    let shared = map_of(&[("FullSqlCns", "from-vault"), ("only-vault", "v")]);
    let file = map_of(&[("FullSqlCns", "from-file")]);
    let merged = merge_stack(Some(&shared), None, &file, &ConfigMap::new());
    assert_eq!(merged.get("FullSqlCns").map(|v| v.as_str()), Some("from-file"));
    assert_eq!(merged.get("only-vault").map(|v| v.as_str()), Some("v"));
    let private = map_of(&[("FullSqlCns", "from-private")]);
    let merged = merge_stack(None, Some(&private), &file, &ConfigMap::new());
    assert_eq!(merged.get("FullSqlCns").map(|v| v.as_str()), Some("from-file"));
}

#[test]
fn merge_stack_environment_wins_over_file() {
    let file = map_of(&[("FullSqlCns", "from-file"), ("core.slot", "blue")]);
    let env = map_of(&[("FullSqlCns", "from-env")]);
    let merged = merge_stack(None, None, &file, &env);
    assert_eq!(merged.get("FullSqlCns").map(|v| v.as_str()), Some("from-env"));
    assert_eq!(merged.get("core.slot").map(|v| v.as_str()), Some("blue"));
    let shared = map_of(&[("FullSqlCns", "from-vault")]);
    let merged = merge_stack(Some(&shared), None, &ConfigMap::new(), &env);
    assert_eq!(merged.get("FullSqlCns").map(|v| v.as_str()), Some("from-env"));
}

#[test]
fn private_vault_overrides_shared_vault() {
    let shared = vault("https://shared", &[("db-password", "alpha", true)]);
    let private = vault("https://private", &[("db-password", "beta", true)]);
    let shared_map = shared.collect().unwrap();
    let private_map = private.collect().unwrap();
    let file = map_of(&[("core.slot", "blue"), ("core.stage", "test")]);
    let merged = merge_stack(Some(&shared_map), Some(&private_map), &file, &ConfigMap::new());
    assert_eq!(merged.get("db-password").map(|v| v.as_str()), Some("beta"));
}

#[test]
fn private_vault_overrides_shared_vault_in_the_resolved_configuration() {
    let mut file = map_of(&[
        ("core.slot", "blue"),
        ("core.stage", "test"),
        ("core.shared_keyvault", "https://shared"),
        ("core.private_keyvault", "https://private"),
        ("tracing.allow_reconfigure", "false"),
        ("tracing.telemetry.type", "jaeger"),
    ]);
    let shared = vault("https://shared", &[("FullSqlCns", "alpha", true)]);
    let private = vault("https://private", &[("FullSqlCns", "beta", true)]);
    let config = Config::new(&file, &ConfigMap::new(), Some(&shared), Some(&private)).unwrap();
    assert_eq!(config.sql_cns, "beta");
    file.insert("FullSqlCns".to_string(), "from-file".to_string());
    let config = Config::new(&file, &ConfigMap::new(), Some(&shared), Some(&private)).unwrap();
    assert_eq!(config.sql_cns, "from-file");
    let env = map_of(&[("FullSqlCns", "from-env")]);
    let config = Config::new(&file, &env, Some(&shared), Some(&private)).unwrap();
    assert_eq!(config.sql_cns, "from-env");
}

#[test]
fn resolution_without_vaults() {
    let config = Config::new(&full_file(), &ConfigMap::new(), None, None).unwrap();
    assert_eq!(config.core.slot, "blue");
    assert_eq!(config.core.stage, "test");
    assert_eq!(config.core.shared_keyvault, None);
    assert_eq!(config.core.private_keyvault, None);
    assert!(config.tracing.allow_reconfigure());
    assert!(matches!(config.tracing.telemetry(), Telemetry::Disabled));
    assert_eq!(config.sql_cns, "Server=local");
}

#[test]
fn resolved_core_is_the_preinit_core() {
    let mut file = full_file();
    file.insert("core.shared_keyvault".to_string(), "https://shared".to_string());
    let env = map_of(&[("core.stage", "prod")]);
    let shared = vault("https://shared", &[("db-password", "alpha", true)]);
    let preinit = PreinitConfig::new(&file, &env).unwrap();
    let config = Config::new(&file, &env, Some(&shared), None).unwrap();
    assert_eq!(config.core, preinit.core);
    assert_eq!(config.core.stage, "prod");
}

#[test]
fn vault_that_changes_the_core_is_refused() {
    let mut file = full_file();
    file.insert("core.shared_keyvault".to_string(), "https://shared".to_string());
    let shared = vault("https://shared", &[("core.private_keyvault", "https://rogue", true)]);
    let r = Config::new(&file, &ConfigMap::new(), Some(&shared), None);
    assert!(matches!(r, Err(ConfigError::Foreign(AzureKeyvaultConfigError::PreinitMismatch))));
}

#[test]
fn vault_cannot_override_slot_or_stage() {
    let mut file = full_file();
    file.insert("core.shared_keyvault".to_string(), "https://shared".to_string());
    let shared = vault("https://shared", &[("core.stage", "prod", true)]);
    let config = Config::new(&file, &ConfigMap::new(), Some(&shared), None).unwrap();
    assert_eq!(config.core.stage, "test");
}

#[test]
fn disabled_rogue_secret_is_no_mismatch() {
    let mut file = full_file();
    file.insert("core.shared_keyvault".to_string(), "https://shared".to_string());
    let shared = vault("https://shared", &[("core.private_keyvault", "https://rogue", false)]);
    let config = Config::new(&file, &ConfigMap::new(), Some(&shared), None).unwrap();
    assert_eq!(config.core.private_keyvault, None);
}

#[test]
fn vault_without_address_is_left_out() {
    let file = full_file();
    let stray = vault("https://stray", &[("FullSqlCns", "stray", true)]);
    let config = Config::new(&file, &ConfigMap::new(), Some(&stray), Some(&stray)).unwrap();
    assert_eq!(config.sql_cns, "Server=local");
    let mut failed = AzureKeyvaultConfigSource::new("https://stray");
    failed.fail("unreachable".to_string());
    failed.finish();
    let config = Config::new(&file, &ConfigMap::new(), Some(&failed), Some(&failed)).unwrap();
    assert_eq!(config.sql_cns, "Server=local");
}

#[test]
fn named_vault_must_be_supplied() {
    let mut file = full_file();
    file.insert("core.shared_keyvault".to_string(), "https://shared".to_string());
    let r = Config::new(&file, &ConfigMap::new(), None, None);
    assert!(matches!(r, Err(ConfigError::ConfigSource(address)) if address == "https://shared"));
    let env = map_of(&[("core.private_keyvault", "https://private")]);
    let shared = vault("https://shared", &[]);
    let r = Config::new(&file, &env, Some(&shared), None);
    assert!(matches!(r, Err(ConfigError::ConfigSource(address)) if address == "https://private"));
}

#[test]
fn failed_vault_fails_the_resolution() {
    let mut file = full_file();
    file.insert("core.private_keyvault".to_string(), "https://private".to_string());
    let mut private = vault("https://private", &[("FullSqlCns", "beta", true)]);
    private.fail("401 unauthorized".to_string());
    let r = Config::new(&file, &ConfigMap::new(), None, Some(&private));
    assert!(matches!(
        r,
        Err(ConfigError::Foreign(AzureKeyvaultConfigError::Azure(cause))) if cause == "401 unauthorized"
    ));
}

#[test]
fn resolution_reports_the_first_missing_key() {
    let env = ConfigMap::new();
    let file = map_of(&[("core.slot", "blue"), ("core.stage", "test")]);
    assert!(matches!(
        Config::new(&file, &env, None, None),
        Err(ConfigError::MissingOrInvalidConfig(field)) if field == "tracing.allow_reconfigure"
    ));
    let file = map_of(&[
        ("core.slot", "blue"),
        ("core.stage", "test"),
        ("tracing.allow_reconfigure", "perhaps"),
    ]);
    assert!(matches!(
        Config::new(&file, &env, None, None),
        Err(ConfigError::MissingOrInvalidConfig(field)) if field == "tracing.allow_reconfigure"
    ));
    let file = map_of(&[
        ("core.slot", "blue"),
        ("core.stage", "test"),
        ("tracing.allow_reconfigure", "false"),
    ]);
    assert!(matches!(
        Config::new(&file, &env, None, None),
        Err(ConfigError::MissingOrInvalidConfig(field)) if field == "tracing.telemetry.type"
    ));
    let file = map_of(&[
        ("core.slot", "blue"),
        ("core.stage", "test"),
        ("tracing.allow_reconfigure", "false"),
        ("tracing.telemetry.type", "zipkin"),
    ]);
    assert!(matches!(
        Config::new(&file, &env, None, None),
        Err(ConfigError::MissingOrInvalidConfig(field)) if field == "FullSqlCns"
    ));
    assert!(matches!(
        Config::new(&env, &env, None, None),
        Err(ConfigError::MissingOrInvalidConfig(field)) if field == "core.slot"
    ));
}

#[test]
fn keys_are_the_keys_that_decoding_reads() {
    assert_eq!(
        Config::keys(),
        vec![
            "core.slot",
            "core.stage",
            "core.shared_keyvault",
            "core.private_keyvault",
            "tracing.allow_reconfigure",
            "tracing.telemetry.type",
            "tracing.telemetry.instrumentation_key",
            "FullSqlCns",
        ]
    );
}

#[test]
fn config_decode_reads_every_field() {
    let m = map_of(&[
        ("core.slot", "green"),
        ("core.stage", "prod"),
        ("core.shared_keyvault", "https://shared"),
        ("core.private_keyvault", "https://private"),
        ("tracing.allow_reconfigure", "false"),
        ("tracing.telemetry.type", "appInsight"),
        ("tracing.telemetry.instrumentation_key", "ikey"),
        ("FullSqlCns", "Server=db"),
    ]);
    let config = Config::decode(&m).unwrap();
    assert_eq!(config.core.slot, "green");
    assert_eq!(config.core.stage, "prod");
    assert_eq!(config.core.shared_keyvault.as_deref(), Some("https://shared"));
    assert_eq!(config.core.private_keyvault.as_deref(), Some("https://private"));
    assert!(!config.tracing.allow_reconfigure());
    assert!(matches!(
        config.tracing.telemetry(),
        Telemetry::AppInsight { instrumentation_key } if instrumentation_key == "ikey"
    ));
    assert_eq!(config.sql_cns, "Server=db");
    let copy = config.clone();
    assert_eq!(copy.core, config.core);
    assert_eq!(copy.sql_cns, config.sql_cns);
    assert_eq!(copy.tracing.allow_reconfigure(), config.tracing.allow_reconfigure());
}
