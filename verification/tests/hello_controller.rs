use hello_world::config::Config;
use hello_world::config_map::ConfigMap;
use hello_world::hello_controller::service;
use hello_world::tracing_controller::Telemetry;

#[test]
fn service_shows_the_configuration_it_was_started_with() {
    let mut file = ConfigMap::new();
    file.insert("core.slot".to_string(), "green".to_string());
    file.insert("core.stage".to_string(), "prod".to_string());
    file.insert("tracing.allow_reconfigure".to_string(), "true".to_string());
    file.insert("tracing.telemetry.type".to_string(), "zipkin".to_string());
    file.insert("FullSqlCns".to_string(), "Server=db".to_string());
    let config = Config::new(&file, &ConfigMap::new(), None, None).unwrap();
    let hello = service(&config);
    let first = hello.get_configuration();
    let second = hello.get_configuration();
    assert_eq!(first.core, config.core);
    assert_eq!(second.core, config.core);
    assert_eq!(first.core.stage, "prod");
    assert_eq!(first.sql_cns, "Server=db");
    assert!(first.tracing.allow_reconfigure());
    assert!(matches!(first.tracing.telemetry(), Telemetry::Zipkin));
}
