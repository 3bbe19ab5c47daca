use hello_world::config::Config;
use hello_world::config_map::ConfigMap;
use hello_world::hello_controller;
use hello_world::tracing_controller::{
    reconfigure, service, FilterLayer, Telemetry, TraceConfigRequest,
};
use tracing::Dispatch;
use tracing_subscriber::filter::EnvFilter;
use tracing_subscriber::layer::SubscriberExt;

#[test]
fn fixed_service_refuses_reconfiguration_and_still_shows_its_configuration() {
    let mut file = ConfigMap::new();
    file.insert("core.slot".to_string(), "blue".to_string());
    file.insert("core.stage".to_string(), "test".to_string());
    file.insert("tracing.allow_reconfigure".to_string(), "false".to_string());
    file.insert("tracing.telemetry.type".to_string(), "none".to_string());
    file.insert("FullSqlCns".to_string(), "Server=local".to_string());
    let config = Config::new(&file, &ConfigMap::new(), None, None).unwrap();
    assert!(!config.tracing.allow_reconfigure());
    assert!(matches!(config.tracing.telemetry(), Telemetry::Disabled));

    let (mut started, layer) = service(&config.tracing, EnvFilter::new("warn"));
    let filter = match layer {
        FilterLayer::Fixed(filter) => filter,
        FilterLayer::Reloadable(_) => panic!("the filter was made reloadable"),
    };
    let dispatch = Dispatch::new(tracing_subscriber::registry().with(filter));
    let installed = started.set_global_logger(dispatch);
    assert!(installed.is_ok(), "installation failed: {:?}", installed);
    let mut state = started.into_state();
    assert!(!state.is_reconfigurable());

    let r = reconfigure(&mut state, TraceConfigRequest::new("debug".to_string()));
    assert_eq!(r, Err("Trace reconfigure is not enabled".to_string()));

    let hello = hello_controller::service(&config);
    let shown = hello.get_configuration();
    assert_eq!(shown.core, config.core);
    assert_eq!(shown.core.slot, "blue");
    assert_eq!(shown.sql_cns, "Server=local");
    assert!(!shown.tracing.allow_reconfigure());
}
