use plasma_simulation::logging::{init_with_config, LoggerConfig};

#[test]
fn test_logger_config_default() {
    let config = LoggerConfig::default();
    assert_eq!(config.level, log::LevelFilter::Info);
    assert!(!config.structured);
    assert!(!config.performance_monitoring);
}

#[test]
fn any_logger_config_is_accepted() {
    assert!(init_with_config(LoggerConfig::default()).is_ok());
    let config = LoggerConfig {
        level: log::LevelFilter::Trace,
        structured: true,
        performance_monitoring: true,
    };
    assert!(init_with_config(config).is_ok());
}
