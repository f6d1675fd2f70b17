use danube_connect_core::{
    ConnectorConfig, ConnectorError, ProcessingSettings, RetrySettings, SchemaMapping,
    SubscriptionType, VersionStrategy,
};
use std::path::PathBuf;

fn configuration_message(r: Result<(), ConnectorError>) -> String {
    match r {
        Err(ConnectorError::Configuration(m)) => m,
        other => panic!("expected a configuration error, got {:?}", other),
    }
}

#[test]
fn test_config_default() {
    let config = ConnectorConfig::default();
    assert_eq!(config.danube_service_url, "http://localhost:6650");
    assert_eq!(config.connector_name, "default-connector");
    assert_eq!(config.retry.max_retries, 3);
    assert_eq!(config.processing.batch_size, 1000);
}

#[test]
fn test_config_validation() {
    let mut config = ConnectorConfig::default();
    assert!(config.validate().is_ok());

    config.danube_service_url = "".to_string();
    assert!(config.validate().is_err());

    config.danube_service_url = "http://localhost:6650".to_string();
    config.processing.batch_size = 0;
    assert!(config.validate().is_err());
}

#[test]
fn validation_reports_each_problem_in_order() {
    let mut config = ConnectorConfig::default();
    config.danube_service_url = String::new();
    config.connector_name = String::new();
    assert_eq!(configuration_message(config.validate()), "danube_service_url cannot be empty");

    config.danube_service_url = "http://broker:6650".to_string();
    assert_eq!(configuration_message(config.validate()), "connector_name cannot be empty");

    config.connector_name = "c".to_string();
    config.retry.max_retries = 101;
    assert_eq!(configuration_message(config.validate()), "max_retries too high (max 100)");

    config.retry.max_retries = 100;
    config.processing.batch_size = 0;
    assert_eq!(configuration_message(config.validate()), "batch_size must be > 0");

    config.processing.batch_size = 1;
    assert!(config.validate().is_ok());
}

#[test]
fn config_from_environment_values() {
    let config = ConnectorConfig::from_env_values(
        Some("http://danube:6650".to_string()),
        Some("env-connector".to_string()),
    )
    .unwrap();
    assert_eq!(config.danube_service_url, "http://danube:6650");
    assert_eq!(config.connector_name, "env-connector");
    assert_eq!(config.retry.max_backoff_ms, 30000);
    assert_eq!(config.processing.poll_interval_ms, 100);
    assert!(config.schemas.is_empty());

    match ConnectorConfig::from_env_values(None, Some("x".to_string())) {
        Err(ConnectorError::Configuration(m)) => assert_eq!(m, "DANUBE_SERVICE_URL is required"),
        other => panic!("unexpected {:?}", other.map(|c| c.connector_name)),
    }
    match ConnectorConfig::from_env_values(Some("u".to_string()), None) {
        Err(ConnectorError::Configuration(m)) => assert_eq!(m, "CONNECTOR_NAME is required"),
        other => panic!("unexpected {:?}", other.map(|c| c.connector_name)),
    }
}

#[test]
fn environment_values_override_mandatory_fields_only() {
    let mut config = ConnectorConfig::default();
    config.processing.batch_size = 7;
    config.apply_env_values(None, Some("renamed".to_string()));
    assert_eq!(config.danube_service_url, "http://localhost:6650");
    assert_eq!(config.connector_name, "renamed");
    assert_eq!(config.processing.batch_size, 7);

    config.apply_env_values(Some("http://other:1".to_string()), None);
    assert_eq!(config.danube_service_url, "http://other:1");
    assert_eq!(config.connector_name, "renamed");
}

#[test]
fn retry_strategy_follows_retry_settings() {
    let mut config = ConnectorConfig::default();
    config.retry = RetrySettings { max_retries: 4, retry_backoff_ms: 10, max_backoff_ms: 50 };
    let strategy = config.retry_strategy();
    assert_eq!(strategy.max_retries(), 4);
    assert_eq!(strategy.plain_backoff_ms(1), 10);
    assert_eq!(strategy.plain_backoff_ms(3), 40);
    assert_eq!(strategy.plain_backoff_ms(4), 50);
}

#[test]
fn test_programmatic_connector_config() {
    let config = ConnectorConfig {
        danube_service_url: "http://localhost:6650".to_string(),
        connector_name: "test-connector".to_string(),
        retry: RetrySettings { max_retries: 5, retry_backoff_ms: 2000, max_backoff_ms: 60000 },
        processing: ProcessingSettings {
            batch_size: 500,
            batch_timeout_ms: 2000,
            poll_interval_ms: 50,
            metrics_port: 9091,
            log_level: "debug".to_string(),
        },
        schemas: vec![],
    };

    assert_eq!(config.danube_service_url, "http://localhost:6650");
    assert_eq!(config.connector_name, "test-connector");
    assert_eq!(config.retry.max_retries, 5);
    assert_eq!(config.processing.batch_size, 500);
    assert_eq!(config.processing.metrics_port, 9091);
}

#[test]
fn test_programmatic_schema_config() {
    let schema_mappings = vec![
        SchemaMapping {
            topic: "/events/users".to_string(),
            subject: "user-events-v1".to_string(),
            schema_type: "json_schema".to_string(),
            schema_file: PathBuf::from("schemas/user.json"),
            version_strategy: VersionStrategy::Latest,
            auto_register: true,
        },
        SchemaMapping {
            topic: "/events/orders".to_string(),
            subject: "order-events-v2".to_string(),
            schema_type: "json_schema".to_string(),
            schema_file: PathBuf::from("schemas/order.json"),
            version_strategy: VersionStrategy::Pinned(3),
            auto_register: false,
        },
        SchemaMapping {
            topic: "/raw/telemetry".to_string(),
            subject: "telemetry-bytes".to_string(),
            schema_type: "bytes".to_string(),
            schema_file: PathBuf::from(""),
            version_strategy: VersionStrategy::Minimum(1),
            auto_register: true,
        },
    ];

    let config = ConnectorConfig {
        danube_service_url: "http://localhost:6650".to_string(),
        connector_name: "schema-test-connector".to_string(),
        retry: RetrySettings::default(),
        processing: ProcessingSettings::default(),
        schemas: schema_mappings.clone(),
    };

    assert_eq!(config.schemas.len(), 3);
    assert_eq!(config.schemas[0].topic, "/events/users");
    assert_eq!(config.schemas[0].subject, "user-events-v1");
    assert_eq!(config.schemas[0].schema_type, "json_schema");
    assert!(config.schemas[0].auto_register);
    assert!(matches!(config.schemas[0].version_strategy, VersionStrategy::Latest));
    assert_eq!(config.schemas[1].topic, "/events/orders");
    assert!(!config.schemas[1].auto_register);
    assert!(matches!(config.schemas[1].version_strategy, VersionStrategy::Pinned(3)));
    assert_eq!(config.schemas[2].schema_type, "bytes");
    assert!(matches!(config.schemas[2].version_strategy, VersionStrategy::Minimum(1)));
}

#[test]
fn test_programmatic_retry_settings() {
    let retry = RetrySettings { max_retries: 10, retry_backoff_ms: 500, max_backoff_ms: 120000 };

    assert_eq!(retry.max_retries, 10);
    assert_eq!(retry.retry_backoff_ms, 500);
    assert_eq!(retry.max_backoff_ms, 120000);

    let default_retry = RetrySettings::default();
    assert_eq!(default_retry.max_retries, 3);
    assert_eq!(default_retry.retry_backoff_ms, 1000);
    assert_eq!(default_retry.max_backoff_ms, 30000);
}

#[test]
fn test_programmatic_processing_settings() {
    let processing = ProcessingSettings {
        batch_size: 2000,
        batch_timeout_ms: 5000,
        poll_interval_ms: 200,
        metrics_port: 8080,
        log_level: "trace".to_string(),
    };

    assert_eq!(processing.batch_size, 2000);
    assert_eq!(processing.batch_timeout_ms, 5000);
    assert_eq!(processing.poll_interval_ms, 200);
    assert_eq!(processing.metrics_port, 8080);
    assert_eq!(processing.log_level, "trace");

    let default_processing = ProcessingSettings::default();
    assert_eq!(default_processing.batch_size, 1000);
    assert_eq!(default_processing.batch_timeout_ms, 1000);
    assert_eq!(default_processing.poll_interval_ms, 100);
    assert_eq!(default_processing.metrics_port, 9090);
    assert_eq!(default_processing.log_level, "info");
}

#[test]
fn test_subscription_type_variants() {
    let exclusive = SubscriptionType::Exclusive;
    let shared = SubscriptionType::Shared;
    let failover = SubscriptionType::FailOver;

    assert!(matches!(exclusive, SubscriptionType::Exclusive));
    assert!(matches!(shared, SubscriptionType::Shared));
    assert!(matches!(failover, SubscriptionType::FailOver));
}

#[test]
fn test_version_strategy_variants() {
    let latest = VersionStrategy::Latest;
    let pinned = VersionStrategy::Pinned(5);
    let minimum = VersionStrategy::Minimum(2);

    assert!(matches!(latest, VersionStrategy::Latest));

    if let VersionStrategy::Pinned(version) = pinned {
        assert_eq!(version, 5);
    } else {
        panic!("Expected Pinned variant");
    }

    if let VersionStrategy::Minimum(version) = minimum {
        assert_eq!(version, 2);
    } else {
        panic!("Expected Minimum variant");
    }
    assert_eq!(VersionStrategy::default(), VersionStrategy::Latest);
}

#[test]
fn test_full_connector_config_with_all_features() {
    let config = ConnectorConfig {
        danube_service_url: "http://danube-cluster:6650".to_string(),
        connector_name: "production-connector".to_string(),
        retry: RetrySettings { max_retries: 5, retry_backoff_ms: 2000, max_backoff_ms: 60000 },
        processing: ProcessingSettings {
            batch_size: 1000,
            batch_timeout_ms: 2000,
            poll_interval_ms: 100,
            metrics_port: 9090,
            log_level: "info".to_string(),
        },
        schemas: vec![
            SchemaMapping {
                topic: "/production/events".to_string(),
                subject: "prod-events-schema".to_string(),
                schema_type: "json_schema".to_string(),
                schema_file: PathBuf::from("schemas/production/events.json"),
                version_strategy: VersionStrategy::Pinned(5),
                auto_register: false,
            },
            SchemaMapping {
                topic: "/production/logs".to_string(),
                subject: "logs".to_string(),
                schema_type: "string".to_string(),
                schema_file: PathBuf::from(""),
                version_strategy: VersionStrategy::Latest,
                auto_register: true,
            },
        ],
    };

    assert_eq!(config.connector_name, "production-connector");
    assert_eq!(config.schemas.len(), 2);
    assert_eq!(config.retry.max_retries, 5);
    assert_eq!(config.processing.batch_size, 1000);

    let events_schema = &config.schemas[0];
    assert_eq!(events_schema.topic, "/production/events");
    assert_eq!(events_schema.subject, "prod-events-schema");
    assert!(!events_schema.auto_register);
}

#[test]
fn test_config_builder_pattern() {
    let mut config = ConnectorConfig {
        danube_service_url: "http://localhost:6650".to_string(),
        connector_name: "builder-test".to_string(),
        retry: RetrySettings::default(),
        processing: ProcessingSettings::default(),
        schemas: vec![],
    };

    config.schemas.push(SchemaMapping {
        topic: "/test/topic1".to_string(),
        subject: "topic1-schema".to_string(),
        schema_type: "json_schema".to_string(),
        schema_file: PathBuf::from("schema1.json"),
        version_strategy: VersionStrategy::Latest,
        auto_register: true,
    });

    config.schemas.push(SchemaMapping {
        topic: "/test/topic2".to_string(),
        subject: "topic2-schema".to_string(),
        schema_type: "string".to_string(),
        schema_file: PathBuf::from(""),
        version_strategy: VersionStrategy::Latest,
        auto_register: true,
    });

    assert_eq!(config.schemas.len(), 2);
    assert_eq!(config.schemas[0].topic, "/test/topic1");
    assert_eq!(config.schemas[1].topic, "/test/topic2");
}
