use danube_connect_core::runtime::sink::{
    batch_step, check_consumer_configs, enqueue_decoded, health_check_due, health_check_step, BatchStep,
};
use danube_connect_core::runtime::source::{
    check_producer_configs, commit_offset, missing_producer_error, source_loop_step, SourceLoopAction,
    SourceLoopEvent, prepare_payload, producer_plan,
    published_offset, publish_failure, record_topic_schema, registration_action,
    registry_schema_kind, schema_file_required, RegistrationAction, RegistrySchemaKind,
    TopicSchemas,
};
use danube_connect_core::{
    Batcher, CacheStats, ConnectorError, Offset, default_health_check_failure_threshold,
    default_health_check_interval_ms, HealthChecker, RetryConfig, RetryStrategy, HealthStatus, ProducerConfig, SchemaCache,
    SchemaInfo, SchemaMapping, SourceRecord, VersionStrategy,
};
use serde_json::Value;
use std::path::PathBuf;

fn mapping(topic: &str, schema_type: &str, auto_register: bool) -> SchemaMapping {
    SchemaMapping {
        topic: topic.to_string(),
        subject: format!("{}-value", topic.trim_start_matches('/')),
        schema_type: schema_type.to_string(),
        schema_file: PathBuf::from("schema.json"),
        auto_register,
        version_strategy: VersionStrategy::Minimum(2),
    }
}

fn schema_info(id: u64) -> SchemaInfo {
    SchemaInfo {
        schema_id: id,
        subject: "s".to_string(),
        version: 3,
        schema_type: "json".to_string(),
        schema_definition: vec![1, 2],
        fingerprint: "f".to_string(),
    }
}

#[test]
fn test_cache_stats_struct() {
    let stats = CacheStats { size: 10, capacity: 100 };

    assert_eq!(stats.size, 10);
    assert_eq!(stats.capacity, 100);
}

#[test]
fn schema_cache_returns_what_was_stored() {
    let mut cache = SchemaCache::new();
    assert!(cache.lookup(1).is_none());
    cache.store(1, schema_info(1));
    cache.store(2, schema_info(2));
    assert_eq!(cache.lookup(2).map(|s| s.schema_id), Some(2));
    assert_eq!(cache.len(), 2);
    assert_eq!(cache.stats().size, 2);
    assert!(cache.stats().capacity >= 2);
    let copy = cache.lookup(1).unwrap().duplicate();
    assert_eq!(copy.schema_definition, vec![1, 2]);
    cache.clear();
    assert_eq!(cache.len(), 0);
}

#[test]
fn empty_configuration_lists_are_refused() {
    match check_consumer_configs(&[]) {
        Err(ConnectorError::Configuration(m)) => {
            assert_eq!(m, "No consumer configurations provided by connector")
        }
        other => panic!("unexpected {:?}", other),
    }
    match check_producer_configs(&[]) {
        Err(ConnectorError::Configuration(m)) => {
            assert_eq!(m, "No producer configurations provided by connector")
        }
        other => panic!("unexpected {:?}", other),
    }
    assert!(check_producer_configs(&[ProducerConfig::new("/a", 0, false)]).is_ok());
}

#[test]
fn health_check_failures_stop_at_the_threshold() {
    let mut checker = HealthChecker::new(2);
    let failed: Result<(), ConnectorError> = Err(ConnectorError::retryable("down"));
    let verdict = health_check_step(&mut checker, &failed);
    assert!(verdict.healthy);
    assert!(verdict.outcome.is_ok());
    assert_eq!(checker.status(), HealthStatus::Degraded);
    let verdict = health_check_step(&mut checker, &failed);
    assert!(!verdict.healthy);
    match verdict.outcome {
        Err(ConnectorError::Fatal { message, .. }) => assert_eq!(
            message,
            "Connector health check failed 2 consecutive times: Retryable error: down"
        ),
        other => panic!("unexpected {:?}", other),
    }
    let verdict = health_check_step(&mut checker, &Ok(()));
    assert!(verdict.healthy && verdict.outcome.is_ok());
    assert_eq!(checker.consecutive_failures(), 0);
}

#[test]
fn schema_registration_decisions() {
    assert!(schema_file_required("JSON_SCHEMA"));
    assert!(schema_file_required("avro"));
    assert!(!schema_file_required("bytes"));
    assert_eq!(registry_schema_kind("String").unwrap(), RegistrySchemaKind::String);
    match registry_schema_kind("XML") {
        Err(ConnectorError::Configuration(m)) => assert_eq!(m, "Unsupported schema type: xml"),
        other => panic!("unexpected {:?}", other),
    }
    let auto = mapping("/events", "json_schema", true);
    assert_eq!(registration_action(&auto, true, "").unwrap(), RegistrationAction::UseExisting);
    assert_eq!(
        registration_action(&auto, false, "missing").unwrap(),
        RegistrationAction::Register(RegistrySchemaKind::JsonSchema)
    );
    let manual = mapping("/events", "json_schema", false);
    match registration_action(&manual, false, "not found") {
        Err(ConnectorError::Configuration(m)) => assert_eq!(
            m,
            "Schema 'events-value' not found and auto_register=false: not found"
        ),
        other => panic!("unexpected {:?}", other),
    }
}

#[test]
fn producer_plans_name_producers_and_bind_schemas() {
    let mut schemas = TopicSchemas::new();
    record_topic_schema(&mut schemas, &mapping("/default/events", "string", true));
    let config = ProducerConfig::new("/default/events", 3, true);
    let plan = producer_plan("my-connector", &config, &schemas);
    assert_eq!(plan.producer_name, "my-connector--default-events");
    assert_eq!(plan.partitions, Some(3));
    assert!(plan.reliable_dispatch);
    let binding = plan.schema.unwrap();
    assert_eq!(binding.subject, "default/events-value");
    assert_eq!(binding.version_strategy, VersionStrategy::Minimum(2));

    let other = producer_plan("c", &ProducerConfig::new("/x", 0, false), &schemas);
    assert_eq!(other.partitions, None);
    assert!(other.schema.is_none());
}

#[test]
fn payloads_follow_the_topic_schema() {
    let mut schemas = TopicSchemas::new();
    record_topic_schema(&mut schemas, &mapping("/logs", "string", true));
    let text = SourceRecord::from_string("/logs", "héllo");
    assert_eq!(prepare_payload(&schemas, &text).unwrap(), "héllo".as_bytes().to_vec());
    let other = SourceRecord::from_string("/other", "héllo");
    assert_eq!(prepare_payload(&schemas, &other).unwrap(), b"\"h\xc3\xa9llo\"".to_vec());
    let number = SourceRecord::new("/logs", Value::from(12));
    assert_eq!(prepare_payload(&schemas, &number).unwrap(), b"12".to_vec());
}

#[test]
fn publish_errors_and_offsets() {
    match missing_producer_error("/t") {
        ConnectorError::Fatal { message, source } => {
            assert_eq!(
                message,
                "No producer found for topic: /t. Ensure producer_configs() includes this topic."
            );
            assert!(source.is_none());
        }
        other => panic!("unexpected {:?}", other),
    }
    let e = publish_failure("broker gone");
    assert!(e.is_retryable());
    assert_eq!(e.to_display_string(), "Retryable error: Failed to publish batch");
    let o = published_offset("/t", 4);
    assert_eq!((o.partition.as_str(), o.value, o.metadata), ("/t", 4, None));
}

#[test]
fn batch_steps_acknowledge_skip_retry_or_stop() {
    let strategy = RetryStrategy::new(RetryConfig::new(2, 100, 1000).without_jitter());
    assert!(matches!(batch_step(&strategy, &Ok(()), 0), BatchStep::Acknowledge));
    let bad = Err(ConnectorError::invalid_data("bad record", vec![1, 2]));
    assert!(matches!(batch_step(&strategy, &bad, 0), BatchStep::Skip));
    let busy = Err(ConnectorError::retryable("busy"));
    match batch_step(&strategy, &busy, 1) {
        BatchStep::Retry { attempt, backoff_ms, backoff } => {
            assert_eq!((attempt, backoff_ms), (2, 200));
            assert_eq!(backoff, std::time::Duration::from_millis(200));
        }
        other => panic!("unexpected {:?}", other),
    }
    assert!(matches!(batch_step(&strategy, &busy, 2), BatchStep::Stop));
    let fatal = Err(ConnectorError::fatal("down"));
    assert!(matches!(batch_step(&strategy, &fatal, 0), BatchStep::Stop));
}

#[test]
fn source_loop_publishes_commits_and_sleeps() {
    assert!(matches!(source_loop_step(250, false, SourceLoopEvent::Polled(3)), SourceLoopAction::Publish));
    assert!(matches!(source_loop_step(250, false, SourceLoopEvent::Polled(0)), SourceLoopAction::Sleep { ms: 250 }));
    assert!(matches!(source_loop_step(250, false, SourceLoopEvent::PollFailed), SourceLoopAction::Sleep { ms: 1000 }));
    let offsets = vec![Offset::new("/t", 0), Offset::new("/t", 1)];
    match source_loop_step(250, false, SourceLoopEvent::Published(offsets)) {
        SourceLoopAction::Commit(o) => assert_eq!(o.iter().map(|x| x.value).collect::<Vec<_>>(), vec![0, 1]),
        other => panic!("unexpected {:?}", other),
    }
    assert!(matches!(source_loop_step(250, false, SourceLoopEvent::PublishFailed), SourceLoopAction::ReportPublishFailure));
    assert!(matches!(source_loop_step(250, true, SourceLoopEvent::Polled(3)), SourceLoopAction::Stop));
}

#[test]
fn committed_offsets_prefer_the_envelope() {
    let own = Offset::with_metadata("p-1", 42, "lsn");
    let o = commit_offset(Some(own), "/t", 7);
    assert_eq!((o.partition.as_str(), o.value, o.metadata.as_deref()), ("p-1", 42, Some("lsn")));
    let o = commit_offset(None, "/t", 7);
    assert_eq!((o.partition.as_str(), o.value, o.metadata), ("/t", 7, None));
}

#[test]
fn sink_loop_health_checks_and_decoding() {
    assert_eq!(default_health_check_interval_ms(), 30_000);
    assert_eq!(default_health_check_failure_threshold(), 3);
    let interval = std::time::Duration::from_secs(30);
    assert!(!health_check_due(&std::time::Duration::from_secs(29), &interval));
    assert!(health_check_due(&std::time::Duration::from_secs(30), &interval));

    let mut batch: Batcher<u32> = Batcher::new(10, std::time::Duration::from_secs(5));
    assert!(enqueue_decoded(&mut batch, Ok(1)).is_none());
    let skipped = enqueue_decoded(&mut batch, Err(ConnectorError::invalid_data("bad", vec![])));
    assert!(matches!(skipped, Some(ConnectorError::InvalidData { .. })));
    assert!(enqueue_decoded(&mut batch, Ok(2)).is_none());
    assert_eq!(batch.items(), &[1, 2]);
}
