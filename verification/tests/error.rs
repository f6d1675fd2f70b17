use danube_connect_core::ConnectorError;

#[test]
fn test_error_classification() {
    let retryable = ConnectorError::retryable("network timeout");
    assert!(retryable.is_retryable());
    assert!(!retryable.is_fatal());

    let fatal = ConnectorError::fatal("auth failed");
    assert!(!fatal.is_retryable());
    assert!(fatal.is_fatal());

    let invalid = ConnectorError::invalid_data("bad json", vec![1, 2, 3]);
    assert!(invalid.is_invalid_data());
}

#[test]
fn test_error_display() {
    let err = ConnectorError::retryable("test error");
    assert_eq!(err.to_display_string(), "Retryable error: test error");
}

#[test]
fn every_error_kind_has_its_display_prefix() {
    assert_eq!(ConnectorError::fatal("x").to_display_string(), "Fatal error: x");
    assert_eq!(ConnectorError::invalid_data("y", vec![]).to_display_string(), "Invalid data: y");
    assert_eq!(ConnectorError::config("z").to_display_string(), "Configuration error: z");
    assert_eq!(ConnectorError::Danube("d".to_string()).to_display_string(), "Danube error: d");
    assert_eq!(ConnectorError::Serialization("s".to_string()).to_display_string(), "Serialization error: s");
    assert_eq!(ConnectorError::Io("i".to_string()).to_display_string(), "I/O error: i");
}

#[test]
fn errors_keep_their_sources_and_payloads() {
    match ConnectorError::retryable_with_source("publish", "timed out") {
        ConnectorError::Retryable { message, source } => {
            assert_eq!(message, "publish");
            assert_eq!(source.as_deref(), Some("timed out"));
        }
        other => panic!("unexpected {:?}", other),
    }
    match ConnectorError::fatal_with_source("connect", "refused") {
        ConnectorError::Fatal { message, source } => {
            assert_eq!(message, "connect");
            assert_eq!(source.as_deref(), Some("refused"));
        }
        other => panic!("unexpected {:?}", other),
    }
    match ConnectorError::invalid_data("bad", vec![9, 8]) {
        ConnectorError::InvalidData { message, payload } => {
            assert_eq!(message, "bad");
            assert_eq!(payload, vec![9, 8]);
        }
        other => panic!("unexpected {:?}", other),
    }
    assert!(!ConnectorError::config("c").is_invalid_data());
}

#[test]
fn json_errors_become_serialization_errors() {
    let err = serde_json::from_str::<serde_json::Value>("{").unwrap_err();
    let text = err.to_string();
    match ConnectorError::from(err) {
        ConnectorError::Serialization(m) => assert_eq!(m, text),
        other => panic!("unexpected {:?}", other),
    }
}
